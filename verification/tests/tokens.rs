use suisai::models::auth::JwtPayload;
use suisai::models::thing::{RecordId, RecordKey};
use suisai::text::split_field;
use suisai::utils::auth::{
    authenticate, extract_jwt_header, string_to_thing, AuthEvent, AuthStep, Authentication,
};

const HEADER: &str = "eyJhbGciOiJIUzUxMiJ9";
const PAYLOAD: &str = "eyJOUyI6InRlc3QiLCJEQiI6InRlc3QiLCJJRCI6InVzZXI6YWJjIn0";
const CLAIMS: &str = "{\"NS\":\"test\",\"DB\":\"test\",\"ID\":\"user:abc\"}";

fn token() -> String {
    format!("{}.{}.signature", HEADER, PAYLOAD)
}

fn text_id(table: &str, key: &str) -> RecordId {
    RecordId { table: table.to_string(), key: RecordKey::Text(key.to_string()) }
}

#[test]
fn split_field_takes_the_nth_part() {
    assert_eq!(split_field("a.b.c", '.', 0), Some("a".to_string()));
    assert_eq!(split_field("a.b.c", '.', 1), Some("b".to_string()));
    assert_eq!(split_field("a.b.c", '.', 2), Some("c".to_string()));
    assert_eq!(split_field("a.b.c", '.', 3), None);
}

#[test]
fn split_field_keeps_empty_parts() {
    assert_eq!(split_field("", '.', 0), Some(String::new()));
    assert_eq!(split_field("", '.', 1), None);
    assert_eq!(split_field(".", '.', 0), Some(String::new()));
    assert_eq!(split_field(".", '.', 1), Some(String::new()));
    assert_eq!(split_field("a..b", '.', 1), Some(String::new()));
    assert_eq!(split_field("a..b", '.', 2), Some("b".to_string()));
}

#[test]
fn split_field_handles_multibyte_text() {
    assert_eq!(split_field("水彩:写真", ':', 1), Some("写真".to_string()));
    assert_eq!(split_field("水彩:写真", ':', 0), Some("水彩".to_string()));
}

#[test]
fn extract_jwt_header_decodes_the_payload_segment() {
    assert_eq!(extract_jwt_header(&token()), Ok(CLAIMS.to_string()));
}

#[test]
fn extract_jwt_header_takes_the_rest_when_there_is_no_signature() {
    let t = format!("{}.{}", HEADER, PAYLOAD);
    assert_eq!(extract_jwt_header(&t), Ok(CLAIMS.to_string()));
}

#[test]
fn extract_jwt_header_reports_invalid_base64() {
    assert_eq!(extract_jwt_header("x.!!.y"), Err("Invalid byte 33, offset 0.".to_string()));
}

#[test]
fn extract_jwt_header_reports_a_six_bit_remainder() {
    assert_eq!(
        extract_jwt_header("x.aGk=A.y"),
        Err("Encoded text cannot have a 6-bit remainder.".to_string())
    );
    assert_eq!(
        extract_jwt_header("x.a.y"),
        Err("Encoded text cannot have a 6-bit remainder.".to_string())
    );
}

#[test]
fn extract_jwt_header_rejects_padding() {
    assert_eq!(extract_jwt_header("x.aGk=.y"), Err("Invalid padding".to_string()));
    assert_eq!(extract_jwt_header("x.aGk.y"), Ok("hi".to_string()));
}

#[test]
fn extract_jwt_header_reports_invalid_utf8() {
    assert_eq!(
        extract_jwt_header("x./w.y"),
        Err("invalid utf-8 sequence of 1 bytes from index 0".to_string())
    );
}

#[test]
fn extract_jwt_header_of_an_empty_payload_is_empty() {
    assert_eq!(extract_jwt_header("x..y"), Ok(String::new()));
}

#[test]
fn string_to_thing_reads_table_and_key() {
    assert_eq!(string_to_thing("user:abc".to_string()), text_id("user", "abc"));
}

#[test]
fn string_to_thing_ignores_further_parts() {
    assert_eq!(string_to_thing("a:b:c".to_string()), text_id("a", "b"));
    assert_eq!(string_to_thing(":".to_string()), text_id("", ""));
}

#[test]
fn authentication_succeeds_with_the_id_claim() {
    let (state, step) = authenticate(token());
    assert_eq!(step, AuthStep::Authenticate { token: token() });
    assert!(state.accepts(&AuthEvent::Done));
    let (state, step) = state.step(AuthEvent::Done);
    assert_eq!(state, Authentication::Decoding);
    assert_eq!(step, AuthStep::DecodeClaims { json: CLAIMS.to_string() });
    let claims = JwtPayload { ns: "test".to_string(), db: "test".to_string(), id: "user:abc".to_string() };
    let (state, step) = state.step(AuthEvent::Claims(claims));
    assert_eq!(step, AuthStep::UseDatabase { ns: "test".to_string(), db: "test".to_string() });
    let (state, step) = state.step(AuthEvent::Done);
    assert_eq!(state, Authentication::Finished);
    assert_eq!(step, AuthStep::Finish(Ok(text_id("user", "abc"))));
    assert!(!state.accepts(&AuthEvent::Done));
}

#[test]
fn authentication_fails_when_the_database_refuses() {
    let (state, _) = authenticate(token());
    let (state, step) = state.step(AuthEvent::Failed("There was a problem with authentication".to_string()));
    assert_eq!(state, Authentication::Finished);
    assert_eq!(step, AuthStep::Finish(Err("There was a problem with authentication".to_string())));
}

#[test]
fn authentication_fails_on_a_bad_payload() {
    let (state, _) = authenticate("x.!!.y".to_string());
    let (state, step) = state.step(AuthEvent::Done);
    assert_eq!(state, Authentication::Finished);
    assert_eq!(step, AuthStep::Finish(Err("Invalid byte 33, offset 0.".to_string())));
}

#[test]
fn authentication_fails_when_the_claims_do_not_parse() {
    let (state, _) = authenticate(token());
    let (state, _) = state.step(AuthEvent::Done);
    let (state, step) = state.step(AuthEvent::Failed("missing field `NS`".to_string()));
    assert_eq!(state, Authentication::Finished);
    assert_eq!(step, AuthStep::Finish(Err("missing field `NS`".to_string())));
}

#[test]
fn authentication_does_not_admit_what_the_service_gives_up_on() {
    let (state, _) = authenticate("no-dots".to_string());
    assert!(!state.accepts(&AuthEvent::Done));
    assert!(state.accepts(&AuthEvent::Failed("x".to_string())));
    let selecting = Authentication::Selecting { user: "nocolon".to_string() };
    assert!(!selecting.accepts(&AuthEvent::Done));
    let decoding = Authentication::Decoding;
    assert!(!decoding.accepts(&AuthEvent::Done));
}

#[test]
fn extract_jwt_header_decodes_the_bytes_of_the_segment() {
    assert_eq!(extract_jwt_header("x.é.y"), Err("Invalid byte 195, offset 0.".to_string()));
}

#[test]
fn a_record_id_written_as_text_reads_back() {
    let written = format!("{}:{}", "album", "xyz");
    assert_eq!(string_to_thing(written), text_id("album", "xyz"));
}
