//! Session tokens: reading the claims of a token, reading a record id from its
//! text form, and the steps that authenticate a request.

use vstd::prelude::*;
use vstd::utf8::{decode_utf8, encode_utf8, valid_utf8};
use base64::Engine;
use crate::models::auth::JwtPayload;
use crate::models::thing::{RecordId, RecordKey};
use crate::text::{free_of, lemma_split_join, join_with, split_field, split_on};

verus! {

/// What `base64::engine::general_purpose::STANDARD_NO_PAD.decode` gives for
/// the input bytes: the decoded bytes, or the text of the `DecodeError`.
pub uninterp spec fn base64_no_pad_decode(input: Seq<u8>) -> Result<Seq<u8>, Seq<char>>;

/// The text of the `Utf8Error` that `std::str::from_utf8` reports for bytes that
/// are not valid UTF-8.
pub uninterp spec fn utf8_error_message(bytes: Seq<u8>) -> Seq<char>;

/// Calls `STANDARD_NO_PAD.decode` of the `base64` crate (standard alphabet, no
/// padding allowed). Trusted: the result, with the error turned into its text,
/// is `base64_no_pad_decode` of the input.
#[verifier::external_body]
fn decode_base64_no_pad(input: &[u8]) -> (r: Result<Vec<u8>, String>)
    ensures
        match r {
            Ok(v) => base64_no_pad_decode(input@) == Ok::<Seq<u8>, Seq<char>>(v@),
            Err(m) => base64_no_pad_decode(input@) == Err::<Seq<u8>, Seq<char>>(m@),
        },
{
    match base64::engine::general_purpose::STANDARD_NO_PAD.decode(input) {
        Ok(v) => Ok(v),
        Err(e) => Err(e.to_string()),
    }
}

/// Calls `std::str::from_utf8`. Trusted: as its documentation says, it succeeds
/// exactly when the bytes are valid UTF-8, and the text then has exactly these
/// bytes; the error is turned into its text, named `utf8_error_message`.
#[verifier::external_body]
fn utf8_to_string(bytes: &[u8]) -> (r: Result<String, String>)
    ensures
        r is Ok <==> valid_utf8(bytes@),
        r matches Ok(s) ==> encode_utf8(s@) == bytes@,
        r matches Err(m) ==> m@ == utf8_error_message(bytes@),
{
    match std::str::from_utf8(bytes) {
        Ok(s) => Ok(s.to_owned()),
        Err(e) => Err(e.to_string()),
    }
}

/// The payload segment of a token: the second of its `.`-separated parts.
pub open spec fn payload_segment(token: Seq<char>) -> Seq<char> {
    split_on(token, '.')[1]
}

/// The claims text carried by a payload segment: the segment base64-decoded
/// (standard alphabet, no padding) and read as UTF-8; or the text of the first
/// error.
pub open spec fn segment_claims(segment: Seq<char>) -> Result<Seq<char>, Seq<char>> {
    match base64_no_pad_decode(encode_utf8(segment)) {
        Err(m) => Err(m),
        Ok(bytes) => if valid_utf8(bytes) {
            Ok(decode_utf8(bytes))
        } else {
            Err(utf8_error_message(bytes))
        },
    }
}

/// The claims text of a token: that of its payload segment.
pub open spec fn claims_text(token: Seq<char>) -> Result<Seq<char>, Seq<char>> {
    segment_claims(payload_segment(token))
}

/// A token has a payload segment when it holds at least one `.`.
pub open spec fn has_payload_segment(token: Seq<char>) -> bool {
    split_on(token, '.').len() >= 2
}

/// The claims of a session token, as JSON text: the payload segment (the part
/// between the first and the second `.`) decoded from base64 and read as UTF-8.
/// The JSON text is deserialised into a [`JwtPayload`] by the caller.
pub fn extract_jwt_header(token: &str) -> (r: Result<String, String>)
    requires
        has_payload_segment(token@),
    ensures
        match r {
            Ok(s) => claims_text(token@) == Ok::<Seq<char>, Seq<char>>(s@),
            Err(m) => claims_text(token@) == Err::<Seq<char>, Seq<char>>(m@),
        },
{
    let segment = split_field(token, '.', 1).unwrap();
    let decoded = match decode_base64_no_pad(segment.as_str().as_bytes()) {
        Ok(v) => v,
        Err(m) => {
            return Err(m);
        },
    };
    let text = utf8_to_string(decoded.as_slice());
    proof {
        if let Ok(ref s) = text {
            vstd::utf8::encode_utf8_decode_utf8(s@);
        }
    }
    text
}

/// The table and the key of a record id written as `table:key`: the first two
/// of its `:`-separated parts.
pub open spec fn thing_parts(id: Seq<char>) -> (Seq<char>, Seq<char>) {
    (split_on(id, ':')[0], split_on(id, ':')[1])
}

/// The record id written as `table:key` (any further `:`-separated parts are
/// ignored); the key is a text key.
pub fn string_to_thing(id_str: String) -> (r: RecordId)
    requires
        split_on(id_str@, ':').len() >= 2,
    ensures
        r.table@ == thing_parts(id_str@).0,
        r.key matches RecordKey::Text(k) && k@ == thing_parts(id_str@).1,
{
    proof {
        crate::text::lemma_split_nonempty(id_str@, ':');
    }
    let table = split_field(id_str.as_str(), ':', 0).unwrap();
    let key = split_field(id_str.as_str(), ':', 1).unwrap();
    RecordId { table, key: RecordKey::Text(key) }
}

/// Writing a record id as `table:key` and reading it back gives the table and
/// the key, when neither holds a `:`.
pub proof fn law_thing_text_round_trip(table: Seq<char>, key: Seq<char>)
    requires
        free_of(table, ':'),
        free_of(key, ':'),
    ensures
        split_on(table + seq![':'] + key, ':').len() >= 2,
        thing_parts(table + seq![':'] + key) == (table, key),
{
    let fields = seq![table, key];
    assert forall|i: int| 0 <= i < fields.len() implies free_of(#[trigger] fields[i], ':') by {}
    lemma_split_join(fields, ':');
    assert(fields.drop_first() =~= seq![key]);
    assert(join_with(fields.drop_first(), ':') == key);
    assert(join_with(fields, ':') == table + seq![':'] + key);
}

/// A token made of a header, a payload and a signature, joined with `.`, has
/// the payload as its payload segment, when none of the three holds a `.`: its
/// claims are those of the payload, whatever the header and the signature.
pub proof fn law_token_payload_segment(header: Seq<char>, payload: Seq<char>, signature: Seq<char>)
    requires
        free_of(header, '.'),
        free_of(payload, '.'),
        free_of(signature, '.'),
    ensures
        has_payload_segment(header + seq!['.'] + payload + seq!['.'] + signature),
        payload_segment(header + seq!['.'] + payload + seq!['.'] + signature) == payload,
        claims_text(header + seq!['.'] + payload + seq!['.'] + signature) == segment_claims(payload),
{
    let fields = seq![header, payload, signature];
    assert forall|i: int| 0 <= i < fields.len() implies free_of(#[trigger] fields[i], '.') by {}
    lemma_split_join(fields, '.');
    let rest = fields.drop_first();
    assert(rest =~= seq![payload, signature]);
    assert(rest.drop_first() =~= seq![signature]);
    assert(join_with(rest.drop_first(), '.') == signature);
    assert(join_with(rest, '.') == payload + seq!['.'] + signature);
    assert(join_with(fields, '.') =~= header + seq!['.'] + payload + seq!['.'] + signature);
}


/// What authenticating a request asks its driver to do next.
#[derive(Debug, PartialEq, Eq)]
pub enum AuthStep {
    /// Have the database check the token and take it for the session.
    Authenticate { token: String },
    /// Deserialise the claims, given as JSON text, into a [`JwtPayload`].
    DecodeClaims { json: String },
    /// Switch the session to this namespace and database.
    UseDatabase { ns: String, db: String },
    /// Authentication is over: the user's record id, or the error's text.
    Finish(Result<RecordId, String>),
}

/// What the driver reports back after doing the step that was asked for.
#[derive(Debug, PartialEq, Eq)]
pub enum AuthEvent {
    /// The step succeeded.
    Done,
    /// The claims were deserialised.
    Claims(JwtPayload),
    /// The step failed, with the error's text.
    Failed(String),
}

/// Where authenticating a request stands.
#[derive(Debug, PartialEq, Eq)]
pub enum Authentication {
    /// The database is checking the token.
    Verifying { token: String },
    /// The claims are being deserialised.
    Decoding,
    /// The session is switching to the user's database; `user` is the ID claim.
    Selecting { user: String },
    /// Authentication is over.
    Finished,
}

/// Authenticating the request that carries `token`: the database checks the
/// token first.
pub fn authenticate(token: String) -> (r: (Authentication, AuthStep))
    ensures
        r.0 == (Authentication::Verifying { token }),
        r.1 == (AuthStep::Authenticate { token }),
{
    let t = token.clone();
    (Authentication::Verifying { token }, AuthStep::Authenticate { token: t })
}

impl Authentication {
    /// The events that can answer the step last asked for, leaving out those on
    /// which the service gives up without an answer: a token that the database
    /// accepted but that has no payload segment, or an ID claim that is not of
    /// the form `table:key`.
    pub open spec fn admits(&self, e: &AuthEvent) -> bool {
        match (self, e) {
            (_, AuthEvent::Failed(_)) => !(self is Finished),
            (Authentication::Verifying { token }, AuthEvent::Done) => has_payload_segment(token@),
            (Authentication::Decoding, AuthEvent::Claims(_)) => true,
            (Authentication::Selecting { user }, AuthEvent::Done) => split_on(user@, ':').len() >= 2,
            _ => false,
        }
    }

    /// Whether `e` is admitted (see [`Authentication::admits`]).
    pub fn accepts(&self, e: &AuthEvent) -> (b: bool)
        ensures
            b == self.admits(e),
    {
        match (self, e) {
            (Authentication::Finished, _) => false,
            (_, AuthEvent::Failed(_)) => true,
            (Authentication::Verifying { token }, AuthEvent::Done) => {
                proof {
                    crate::text::lemma_split_nonempty(token@, '.');
                }
                split_field(token.as_str(), '.', 1).is_some()
            },
            (Authentication::Decoding, AuthEvent::Claims(_)) => true,
            (Authentication::Selecting { user }, AuthEvent::Done) => {
                split_field(user.as_str(), ':', 1).is_some()
            },
            _ => false,
        }
    }

    /// The next step, given how the last one ended. Any failure ends
    /// authentication with the failure's text. Once the database has accepted
    /// the token, its claims are read from the token itself; the session then
    /// switches to the namespace and database of the claims, and the user is
    /// the record id in the ID claim.
    pub fn step(self, e: AuthEvent) -> (r: (Authentication, AuthStep))
        requires
            self.admits(&e),
        ensures
            match (self, e) {
                (_, AuthEvent::Failed(m)) => r == (Authentication::Finished, AuthStep::Finish(Err(m))),
                (Authentication::Verifying { token }, _) => match claims_text(token@) {
                    Ok(json) => {
                        &&& r.0 == Authentication::Decoding
                        &&& r.1 matches AuthStep::DecodeClaims { json: j } && j@ == json
                    },
                    Err(m) => {
                        &&& r.0 == Authentication::Finished
                        &&& r.1 matches AuthStep::Finish(Err(x)) && x@ == m
                    },
                },
                (Authentication::Decoding, AuthEvent::Claims(p)) => r == (
                    Authentication::Selecting { user: p.id },
                    AuthStep::UseDatabase { ns: p.ns, db: p.db },
                ),
                (Authentication::Selecting { user }, _) => {
                    &&& r.0 == Authentication::Finished
                    &&& r.1 matches AuthStep::Finish(Ok(id))
                    &&& id.table@ == thing_parts(user@).0
                    &&& id.key matches RecordKey::Text(k) && k@ == thing_parts(user@).1
                },
                _ => false,
            },
    {
        match (self, e) {
            (_, AuthEvent::Failed(m)) => (Authentication::Finished, AuthStep::Finish(Err(m))),
            (Authentication::Verifying { token }, _) => match extract_jwt_header(token.as_str()) {
                Ok(json) => (Authentication::Decoding, AuthStep::DecodeClaims { json }),
                Err(m) => (Authentication::Finished, AuthStep::Finish(Err(m))),
            },
            (Authentication::Decoding, AuthEvent::Claims(p)) => (
                Authentication::Selecting { user: p.id },
                AuthStep::UseDatabase { ns: p.ns, db: p.db },
            ),
            (Authentication::Selecting { user }, _) => (
                Authentication::Finished,
                AuthStep::Finish(Ok(string_to_thing(user))),
            ),
            (_, _) => vstd::pervasive::unreached(),
        }
    }
}

/// The claims are the whole decoded payload: whenever the payload segment
/// decodes to bytes that are valid UTF-8, the claims text is exactly those
/// bytes read as text (nothing cut, nothing added); a decoding error is the
/// error, and invalid UTF-8 is reported as such.
pub proof fn law_claims_are_the_whole_payload(segment: Seq<char>, bytes: Seq<u8>, m: Seq<char>)
    ensures
        (base64_no_pad_decode(encode_utf8(segment)) == Ok::<Seq<u8>, Seq<char>>(bytes) && valid_utf8(bytes))
            ==> (segment_claims(segment) matches Ok(c) && encode_utf8(c) == bytes),
        base64_no_pad_decode(encode_utf8(segment)) == Err::<Seq<u8>, Seq<char>>(m) ==> segment_claims(segment)
            == Err::<Seq<char>, Seq<char>>(m),
        (base64_no_pad_decode(encode_utf8(segment)) == Ok::<Seq<u8>, Seq<char>>(bytes) && !valid_utf8(bytes))
            ==> segment_claims(segment) == Err::<Seq<char>, Seq<char>>(utf8_error_message(bytes)),
{
    if base64_no_pad_decode(encode_utf8(segment)) == Ok::<Seq<u8>, Seq<char>>(bytes) && valid_utf8(bytes) {
        vstd::utf8::decode_utf8_encode_utf8(bytes);
    }
}

/// A token of two or three `.`-separated parts, the second of which holds no
/// `.`, has that part as its payload segment, and its acceptance by the
/// database is admitted.
pub proof fn law_token_parts_admitted(token: String, header: Seq<char>, payload: Seq<char>, rest: Seq<Seq<char>>)
    requires
        free_of(header, '.'),
        free_of(payload, '.'),
        rest.len() <= 1,
        forall|i: int| 0 <= i < rest.len() ==> free_of(#[trigger] rest[i], '.'),
        token@ == join_with(seq![header, payload] + rest, '.'),
    ensures
        payload_segment(token@) == payload,
        (Authentication::Verifying { token }).admits(&AuthEvent::Done),
{
    let fields = seq![header, payload] + rest;
    assert forall|i: int| 0 <= i < fields.len() implies free_of(#[trigger] fields[i], '.') by {
        if i >= 2 {
            assert(fields[i] == rest[i - 2]);
        }
    }
    lemma_split_join(fields, '.');
}

/// The steps of authentication admit exactly these events: a failure at any
/// time until it is over; the database's acceptance of a token with a payload
/// segment; any claims, once the token is being decoded; the switch of
/// database when the ID claim is of the form `table:key`; nothing once over.
pub proof fn law_authentication_admits(
    token: String,
    user: String,
    claims: JwtPayload,
    m: String,
    table: Seq<char>,
    key: Seq<char>,
)
    ensures
        (Authentication::Verifying { token }).admits(&AuthEvent::Failed(m)),
        (Authentication::Verifying { token }).admits(&AuthEvent::Done) <==> split_on(token@, '.').len() >= 2,
        Authentication::Decoding.admits(&AuthEvent::Claims(claims)),
        Authentication::Decoding.admits(&AuthEvent::Failed(m)),
        !Authentication::Decoding.admits(&AuthEvent::Done),
        (Authentication::Selecting { user }).admits(&AuthEvent::Failed(m)),
        (Authentication::Selecting { user }).admits(&AuthEvent::Done) <==> split_on(user@, ':').len() >= 2,
        (free_of(table, ':') && free_of(key, ':') && user@ == table + seq![':'] + key) ==> (
        Authentication::Selecting { user }).admits(&AuthEvent::Done),
        !Authentication::Finished.admits(&AuthEvent::Done),
        !Authentication::Finished.admits(&AuthEvent::Failed(m)),
        !Authentication::Finished.admits(&AuthEvent::Claims(claims)),
{
    if free_of(table, ':') && free_of(key, ':') && user@ == table + seq![':'] + key {
        law_thing_text_round_trip(table, key);
    }
}

} // verus!
