use suisai::models::thing::{RecordId, RecordKey};
use suisai::utils::directory::{delete_recursive, DeleteEvent, DeleteStep};

fn d(k: &str) -> RecordId {
    RecordId { table: "directory".to_string(), key: RecordKey::Text(k.to_string()) }
}

#[test]
fn a_leaf_directory_is_listed_then_deleted() {
    let (m, s) = delete_recursive(d("root"));
    assert_eq!(s, DeleteStep::ListSubdirectories(d("root")));
    let (m, s) = m.step(DeleteEvent::Subdirectories(vec![]));
    assert_eq!(s, DeleteStep::Delete(d("root")));
    let (m, s) = m.step(DeleteEvent::Deleted);
    assert_eq!(s, DeleteStep::Finish(Ok(69)));
    assert!(!m.accepts(&DeleteEvent::Deleted));
}

#[test]
fn subdirectories_are_deleted_first_in_order() {
    // root has a and b; a has c.
    let (m, s) = delete_recursive(d("root"));
    assert_eq!(s, DeleteStep::ListSubdirectories(d("root")));
    let (m, s) = m.step(DeleteEvent::Subdirectories(vec![d("a"), d("b")]));
    assert_eq!(s, DeleteStep::ListSubdirectories(d("a")));
    let (m, s) = m.step(DeleteEvent::Subdirectories(vec![d("c")]));
    assert_eq!(s, DeleteStep::ListSubdirectories(d("c")));
    let (m, s) = m.step(DeleteEvent::Subdirectories(vec![]));
    assert_eq!(s, DeleteStep::Delete(d("c")));
    let (m, s) = m.step(DeleteEvent::Deleted);
    assert_eq!(s, DeleteStep::Delete(d("a")));
    let (m, s) = m.step(DeleteEvent::Deleted);
    assert_eq!(s, DeleteStep::ListSubdirectories(d("b")));
    let (m, s) = m.step(DeleteEvent::Subdirectories(vec![]));
    assert_eq!(s, DeleteStep::Delete(d("b")));
    let (m, s) = m.step(DeleteEvent::Deleted);
    assert_eq!(s, DeleteStep::Delete(d("root")));
    let (_, s) = m.step(DeleteEvent::Deleted);
    assert_eq!(s, DeleteStep::Finish(Ok(69)));
}

#[test]
fn a_failure_stops_the_whole_deletion() {
    let (m, _) = delete_recursive(d("root"));
    let (m, _) = m.step(DeleteEvent::Subdirectories(vec![d("a")]));
    let (m, s) = m.step(DeleteEvent::Failed("connection lost".to_string()));
    assert_eq!(s, DeleteStep::Finish(Err("connection lost".to_string())));
    assert!(!m.accepts(&DeleteEvent::Deleted));
    assert!(!m.accepts(&DeleteEvent::Failed("again".to_string())));
}

#[test]
fn only_the_awaited_answer_is_accepted() {
    let (m, _) = delete_recursive(d("root"));
    assert!(m.accepts(&DeleteEvent::Subdirectories(vec![])));
    assert!(!m.accepts(&DeleteEvent::Deleted));
    let (m, _) = m.step(DeleteEvent::Subdirectories(vec![]));
    assert!(m.accepts(&DeleteEvent::Deleted));
    assert!(!m.accepts(&DeleteEvent::Subdirectories(vec![])));
}

#[test]
fn every_listed_subdirectory_is_deleted_before_the_end() {
    // root lists a, b, c; none of them has subdirectories.
    let (mut m, mut s) = delete_recursive(d("root"));
    let mut deleted = Vec::new();
    let mut listed_root = false;
    loop {
        let e = match s {
            DeleteStep::Finish(r) => {
                assert_eq!(r, Ok(69));
                break;
            },
            DeleteStep::ListSubdirectories(x) => {
                if x == d("root") && !listed_root {
                    listed_root = true;
                    DeleteEvent::Subdirectories(vec![d("a"), d("b"), d("c")])
                } else {
                    DeleteEvent::Subdirectories(vec![])
                }
            },
            DeleteStep::Delete(x) => {
                deleted.push(x);
                DeleteEvent::Deleted
            },
        };
        assert!(m.accepts(&e));
        let (m2, s2) = m.step(e);
        m = m2;
        s = s2;
    }
    assert_eq!(deleted, vec![d("a"), d("b"), d("c"), d("root")]);
}
