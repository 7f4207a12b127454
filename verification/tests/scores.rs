use hanoi_scores::handler::{create_response, handle_create, handle_list, list_response};
use hanoi_scores::score::{NewScore, ScoreTable, Timestamp};
use hanoi_scores::wire::creation_date_text;

fn ada_payload() -> NewScore {
    NewScore { player: "ada".to_string(), n_turn: 12, disks: 7, median_time: 340 }
}

fn epoch() -> Timestamp {
    Timestamp { secs: 0, nanos: 0 }
}

#[test]
fn scenario_create_then_list() {
    let mut t = ScoreTable::new();
    let r = handle_create(&mut t, Ok(ada_payload()), Timestamp { secs: 340, nanos: 0 });
    assert_eq!(r.status, 200);
    let expected = "{\"id\":1,\"player\":\"ada\",\"n_turn\":12,\"median_time\":340,\"disks\":7,\"creation_date\":\"1970-01-01 00:05:40\"}";
    assert_eq!(r.body, expected);
    let l = handle_list(&t);
    assert_eq!(l.status, 200);
    assert_eq!(l.body, format!("[{}]", expected));
}

#[test]
fn create_reflects_payload() {
    let mut t = ScoreTable::new();
    let s = t.insert(ada_payload(), epoch());
    assert_eq!(s.player, "ada");
    assert_eq!(s.n_turn, 12);
    assert_eq!(s.disks, 7);
    assert_eq!(s.median_time, 340);
    assert_eq!(s.id, 1);
    assert!(!creation_date_text(&s.creation_date).is_empty());
}

#[test]
fn identical_creates_get_distinct_ids() {
    let mut t = ScoreTable::new();
    let s1 = t.insert(ada_payload(), epoch());
    let s2 = t.insert(ada_payload(), epoch());
    assert_ne!(s1.id, s2.id);
    assert_eq!(s1.id, 1);
    assert_eq!(s2.id, 2);
}

#[test]
fn list_after_zero_creates_is_empty() {
    let t = ScoreTable::new();
    assert_eq!(t.list().len(), 0);
    assert_eq!(handle_list(&t).body, "[]");
}

#[test]
fn list_returns_every_row_up_to_the_page_limit() {
    let mut t = ScoreTable::new();
    for _ in 0..5 {
        t.insert(ada_payload(), epoch());
    }
    assert_eq!(t.list().len(), 5);
}

#[test]
fn list_is_cut_off_at_the_page_limit() {
    let mut t = ScoreTable::new();
    for _ in 0..25 {
        t.insert(ada_payload(), epoch());
    }
    let rows = t.list();
    assert_eq!(rows.len(), 20);
    assert_eq!(rows[0].id, 1);
    assert_eq!(rows[19].id, 20);
}

#[test]
fn rejected_payload_persists_no_row() {
    let mut t = ScoreTable::new();
    t.insert(ada_payload(), epoch());
    let before = t.count();
    let r = handle_create(&mut t, Err("missing field `player`".to_string()), epoch());
    assert_eq!(r.status, 400);
    assert_eq!(r.body, "missing field `player`");
    assert_eq!(t.count(), before);
    assert_eq!(t.list().len(), 1);
}

#[test]
fn storage_failure_becomes_a_server_error() {
    let r = create_response(Err("connection refused".to_string()));
    assert_eq!(r.status, 500);
    assert_eq!(r.body, "connection refused");
    let r = list_response(Err("query failed".to_string()));
    assert_eq!(r.status, 500);
    assert_eq!(r.body, "query failed");
}

#[test]
fn storage_results_are_encoded_in_the_responses() {
    let mut t = ScoreTable::new();
    let s = t.insert(ada_payload(), epoch());
    let single = create_response(Ok(s));
    assert_eq!(single.status, 200);
    assert!(single.body.starts_with("{\"id\":1,"));
    let many = list_response(Ok(t.list()));
    assert_eq!(many.status, 200);
    assert_eq!(many.body, format!("[{}]", single.body));
}

#[test]
fn timestamp_validity_matches_the_accepted_range() {
    assert!(Timestamp { secs: 0, nanos: 0 }.valid());
    assert!(Timestamp { secs: 253_402_300_799, nanos: 999_999_999 }.valid());
    assert!(!Timestamp { secs: -1, nanos: 0 }.valid());
    assert!(!Timestamp { secs: 253_402_300_800, nanos: 0 }.valid());
    assert!(!Timestamp { secs: 0, nanos: 1_000_000_000 }.valid());
}
