use hanoi_scores::score::{Score, Timestamp};
use hanoi_scores::wire::{creation_date_text, encode_score, encode_scores};

fn score_at_epoch(player: &str, n_turn: i32, median_time: i32, disks: i32) -> Score {
    Score {
        id: 1,
        player: player.to_string(),
        n_turn,
        median_time,
        disks,
        creation_date: Timestamp { secs: 0, nanos: 0 },
    }
}

#[test]
fn player_text_is_json_escaped() {
    let s = score_at_epoch("a\"b\\c\nd\u{1}", 0, -7, 3);
    assert_eq!(
        encode_score(&s),
        "{\"id\":1,\"player\":\"a\\\"b\\\\c\\nd\\u0001\",\"n_turn\":0,\"median_time\":-7,\"disks\":3,\"creation_date\":\"1970-01-01 00:00:00\"}"
    );
}

#[test]
fn empty_player_is_an_empty_json_string() {
    let s = score_at_epoch("", 1, 2, 3);
    assert_eq!(
        encode_score(&s),
        "{\"id\":1,\"player\":\"\",\"n_turn\":1,\"median_time\":2,\"disks\":3,\"creation_date\":\"1970-01-01 00:00:00\"}"
    );
}

#[test]
fn extreme_integers_are_rendered_exactly() {
    let s = score_at_epoch("x", i32::MIN, i32::MAX, 0);
    assert_eq!(
        encode_score(&s),
        "{\"id\":1,\"player\":\"x\",\"n_turn\":-2147483648,\"median_time\":2147483647,\"disks\":0,\"creation_date\":\"1970-01-01 00:00:00\"}"
    );
}

#[test]
fn creation_date_is_rendered_by_the_clock_not_echoed() {
    let t = Timestamp { secs: 340, nanos: 0 };
    assert_eq!(creation_date_text(&t), "1970-01-01 00:05:40");
    let with_fraction = Timestamp { secs: 0, nanos: 123_000_000 };
    assert_eq!(creation_date_text(&with_fraction), "1970-01-01 00:00:00.123");
}

#[test]
fn an_array_of_two_records_is_comma_separated() {
    let a = score_at_epoch("a", 1, 2, 3);
    let mut b = score_at_epoch("b", 4, 5, 6);
    b.id = 2;
    let one = encode_score(&a);
    let two = encode_score(&b);
    let both = vec![a, b];
    assert_eq!(encode_scores(&both), format!("[{},{}]", one, two));
}
