use flashcards::instant::{Timestamp, NANOS_PER_DAY};
use flashcards::scheduler::{Leitner, Rating, Scheduler, BOX_COUNT};

/// A fixed instant — the core reads no clock, so tests pin their own.
fn now() -> Timestamp {
    // 2026-01-01T12:00:00Z
    Timestamp { unix_nanos: 1_767_268_800 * 1_000_000_000 }
}

fn plus_days(t: Timestamp, days: i128) -> Timestamp {
    Timestamp { unix_nanos: t.unix_nanos + days * NANOS_PER_DAY }
}

fn box_of(state: &str) -> u8 {
    let value: serde_json::Value = serde_json::from_str(state).unwrap();
    u8::try_from(value["box"].as_u64().unwrap()).unwrap()
}

#[test]
fn new_card_starts_in_box_1_due_immediately() {
    let start = Leitner.initial_state(now());
    assert_eq!(box_of(&start.state), 1);
    assert_eq!(start.due_at, now());
}

#[test]
fn pass_promotes_one_box_per_review_up_to_and_including_the_cap() {
    let mut state = Leitner.initial_state(now()).state;
    for expected in [2, 3, 4, 5, 5] {
        let next = Leitner.on_review(&state, Rating::Pass, now()).unwrap();
        assert_eq!(box_of(&next.state), expected);
        state = next.state;
    }
}

#[test]
fn a_pass_at_the_top_box_does_not_overflow() {
    let top = format!(r#"{{"box":{BOX_COUNT}}}"#);
    let next = Leitner.on_review(&top, Rating::Pass, now()).unwrap();
    assert_eq!(box_of(&next.state), BOX_COUNT);
}

#[test]
fn fail_resets_to_box_1_from_every_box() {
    for start in 1..=BOX_COUNT {
        let state = format!(r#"{{"box":{start}}}"#);
        let next = Leitner.on_review(&state, Rating::Fail, now()).unwrap();
        assert_eq!(box_of(&next.state), 1, "fail from box {start}");
    }
}

#[test]
fn due_at_jumps_by_the_target_box_interval() {
    assert_eq!(Leitner.initial_state(now()).due_at, now());
    assert_eq!(
        Leitner
            .on_review(r#"{"box":1}"#, Rating::Pass, now())
            .unwrap()
            .due_at,
        plus_days(now(), 2),
    );
    assert_eq!(
        Leitner
            .on_review(r#"{"box":4}"#, Rating::Pass, now())
            .unwrap()
            .due_at,
        plus_days(now(), 16),
    );
    assert_eq!(
        Leitner
            .on_review(r#"{"box":3}"#, Rating::Fail, now())
            .unwrap()
            .due_at,
        plus_days(now(), 1),
    );
}

#[test]
fn schedule_state_round_trips_through_its_json_form() {
    let promoted = Leitner
        .on_review(r#"{"box":2}"#, Rating::Pass, now())
        .unwrap();
    assert_eq!(promoted.state, r#"{"box":3}"#);
    let reset = Leitner
        .on_review(&promoted.state, Rating::Fail, now())
        .unwrap();
    assert_eq!(reset.state, r#"{"box":1}"#);
}

#[test]
fn a_blob_this_strategy_cannot_read_is_an_error() {
    assert!(Leitner.on_review("not json", Rating::Pass, now()).is_err());
    assert!(
        Leitner
            .on_review(r#"{"ease":2.5}"#, Rating::Pass, now())
            .is_err()
    );
}

#[test]
fn out_of_range_boxes_are_pinned_into_range() {
    let low = Leitner.on_review(r#"{"box":0}"#, Rating::Pass, now()).unwrap();
    assert_eq!(low.state, r#"{"box":2}"#);
    let high = Leitner.on_review(r#"{"box":200}"#, Rating::Pass, now()).unwrap();
    assert_eq!(high.state, r#"{"box":5}"#);
    assert!(Leitner.on_review(r#"{"box":256}"#, Rating::Pass, now()).is_err());
    assert!(Leitner.on_review(r#"{"box":-1}"#, Rating::Pass, now()).is_err());
}

#[test]
fn extra_members_in_the_blob_are_ignored() {
    let next = Leitner
        .on_review(r#"{"box":3,"note":"x"}"#, Rating::Fail, now())
        .unwrap();
    assert_eq!(next.state, r#"{"box":1}"#);
}

#[test]
fn unreadable_blobs_say_why() {
    let too_big = Leitner.on_review(r#"{"box":300}"#, Rating::Pass, now()).unwrap_err();
    assert_eq!(
        too_big.to_string(),
        "unreadable schedule_state: invalid value: integer `300`, expected u8"
    );

    let missing = Leitner.on_review(r#"{"ease":2.5}"#, Rating::Pass, now()).unwrap_err();
    assert_eq!(
        missing.to_string(),
        "unreadable schedule_state: expected an object with a member `box` or an array of one box number"
    );

    let not_json = Leitner.on_review("not json", Rating::Pass, now()).unwrap_err();
    let message = not_json.to_string();
    assert!(message.starts_with("unreadable schedule_state: "));
    assert!(message.contains("line 1"), "carries serde_json's message: {message}");
}

#[test]
fn any_day_count_moves_an_instant() {
    let later = now().plus_days(40_000);
    assert_eq!(later, plus_days(now(), 40_000));
    let earlier = now().plus_days(-3);
    assert_eq!(earlier, plus_days(now(), -3));
}

#[test]
fn a_mistyped_box_member_carries_serdes_message() {
    let negative = Leitner.on_review(r#"{"box":-1}"#, Rating::Pass, now()).unwrap_err();
    assert_eq!(
        negative.to_string(),
        "unreadable schedule_state: invalid value: integer `-1`, expected u8"
    );
    let fractional = Leitner.on_review(r#"{"box":2.5}"#, Rating::Pass, now()).unwrap_err();
    assert_eq!(
        fractional.to_string(),
        "unreadable schedule_state: invalid type: floating point `2.5`, expected u8"
    );
}

#[test]
fn the_state_records_sequence_form_is_read_too() {
    let next = Leitner.on_review("[3]", Rating::Pass, now()).unwrap();
    assert_eq!(next.state, r#"{"box":4}"#);
    assert_eq!(Leitner.box_of("[2]"), Some(2));
    assert!(Leitner.on_review("[3, 4]", Rating::Pass, now()).is_err());
    assert!(Leitner.on_review("[]", Rating::Pass, now()).is_err());
}
