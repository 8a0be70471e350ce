use flashcards::model::{PromptSide, Rating};

#[test]
fn prompt_side_round_trips_through_its_wire_token() {
    for side in PromptSide::ALL {
        assert_eq!(side.as_str().parse::<PromptSide>(), Ok(side));
    }
    assert!("sideways".parse::<PromptSide>().is_err());
}

#[test]
fn rating_as_str_matches_the_wire_form() {
    assert_eq!(Rating::Pass.as_str(), "pass");
    assert_eq!(Rating::Fail.as_str(), "fail");
}

#[test]
fn unknown_prompt_side_message_names_the_token() {
    assert_eq!(
        "sideways".parse::<PromptSide>(),
        Err("unknown prompt_side: sideways".to_string())
    );
}

#[test]
fn rating_reads_back_from_its_token() {
    assert_eq!(Rating::parse_token("pass"), Some(Rating::Pass));
    assert_eq!(Rating::parse_token("fail"), Some(Rating::Fail));
    assert_eq!(Rating::parse_token("maybe"), None);
}
