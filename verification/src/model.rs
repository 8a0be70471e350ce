//! Wire types shared between the HTTP layer and the store. Plain data; the
//! only behaviour is the mapping between the two enums and their wire tokens.

use crate::text::str_eq;
use vstd::prelude::*;

verus! {

/// A vocabulary pair as stored. `id` is the deterministic UUIDv5 over the
/// three text fields (see [`crate::terms::term_id`]); `created_at` is an
/// ISO-8601 timestamp. The three texts are immutable identity — only
/// `notes` is ever edited.
#[derive(Clone, Debug, PartialEq, Eq)]
pub struct Term {
    pub id: String,
    pub foreign_lang: String,
    pub foreign_text: String,
    pub pivot_text: String,
    pub notes: Option<String>,
    pub created_at: String,
}

/// The body of `POST /terms`, validated by
/// [`crate::terms::validate_new_term`] before it reaches the store.
#[derive(Clone, Debug, PartialEq, Eq)]
pub struct NewTerm {
    pub foreign_lang: String,
    pub foreign_text: String,
    pub pivot_text: String,
    pub notes: Option<String>,
}

/// The body of `PATCH /terms/{id}` — the only mutable field of a Term. An
/// explicit `null` clears the notes.
#[derive(Clone, Debug, PartialEq, Eq)]
pub struct NotesPatch {
    pub notes: Option<String>,
}

/// The body of a successful `DELETE /terms/{id}`.
#[derive(Clone, Debug, PartialEq, Eq)]
pub struct Deleted {
    pub deleted: String,
}

/// Which of a Term's two texts a Card prompts with. `Foreign` shows the
/// foreign text and asks for the pivot text (recognition); `Pivot` is the
/// reverse (production).
#[derive(Clone, Copy, Debug, PartialEq, Eq, Structural)]
pub enum PromptSide {
    Foreign,
    Pivot,
}

/// The wire / storage token of a prompt side.
pub open spec fn prompt_side_token(side: PromptSide) -> Seq<char> {
    match side {
        PromptSide::Foreign => "foreign"@,
        PromptSide::Pivot => "pivot"@,
    }
}

/// The message a rejected prompt-side token carries.
pub open spec fn unknown_prompt_side_message(token: Seq<char>) -> Seq<char> {
    "unknown prompt_side: "@ + token
}

impl PromptSide {
    /// Both sides, in the order a Term's Cards are created.
    pub const ALL: [PromptSide; 2] = [PromptSide::Foreign, PromptSide::Pivot];

    /// The wire / storage token for this side.
    pub fn as_str(self) -> (s: &'static str)
        ensures
            s@ == prompt_side_token(self),
    {
        match self {
            PromptSide::Foreign => "foreign",
            PromptSide::Pivot => "pivot",
        }
    }

    /// Read a side back from its wire token; any other text is rejected
    /// with a message naming it.
    pub fn parse_token(s: &str) -> (r: Result<PromptSide, String>)
        ensures
            match r {
                Ok(side) => prompt_side_token(side) == s@,
                Err(message) => message@ == unknown_prompt_side_message(s@) && s@
                    != "foreign"@ && s@ != "pivot"@,
            },
    {
        if str_eq(s, "foreign") {
            Ok(PromptSide::Foreign)
        } else if str_eq(s, "pivot") {
            Ok(PromptSide::Pivot)
        } else {
            let mut message = String::from_str("unknown prompt_side: ");
            message.append(s);
            proof {
                reveal_strlit("unknown prompt_side: ");
            }
            Err(message)
        }
    }
}

impl std::str::FromStr for PromptSide {
    type Err = String;

    fn from_str(s: &str) -> (r: Result<Self, Self::Err>)
        ensures
            match r {
                Ok(side) => prompt_side_token(side) == s@,
                Err(message) => message@ == unknown_prompt_side_message(s@) && s@
                    != "foreign"@ && s@ != "pivot"@,
            },
    {
        PromptSide::parse_token(s)
    }
}

/// Every side's token reads back as that side: the wire form round-trips.
pub proof fn lemma_prompt_side_token_round_trip(side: PromptSide, other: PromptSide)
    ensures
        prompt_side_token(side) == prompt_side_token(other) <==> side == other,
{
    reveal_strlit("foreign");
    reveal_strlit("pivot");
    if side != other {
        assert(prompt_side_token(side)[0] != prompt_side_token(other)[0]);
    }
}

/// A Card with its Term's text resolved for display during a practice
/// run: `prompt` is the side shown, `answer` the side to recall, both
/// picked by `prompt_side`. `box_number` is the current Leitner box.
#[derive(Clone, Debug, PartialEq, Eq)]
pub struct PracticeCard {
    pub id: String,
    pub term_id: String,
    pub prompt_side: PromptSide,
    pub prompt: String,
    pub answer: String,
    pub notes: Option<String>,
    pub due_at: String,
    pub box_number: u8,
}

/// A learner's self-graded outcome for one Card review. `Pass` promotes
/// the Card a box; `Fail` sends it back to the first box.
#[derive(Clone, Copy, Debug, PartialEq, Eq, Structural)]
pub enum Rating {
    Pass,
    Fail,
}

/// The wire / storage token of a rating.
pub open spec fn rating_token(rating: Rating) -> Seq<char> {
    match rating {
        Rating::Pass => "pass"@,
        Rating::Fail => "fail"@,
    }
}

impl Rating {
    /// The wire / storage token for this rating.
    pub fn as_str(self) -> (s: &'static str)
        ensures
            s@ == rating_token(self),
    {
        match self {
            Rating::Pass => "pass",
            Rating::Fail => "fail",
        }
    }

    /// Read a rating back from its wire token.
    pub fn parse_token(s: &str) -> (r: Option<Rating>)
        ensures
            match r {
                Some(rating) => rating_token(rating) == s@,
                None => s@ != "pass"@ && s@ != "fail"@,
            },
    {
        if str_eq(s, "pass") {
            Some(Rating::Pass)
        } else if str_eq(s, "fail") {
            Some(Rating::Fail)
        } else {
            None
        }
    }
}

/// Each rating's token names that rating and no other: the wire form
/// round-trips.
pub proof fn lemma_rating_token_round_trip(rating: Rating, other: Rating)
    ensures
        rating_token(rating) == rating_token(other) <==> rating == other,
{
    reveal_strlit("pass");
    reveal_strlit("fail");
    if rating != other {
        assert(rating_token(rating)[0] != rating_token(other)[0]);
    }
}

/// The body of `POST /cards/{id}/reviews` — the learner's self-graded
/// outcome for one attempt at a Card.
#[derive(Clone, Copy, Debug, PartialEq, Eq)]
pub struct NewReview {
    pub rating: Rating,
}

} // verus!
