//! Translation Direction: which side of a Vocabulary Entry is the prompt
//! and which is the answer for a given Practice Session.

use crate::text::str_eq;
use crate::vocabulary_entries::VocabularyEntry;
use vstd::prelude::*;

verus! {

/// Which side of a Vocabulary Entry a Practice Session prompts with.
#[derive(Clone, Copy, Debug, PartialEq, Eq, Hash, Structural)]
pub enum TranslationDirection {
    SourceToTarget,
    TargetToSource,
}

/// A wire token that names no Translation Direction.
#[derive(Clone, Debug, PartialEq, Eq)]
pub struct ParseTranslationDirectionError(pub String);

impl ParseTranslationDirectionError {
    /// The message: `"<token>" is not a recognized translation direction`.
    pub fn to_string(&self) -> (s: String)
        ensures
            s@ == seq!['"'] + self.0@ + "\" is not a recognized translation direction"@,
    {
        let mut s = String::from_str("\"");
        s.append(self.0.as_str());
        s.append("\" is not a recognized translation direction");
        proof {
            reveal_strlit("\"");
            reveal_strlit("\" is not a recognized translation direction");
        }
        s
    }
}

/// The wire token of a direction.
pub open spec fn direction_token(direction: TranslationDirection) -> Seq<char> {
    match direction {
        TranslationDirection::SourceToTarget => "source_to_target"@,
        TranslationDirection::TargetToSource => "target_to_source"@,
    }
}

/// The prompt text of `entry` in `direction`.
pub open spec fn prompt_text_of(direction: TranslationDirection, entry: VocabularyEntry) -> Seq<char> {
    match direction {
        TranslationDirection::SourceToTarget => entry.source_text@,
        TranslationDirection::TargetToSource => entry.target_text@,
    }
}

/// The correct answer text of `entry` in `direction`.
pub open spec fn answer_text_of(direction: TranslationDirection, entry: VocabularyEntry) -> Seq<char> {
    match direction {
        TranslationDirection::SourceToTarget => entry.target_text@,
        TranslationDirection::TargetToSource => entry.source_text@,
    }
}

/// The language of the correct answer of `entry` in `direction`.
pub open spec fn answer_language_of(direction: TranslationDirection, entry: VocabularyEntry) -> Seq<
    char,
> {
    match direction {
        TranslationDirection::SourceToTarget => entry.target_language@,
        TranslationDirection::TargetToSource => entry.source_language@,
    }
}

impl TranslationDirection {
    /// The wire token (`source_to_target` / `target_to_source`).
    pub fn to_string(&self) -> (s: String)
        ensures
            s@ == direction_token(*self),
    {
        match self {
            TranslationDirection::SourceToTarget => String::from_str("source_to_target"),
            TranslationDirection::TargetToSource => String::from_str("target_to_source"),
        }
    }

    /// Read a direction back from its wire token.
    pub fn parse_token(raw: &str) -> (r: Result<TranslationDirection, ParseTranslationDirectionError>)
        ensures
            match r {
                Ok(direction) => direction_token(direction) == raw@,
                Err(e) => e.0@ == raw@ && raw@ != "source_to_target"@ && raw@
                    != "target_to_source"@,
            },
    {
        if str_eq(raw, "source_to_target") {
            Ok(TranslationDirection::SourceToTarget)
        } else if str_eq(raw, "target_to_source") {
            Ok(TranslationDirection::TargetToSource)
        } else {
            Err(ParseTranslationDirectionError(String::from_str(raw)))
        }
    }

    /// The prompt text shown to the Learner: the entry's source side for
    /// `SourceToTarget`, its target side for `TargetToSource`.
    pub fn prompt_text<'a>(self, entry: &'a VocabularyEntry) -> (s: &'a str)
        ensures
            s@ == prompt_text_of(self, *entry),
    {
        match self {
            TranslationDirection::SourceToTarget => entry.source_text.as_str(),
            TranslationDirection::TargetToSource => entry.target_text.as_str(),
        }
    }

    /// The correct answer text: the opposite side of [`Self::prompt_text`].
    pub fn answer_text<'a>(self, entry: &'a VocabularyEntry) -> (s: &'a str)
        ensures
            s@ == answer_text_of(self, *entry),
    {
        match self {
            TranslationDirection::SourceToTarget => entry.target_text.as_str(),
            TranslationDirection::TargetToSource => entry.source_text.as_str(),
        }
    }

    /// The language the correct answer (and every distractor) must be in.
    pub fn answer_language<'a>(self, entry: &'a VocabularyEntry) -> (s: &'a str)
        ensures
            s@ == answer_language_of(self, *entry),
    {
        match self {
            TranslationDirection::SourceToTarget => entry.target_language.as_str(),
            TranslationDirection::TargetToSource => entry.source_language.as_str(),
        }
    }
}

impl std::str::FromStr for TranslationDirection {
    type Err = ParseTranslationDirectionError;

    fn from_str(raw: &str) -> (r: Result<Self, Self::Err>)
        ensures
            match r {
                Ok(parsed) => direction_token(parsed) == raw@,
                Err(e) => e.0@ == raw@ && raw@ != "source_to_target"@ && raw@ != "target_to_source"@,
            },
    {
        TranslationDirection::parse_token(raw)
    }
}

/// Each direction's wire token names that direction and no other, so the
/// token round-trips.
pub proof fn lemma_direction_token_round_trip(a: TranslationDirection, b: TranslationDirection)
    ensures
        direction_token(a) == direction_token(b) <==> a == b,
{
    reveal_strlit("source_to_target");
    reveal_strlit("target_to_source");
    if a != b {
        assert(direction_token(a)[0] != direction_token(b)[0]);
    }
}

/// The prompt of one direction is the answer of the other.
pub proof fn lemma_directions_mirror(entry: VocabularyEntry)
    ensures
        prompt_text_of(TranslationDirection::SourceToTarget, entry) == answer_text_of(
            TranslationDirection::TargetToSource,
            entry,
        ),
        prompt_text_of(TranslationDirection::TargetToSource, entry) == answer_text_of(
            TranslationDirection::SourceToTarget,
            entry,
        ),
{
}

} // verus!
