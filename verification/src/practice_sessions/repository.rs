//! What the Practice Session store is handed when a session is created.
//! The queries themselves run in the shell.

use crate::categories::CategoryId;
use crate::learners::LearnerId;
use crate::instant::Timestamp;
use crate::practice_sessions::{
    status_token, GeneratedQuestion, OptionSnapshot, PracticeQuestion, PracticeQuestionId,
    PracticeSession, PracticeSessionId, PublicOption, SessionStatus,
};
use crate::translation_direction::{direction_token, TranslationDirection};
use crate::vocabulary_entries::VocabularyEntryId;
use vstd::prelude::*;

verus! {

/// A new active session and its generated Questions, stored in order with
/// ordinals counting from 1.
pub struct NewSession<'a> {
    pub learner_id: LearnerId,
    pub category_id: CategoryId,
    pub direction: TranslationDirection,
    pub requested_question_count: u32,
    pub questions: &'a [GeneratedQuestion],
}

/// Whether `p` is the public view of the stored option `o`.
pub open spec fn public_view_of(p: PublicOption, o: OptionSnapshot) -> bool {
    p.id == o.id && p.text@ == o.text@ && p.is_dont_know == o.is_dont_know
}

/// A stored Question as the API shows it before any answer: its direction
/// read back from the stored token (`Err` with the message naming a token
/// that is no direction, which marks the stored session corrupt), and each
/// option without its correctness flag, in stored order.
pub fn public_question(
    id: PracticeQuestionId,
    vocabulary_entry_id: VocabularyEntryId,
    direction: &str,
    ordinal: u32,
    prompt_text: String,
    options: &[OptionSnapshot],
) -> (r: Result<PracticeQuestion, String>)
    ensures
        match r {
            Ok(q) => {
                &&& direction_token(q.direction) == direction@
                &&& q.id == id
                &&& q.vocabulary_entry_id == vocabulary_entry_id
                &&& q.ordinal == ordinal
                &&& q.prompt_text == prompt_text
                &&& q.options@.len() == options@.len()
                &&& forall|k: int|
                    0 <= k < options@.len() ==> public_view_of(#[trigger] q.options@[k], options@[k])
            },
            Err(m) => direction@ != "source_to_target"@ && direction@ != "target_to_source"@
                && m@ == seq!['"'] + direction@ + "\" is not a recognized translation direction"@,
        },
{
    let direction = match TranslationDirection::parse_token(direction) {
        Ok(d) => d,
        Err(e) => {
            return Err(e.to_string());
        },
    };
    let mut public: Vec<PublicOption> = Vec::new();
    let mut k: usize = 0;
    while k < options.len()
        invariant
            k <= options@.len(),
            public@.len() == k,
            forall|j: int| 0 <= j < k ==> public_view_of(#[trigger] public@[j], options@[j]),
        decreases options@.len() - k,
    {
        public.push(options[k].to_public());
        k = k + 1;
    }
    Ok(PracticeQuestion {
        id,
        vocabulary_entry_id,
        direction,
        ordinal,
        prompt_text,
        options: public,
    })
}

/// A stored session row: direction and status as their stored tokens,
/// counts as stored integers.
#[derive(Clone, Debug, PartialEq, Eq)]
pub struct SessionRow {
    pub id: PracticeSessionId,
    pub learner_id: LearnerId,
    pub category_id: CategoryId,
    pub direction: String,
    pub status: String,
    pub requested_question_count: i64,
    pub actual_question_count: i64,
    pub answered_question_count: i64,
    pub correct_count: i64,
    pub started_at: Timestamp,
    pub completed_at: Option<Timestamp>,
    pub last_activity_at: Timestamp,
    pub created_at: Timestamp,
    pub updated_at: Timestamp,
}

/// The message marking a stored token as corrupt.
pub open spec fn unrecognized(token: Seq<char>, what: Seq<char>) -> Seq<char> {
    seq!['"'] + token + "\" is not a recognized "@ + what
}

impl SessionRow {
    /// The session a stored row and its Questions stand for. `Err` names
    /// the first stored token (direction, then status) that is not a
    /// recognized one, which marks the stored session corrupt. Counts are
    /// read back as the `u32`s they were written from.
    pub fn into_session(self, questions: Vec<PracticeQuestion>) -> (r: Result<PracticeSession, String>)
        ensures
            match r {
                Ok(s) => {
                    &&& direction_token(s.direction) == self.direction@
                    &&& status_token(s.status) == self.status@
                    &&& s.id == self.id
                    &&& s.learner_id == self.learner_id
                    &&& s.category_id == self.category_id
                    &&& s.requested_question_count == self.requested_question_count as u32
                    &&& s.actual_question_count == self.actual_question_count as u32
                    &&& s.answered_question_count == self.answered_question_count as u32
                    &&& s.correct_count == self.correct_count as u32
                    &&& s.started_at == self.started_at
                    &&& s.completed_at == self.completed_at
                    &&& s.last_activity_at == self.last_activity_at
                    &&& s.created_at == self.created_at
                    &&& s.updated_at == self.updated_at
                    &&& s.questions == questions
                },
                Err(m) => if self.direction@ != "source_to_target"@ && self.direction@
                    != "target_to_source"@ {
                    m@ == unrecognized(self.direction@, "translation direction"@)
                } else {
                    self.status@ != "active"@ && self.status@ != "completed"@ && m@
                        == unrecognized(self.status@, "session status"@)
                },
            },
    {
        proof {
            reveal_strlit("\" is not a recognized translation direction");
            reveal_strlit("\" is not a recognized session status");
            reveal_strlit("\" is not a recognized ");
            reveal_strlit("translation direction");
            reveal_strlit("session status");
        }
        let direction = match TranslationDirection::parse_token(self.direction.as_str()) {
            Ok(d) => d,
            Err(e) => {
                let m = e.to_string();
                assert(m@ =~= unrecognized(self.direction@, "translation direction"@));
                return Err(m);
            },
        };
        let status = match SessionStatus::parse_token(self.status.as_str()) {
            Ok(s) => s,
            Err(e) => {
                let m = e.to_string();
                assert(m@ =~= unrecognized(self.status@, "session status"@));
                return Err(m);
            },
        };
        Ok(PracticeSession {
            id: self.id,
            learner_id: self.learner_id,
            category_id: self.category_id,
            direction,
            status,
            requested_question_count: self.requested_question_count as u32,
            actual_question_count: self.actual_question_count as u32,
            answered_question_count: self.answered_question_count as u32,
            correct_count: self.correct_count as u32,
            started_at: self.started_at,
            completed_at: self.completed_at,
            last_activity_at: self.last_activity_at,
            created_at: self.created_at,
            updated_at: self.updated_at,
            questions,
        })
    }
}

} // verus!
