//! Practice Session domain: a bounded activity for one Learner, one
//! Category, and one Translation Direction, whose multiple-choice Questions
//! are generated once and immutably snapshotted.

pub mod repository;

use crate::categories::CategoryId;
use crate::instant::{Timestamp, NANOS_PER_MILLI};
use crate::learners::LearnerId;
use crate::text::{decimal_chars, push_decimal, push_signed_decimal, signed_decimal_chars, str_eq};
use crate::translation_direction::{
    answer_language_of, answer_text_of, prompt_text_of, TranslationDirection,
};
use crate::vocabulary_entries::{VocabularyEntry, VocabularyEntryId};
use rand::rngs::StdRng;
use vstd::multiset::Multiset;
use vstd::prelude::*;

verus! {

broadcast use vstd::seq_lib::group_to_multiset_ensures;

/// A Practice Session's durable identity.
#[derive(Clone, Copy, Debug, PartialEq, Eq, Hash, Structural)]
pub struct PracticeSessionId(pub i64);

impl PracticeSessionId {
    /// The decimal text of the raw ID.
    pub fn to_string(&self) -> (s: String)
        ensures
            s@ == signed_decimal_chars(self.0 as int),
    {
        let mut s = String::new();
        push_signed_decimal(&mut s, self.0);
        assert(s@ =~= signed_decimal_chars(self.0 as int));
        s
    }
}

/// A generated Question's durable identity.
#[derive(Clone, Copy, Debug, PartialEq, Eq, Hash, Structural)]
pub struct PracticeQuestionId(pub i64);

impl PracticeQuestionId {
    /// The decimal text of the raw ID.
    pub fn to_string(&self) -> (s: String)
        ensures
            s@ == signed_decimal_chars(self.0 as int),
    {
        let mut s = String::new();
        push_signed_decimal(&mut s, self.0);
        assert(s@ =~= signed_decimal_chars(self.0 as int));
        s
    }
}

/// Whether a Practice Session is still being answered.
#[derive(Clone, Copy, Debug, PartialEq, Eq, Structural)]
pub enum SessionStatus {
    Active,
    Completed,
}

/// A stored status token that names no [`SessionStatus`].
#[derive(Clone, Debug, PartialEq, Eq)]
pub struct ParseSessionStatusError(pub String);

impl ParseSessionStatusError {
    /// The message: `"<token>" is not a recognized session status`.
    pub fn to_string(&self) -> (s: String)
        ensures
            s@ == seq!['"'] + self.0@ + "\" is not a recognized session status"@,
    {
        let mut s = String::from_str("\"");
        s.append(self.0.as_str());
        s.append("\" is not a recognized session status");
        proof {
            reveal_strlit("\"");
            reveal_strlit("\" is not a recognized session status");
        }
        s
    }
}

/// The wire / storage token of a status.
pub open spec fn status_token(status: SessionStatus) -> Seq<char> {
    match status {
        SessionStatus::Active => "active"@,
        SessionStatus::Completed => "completed"@,
    }
}

impl SessionStatus {
    /// The wire / storage token (`active` / `completed`).
    pub fn to_string(&self) -> (s: String)
        ensures
            s@ == status_token(*self),
    {
        match self {
            SessionStatus::Active => String::from_str("active"),
            SessionStatus::Completed => String::from_str("completed"),
        }
    }

    /// Read a status back from its token.
    pub fn parse_token(raw: &str) -> (r: Result<SessionStatus, ParseSessionStatusError>)
        ensures
            match r {
                Ok(status) => status_token(status) == raw@,
                Err(e) => e.0@ == raw@ && raw@ != "active"@ && raw@ != "completed"@,
            },
    {
        if str_eq(raw, "active") {
            Ok(SessionStatus::Active)
        } else if str_eq(raw, "completed") {
            Ok(SessionStatus::Completed)
        } else {
            Err(ParseSessionStatusError(String::from_str(raw)))
        }
    }
}

impl std::str::FromStr for SessionStatus {
    type Err = ParseSessionStatusError;

    fn from_str(raw: &str) -> (r: Result<Self, Self::Err>)
        ensures
            match r {
                Ok(parsed) => status_token(parsed) == raw@,
                Err(e) => e.0@ == raw@ && raw@ != "active"@ && raw@ != "completed"@,
            },
    {
        SessionStatus::parse_token(raw)
    }
}

/// Each status token names that status and no other.
pub proof fn lemma_status_token_round_trip(a: SessionStatus, b: SessionStatus)
    ensures
        status_token(a) == status_token(b) <==> a == b,
{
    reveal_strlit("active");
    reveal_strlit("completed");
    if a != b {
        assert(status_token(a).len() != status_token(b).len());
    }
}

/// A validated requested question count, within the server-configured
/// bounds.
#[derive(Clone, Copy, Debug, PartialEq, Eq, Structural)]
pub struct QuestionCount(pub u32);

/// Why a requested question count was rejected.
#[derive(Clone, Copy, Debug, PartialEq, Eq, Structural)]
pub enum QuestionCountError {
    OutOfRange { min: u32, max: u32 },
}

impl QuestionCountError {
    /// The message: `question count must be between <min> and <max>`.
    pub fn to_string(&self) -> (s: String)
        ensures
            ({
                let QuestionCountError::OutOfRange { min, max } = *self;
                s@ == "question count must be between "@ + decimal_chars(min as nat) + " and "@
                    + decimal_chars(max as nat)
            }),
    {
        let QuestionCountError::OutOfRange { min, max } = *self;
        let mut s = String::from_str("question count must be between ");
        push_decimal(&mut s, min as u64);
        s.append(" and ");
        push_decimal(&mut s, max as u64);
        proof {
            reveal_strlit("question count must be between ");
            reveal_strlit(" and ");
        }
        s
    }
}

/// Validates a requested question count against the server-configured
/// min/max bounds.
pub fn validate_question_count(requested: u32, min: u32, max: u32) -> (r: Result<
    QuestionCount,
    QuestionCountError,
>)
    ensures
        match r {
            Ok(count) => min <= requested <= max && count.0 == requested,
            Err(QuestionCountError::OutOfRange { min: lo, max: hi }) => (requested < min || requested
                > max) && lo == min && hi == max,
        },
{
    if requested < min || requested > max {
        return Err(QuestionCountError::OutOfRange { min, max });
    }
    Ok(QuestionCount(requested))
}

/// One multiple-choice option in a generated Question's immutable
/// snapshot, including the `is_correct`/`is_dont_know` flags that must
/// never reach the public API before an Answer Submission exists.
#[derive(Clone, Debug, PartialEq, Eq)]
pub struct OptionSnapshot {
    pub id: u32,
    pub text: String,
    pub is_correct: bool,
    pub is_dont_know: bool,
}

/// The public, pre-submission view of an option: `is_correct` is withheld.
#[derive(Clone, Debug, PartialEq, Eq)]
pub struct PublicOption {
    pub id: u32,
    pub text: String,
    pub is_dont_know: bool,
}

impl OptionSnapshot {
    /// The public view of this option, without its correctness.
    pub fn to_public(&self) -> (p: PublicOption)
        ensures
            p.id == self.id,
            p.text@ == self.text@,
            p.is_dont_know == self.is_dont_know,
    {
        PublicOption { id: self.id, text: self.text.clone(), is_dont_know: self.is_dont_know }
    }
}

/// One immutably snapshotted Question, generated once at session-creation
/// time.
#[derive(Clone, Debug, PartialEq, Eq)]
pub struct GeneratedQuestion {
    pub vocabulary_entry_id: VocabularyEntryId,
    pub direction: TranslationDirection,
    pub prompt_text: String,
    pub options: Vec<OptionSnapshot>,
}

/// The index of the first option flagged correct, if any.
pub open spec fn first_correct_index(options: Seq<OptionSnapshot>) -> Option<int>
    decreases options.len(),
{
    if options.len() == 0 {
        None
    } else if options[0].is_correct {
        Some(0)
    } else {
        match first_correct_index(options.drop_first()) {
            Some(i) => Some(i + 1),
            None => None,
        }
    }
}

impl GeneratedQuestion {
    /// The text of the first option flagged correct, or the empty text when
    /// none is.
    pub fn correct_text(&self) -> (s: &str)
        ensures
            match first_correct_index(self.options@) {
                Some(i) => s@ == self.options@[i].text@,
                None => s@ == Seq::<char>::empty(),
            },
    {
        let mut i: usize = 0;
        assert(self.options@.subrange(0, self.options@.len() as int) =~= self.options@);
        while i < self.options.len()
            invariant
                i <= self.options@.len(),
                first_correct_index(self.options@) == match first_correct_index(
                    self.options@.subrange(i as int, self.options@.len() as int),
                ) {
                    Some(k) => Some(k + i),
                    None => None,
                },
            decreases self.options@.len() - i,
        {
            let ghost rest = self.options@.subrange(i as int, self.options@.len() as int);
            assert(rest.drop_first() =~= self.options@.subrange(
                i + 1,
                self.options@.len() as int,
            ));
            if self.options[i].is_correct {
                return self.options[i].text.as_str();
            }
            i = i + 1;
        }
        proof {
            reveal_strlit("");
        }
        ""
    }
}

/// A Practice Session's Question as returned by the public API: the
/// immutable snapshot with `is_correct` withheld.
#[derive(Clone, Debug, PartialEq, Eq)]
pub struct PracticeQuestion {
    pub id: PracticeQuestionId,
    pub vocabulary_entry_id: VocabularyEntryId,
    pub direction: TranslationDirection,
    pub ordinal: u32,
    pub prompt_text: String,
    pub options: Vec<PublicOption>,
}

/// A Practice Session and its Question snapshots, as the API shows them.
#[derive(Clone, Debug, PartialEq, Eq)]
pub struct PracticeSession {
    pub id: PracticeSessionId,
    pub learner_id: LearnerId,
    pub category_id: CategoryId,
    pub direction: TranslationDirection,
    pub status: SessionStatus,
    pub requested_question_count: u32,
    pub actual_question_count: u32,
    pub answered_question_count: u32,
    pub correct_count: u32,
    pub started_at: Timestamp,
    pub completed_at: Option<Timestamp>,
    pub last_activity_at: Timestamp,
    pub created_at: Timestamp,
    pub updated_at: Timestamp,
    pub questions: Vec<PracticeQuestion>,
}

#[verifier::external_type_specification]
#[verifier::external_body]
pub struct ExStdRng(StdRng);

/// Shuffle `items` in place with `rng`, via `rand::seq::SliceRandom::shuffle`.
/// Which order comes out depends on the generator; what holds of every
/// outcome is that the same items remain, each as often as before.
#[verifier::external_body]
fn shuffle_in_place<T>(items: &mut Vec<T>, rng: &mut StdRng)
    ensures
        final(items)@.to_multiset() == old(items)@.to_multiset(),
{
    rand::seq::SliceRandom::shuffle(items.as_mut_slice(), rng);
}

/// The instant a Learner last answered an entry correctly in one direction.
#[derive(Clone, Copy, Debug, PartialEq, Eq, Structural)]
pub struct LastCorrect {
    pub vocabulary_entry_id: VocabularyEntryId,
    pub direction: TranslationDirection,
    pub last_correct_at: Timestamp,
}

/// The recorded last-correct instant for an entry and direction: the first
/// matching record, if any.
pub open spec fn lookup_last_correct(
    records: Seq<LastCorrect>,
    id: VocabularyEntryId,
    direction: TranslationDirection,
) -> Option<Timestamp>
    decreases records.len(),
{
    if records.len() == 0 {
        None
    } else if records[0].vocabulary_entry_id == id && records[0].direction == direction {
        Some(records[0].last_correct_at)
    } else {
        lookup_last_correct(records.drop_first(), id, direction)
    }
}

/// Everything session generation needs, gathered by the imperative shell so
/// the selection, eligibility and shuffling logic stays pure.
pub struct GenerateSessionInput<'a> {
    pub category_id: CategoryId,
    pub direction: TranslationDirection,
    pub requested_count: u32,
    /// Vocabulary Entries belonging to the selected Category: the candidate
    /// pool for questions.
    pub category_entries: &'a [VocabularyEntry],
    /// Every Vocabulary Entry, used to source distractors from the same
    /// Language Pair when the selected Category can't supply enough.
    pub all_entries: &'a [VocabularyEntry],
    /// When the Learner last answered each entry/direction correctly.
    pub last_correct_at: &'a [LastCorrect],
    /// The hard retest cooldown, in milliseconds.
    pub min_interval_before_retest_millis: i64,
    /// The number of distinct incorrect distractors each Question must have.
    pub incorrect_distractor_count: usize,
    pub now: Timestamp,
}

/// Whether a correct answer at `last_correct_at` still blocks a retest at
/// `now`.
pub open spec fn in_cooldown(
    last_correct_at: Option<Timestamp>,
    min_interval_millis: i64,
    now: Timestamp,
) -> bool {
    match last_correct_at {
        None => false,
        Some(t) => now.unix_nanos - t.unix_nanos < min_interval_millis * NANOS_PER_MILLI,
    }
}

/// Whether `last_correct_at` falls within the hard retest cooldown as of
/// `now`. No prior correct answer means the entry is never in cooldown.
pub fn is_in_cooldown(last_correct_at: Option<Timestamp>, min_interval_millis: i64, now: Timestamp) -> (r: bool)
    requires
        now.wf(),
        last_correct_at matches Some(t) ==> t.wf() && min_interval_millis > i64::MIN,
    ensures
        r == in_cooldown(last_correct_at, min_interval_millis, now),
        last_correct_at is None ==> !r,
        last_correct_at matches Some(t) ==> (r <==> now.unix_nanos - t.unix_nanos
            < min_interval_millis * 1_000_000),
{
    match last_correct_at {
        None => false,
        Some(t) => now.nanos_since(t) < (min_interval_millis as i128) * NANOS_PER_MILLI,
    }
}

/// Whether two entries belong to the same unordered Language Pair.
pub open spec fn same_language_pair(a: VocabularyEntry, b: VocabularyEntry) -> bool {
    ||| a.source_language@ == b.source_language@ && a.target_language@ == b.target_language@
    ||| a.source_language@ == b.target_language@ && a.target_language@ == b.source_language@
}

/// The text `entry` holds in `language`, target side first.
pub open spec fn text_in_language_of(entry: VocabularyEntry, language: Seq<char>) -> Option<
    Seq<char>,
> {
    if entry.target_language@ == language {
        Some(entry.target_text@)
    } else if entry.source_language@ == language {
        Some(entry.source_text@)
    } else {
        None
    }
}

/// The distractor text `other` offers for a Question on `entry`: its text
/// in the answer language, when it is a different entry of the same
/// Language Pair and that text is not the correct answer.
pub open spec fn candidate_text(
    other: VocabularyEntry,
    entry: VocabularyEntry,
    direction: TranslationDirection,
) -> Option<Seq<char>> {
    if other.id == entry.id || !same_language_pair(other, entry) {
        None
    } else {
        match text_in_language_of(other, answer_language_of(direction, entry)) {
            Some(t) => if t == answer_text_of(direction, entry) {
                None
            } else {
                Some(t)
            },
            None => None,
        }
    }
}

/// The candidate distractor texts offered by `others`, in order, from
/// entries inside (`from_category`) or outside the selected Category.
pub open spec fn candidate_texts(
    others: Seq<VocabularyEntry>,
    entry: VocabularyEntry,
    direction: TranslationDirection,
    category: CategoryId,
    from_category: bool,
) -> Seq<Seq<char>>
    decreases others.len(),
{
    if others.len() == 0 {
        seq![]
    } else {
        let prev = candidate_texts(others.drop_last(), entry, direction, category, from_category);
        match candidate_text(others.last(), entry, direction) {
            Some(t) => if others.last().category_ids@.contains(category) == from_category {
                prev.push(t)
            } else {
                prev
            },
            None => prev,
        }
    }
}

/// The first `count` distinct texts of `texts`, in order.
pub open spec fn take_distinct(texts: Seq<Seq<char>>, count: nat) -> Seq<Seq<char>>
    decreases texts.len(),
{
    if texts.len() == 0 {
        seq![]
    } else {
        let prev = take_distinct(texts.drop_last(), count);
        if prev.len() >= count || prev.contains(texts.last()) {
            prev
        } else {
            prev.push(texts.last())
        }
    }
}

/// The distractor texts for a Question on `entry`: the first `count`
/// distinct candidates, the selected Category's first, or nothing when
/// fewer than `count` distinct candidates exist.
pub open spec fn distractors_for(
    entry: VocabularyEntry,
    direction: TranslationDirection,
    category: CategoryId,
    all_entries: Seq<VocabularyEntry>,
    count: nat,
) -> Option<Seq<Seq<char>>> {
    let picked = take_distinct(
        candidate_texts(all_entries, entry, direction, category, true) + candidate_texts(
            all_entries,
            entry,
            direction,
            category,
            false,
        ),
        count,
    );
    if picked.len() == count {
        Some(picked)
    } else {
        None
    }
}

/// The texts of a list of strings.
pub open spec fn texts_of(v: Seq<String>) -> Seq<Seq<char>> {
    v.map_values(|s: String| s@)
}

proof fn lemma_take_distinct(texts: Seq<Seq<char>>, count: nat)
    ensures
        take_distinct(texts, count).len() <= count,
        take_distinct(texts, count).no_duplicates(),
        forall|i: int|
            0 <= i < take_distinct(texts, count).len() ==> texts.contains(
                #[trigger] take_distinct(texts, count)[i],
            ),
    decreases texts.len(),
{
    if texts.len() > 0 {
        let rest = texts.drop_last();
        lemma_take_distinct(rest, count);
        let prev = take_distinct(rest, count);
        let picked = take_distinct(texts, count);
        assert forall|i: int| 0 <= i < picked.len() implies texts.contains(#[trigger] picked[i]) by {
            if i < prev.len() {
                assert(picked[i] == prev[i]);
                let j = choose|j: int| 0 <= j < rest.len() && rest[j] == prev[i];
                assert(texts[j] == rest[j]);
            } else {
                assert(picked[i] == texts.last());
                assert(texts[texts.len() - 1] == texts.last());
            }
        }
        if !(prev.len() >= count || prev.contains(texts.last())) {
            assert forall|i: int, j: int| 0 <= i < j < picked.len() implies picked[i] != picked[j] by {
                if j == prev.len() {
                    assert(picked[j] == texts.last());
                    assert(picked[i] == prev[i]);
                } else {
                    assert(picked[i] == prev[i] && picked[j] == prev[j]);
                }
            }
        }
    }
}

proof fn lemma_candidates_are_wrong_answers(
    others: Seq<VocabularyEntry>,
    entry: VocabularyEntry,
    direction: TranslationDirection,
    category: CategoryId,
    from_category: bool,
)
    ensures
        forall|i: int|
            0 <= i < candidate_texts(others, entry, direction, category, from_category).len()
                ==> #[trigger] candidate_texts(others, entry, direction, category, from_category)[i]
                != answer_text_of(direction, entry),
    decreases others.len(),
{
    if others.len() > 0 {
        lemma_candidates_are_wrong_answers(others.drop_last(), entry, direction, category, from_category);
        let prev = candidate_texts(others.drop_last(), entry, direction, category, from_category);
        let all = candidate_texts(others, entry, direction, category, from_category);
        assert forall|i: int| 0 <= i < all.len() implies #[trigger] all[i] != answer_text_of(
            direction,
            entry,
        ) by {
            if i < prev.len() {
                assert(all[i] == prev[i]);
            }
        }
    }
}

/// Whether `other` offers the text `t` as a wrong answer for a Question on
/// `entry`: it is a different entry whose unordered language pair
/// `{source_language, target_language}` is `entry`'s, and `t` is one of its
/// two texts.
pub open spec fn offers_text(t: Seq<char>, other: VocabularyEntry, entry: VocabularyEntry) -> bool {
    &&& other.id != entry.id
    &&& ((other.source_language@ == entry.source_language@ && other.target_language@
        == entry.target_language@) || (other.source_language@ == entry.target_language@
        && other.target_language@ == entry.source_language@))
    &&& (t == other.source_text@ || t == other.target_text@)
}

/// Whether some entry of `others` offers `t` for a Question on `entry`.
pub open spec fn offered_among(t: Seq<char>, others: Seq<VocabularyEntry>, entry: VocabularyEntry) -> bool {
    exists|k: int| 0 <= k < others.len() && #[trigger] offers_text(t, others[k], entry)
}

proof fn lemma_candidates_are_offered(
    others: Seq<VocabularyEntry>,
    entry: VocabularyEntry,
    direction: TranslationDirection,
    category: CategoryId,
    from_category: bool,
)
    ensures
        forall|i: int|
            0 <= i < candidate_texts(others, entry, direction, category, from_category).len()
                ==> #[trigger] offered_among(
                candidate_texts(others, entry, direction, category, from_category)[i],
                others,
                entry,
            ),
    decreases others.len(),
{
    if others.len() > 0 {
        let rest = others.drop_last();
        lemma_candidates_are_offered(rest, entry, direction, category, from_category);
        let prev = candidate_texts(rest, entry, direction, category, from_category);
        let all = candidate_texts(others, entry, direction, category, from_category);
        assert forall|i: int| 0 <= i < all.len() implies #[trigger] offered_among(all[i], others, entry) by {
            if i < prev.len() {
                assert(all[i] == prev[i]);
                assert(offered_among(prev[i], rest, entry));
                let k = choose|k: int| 0 <= k < rest.len() && #[trigger] offers_text(prev[i], rest[k], entry);
                assert(others[k] == rest[k]);
                assert(offers_text(all[i], others[k], entry));
            } else {
                assert(offers_text(all[i], others[others.len() - 1], entry));
            }
        }
    }
}

/// Every distractor is a text of another entry sharing the question
/// entry's unordered language pair: entries of any other pair never supply
/// one.
pub proof fn lemma_distractors_come_from_the_language_pair(
    entry: VocabularyEntry,
    direction: TranslationDirection,
    category: CategoryId,
    all_entries: Seq<VocabularyEntry>,
    count: nat,
)
    requires
        distractors_for(entry, direction, category, all_entries, count) is Some,
    ensures
        forall|i: int|
            0 <= i < distractors_for(entry, direction, category, all_entries, count)->0.len()
                ==> #[trigger] offered_among(
                distractors_for(entry, direction, category, all_entries, count)->0[i],
                all_entries,
                entry,
            ),
{
    let inside = candidate_texts(all_entries, entry, direction, category, true);
    let outside = candidate_texts(all_entries, entry, direction, category, false);
    let d = take_distinct(inside + outside, count);
    lemma_take_distinct(inside + outside, count);
    lemma_candidates_are_offered(all_entries, entry, direction, category, true);
    lemma_candidates_are_offered(all_entries, entry, direction, category, false);
    assert forall|i: int| 0 <= i < d.len() implies #[trigger] offered_among(d[i], all_entries, entry) by {
        assert((inside + outside).contains(d[i]));
        let j = choose|j: int| 0 <= j < (inside + outside).len() && (inside + outside)[j] == d[i];
        if j < inside.len() {
            assert((inside + outside)[j] == inside[j]);
            assert(offered_among(inside[j], all_entries, entry));
        } else {
            assert((inside + outside)[j] == outside[j - inside.len()]);
            assert(offered_among(outside[j - inside.len()], all_entries, entry));
        }
    }
}

/// Every distractor set that exists holds exactly the requested number of
/// distinct texts, none of them the correct answer: a Question never offers
/// the same option twice, nor its answer as a wrong one.
pub proof fn lemma_distractors_are_distinct_wrong_answers(
    entry: VocabularyEntry,
    direction: TranslationDirection,
    category: CategoryId,
    all_entries: Seq<VocabularyEntry>,
    count: nat,
)
    requires
        distractors_for(entry, direction, category, all_entries, count) is Some,
    ensures
        ({
            let d = distractors_for(entry, direction, category, all_entries, count)->0;
            &&& d.len() == count
            &&& d.no_duplicates()
            &&& forall|i: int| 0 <= i < d.len() ==> #[trigger] d[i] != answer_text_of(direction, entry)
        }),
{
    let inside = candidate_texts(all_entries, entry, direction, category, true);
    let outside = candidate_texts(all_entries, entry, direction, category, false);
    let d = take_distinct(inside + outside, count);
    lemma_take_distinct(inside + outside, count);
    lemma_candidates_are_wrong_answers(all_entries, entry, direction, category, true);
    lemma_candidates_are_wrong_answers(all_entries, entry, direction, category, false);
    assert forall|i: int| 0 <= i < d.len() implies #[trigger] d[i] != answer_text_of(direction, entry) by {
        assert((inside + outside).contains(d[i]));
        let j = choose|j: int| 0 <= j < (inside + outside).len() && (inside + outside)[j] == d[i];
        if j < inside.len() {
            assert((inside + outside)[j] == inside[j]);
        } else {
            assert((inside + outside)[j] == outside[j - inside.len()]);
        }
    }
}

/// Whether the texts of `v` include `t`.
fn contains_text(v: &Vec<String>, t: &str) -> (r: bool)
    ensures
        r == texts_of(v@).contains(t@),
{
    let mut i: usize = 0;
    while i < v.len()
        invariant
            i <= v@.len(),
            forall|k: int| 0 <= k < i ==> v@[k]@ != t@,
        decreases v@.len() - i,
    {
        if str_eq(v[i].as_str(), t) {
            assert(texts_of(v@)[i as int] == t@);
            return true;
        }
        i = i + 1;
    }
    assert(!texts_of(v@).contains(t@)) by {
        if texts_of(v@).contains(t@) {
            let k = choose|k: int| 0 <= k < texts_of(v@).len() && texts_of(v@)[k] == t@;
            assert(v@[k]@ == t@);
        }
    }
    false
}

/// Whether `entry` belongs to `category`.
fn in_category(entry: &VocabularyEntry, category: CategoryId) -> (r: bool)
    ensures
        r == entry.category_ids@.contains(category),
{
    let mut i: usize = 0;
    while i < entry.category_ids.len()
        invariant
            i <= entry.category_ids@.len(),
            forall|k: int| 0 <= k < i ==> entry.category_ids@[k] != category,
        decreases entry.category_ids@.len() - i,
    {
        if entry.category_ids[i] == category {
            assert(entry.category_ids@[i as int] == category);
            return true;
        }
        i = i + 1;
    }
    false
}

/// Whether two entries belong to the same unordered Language Pair.
fn is_same_language_pair(a: &VocabularyEntry, b: &VocabularyEntry) -> (r: bool)
    ensures
        r == same_language_pair(*a, *b),
{
    (str_eq(a.source_language.as_str(), b.source_language.as_str()) && str_eq(
        a.target_language.as_str(),
        b.target_language.as_str(),
    )) || (str_eq(a.source_language.as_str(), b.target_language.as_str()) && str_eq(
        a.target_language.as_str(),
        b.source_language.as_str(),
    ))
}

/// The text `entry` holds in `language`, whichever side that is, if any.
fn text_in_language(entry: &VocabularyEntry, language: &str) -> (r: Option<String>)
    ensures
        match r {
            Some(t) => text_in_language_of(*entry, language@) == Some(t@),
            None => text_in_language_of(*entry, language@) is None,
        },
{
    if str_eq(entry.target_language.as_str(), language) {
        Some(entry.target_text.clone())
    } else if str_eq(entry.source_language.as_str(), language) {
        Some(entry.source_text.clone())
    } else {
        None
    }
}

/// Finds `incorrect_distractor_count` distinct distractor texts in `entry`'s
/// answer language, sourced from other Vocabulary Entries sharing its
/// Language Pair. The selected Category is preferred; other Categories in
/// the same Language Pair fill any remaining slots. Returns `None` when
/// fewer distinct incorrect options exist, meaning `entry` is not Eligible.
pub fn find_distractor_texts(
    entry: &VocabularyEntry,
    direction: TranslationDirection,
    selected_category_id: CategoryId,
    all_entries: &[VocabularyEntry],
    incorrect_distractor_count: usize,
) -> (r: Option<Vec<String>>)
    ensures
        match r {
            Some(v) => distractors_for(
                *entry,
                direction,
                selected_category_id,
                all_entries@,
                incorrect_distractor_count as nat,
            ) == Some(texts_of(v@)),
            None => distractors_for(
                *entry,
                direction,
                selected_category_id,
                all_entries@,
                incorrect_distractor_count as nat,
            ) is None,
        },
        r matches Some(v) ==> forall|i: int|
            0 <= i < v@.len() ==> #[trigger] offered_among(v@[i]@, all_entries@, *entry),
{
    let answer_language = direction.answer_language(entry);
    let correct_text = direction.answer_text(entry);
    let mut same_category: Vec<String> = Vec::new();
    let mut other_category: Vec<String> = Vec::new();
    let mut i: usize = 0;
    while i < all_entries.len()
        invariant
            i <= all_entries@.len(),
            answer_language@ == answer_language_of(direction, *entry),
            correct_text@ == answer_text_of(direction, *entry),
            texts_of(same_category@) == candidate_texts(
                all_entries@.take(i as int),
                *entry,
                direction,
                selected_category_id,
                true,
            ),
            texts_of(other_category@) == candidate_texts(
                all_entries@.take(i as int),
                *entry,
                direction,
                selected_category_id,
                false,
            ),
        decreases all_entries@.len() - i,
    {
        let other = &all_entries[i];
        let ghost prefix = all_entries@.take(i + 1);
        assert(prefix.drop_last() =~= all_entries@.take(i as int));
        assert(prefix.last() == *other);
        if other.id != entry.id && is_same_language_pair(other, entry) {
            match text_in_language(other, answer_language) {
                Some(text) => {
                    if !str_eq(text.as_str(), correct_text) {
                        if in_category(other, selected_category_id) {
                            let ghost before = same_category@;
                            same_category.push(text);
                            assert(texts_of(same_category@) =~= texts_of(before).push(
                                same_category@.last()@,
                            ));
                        } else {
                            let ghost before = other_category@;
                            other_category.push(text);
                            assert(texts_of(other_category@) =~= texts_of(before).push(
                                other_category@.last()@,
                            ));
                        }
                    }
                },
                None => {},
            }
        }
        i = i + 1;
    }
    assert(all_entries@.take(all_entries@.len() as int) =~= all_entries@);
    let ghost candidates = texts_of(same_category@) + texts_of(other_category@);
    let ghost same_view = texts_of(same_category@);
    let ghost other_view = texts_of(other_category@);
    same_category.append(&mut other_category);
    assert(texts_of(same_category@) =~= candidates);
    let mut distinct: Vec<String> = Vec::new();
    let mut j: usize = 0;
    while j < same_category.len()
        invariant
            j <= same_category@.len(),
            texts_of(same_category@) == candidates,
            texts_of(distinct@) == take_distinct(
                candidates.take(j as int),
                incorrect_distractor_count as nat,
            ),
        decreases same_category@.len() - j,
    {
        let ghost prefix = candidates.take(j + 1);
        assert(prefix.drop_last() =~= candidates.take(j as int));
        assert(prefix.last() == same_category@[j as int]@);
        if distinct.len() < incorrect_distractor_count && !contains_text(
            &distinct,
            same_category[j].as_str(),
        ) {
            let ghost before = distinct@;
            distinct.push(same_category[j].clone());
            assert(texts_of(distinct@) =~= texts_of(before).push(distinct@.last()@));
        }
        j = j + 1;
    }
    assert(candidates.take(same_category@.len() as int) =~= candidates);
    if distinct.len() == incorrect_distractor_count {
        proof {
            lemma_distractors_come_from_the_language_pair(
                *entry,
                direction,
                selected_category_id,
                all_entries@,
                incorrect_distractor_count as nat,
            );
            assert forall|i: int| 0 <= i < distinct@.len() implies #[trigger] offered_among(
                distinct@[i]@,
                all_entries@,
                *entry,
            ) by {
                let d = distractors_for(
                    *entry,
                    direction,
                    selected_category_id,
                    all_entries@,
                    incorrect_distractor_count as nat,
                )->0;
                assert(d == texts_of(distinct@));
                assert(texts_of(distinct@)[i] == distinct@[i]@);
                assert(offered_among(d[i], all_entries@, *entry));
            }
        }
        Some(distinct)
    } else {
        None
    }
}

/// The abstract content of an option that the shuffle preserves: its text
/// and whether it is the correct one.
pub open spec fn option_cores(options: Seq<OptionSnapshot>) -> Seq<(Seq<char>, bool)> {
    options.map_values(|o: OptionSnapshot| (o.text@, o.is_correct))
}

/// The translation options a Question on a given correct answer and
/// distractors must hold, in some order.
pub open spec fn expected_cores(correct: Seq<char>, distractors: Seq<Seq<char>>) -> Seq<
    (Seq<char>, bool),
> {
    distractors.map_values(|d: Seq<char>| (d, false)).push((correct, true))
}

/// Whether `options` is a Question's option list for the correct answer
/// `correct` and `distractors`: every distractor and the correct answer
/// exactly once, in any order, numbered from 1, followed by a trailing
/// "Don't know".
pub open spec fn options_well_formed(
    options: Seq<OptionSnapshot>,
    correct: Seq<char>,
    distractors: Seq<Seq<char>>,
) -> bool {
    let n = options.len();
    &&& n == distractors.len() + 2
    &&& forall|i: int| 0 <= i < n ==> (#[trigger] options[i]).id == ((i + 1) as u32)
    &&& forall|i: int| 0 <= i < n - 1 ==> !(#[trigger] options[i]).is_dont_know
    &&& options[n - 1].is_dont_know
    &&& !options[n - 1].is_correct
    &&& options[n - 1].text@ == "Don't know"@
    &&& option_cores(options.take(n - 1)).to_multiset() == expected_cores(
        correct,
        distractors,
    ).to_multiset()
}

/// Whether `q` is a Question on `entry` in `direction` offering
/// `distractors`.
pub open spec fn question_for(
    q: GeneratedQuestion,
    entry: VocabularyEntry,
    direction: TranslationDirection,
    distractors: Seq<Seq<char>>,
) -> bool {
    &&& q.vocabulary_entry_id == entry.id
    &&& q.direction == direction
    &&& q.prompt_text@ == prompt_text_of(direction, entry)
    &&& options_well_formed(q.options@, answer_text_of(direction, entry), distractors)
}

/// The correctness flags of a Question's options, in order.
pub open spec fn correctness_flags(options: Seq<OptionSnapshot>) -> Seq<bool> {
    options.map_values(|o: OptionSnapshot| o.is_correct)
}

proof fn lemma_false_flags_count(n: nat)
    ensures
        Seq::new(n, |i: int| false).to_multiset().count(true) == 0,
        Seq::new(n, |i: int| false).to_multiset().count(false) == n,
    decreases n,
{
    broadcast use vstd::multiset::group_multiset_axioms;

    let s = Seq::new(n, |i: int| false);
    if n == 0 {
        assert(s.to_multiset() =~= Multiset::<bool>::empty());
    } else {
        let shorter = Seq::new((n - 1) as nat, |i: int| false);
        assert(s =~= shorter.push(false));
        lemma_false_flags_count((n - 1) as nat);
        vstd::seq_lib::to_multiset_build(shorter, false);
    }
}

/// A well-formed Question has exactly one correct option; every other
/// option — each distractor and the trailing "Don't know" — is flagged
/// incorrect.
pub proof fn lemma_exactly_one_correct_option(
    options: Seq<OptionSnapshot>,
    correct: Seq<char>,
    distractors: Seq<Seq<char>>,
)
    requires
        options_well_formed(options, correct, distractors),
    ensures
        correctness_flags(options).to_multiset().count(true) == 1,
        correctness_flags(options).to_multiset().count(false) == distractors.len() + 1,
{
    broadcast use vstd::multiset::group_multiset_axioms;

    let n = options.len();
    let translations = options.take(n - 1);
    let flag = |c: (Seq<char>, bool)| c.1;
    lemma_map_preserves_multiset(option_cores(translations), expected_cores(correct, distractors), flag);
    assert(option_cores(translations).map_values(flag) =~= correctness_flags(translations));
    let falses = Seq::new(distractors.len(), |i: int| false);
    assert(expected_cores(correct, distractors).map_values(flag) =~= falses.push(true));
    lemma_false_flags_count(distractors.len());
    vstd::seq_lib::to_multiset_build(falses, true);
    assert(correctness_flags(options) =~= correctness_flags(translations).push(false));
    vstd::seq_lib::to_multiset_build(correctness_flags(translations), false);
}

/// Mapping two sequences that hold the same items, each as often, gives two
/// sequences that again hold the same items.
proof fn lemma_map_preserves_multiset<A, B>(s1: Seq<A>, s2: Seq<A>, f: spec_fn(A) -> B)
    requires
        s1.to_multiset() == s2.to_multiset(),
    ensures
        s1.map_values(f).to_multiset() == s2.map_values(f).to_multiset(),
    decreases s1.len(),
{
    if s1.len() == 0 {
        assert(s1.to_multiset().len() == 0);
        assert(s2.to_multiset().len() == 0);
        assert(s2.len() == 0);
        assert(s1.map_values(f) =~= Seq::<B>::empty());
        assert(s2.map_values(f) =~= Seq::<B>::empty());
    } else {
        let x = s1.last();
        let s1p = s1.drop_last();
        assert(s1 =~= s1p.push(x));
        assert(s1.to_multiset().count(x) > 0);
        assert(s2.contains(x));
        let i = choose|i: int| 0 <= i < s2.len() && s2[i] == x;
        let s2p = s2.remove(i);
        assert(s2p.to_multiset() =~= s2.to_multiset().remove(x));
        assert(s1p.to_multiset() =~= s1.to_multiset().remove(x));
        lemma_map_preserves_multiset(s1p, s2p, f);
        assert(s1.map_values(f) =~= s1p.map_values(f).push(f(x)));
        assert(s2.map_values(f).remove(i) =~= s2p.map_values(f));
        assert(s2.map_values(f)[i] == f(x));
        assert(s2.map_values(f).to_multiset().remove(f(x)) =~= s2p.map_values(f).to_multiset());
        assert(s2.map_values(f).to_multiset().count(f(x)) > 0);
        assert(s2.map_values(f).to_multiset() =~= s2p.map_values(f).to_multiset().insert(f(x)));
    }
}

/// The literal "Don't know" option text.
fn dont_know_text() -> (s: String)
    ensures
        s@ == "Don't know"@,
{
    String::from_str("Don't know")
}

/// Builds one Question's immutable option snapshot: the correct answer plus
/// its incorrect distractors, shuffled together, with "Don't know" always
/// last.
pub fn build_question(
    entry: &VocabularyEntry,
    direction: TranslationDirection,
    distractor_texts: Vec<String>,
    rng: &mut StdRng,
) -> (q: GeneratedQuestion)
    ensures
        question_for(q, *entry, direction, texts_of(distractor_texts@)),
{
    let ghost distractors = texts_of(distractor_texts@);
    let mut translation: Vec<OptionSnapshot> = Vec::new();
    let mut i: usize = 0;
    while i < distractor_texts.len()
        invariant
            i <= distractor_texts@.len(),
            distractors == texts_of(distractor_texts@),
            translation@.len() == i,
            option_cores(translation@) == distractors.take(i as int).map_values(
                |d: Seq<char>| (d, false),
            ),
        decreases distractor_texts@.len() - i,
    {
        let ghost before = translation@;
        translation.push(
            OptionSnapshot {
                id: 0,
                text: distractor_texts[i].clone(),
                is_correct: false,
                is_dont_know: false,
            },
        );
        assert(option_cores(translation@) =~= option_cores(before).push(
            (distractors[i as int], false),
        ));
        assert(distractors.take(i + 1) =~= distractors.take(i as int).push(distractors[i as int]));
        assert(distractors.take(i + 1).map_values(|d: Seq<char>| (d, false)) =~= distractors.take(
            i as int,
        ).map_values(|d: Seq<char>| (d, false)).push((distractors[i as int], false)));
        i = i + 1;
    }
    assert(distractors.take(distractor_texts@.len() as int) =~= distractors);
    let ghost before_correct = translation@;
    translation.push(
        OptionSnapshot {
            id: 0,
            text: String::from_str(direction.answer_text(entry)),
            is_correct: true,
            is_dont_know: false,
        },
    );
    assert(option_cores(translation@) =~= option_cores(before_correct).push(
        (answer_text_of(direction, *entry), true),
    ));
    assert(option_cores(translation@) =~= expected_cores(
        answer_text_of(direction, *entry),
        distractors,
    ));
    let ghost unshuffled = translation@;
    shuffle_in_place(&mut translation, rng);
    proof {
        assert(translation@.to_multiset().len() == unshuffled.to_multiset().len());
        assert(translation@.len() == distractor_texts@.len() + 1);
        lemma_map_preserves_multiset(
            translation@,
            unshuffled,
            |o: OptionSnapshot| (o.text@, o.is_correct),
        );
    }
    let mut options: Vec<OptionSnapshot> = Vec::new();
    let mut k: usize = 0;
    while k < translation.len()
        invariant
            k <= translation@.len(),
            options@.len() == k,
            option_cores(options@) == option_cores(translation@.take(k as int)),
            forall|m: int| 0 <= m < k ==> (#[trigger] options@[m]).id == ((m + 1) as u32),
            forall|m: int| 0 <= m < k ==> !(#[trigger] options@[m]).is_dont_know,
        decreases translation@.len() - k,
    {
        let ghost before = options@;
        let id: u32 = #[verifier::truncate] ((k as u128 + 1) as u32);
        options.push(
            OptionSnapshot {
                id,
                text: translation[k].text.clone(),
                is_correct: translation[k].is_correct,
                is_dont_know: false,
            },
        );
        assert(option_cores(options@) =~= option_cores(before).push(
            (translation@[k as int].text@, translation@[k as int].is_correct),
        ));
        assert(option_cores(translation@.take(k + 1)) =~= option_cores(
            translation@.take(k as int),
        ).push((translation@[k as int].text@, translation@[k as int].is_correct)));
        k = k + 1;
    }
    assert(translation@.take(translation@.len() as int) =~= translation@);
    let ghost translated = options@;
    let last_id: u32 = #[verifier::truncate] ((options.len() as u128 + 1) as u32);
    options.push(
        OptionSnapshot { id: last_id, text: dont_know_text(), is_correct: false, is_dont_know: true },
    );
    assert(options@.take(options@.len() - 1) =~= translated);
    GeneratedQuestion {
        vocabulary_entry_id: entry.id,
        direction,
        prompt_text: String::from_str(direction.prompt_text(entry)),
        options,
    }
}

/// Whether `entry` may be asked in this session: it is out of its retest
/// cooldown and enough distinct distractors exist.
pub open spec fn is_eligible(entry: VocabularyEntry, input: GenerateSessionInput) -> bool {
    &&& !in_cooldown(
        lookup_last_correct(input.last_correct_at@, entry.id, input.direction),
        input.min_interval_before_retest_millis,
        input.now,
    )
    &&& distractors_for(
        entry,
        input.direction,
        input.category_id,
        input.all_entries@,
        input.incorrect_distractor_count as nat,
    ) is Some
}

/// The Eligible Entries among `entries`, in order.
pub open spec fn eligible_entries(entries: Seq<VocabularyEntry>, input: GenerateSessionInput) -> Seq<
    VocabularyEntry,
>
    decreases entries.len(),
{
    if entries.len() == 0 {
        seq![]
    } else {
        let prev = eligible_entries(entries.drop_last(), input);
        if is_eligible(entries.last(), input) {
            prev.push(entries.last())
        } else {
            prev
        }
    }
}

/// Whether `q` is the Question generated for eligible `entry`.
pub open spec fn generated_for(
    q: GeneratedQuestion,
    entry: VocabularyEntry,
    input: GenerateSessionInput,
) -> bool {
    question_for(
        q,
        entry,
        input.direction,
        distractors_for(
            entry,
            input.direction,
            input.category_id,
            input.all_entries@,
            input.incorrect_distractor_count as nat,
        )->0,
    )
}

/// The `k`-th Eligible Entry of the session's Category.
pub open spec fn nth_eligible(input: GenerateSessionInput, k: int) -> VocabularyEntry {
    eligible_entries(input.category_entries@, input)[k]
}

/// How many Questions a session gets: the requested count, capped by the
/// number of Eligible Entries.
pub open spec fn session_question_count(input: GenerateSessionInput) -> int {
    let available = eligible_entries(input.category_entries@, input).len() as int;
    if (input.requested_count as int) < available {
        input.requested_count as int
    } else {
        available
    }
}

/// Whether `q` is the Question of one of the first
/// [`session_question_count`] Eligible Entries.
pub open spec fn is_selected_question(q: GeneratedQuestion, input: GenerateSessionInput) -> bool {
    exists|k: int|
        0 <= k < session_question_count(input) && generated_for(
            q,
            #[trigger] nth_eligible(input, k),
            input,
        )
}

/// Whether `questions` holds a Question for the `k`-th Eligible Entry.
pub open spec fn has_question_for(
    questions: Seq<GeneratedQuestion>,
    input: GenerateSessionInput,
    k: int,
) -> bool {
    exists|i: int| 0 <= i < questions.len() && generated_for(#[trigger] questions[i], nth_eligible(input, k), input)
}

proof fn lemma_eligible_entries_are_eligible(entries: Seq<VocabularyEntry>, input: GenerateSessionInput)
    ensures
        forall|k: int|
            0 <= k < eligible_entries(entries, input).len() ==> entries.contains(
                #[trigger] eligible_entries(entries, input)[k],
            ) && is_eligible(eligible_entries(entries, input)[k], input),
    decreases entries.len(),
{
    if entries.len() > 0 {
        let rest = entries.drop_last();
        lemma_eligible_entries_are_eligible(rest, input);
        let prev = eligible_entries(rest, input);
        let all = eligible_entries(entries, input);
        assert forall|k: int| 0 <= k < all.len() implies entries.contains(#[trigger] all[k])
            && is_eligible(all[k], input) by {
            if k < prev.len() {
                assert(all[k] == prev[k]);
                let j = choose|j: int| 0 <= j < rest.len() && rest[j] == prev[k];
                assert(entries[j] == rest[j]);
            } else {
                assert(all[k] == entries.last());
                assert(entries[entries.len() - 1] == entries.last());
            }
        }
    }
}

/// Every Question of a generated session asks, in the session's direction,
/// about an entry of the session's Category that is Eligible — outside its
/// retest cooldown and with a full set of distinct wrong answers — and has
/// exactly one correct option.
pub proof fn lemma_selected_questions_are_eligible(q: GeneratedQuestion, input: GenerateSessionInput)
    requires
        is_selected_question(q, input),
    ensures
        exists|e: VocabularyEntry|
            #[trigger] input.category_entries@.contains(e) && q.vocabulary_entry_id == e.id
                && is_eligible(e, input),
        q.direction == input.direction,
        correctness_flags(q.options@).to_multiset().count(true) == 1,
{
    let k = choose|k: int|
        0 <= k < session_question_count(input) && generated_for(q, #[trigger] nth_eligible(input, k), input);
    let e = nth_eligible(input, k);
    lemma_eligible_entries_are_eligible(input.category_entries@, input);
    assert(input.category_entries@.contains(e) && is_eligible(e, input));
    lemma_exactly_one_correct_option(
        q.options@,
        answer_text_of(input.direction, e),
        distractors_for(
            e,
            input.direction,
            input.category_id,
            input.all_entries@,
            input.incorrect_distractor_count as nat,
        )->0,
    );
}

/// The last-correct instant looked up for an entry and a direction comes
/// from a record of that very entry in that very direction; when no record
/// has both, none is found.
pub proof fn lemma_last_correct_is_keyed_by_entry_and_direction(
    records: Seq<LastCorrect>,
    id: VocabularyEntryId,
    direction: TranslationDirection,
)
    ensures
        match lookup_last_correct(records, id, direction) {
            Some(t) => exists|i: int|
                0 <= i < records.len() && (#[trigger] records[i]).vocabulary_entry_id == id
                    && records[i].direction == direction && records[i].last_correct_at == t,
            None => forall|i: int|
                0 <= i < records.len() ==> !((#[trigger] records[i]).vocabulary_entry_id == id
                    && records[i].direction == direction),
        },
    decreases records.len(),
{
    if records.len() > 0 {
        let rest = records.drop_first();
        lemma_last_correct_is_keyed_by_entry_and_direction(rest, id, direction);
        if records[0].vocabulary_entry_id == id && records[0].direction == direction {
            assert(records[0].last_correct_at == lookup_last_correct(records, id, direction)->0);
        } else {
            match lookup_last_correct(rest, id, direction) {
                Some(t) => {
                    let i = choose|i: int|
                        0 <= i < rest.len() && (#[trigger] rest[i]).vocabulary_entry_id == id
                            && rest[i].direction == direction && rest[i].last_correct_at == t;
                    assert(records[i + 1] == rest[i]);
                },
                None => {
                    assert forall|i: int| 0 <= i < records.len() implies !((
                    #[trigger] records[i]).vocabulary_entry_id == id && records[i].direction
                        == direction) by {
                        if i > 0 {
                            assert(records[i] == rest[i - 1]);
                        }
                    }
                },
            }
        }
    }
}

/// A correct answer recorded for another entry, or for the same entry in
/// the other direction, never puts an entry in its retest cooldown: only a
/// record of the same entry in the same direction can.
pub proof fn lemma_cooldown_needs_a_record_in_that_direction(
    records: Seq<LastCorrect>,
    id: VocabularyEntryId,
    direction: TranslationDirection,
    min_interval_millis: i64,
    now: Timestamp,
)
    requires
        forall|i: int|
            0 <= i < records.len() ==> !((#[trigger] records[i]).vocabulary_entry_id == id
                && records[i].direction == direction),
    ensures
        !in_cooldown(lookup_last_correct(records, id, direction), min_interval_millis, now),
{
    lemma_last_correct_is_keyed_by_entry_and_direction(records, id, direction);
    if lookup_last_correct(records, id, direction) is Some {
        let t = lookup_last_correct(records, id, direction)->0;
        let i = choose|i: int|
            0 <= i < records.len() && (#[trigger] records[i]).vocabulary_entry_id == id
                && records[i].direction == direction && records[i].last_correct_at == t;
        assert(!(records[i].vocabulary_entry_id == id && records[i].direction == direction));
    }
}

/// The retest cooldown lasts exactly the configured interval: with a
/// correct answer at `t`, an entry is in cooldown `elapsed` nanoseconds
/// later exactly when `elapsed` is less than `min_interval_millis`
/// milliseconds of 1,000,000 nanoseconds each; with no correct answer it
/// never is.
pub proof fn lemma_cooldown_lasts_the_interval(
    t: Timestamp,
    min_interval_millis: i64,
    elapsed: int,
    now: Timestamp,
)
    requires
        now.unix_nanos == t.unix_nanos + elapsed,
    ensures
        in_cooldown(Some(t), min_interval_millis, now) <==> elapsed < min_interval_millis * 1_000_000,
        !in_cooldown(None, min_interval_millis, now),
{
}

/// The recorded last-correct instant for an entry and direction.
fn find_last_correct(
    records: &[LastCorrect],
    id: VocabularyEntryId,
    direction: TranslationDirection,
) -> (r: Option<Timestamp>)
    ensures
        r == lookup_last_correct(records@, id, direction),
        r matches Some(t) ==> exists|i: int|
            0 <= i < records@.len() && (#[trigger] records@[i]).vocabulary_entry_id == id
                && records@[i].direction == direction && records@[i].last_correct_at == t,
        r is None ==> forall|i: int|
            0 <= i < records@.len() ==> !((#[trigger] records@[i]).vocabulary_entry_id == id
                && records@[i].direction == direction),
{
    proof {
        lemma_last_correct_is_keyed_by_entry_and_direction(records@, id, direction);
    }
    let mut i: usize = 0;
    assert(records@.subrange(0, records@.len() as int) =~= records@);
    while i < records.len()
        invariant
            i <= records@.len(),
            lookup_last_correct(records@, id, direction) == lookup_last_correct(
                records@.subrange(i as int, records@.len() as int),
                id,
                direction,
            ),
        decreases records@.len() - i,
    {
        let ghost rest = records@.subrange(i as int, records@.len() as int);
        assert(rest.drop_first() =~= records@.subrange(i + 1, records@.len() as int));
        if records[i].vocabulary_entry_id == id && records[i].direction == direction {
            return Some(records[i].last_correct_at);
        }
        i = i + 1;
    }
    None
}

/// Every record's instant is in range, as a clock reading always is.
pub open spec fn records_wf(records: Seq<LastCorrect>) -> bool {
    forall|i: int| 0 <= i < records.len() ==> (#[trigger] records[i]).last_correct_at.wf()
}

proof fn lemma_lookup_wf(records: Seq<LastCorrect>, id: VocabularyEntryId, direction: TranslationDirection)
    requires
        records_wf(records),
    ensures
        lookup_last_correct(records, id, direction) matches Some(t) ==> t.wf(),
    decreases records.len(),
{
    if records.len() > 0 {
        assert(records_wf(records.drop_first())) by {
            assert forall|i: int| 0 <= i < records.drop_first().len() implies (
            #[trigger] records.drop_first()[i]).last_correct_at.wf() by {
                assert(records.drop_first()[i] == records[i + 1]);
            }
        }
        lemma_lookup_wf(records.drop_first(), id, direction);
    }
}

/// Generates the Question set for a new Practice Session: filters candidate
/// entries down to Eligible Entries (Category membership, retest cooldown,
/// distractor availability), selects the first `requested_count` of them,
/// and shuffles both the selected Questions' order and each Question's
/// option order.
///
/// Entry selection is not priority-ranked — every Eligible Entry is weighted
/// equally, so candidates are taken in the order they are passed in.
pub fn generate_session_questions(input: GenerateSessionInput, rng: &mut StdRng) -> (r: Vec<
    GeneratedQuestion,
>)
    requires
        input.now.wf(),
        records_wf(input.last_correct_at@),
        input.min_interval_before_retest_millis > i64::MIN || forall|k: int|
            0 <= k < input.category_entries@.len() ==> lookup_last_correct(
                input.last_correct_at@,
                (#[trigger] input.category_entries@[k]).id,
                input.direction,
            ) is None,
    ensures
        r@.len() == session_question_count(input),
        forall|i: int| 0 <= i < r@.len() ==> is_selected_question(#[trigger] r@[i], input),
        forall|k: int|
            0 <= k < session_question_count(input) ==> #[trigger] has_question_for(r@, input, k),
{
    let mut eligible: Vec<GeneratedQuestion> = Vec::new();
    let mut i: usize = 0;
    while i < input.category_entries.len()
        invariant
            i <= input.category_entries@.len(),
            input.now.wf(),
            records_wf(input.last_correct_at@),
            input.min_interval_before_retest_millis > i64::MIN || forall|k: int|
                0 <= k < input.category_entries@.len() ==> lookup_last_correct(
                    input.last_correct_at@,
                    (#[trigger] input.category_entries@[k]).id,
                    input.direction,
                ) is None,
            eligible@.len() == eligible_entries(input.category_entries@.take(i as int), input).len(),
            forall|k: int|
                0 <= k < eligible@.len() ==> generated_for(
                    #[trigger] eligible@[k],
                    eligible_entries(input.category_entries@.take(i as int), input)[k],
                    input,
                ),
        decreases input.category_entries@.len() - i,
    {
        let entry = &input.category_entries[i];
        let ghost prefix = input.category_entries@.take(i + 1);
        assert(prefix.drop_last() =~= input.category_entries@.take(i as int));
        assert(prefix.last() == *entry);
        let ghost before = eligible_entries(input.category_entries@.take(i as int), input);
        let last = find_last_correct(input.last_correct_at, entry.id, input.direction);
        proof {
            lemma_lookup_wf(input.last_correct_at@, entry.id, input.direction);
            assert(input.category_entries@[i as int] == *entry);
        }
        if !is_in_cooldown(last, input.min_interval_before_retest_millis, input.now) {
            match find_distractor_texts(
                entry,
                input.direction,
                input.category_id,
                input.all_entries,
                input.incorrect_distractor_count,
            ) {
                Some(distractors) => {
                    let question = build_question(entry, input.direction, distractors, rng);
                    let ghost old_eligible = eligible@;
                    eligible.push(question);
                    assert(eligible_entries(prefix, input) == before.push(*entry));
                    assert forall|k: int| 0 <= k < eligible@.len() implies generated_for(
                        #[trigger] eligible@[k],
                        eligible_entries(prefix, input)[k],
                        input,
                    ) by {
                        if k < old_eligible.len() {
                            assert(eligible@[k] == old_eligible[k]);
                        }
                    }
                },
                None => {},
            }
        }
        i = i + 1;
    }
    assert(input.category_entries@.take(input.category_entries@.len() as int)
        =~= input.category_entries@);
    let count: usize = if (input.requested_count as usize) < eligible.len() {
        input.requested_count as usize
    } else {
        eligible.len()
    };
    let ghost untruncated = eligible@;
    eligible.truncate(count);
    let ghost selected = eligible@;
    assert(selected.len() == session_question_count(input));
    assert forall|k: int| 0 <= k < selected.len() implies generated_for(
        #[trigger] selected[k],
        nth_eligible(input, k),
        input,
    ) by {
        assert(selected[k] == untruncated[k]);
    }
    shuffle_in_place(&mut eligible, rng);
    assert(eligible@.to_multiset().len() == selected.to_multiset().len());
    assert forall|i: int| 0 <= i < eligible@.len() implies is_selected_question(
        #[trigger] eligible@[i],
        input,
    ) by {
        assert(eligible@.to_multiset().count(eligible@[i]) > 0);
        assert(selected.contains(eligible@[i]));
        let k = choose|k: int| 0 <= k < selected.len() && selected[k] == eligible@[i];
        assert(generated_for(eligible@[i], nth_eligible(input, k), input));
    }
    assert forall|k: int| 0 <= k < session_question_count(input) implies #[trigger] has_question_for(
        eligible@,
        input,
        k,
    ) by {
        assert(selected.to_multiset().count(selected[k]) > 0);
        assert(eligible@.contains(selected[k]));
        let i = choose|i: int| 0 <= i < eligible@.len() && eligible@[i] == selected[k];
        assert(generated_for(eligible@[i], nth_eligible(input, k), input));
    }
    eligible
}

} // verus!
