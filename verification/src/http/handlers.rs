//! What the `/terms` and `/cards` handlers decide before and after they
//! touch the store: which Term and Cards a request writes, and how the
//! `due_before` bound is read.

use crate::http::error::AppError;
use crate::instant::Timestamp;
use crate::model::{NewTerm, PracticeCard};
use crate::scheduler::{stored_box, Leitner, Scheduler};
use crate::terms::{
    card_id_of, card_seeds, lemma_identity_ignores_notes_and_padding, empty_field_message, first_blank_field, term_id, term_id_of,
    prompt_and_answer, uuid_hyphenated, uuid_text, validate_import, validate_new_term, CardSeed,
};
use crate::model::PromptSide;
use crate::text::{decimal_chars, trim_chars};
use vstd::prelude::*;

verus! {

/// The `GET /cards` query. Both fields optional: with neither, every Card
/// is returned; `due_before` (ISO-8601) keeps only Cards due at or before
/// it and `limit` caps the count — that pair is how the practice screen
/// pulls its queue.
#[derive(Clone, Debug, PartialEq, Eq)]
pub struct DueQuery {
    pub due_before: Option<String>,
    pub limit: Option<i64>,
}

/// What `chrono` makes of `raw` as an RFC 3339 timestamp: `Ok` with the
/// same instant written in UTC by `DateTime::<Utc>::to_rfc3339`, or `Err`
/// with the text of the parse error.
pub uninterp spec fn rfc3339_in_utc(raw: Seq<char>) -> Result<Seq<char>, Seq<char>>;

/// Re-writes an RFC 3339 timestamp in UTC, via
/// `chrono::DateTime::parse_from_rfc3339`, `with_timezone(&Utc)` and
/// `to_rfc3339`; on failure, the `Display` text of chrono's `ParseError`.
/// Both texts are only named: chrono's grammar and formatting are not
/// restated.
#[verifier::external_body]
fn utc_rfc3339(raw: &str) -> (r: Result<String, String>)
    ensures
        match r {
            Ok(s) => rfc3339_in_utc(raw@) == Ok::<Seq<char>, Seq<char>>(s@),
            Err(m) => rfc3339_in_utc(raw@) == Err::<Seq<char>, Seq<char>>(m@),
        },
{
    match chrono::DateTime::parse_from_rfc3339(raw) {
        Ok(instant) => Ok(instant.with_timezone(&chrono::Utc).to_rfc3339()),
        Err(e) => Err(e.to_string()),
    }
}

/// The message of a rejected `due_before`.
pub open spec fn due_before_message(reason: Seq<char>) -> Seq<char> {
    "due_before is not an ISO-8601 timestamp: "@ + reason
}

/// Turns chrono's reading of a `due_before` value into the bound the store
/// compares against, or the `400` that rejects it.
pub fn due_before_from_parse(parsed: Result<String, String>) -> (r: Result<String, AppError>)
    ensures
        match parsed {
            Ok(s) => r == Ok::<String, AppError>(s),
            Err(reason) => r matches Err(AppError::BadRequest(m)) && m@ == due_before_message(
                reason@,
            ),
        },
{
    match parsed {
        Ok(s) => Ok(s),
        Err(reason) => {
            let mut m = String::from_str("due_before is not an ISO-8601 timestamp: ");
            m.append(reason.as_str());
            proof {
                reveal_strlit("due_before is not an ISO-8601 timestamp: ");
            }
            Err(AppError::BadRequest(m))
        },
    }
}

/// Normalises the optional `due_before` bound to a UTC RFC 3339 string, so
/// the store's text comparison against stored `due_at` (also UTC) is by
/// instant, not by the offset notation the client happened to send.
pub fn normalize_due_before(raw: Option<&str>) -> (r: Result<Option<String>, AppError>)
    ensures
        match raw {
            None => r == Ok::<Option<String>, AppError>(None),
            Some(text) => match rfc3339_in_utc(text@) {
                Ok(s) => r matches Ok(Some(bound)) && bound@ == s,
                Err(reason) => r matches Err(AppError::BadRequest(m)) && m@ == due_before_message(
                    reason,
                ),
            },
        },
{
    match raw {
        None => Ok(None),
        Some(text) => match due_before_from_parse(utc_rfc3339(text)) {
            Ok(bound) => Ok(Some(bound)),
            Err(e) => Err(e),
        },
    }
}

/// What inserting one Term writes: its derived id and its two Cards.
#[derive(Clone, Debug)]
pub struct TermPlan {
    pub id: String,
    pub cards: [CardSeed; 2],
}

/// Whether `plan` is what `term` writes when created at `now` under
/// `scheduler`: the hyphenated id derived from its identity fields, and the
/// recognition then production Card, each with its derived id and the
/// scheduler's starting schedule.
pub open spec fn plan_for<S: Scheduler>(plan: TermPlan, term: NewTerm, scheduler: S, now: Timestamp) -> bool {
    &&& plan.id@ == uuid_hyphenated(term_id_of(term))
    &&& plan.cards[0].prompt_side == PromptSide::Foreign
    &&& plan.cards[1].prompt_side == PromptSide::Pivot
    &&& forall|i: int|
        0 <= i < 2 ==> (#[trigger] plan.cards[i]).id@ == uuid_hyphenated(
            card_id_of(plan.id@, plan.cards[i].prompt_side),
        ) && plan.cards[i].schedule@ == scheduler.initial_schedule(now)
}

/// The Term and Cards a valid `term` yields.
fn plan_valid_term<S: Scheduler>(term: &NewTerm, scheduler: &S, now: Timestamp) -> (plan: TermPlan)
    requires
        now.wf(),
    ensures
        plan_for(plan, *term, *scheduler, now),
{
    let id = uuid_text(term_id(term));
    let cards = card_seeds(id.as_str(), scheduler, now);
    TermPlan { id, cards }
}

/// The write behind `POST /terms`: a `400` naming the first blank identity
/// field, or the Term's derived id with its two Cards. Re-posting the same
/// Term plans the same ids, which is what makes the store's insert
/// idempotent.
pub fn plan_term<S: Scheduler>(term: &NewTerm, scheduler: &S, now: Timestamp) -> (r: Result<
    TermPlan,
    AppError,
>)
    requires
        now.wf(),
    ensures
        match r {
            Ok(plan) => first_blank_field(*term) is None && plan_for(plan, *term, *scheduler, now),
            Err(e) => first_blank_field(*term) matches Some(field) && e matches AppError::BadRequest(
                m,
            ) && m@ == empty_field_message(field),
        },
{
    match validate_new_term(term) {
        Ok(()) => Ok(plan_valid_term(term, scheduler, now)),
        Err(e) => Err(AppError::BadRequest(e.to_string())),
    }
}

/// Whether `message` rejects an import batch at element `index`: the first
/// element with a blank identity field, named with its field.
pub open spec fn import_rejection(terms: Seq<NewTerm>, index: int, message: Seq<char>) -> bool {
    &&& 0 <= index < terms.len()
    &&& forall|j: int| 0 <= j < index ==> first_blank_field(#[trigger] terms[j]) is None
    &&& first_blank_field(terms[index]) matches Some(field) && message == "element "@
        + decimal_chars(index as nat) + ": "@ + empty_field_message(field)
}

/// The write behind `POST /terms/import`: all or nothing. A `400` naming
/// the first invalid element when any is invalid; otherwise one plan per
/// element, in order.
pub fn plan_import<S: Scheduler>(terms: &[NewTerm], scheduler: &S, now: Timestamp) -> (r: Result<
    Vec<TermPlan>,
    AppError,
>)
    requires
        now.wf(),
    ensures
        r matches Ok(plans) ==> {
            &&& forall|i: int| 0 <= i < terms@.len() ==> first_blank_field(#[trigger] terms@[i]) is None
            &&& plans@.len() == terms@.len()
            &&& forall|i: int|
                0 <= i < terms@.len() ==> plan_for(#[trigger] plans@[i], terms@[i], *scheduler, now)
        },
        r matches Err(e) ==> e matches AppError::BadRequest(m) && exists|index: int|
            import_rejection(terms@, index, m@),
{
    match validate_import(terms) {
        Ok(()) => {},
        Err(e) => {
            let m = e.to_string();
            let ghost index = e.index as int;
            assert(import_rejection(terms@, index, m@));
            let r: Result<Vec<TermPlan>, AppError> = Err(AppError::BadRequest(m));
            assert(r matches Err(AppError::BadRequest(msg)) && import_rejection(terms@, index, msg@));
            return r;
        },
    }
    let mut plans: Vec<TermPlan> = Vec::new();
    let mut i: usize = 0;
    while i < terms.len()
        invariant
            now.wf(),
            i <= terms@.len(),
            plans@.len() == i,
            forall|k: int| 0 <= k < i ==> plan_for(#[trigger] plans@[k], terms@[k], *scheduler, now),
        decreases terms@.len() - i,
    {
        plans.push(plan_valid_term(&terms[i], scheduler, now));
        i = i + 1;
    }
    Ok(plans)
}

/// Re-posting a Term — or posting one that differs from it only in notes
/// or in whitespace around its texts — plans the same Term id and the same
/// two Card ids, whenever and under whichever schedule it is posted; the
/// store's insert therefore skips it instead of duplicating it.
pub proof fn lemma_replanning_gives_the_same_ids<S: Scheduler>(
    first: TermPlan,
    second: TermPlan,
    a: NewTerm,
    b: NewTerm,
    scheduler: S,
    first_now: Timestamp,
    second_now: Timestamp,
)
    requires
        plan_for(first, a, scheduler, first_now),
        plan_for(second, b, scheduler, second_now),
        trim_chars(a.foreign_lang@) == trim_chars(b.foreign_lang@),
        trim_chars(a.foreign_text@) == trim_chars(b.foreign_text@),
        trim_chars(a.pivot_text@) == trim_chars(b.pivot_text@),
    ensures
        first.id@ == second.id@,
        first.cards[0].id@ == second.cards[0].id@,
        first.cards[1].id@ == second.cards[1].id@,
{
    lemma_identity_ignores_notes_and_padding(a, b);
    assert(first.cards[0].id@ == uuid_hyphenated(card_id_of(first.id@, PromptSide::Foreign)));
    assert(second.cards[0].id@ == uuid_hyphenated(card_id_of(second.id@, PromptSide::Foreign)));
    assert(first.cards[1].id@ == uuid_hyphenated(card_id_of(first.id@, PromptSide::Pivot)));
    assert(second.cards[1].id@ == uuid_hyphenated(card_id_of(second.id@, PromptSide::Pivot)));
}

/// What the API shows of a Card: its Term's texts resolved by
/// `prompt_side` into prompt and answer, and the Leitner box its state
/// records; `None` when the state is a blob Leitner cannot read.
pub fn practice_card(
    card_id: String,
    term_id: String,
    prompt_side: PromptSide,
    foreign_text: &str,
    pivot_text: &str,
    notes: Option<String>,
    due_at: String,
    state: &str,
) -> (r: Option<PracticeCard>)
    ensures
        match r {
            Some(c) => {
                &&& stored_box(state@) == Some(c.box_number as int)
                &&& c.id == card_id
                &&& c.term_id == term_id
                &&& c.prompt_side == prompt_side
                &&& c.notes == notes
                &&& c.due_at == due_at
                &&& prompt_side == PromptSide::Foreign ==> c.prompt@ == foreign_text@ && c.answer@
                    == pivot_text@
                &&& prompt_side == PromptSide::Pivot ==> c.prompt@ == pivot_text@ && c.answer@
                    == foreign_text@
            },
            None => stored_box(state@) is None,
        },
{
    let box_number = match Leitner.box_of(state) {
        Some(b) => b,
        None => {
            return None;
        },
    };
    let (prompt, answer) = prompt_and_answer(prompt_side, foreign_text, pivot_text);
    Some(PracticeCard { id: card_id, term_id, prompt_side, prompt, answer, notes, due_at, box_number })
}

} // verus!
