//! Term identity and validation: the pure decisions behind `POST /terms`
//! and `POST /terms/import`.
//!
//! A Term's id is a UUIDv5 over its canonical name — the three identity
//! fields, each trimmed and NFC-normalised, joined by the ASCII unit
//! separator. Because the id is derived from content, re-adding the same
//! Term is idempotent.

use crate::instant::Timestamp;
use crate::model::{prompt_side_token, NewTerm, PromptSide};
use crate::scheduler::{Schedule, Scheduler};
use crate::text::{
    decimal_chars, is_blank, is_blank_chars, nfc, nfc_chars, push_char, push_decimal, trim,
    trim_chars,
};
use vstd::prelude::*;

verus! {

/// The longest a card side may be. Arbitrary but generous — a flashcard is
/// a prompt, not an essay.
pub const MAX_SIDE_LEN: usize = 1_000;

/// The one hardcoded namespace UUID every derived id in this app hashes
/// under. Generated once and frozen — changing it would change every Term
/// id.
pub const APP_NS: u128 = 0x1b67_1a64_40d5_491e_99b0_da01_ff1f_3341;

/// ASCII unit separator. Joins the identity fields in the canonical string;
/// it cannot occur in normal vocabulary text, so the join is unambiguous.
pub const UNIT_SEP: char = '\u{1f}';

/// The 16 bytes of the UUIDv5 that `uuid` derives from `namespace` and
/// `name` (SHA-1 based).
pub uninterp spec fn uuid_v5_bytes(namespace: u128, name: Seq<u8>) -> Seq<u8>;

/// Lowercase hexadecimal digit for `d` in `0..16`.
pub open spec fn hex_char(d: int) -> char {
    if d < 10 {
        (('0' as u32) + d) as char
    } else {
        (('a' as u32) + d - 10) as char
    }
}

/// Two lowercase hex digits per byte, most significant nibble first.
pub open spec fn hex_chars(bytes: Seq<u8>) -> Seq<char>
    decreases bytes.len(),
{
    if bytes.len() == 0 {
        seq![]
    } else {
        seq![hex_char(bytes[0] as int / 16), hex_char(bytes[0] as int % 16)] + hex_chars(
            bytes.drop_first(),
        )
    }
}

/// The hyphenated lowercase text of a UUID's 16 bytes (8-4-4-4-12 digits).
pub open spec fn uuid_hyphenated(b: Seq<u8>) -> Seq<char> {
    hex_chars(b.subrange(0, 4)) + seq!['-'] + hex_chars(b.subrange(4, 6)) + seq!['-'] + hex_chars(
        b.subrange(6, 8),
    ) + seq!['-'] + hex_chars(b.subrange(8, 10)) + seq!['-'] + hex_chars(b.subrange(10, 16))
}

/// The UUIDv5 of `name` under `namespace`, via `uuid::Uuid::new_v5`. The
/// bytes are named, not restated (SHA-1); what is stated is the version
/// nibble (5) and the RFC 4122 variant bits that `new_v5` always sets.
#[verifier::external_body]
fn uuid_v5(namespace: u128, name: &[u8]) -> (id: [u8; 16])
    ensures
        id@ == uuid_v5_bytes(namespace, name@),
        id@[6] / 16 == 5,
        id@[8] / 64 == 2,
{
    uuid::Uuid::new_v5(&uuid::Uuid::from_u128(namespace), name).into_bytes()
}

/// The hyphenated lowercase text of a UUID, via `uuid::Uuid`'s `Display`.
#[verifier::external_body]
pub(crate) fn uuid_text(id: [u8; 16]) -> (s: String)
    ensures
        s@ == uuid_hyphenated(id@),
{
    uuid::Uuid::from_bytes(id).to_string()
}

/// The canonical string of a Term with the given identity fields.
pub open spec fn canonical_chars(
    foreign_lang: Seq<char>,
    foreign_text: Seq<char>,
    pivot_text: Seq<char>,
) -> Seq<char> {
    nfc_chars(trim_chars(foreign_lang)) + seq![UNIT_SEP] + nfc_chars(trim_chars(foreign_text))
        + seq![UNIT_SEP] + nfc_chars(trim_chars(pivot_text))
}

/// The canonical string of a Term.
pub open spec fn canonical_name_of(term: NewTerm) -> Seq<char> {
    canonical_chars(term.foreign_lang@, term.foreign_text@, term.pivot_text@)
}

/// The id bytes of a Term.
pub open spec fn term_id_of(term: NewTerm) -> Seq<u8> {
    uuid_v5_bytes(APP_NS, vstd::utf8::encode_utf8(canonical_name_of(term)))
}

/// The string a Card's id is hashed over: `term_id ␟ prompt_side`.
pub open spec fn card_canonical_chars(term_id: Seq<char>, side: PromptSide) -> Seq<char> {
    term_id + seq![UNIT_SEP] + prompt_side_token(side)
}

/// The id bytes of a Card.
pub open spec fn card_id_of(term_id: Seq<char>, side: PromptSide) -> Seq<u8> {
    uuid_v5_bytes(APP_NS, vstd::utf8::encode_utf8(card_canonical_chars(term_id, side)))
}

/// Join three normalised identity fields with the unit separator.
pub fn join_identity_fields(a: &str, b: &str, c: &str) -> (s: String)
    ensures
        s@ == a@ + seq![UNIT_SEP] + b@ + seq![UNIT_SEP] + c@,
{
    let mut s = String::from_str(a);
    push_char(&mut s, UNIT_SEP);
    s.append(b);
    push_char(&mut s, UNIT_SEP);
    s.append(c);
    s
}

/// The canonical string a Term's id hashes over: the three identity
/// fields, each NFC-normalised and outer-trimmed, joined by the unit
/// separator. Case is preserved and `notes` is excluded — it is not part of
/// a Term's identity.
pub fn canonical_name(term: &NewTerm) -> (s: String)
    ensures
        s@ == canonical_name_of(*term),
{
    let lang = nfc(trim(term.foreign_lang.as_str()));
    let foreign = nfc(trim(term.foreign_text.as_str()));
    let pivot = nfc(trim(term.pivot_text.as_str()));
    join_identity_fields(lang.as_str(), foreign.as_str(), pivot.as_str())
}

/// The deterministic UUIDv5 id for a Term, derived from its
/// [`canonical_name`] under [`APP_NS`]. The same three texts always produce
/// the same id — this is what makes import idempotent.
pub fn term_id(term: &NewTerm) -> (id: [u8; 16])
    ensures
        id@ == term_id_of(*term),
        id@[6] / 16 == 5,
{
    let name = canonical_name(term);
    uuid_v5(APP_NS, name.as_str().as_bytes())
}

/// The deterministic UUIDv5 id for a Card: hashed over
/// `term_id ␟ prompt_side` under [`APP_NS`]. A Term's two Cards therefore
/// have stable ids, so creating them is idempotent just like the Term.
pub fn card_id(term_id: &str, prompt_side: PromptSide) -> (id: [u8; 16])
    ensures
        id@ == card_id_of(term_id@, prompt_side),
        id@[6] / 16 == 5,
{
    let mut canonical = String::from_str(term_id);
    push_char(&mut canonical, UNIT_SEP);
    canonical.append(prompt_side.as_str());
    assert(canonical@ =~= card_canonical_chars(term_id@, prompt_side));
    uuid_v5(APP_NS, canonical.as_str().as_bytes())
}

/// Resolve the `(prompt, answer)` a Card shows from its Term's two texts.
/// `Foreign` prompts with the foreign text and expects the pivot text;
/// `Pivot` is the reverse.
pub fn prompt_and_answer(prompt_side: PromptSide, foreign_text: &str, pivot_text: &str) -> (r: (
    String,
    String,
))
    ensures
        prompt_side == PromptSide::Foreign ==> r.0@ == foreign_text@ && r.1@ == pivot_text@,
        prompt_side == PromptSide::Pivot ==> r.0@ == pivot_text@ && r.1@ == foreign_text@,
{
    match prompt_side {
        PromptSide::Foreign => (String::from_str(foreign_text), String::from_str(pivot_text)),
        PromptSide::Pivot => (String::from_str(pivot_text), String::from_str(foreign_text)),
    }
}

/// A Card's two sides are mirror images: the prompt of one is the answer of
/// the other.
pub proof fn lemma_sides_mirror(foreign_text: Seq<char>, pivot_text: Seq<char>, side: PromptSide)
    ensures
        ({
            let (p, a) = prompt_answer_of(side, foreign_text, pivot_text);
            let other = if side == PromptSide::Foreign {
                PromptSide::Pivot
            } else {
                PromptSide::Foreign
            };
            let (p2, a2) = prompt_answer_of(other, foreign_text, pivot_text);
            p == a2 && a == p2
        }),
{
}

/// The `(prompt, answer)` texts of a Card prompting with `side`.
pub open spec fn prompt_answer_of(side: PromptSide, foreign_text: Seq<char>, pivot_text: Seq<char>) -> (
    Seq<char>,
    Seq<char>,
) {
    match side {
        PromptSide::Foreign => (foreign_text, pivot_text),
        PromptSide::Pivot => (pivot_text, foreign_text),
    }
}

/// A Card ready to be inserted alongside its Term: the derived id, the side
/// it prompts, and its starting schedule from the active [`Scheduler`].
#[derive(Clone, Debug)]
pub struct CardSeed {
    pub id: String,
    pub prompt_side: PromptSide,
    pub schedule: Schedule,
}

/// The seed of the Card of `term_id` prompting with `side`.
fn card_seed<S: Scheduler>(term_id: &str, side: PromptSide, scheduler: &S, now: Timestamp) -> (seed: CardSeed)
    requires
        now.wf(),
    ensures
        seed.prompt_side == side,
        seed.id@ == uuid_hyphenated(card_id_of(term_id@, side)),
        seed.schedule@ == scheduler.initial_schedule(now),
{
    CardSeed {
        id: uuid_text(card_id(term_id, side)),
        prompt_side: side,
        schedule: scheduler.initial_state(now),
    }
}

/// The two Cards a Term yields — recognition (`Foreign`) then production
/// (`Pivot`) — each with its id derived from `term_id` and its initial
/// schedule from `scheduler`. This is the one place the pair is built, so
/// creating one Term and importing many stay in step.
pub fn card_seeds<S: Scheduler>(term_id: &str, scheduler: &S, now: Timestamp) -> (seeds: [CardSeed; 2])
    requires
        now.wf(),
    ensures
        seeds[0].prompt_side == PromptSide::Foreign,
        seeds[1].prompt_side == PromptSide::Pivot,
        forall|i: int|
            0 <= i < 2 ==> (#[trigger] seeds[i]).id@ == uuid_hyphenated(
                card_id_of(term_id@, seeds[i].prompt_side),
            ) && seeds[i].schedule@ == scheduler.initial_schedule(now),
{
    let foreign = card_seed(term_id, PromptSide::Foreign, scheduler, now);
    let pivot = card_seed(term_id, PromptSide::Pivot, scheduler, now);
    [foreign, pivot]
}

/// The two strings a Term's Card ids hash over always differ, whatever the
/// Term id.
pub proof fn lemma_card_names_differ_by_side(term_id: Seq<char>)
    ensures
        card_canonical_chars(term_id, PromptSide::Foreign) != card_canonical_chars(
            term_id,
            PromptSide::Pivot,
        ),
{
    reveal_strlit("foreign");
    reveal_strlit("pivot");
    assert(card_canonical_chars(term_id, PromptSide::Foreign).len() != card_canonical_chars(
        term_id,
        PromptSide::Pivot,
    ).len());
}

/// Why a `NewTerm` was rejected: the named identity field was empty after
/// trimming.
#[derive(Clone, Copy, Debug, PartialEq, Eq)]
pub struct EmptyField(pub &'static str);

impl EmptyField {
    /// The message: `<field> must not be empty`.
    pub fn to_string(&self) -> (s: String)
        ensures
            s@ == empty_field_message(self.0@),
    {
        let mut s = String::from_str(self.0);
        s.append(" must not be empty");
        proof {
            reveal_strlit(" must not be empty");
        }
        s
    }
}

/// The message of an [`EmptyField`] naming `field`.
pub open spec fn empty_field_message(field: Seq<char>) -> Seq<char> {
    field + " must not be empty"@
}

/// Why an import batch was rejected: element `index` failed the same
/// validation as `POST /terms`.
#[derive(Clone, Copy, Debug, PartialEq, Eq)]
pub struct ImportElementError {
    pub index: usize,
    pub source: EmptyField,
}

impl ImportElementError {
    /// The message: `element <index>: <field> must not be empty`.
    pub fn to_string(&self) -> (s: String)
        ensures
            s@ == "element "@ + decimal_chars(self.index as nat) + ": "@ + empty_field_message(
                self.source.0@,
            ),
    {
        let mut s = String::from_str("element ");
        push_decimal(&mut s, self.index as u64);
        s.append(": ");
        let source = self.source.to_string();
        s.append(source.as_str());
        proof {
            reveal_strlit("element ");
            reveal_strlit(": ");
        }
        s
    }
}

/// The first identity field of `term` that is blank after trimming, by
/// name, in the order foreign_lang, foreign_text, pivot_text.
pub open spec fn first_blank_field(term: NewTerm) -> Option<Seq<char>> {
    if is_blank_chars(term.foreign_lang@) {
        Some("foreign_lang"@)
    } else if is_blank_chars(term.foreign_text@) {
        Some("foreign_text"@)
    } else if is_blank_chars(term.pivot_text@) {
        Some("pivot_text"@)
    } else {
        None
    }
}

/// Validate a new Term: each of the three text fields must be non-empty
/// after trimming. `notes` is free-form and never checked.
pub fn validate_new_term(term: &NewTerm) -> (r: Result<(), EmptyField>)
    ensures
        match r {
            Ok(()) => first_blank_field(*term) is None,
            Err(e) => first_blank_field(*term) == Some(e.0@),
        },
{
    if is_blank(term.foreign_lang.as_str()) {
        Err(EmptyField("foreign_lang"))
    } else if is_blank(term.foreign_text.as_str()) {
        Err(EmptyField("foreign_text"))
    } else if is_blank(term.pivot_text.as_str()) {
        Err(EmptyField("pivot_text"))
    } else {
        Ok(())
    }
}

/// Validate every element of an import batch in order, each by the same
/// rules as `POST /terms`. `Err` on the first invalid element, naming its
/// index — the shell then imports nothing (all-or-nothing).
pub fn validate_import(terms: &[NewTerm]) -> (r: Result<(), ImportElementError>)
    ensures
        match r {
            Ok(()) => forall|i: int| 0 <= i < terms@.len() ==> first_blank_field(#[trigger] terms@[i]) is None,
            Err(e) => {
                &&& e.index < terms@.len()
                &&& first_blank_field(terms@[e.index as int]) == Some(e.source.0@)
                &&& forall|i: int| 0 <= i < e.index ==> first_blank_field(#[trigger] terms@[i]) is None
            },
        },
{
    let mut index: usize = 0;
    while index < terms.len()
        invariant
            index <= terms@.len(),
            forall|i: int| 0 <= i < index ==> first_blank_field(#[trigger] terms@[i]) is None,
        decreases terms@.len() - index,
    {
        match validate_new_term(&terms[index]) {
            Ok(()) => {},
            Err(source) => {
                return Err(ImportElementError { index, source });
            },
        }
        index = index + 1;
    }
    Ok(())
}

/// Two Terms whose three identity fields agree once trimmed have the same
/// canonical name and the same id, whatever their notes: surrounding
/// whitespace and notes are not part of a Term's identity.
pub proof fn lemma_identity_ignores_notes_and_padding(a: NewTerm, b: NewTerm)
    requires
        trim_chars(a.foreign_lang@) == trim_chars(b.foreign_lang@),
        trim_chars(a.foreign_text@) == trim_chars(b.foreign_text@),
        trim_chars(a.pivot_text@) == trim_chars(b.pivot_text@),
    ensures
        canonical_name_of(a) == canonical_name_of(b),
        term_id_of(a) == term_id_of(b),
{
}

} // verus!
