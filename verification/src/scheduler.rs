//! The box-model `Scheduler`: pure spaced-repetition logic, no I/O.
//!
//! A `Scheduler` decides two things — the starting schedule for a
//! brand-new Card, and how a Card's schedule changes after a pass or a
//! fail. The per-Card `schedule_state` is an opaque JSON string this module
//! owns; the database never looks inside it. `now` is always a parameter,
//! so nothing here reads a clock.

use crate::instant::Timestamp;
pub use crate::model::Rating;
use crate::text::decimal_chars;
use vstd::prelude::*;

verus! {

/// Number of Leitner boxes. Five is the classic Leitner setup.
pub const BOX_COUNT: u8 = 5;

/// Days from a review until the Card is next due, for a Card in box `b`.
/// Roughly doubling — a passed Card's rest grows 1 → 2 → 4 → 8 → 16 days.
pub open spec fn box_interval_days(b: int) -> int {
    if b <= 1 {
        1
    } else if b == 2 {
        2
    } else if b == 3 {
        4
    } else if b == 4 {
        8
    } else {
        16
    }
}

/// A box number pinned into `1..=BOX_COUNT`.
pub open spec fn clamp_box(b: int) -> int {
    if b < 1 {
        1
    } else if b > BOX_COUNT {
        BOX_COUNT as int
    } else {
        b
    }
}

/// The box a Card in box `current` moves to after a review rated `rating`:
/// a pass promotes one box up to the cap, a fail returns to box 1.
pub open spec fn next_box(current: int, rating: Rating) -> int {
    match rating {
        Rating::Pass => if current + 1 > BOX_COUNT {
            BOX_COUNT as int
        } else {
            current + 1
        },
        Rating::Fail => 1,
    }
}

/// Whether `key` is written into JSON text as it stands: it holds no `"`,
/// no `\\` and no control character, the characters a JSON writer escapes.
pub open spec fn json_plain_key(key: Seq<char>) -> bool {
    forall|i: int|
        0 <= i < key.len() ==> #[trigger] key[i] != '"' && key[i] != '\\' && key[i] as u32 >= 0x20
}

/// The compact JSON text of a one-member object whose member `key` holds
/// the unsigned integer `value`: `{"key":value}`.
pub open spec fn json_u64_object_text(key: Seq<char>, value: nat) -> Seq<char> {
    "{\""@ + key + "\":"@ + decimal_chars(value) + "}"@
}

/// The member name of the Leitner state blob.
pub open spec fn box_key() -> Seq<char> {
    "box"@
}

/// The JSON text of the Leitner state for box `b`: `{"box":b}`.
pub open spec fn box_state_text(b: nat) -> Seq<char> {
    json_u64_object_text(box_key(), b)
}

/// What `serde_json` reads from `text` for member `key` of a JSON object,
/// deserialised as a `u8`: `Err` with the parser's message when `text` is
/// not JSON; `Ok(None)` when it has no such member (it is not an object,
/// or the member is absent); otherwise the member as a `u8`, or the message
/// serde gives for a value that is not one.
pub uninterp spec fn json_u8_member(text: Seq<char>, key: Seq<char>) -> Result<
    Option<Result<u8, Seq<char>>>,
    Seq<char>,
>;

/// What `serde_json` reads from `text` for element `index` of a JSON
/// array, deserialised as a `u8`, in the same shape as [`json_u8_member`].
pub uninterp spec fn json_u8_element(text: Seq<char>, index: int) -> Result<
    Option<Result<u8, Seq<char>>>,
    Seq<char>,
>;

/// The message for a state blob with no `box` member and no one-element
/// array form.
pub open spec fn missing_box_message() -> Seq<char> {
    "expected an object with a member `box` or an array of one box number"@
}

/// The box a Leitner state text holds, read as the Leitner state record
/// is: the `box` member of an object, or the only element of an array (a
/// record's sequence form); `Err` with the reason the text is no such
/// record.
pub open spec fn read_box_outcome(text: Seq<char>) -> Result<u8, Seq<char>> {
    match json_u8_member(text, box_key()) {
        Err(reason) => Err(reason),
        Ok(Some(member)) => member,
        Ok(None) => match json_u8_element(text, 0) {
            Ok(Some(Ok(n))) => match json_u8_element(text, 1) {
                Ok(None) => Ok(n),
                _ => Err(missing_box_message()),
            },
            Ok(Some(Err(reason))) => Err(reason),
            _ => Err(missing_box_message()),
        },
    }
}

/// The box a Leitner state text records, pinned into range; `None` when the
/// text is not a Leitner state.
pub open spec fn stored_box(text: Seq<char>) -> Option<int> {
    match read_box_outcome(text) {
        Ok(n) => Some(clamp_box(n as int)),
        Err(_) => None,
    }
}

/// Where a Card stands after a `Scheduler` decision: the opaque state blob
/// the strategy owns and the instant the Card next falls due.
#[derive(Clone, Debug, PartialEq, Eq)]
pub struct Schedule {
    pub state: String,
    pub due_at: Timestamp,
}

/// The abstract value of a [`Schedule`].
pub struct ScheduleView {
    pub state: Seq<char>,
    pub due_at: Timestamp,
}

impl View for Schedule {
    type V = ScheduleView;

    open spec fn view(&self) -> ScheduleView {
        ScheduleView { state: self.state@, due_at: self.due_at }
    }
}

/// The Leitner schedule of a Card sitting in box `b`, decided at `now`.
pub open spec fn leitner_schedule(b: int, now: Timestamp) -> ScheduleView {
    ScheduleView {
        state: box_state_text(b as nat),
        due_at: now.spec_plus_days(box_interval_days(b)),
    }
}

/// A `state` blob the active `Scheduler` could not parse.
#[derive(Clone, Debug, PartialEq, Eq)]
pub struct ScheduleStateError(pub String);

impl ScheduleStateError {
    /// The human-readable message: `unreadable schedule_state: <reason>`.
    pub fn to_string(&self) -> (s: String)
        ensures
            s@ == "unreadable schedule_state: "@ + self.0@,
    {
        let mut s = String::from_str("unreadable schedule_state: ");
        s.append(self.0.as_str());
        proof {
            reveal_strlit("unreadable schedule_state: ");
        }
        s
    }
}

/// Decides when a Card is next due. A pluggable strategy: the per-Card
/// `state` blob is opaque text the implementation writes and reads itself,
/// and each implementation states its decisions as the spec functions below.
pub trait Scheduler {
    /// The starting schedule for a Card created at `now`.
    spec fn initial_schedule(&self, now: Timestamp) -> ScheduleView;

    /// Whether `state` is a blob this strategy can read.
    spec fn reads_state(&self, state: Seq<char>) -> bool;

    /// The schedule after a review rated `rating` at `now` of a Card whose
    /// current blob is `state`.
    spec fn next_schedule(&self, state: Seq<char>, rating: Rating, now: Timestamp) -> ScheduleView;

    /// Starting schedule for a brand-new Card.
    fn initial_state(&self, now: Timestamp) -> (s: Schedule)
        requires
            now.wf(),
        ensures
            s@ == self.initial_schedule(now),
    ;

    /// Next schedule after a review. `Err` when `state` is not a blob this
    /// strategy can read — the caller then rebuilds the Card's state by
    /// replaying its reviews.
    fn on_review(&self, state: &str, rating: Rating, now: Timestamp) -> (r: Result<
        Schedule,
        ScheduleStateError,
    >)
        requires
            now.wf(),
        ensures
            match r {
                Ok(s) => self.reads_state(state@) && s@ == self.next_schedule(state@, rating, now),
                Err(_) => !self.reads_state(state@),
            },
    ;
}

/// Leitner's private view of a `state` blob: the box a Card sits in.
struct LeitnerState {
    box_number: u8,
}

/// The compact JSON text of the one-member object `{key: value}`, via
/// `serde_json::Map::insert`, `Value::from(u64)` and `Value`'s `Display`.
/// For a key that needs no escaping, serde_json writes `{"key":value}`.
#[verifier::external_body]
fn json_u64_object(key: &str, value: u64) -> (s: String)
    requires
        json_plain_key(key@),
    ensures
        s@ == json_u64_object_text(key@, value as nat),
{
    let mut object = serde_json::Map::new();
    object.insert(key.to_string(), serde_json::Value::from(value));
    serde_json::Value::Object(object).to_string()
}

/// Member `key` of the JSON object in `text` as a `u8`, via
/// `serde_json::from_str::<serde_json::Value>`, `Value::get` and `u8`'s
/// `Deserialize` on the member; each error as its `Display` text. The
/// result is only named, except that the text serde_json itself writes for
/// `{key: n}` reads back as `n` when `n` fits a `u8`.
#[verifier::external_body]
fn json_u8_member_of(text: &str, key: &str) -> (r: Result<Option<Result<u8, String>>, String>)
    ensures
        match r {
            Ok(None) => json_u8_member(text@, key@) == Ok::<
                Option<Result<u8, Seq<char>>>,
                Seq<char>,
            >(None),
            Ok(Some(Ok(n))) => json_u8_member(text@, key@) == Ok::<
                Option<Result<u8, Seq<char>>>,
                Seq<char>,
            >(Some(Ok(n))),
            Ok(Some(Err(m))) => json_u8_member(text@, key@) == Ok::<
                Option<Result<u8, Seq<char>>>,
                Seq<char>,
            >(Some(Err(m@))),
            Err(m) => json_u8_member(text@, key@) == Err::<
                Option<Result<u8, Seq<char>>>,
                Seq<char>,
            >(m@),
        },
        forall|n: u8|
            json_plain_key(key@) && text@ == #[trigger] json_u64_object_text(key@, n as nat) ==> r
                is Ok && r->Ok_0 == Some(Ok::<u8, String>(n)),
{
    match serde_json::from_str::<serde_json::Value>(text) {
        Ok(value) => match value.get(key) {
            Some(member) => match <u8 as serde::Deserialize>::deserialize(member) {
                Ok(n) => Ok(Some(Ok(n))),
                Err(e) => Ok(Some(Err(e.to_string()))),
            },
            None => Ok(None),
        },
        Err(e) => Err(e.to_string()),
    }
}

/// Element `index` of the JSON array in `text` as a `u8`, via
/// `serde_json::from_str::<serde_json::Value>`, `Value::get` and `u8`'s
/// `Deserialize` on the element; each error as its `Display` text. The
/// result is only named.
#[verifier::external_body]
fn json_u8_element_of(text: &str, index: usize) -> (r: Result<Option<Result<u8, String>>, String>)
    ensures
        match r {
            Ok(None) => json_u8_element(text@, index as int) == Ok::<
                Option<Result<u8, Seq<char>>>,
                Seq<char>,
            >(None),
            Ok(Some(Ok(n))) => json_u8_element(text@, index as int) == Ok::<
                Option<Result<u8, Seq<char>>>,
                Seq<char>,
            >(Some(Ok(n))),
            Ok(Some(Err(m))) => json_u8_element(text@, index as int) == Ok::<
                Option<Result<u8, Seq<char>>>,
                Seq<char>,
            >(Some(Err(m@))),
            Err(m) => json_u8_element(text@, index as int) == Err::<
                Option<Result<u8, Seq<char>>>,
                Seq<char>,
            >(m@),
        },
{
    match serde_json::from_str::<serde_json::Value>(text) {
        Ok(value) => match value.get(index) {
            Some(element) => match <u8 as serde::Deserialize>::deserialize(element) {
                Ok(n) => Ok(Some(Ok(n))),
                Err(e) => Ok(Some(Err(e.to_string()))),
            },
            None => Ok(None),
        },
        Err(e) => Err(e.to_string()),
    }
}

/// The member name "box" needs no escaping.
proof fn lemma_box_key_plain()
    ensures
        json_plain_key(box_key()),
{
    reveal_strlit("box");
}

/// The box a Leitner state blob records, read as the state record is:
/// `Err` with the reason the blob is unreadable.
fn read_box(state: &str) -> (r: Result<u8, String>)
    ensures
        match read_box_outcome(state@) {
            Ok(n) => r == Ok::<u8, String>(n),
            Err(reason) => r matches Err(m) && m@ == reason,
        },
        forall|n: u8| state@ == #[trigger] box_state_text(n as nat) ==> r == Ok::<u8, String>(n),
{
    proof {
        lemma_box_key_plain();
    }
    match json_u8_member_of(state, "box") {
        Err(reason) => Err(reason),
        Ok(Some(member)) => member,
        Ok(None) => match json_u8_element_of(state, 0) {
            Ok(Some(Ok(n))) => match json_u8_element_of(state, 1) {
                Ok(None) => Ok(n),
                _ => Err(missing_box_text()),
            },
            Ok(Some(Err(reason))) => Err(reason),
            _ => Err(missing_box_text()),
        },
    }
}

fn missing_box_text() -> (s: String)
    ensures
        s@ == missing_box_message(),
{
    String::from_str("expected an object with a member `box` or an array of one box number")
}

impl LeitnerState {
    /// A state pinned to a real box. `box_number` is clamped into
    /// `1..=BOX_COUNT` so a blob written under a differently-tuned past
    /// config still lands somewhere sensible.
    fn at(box_number: u8) -> (s: LeitnerState)
        ensures
            s.box_number == clamp_box(box_number as int),
    {
        let pinned = if box_number < 1 {
            1
        } else if box_number > BOX_COUNT {
            BOX_COUNT
        } else {
            box_number
        };
        LeitnerState { box_number: pinned }
    }

    fn to_json(&self) -> (s: String)
        ensures
            s@ == box_state_text(self.box_number as nat),
    {
        proof {
            lemma_box_key_plain();
        }
        json_u64_object("box", self.box_number as u64)
    }

    /// This box's schedule: its JSON blob plus the instant it next falls
    /// due, the box's interval after `now`.
    fn schedule(&self, now: Timestamp) -> (s: Schedule)
        requires
            1 <= self.box_number <= BOX_COUNT,
            now.wf(),
        ensures
            s@ == leitner_schedule(self.box_number as int, now),
    {
        let interval: i64 = if self.box_number == 1 {
            1
        } else if self.box_number == 2 {
            2
        } else if self.box_number == 3 {
            4
        } else if self.box_number == 4 {
            8
        } else {
            16
        };
        Schedule { state: self.to_json(), due_at: now.plus_days(interval) }
    }
}

/// The v1 box-model `Scheduler` (Leitner). Its state blob is `{"box":N}`.
pub struct Leitner;

impl Scheduler for Leitner {
    /// A new Card sits in box 1 and is due right away.
    open spec fn initial_schedule(&self, now: Timestamp) -> ScheduleView {
        ScheduleView { state: box_state_text(1), due_at: now }
    }

    open spec fn reads_state(&self, state: Seq<char>) -> bool {
        stored_box(state) is Some
    }

    open spec fn next_schedule(&self, state: Seq<char>, rating: Rating, now: Timestamp) -> ScheduleView {
        leitner_schedule(next_box(stored_box(state)->0, rating), now)
    }

    fn initial_state(&self, now: Timestamp) -> (s: Schedule) {
        Schedule { state: LeitnerState::at(1).to_json(), due_at: now }
    }

    /// Besides the trait's contract: any blob written for a box (by
    /// [`Scheduler::initial_state`] or an earlier review) reads back as that
    /// box, so a produced schedule feeds straight into the next review.
    fn on_review(&self, state: &str, rating: Rating, now: Timestamp) -> (r: Result<
        Schedule,
        ScheduleStateError,
    >)
        ensures
            forall|n: u8|
                state@ == #[trigger] box_state_text(n as nat) ==> r is Ok && r->Ok_0@
                    == leitner_schedule(next_box(clamp_box(n as int), rating), now),
            r matches Err(e) ==> read_box_outcome(state@) matches Err(reason) && e.0@ == reason,
    {
        let current = match read_box(state) {
            Ok(value) => LeitnerState::at(value).box_number,
            Err(reason) => {
                return Err(ScheduleStateError(reason));
            },
        };
        let next = match rating {
            Rating::Pass => if current + 1 > BOX_COUNT {
                BOX_COUNT
            } else {
                current + 1
            },
            Rating::Fail => 1,
        };
        Ok(LeitnerState::at(next).schedule(now))
    }
}

impl Leitner {
    /// The box a Leitner state blob records, pinned into `1..=BOX_COUNT`;
    /// `None` for a blob Leitner cannot read. This is what a Card shows as
    /// its `box`.
    pub fn box_of(&self, state: &str) -> (r: Option<u8>)
        ensures
            match r {
                Some(b) => stored_box(state@) == Some(b as int),
                None => stored_box(state@) is None,
            },
            forall|n: u8|
                state@ == #[trigger] box_state_text(n as nat) ==> r == Some(
                    clamp_box(n as int) as u8,
                ),
    {
        match read_box(state) {
            Ok(value) => Some(LeitnerState::at(value).box_number),
            Err(_) => None,
        }
    }
}

/// Every box a Leitner review produces lies in `1..=BOX_COUNT`.
pub proof fn lemma_next_box_in_range(current: int, rating: Rating)
    requires
        1 <= current <= BOX_COUNT,
    ensures
        1 <= next_box(current, rating) <= BOX_COUNT,
{
}

/// A fail sends a Card back to box 1 from every box.
pub proof fn lemma_fail_resets(current: int)
    ensures
        next_box(current, Rating::Fail) == 1,
{
}

/// The box reached from box `start` after `passes` consecutive passes.
pub open spec fn box_after_passes(start: int, passes: nat) -> int
    decreases passes,
{
    if passes == 0 {
        start
    } else {
        next_box(box_after_passes(start, (passes - 1) as nat), Rating::Pass)
    }
}

/// Each pass promotes one box, up to and including the cap: after `k`
/// passes from box `start` a Card sits in box `min(start + k, BOX_COUNT)`.
pub proof fn lemma_passes_climb_to_cap(start: int, passes: nat)
    requires
        1 <= start <= BOX_COUNT,
    ensures
        box_after_passes(start, passes) == if start + passes > BOX_COUNT {
            BOX_COUNT as int
        } else {
            start + passes
        },
    decreases passes,
{
    if passes > 0 {
        lemma_passes_climb_to_cap(start, (passes - 1) as nat);
    }
}

/// Each box's rest period is double the one below it, and a pass never
/// schedules a Card sooner than a fail would.
pub proof fn lemma_intervals_double(b: int)
    requires
        1 <= b < BOX_COUNT,
    ensures
        box_interval_days(b + 1) == 2 * box_interval_days(b),
        box_interval_days(next_box(b, Rating::Pass)) >= box_interval_days(next_box(b, Rating::Fail)),
{
}

} // verus!
