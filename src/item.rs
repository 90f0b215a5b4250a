use vstd::prelude::*;
use vstd::string::StringExecFns;

use crate::clock::Timestamp;
use crate::text::{decimal, push_char, push_decimal};

verus! {

pub const SECOND_MS: u64 = 1000;

pub const MINUTE_MS: u64 = 60_000;

pub const HOUR_MS: u64 = 3_600_000;

pub const WEEK_MS: u64 = 604_800_000;

/// A task: its title, description, timing marks, the running time it has
/// accumulated and whether it is paused.
pub struct Item {
    pub title: String,
    pub desc: String,
    pub start_at: Option<Timestamp>,
    pub end_at: Option<Timestamp>,
    pub duration: i64,
    pub paused: bool,
}

/// Abstract state of an item.
pub struct ItemView {
    pub title: Seq<char>,
    pub desc: Seq<char>,
    pub start_at: Option<Timestamp>,
    pub end_at: Option<Timestamp>,
    pub duration: int,
    pub paused: bool,
}

/// How an item is shown in a list, by the first that applies: done,
/// paused, started, or none of these.
#[derive(Clone, Copy, Debug, PartialEq, Eq, Structural)]
pub enum Status {
    Done,
    Paused,
    Started,
    NotStarted,
}

impl View for Item {
    type V = ItemView;

    open spec fn view(&self) -> ItemView {
        ItemView {
            title: self.title@,
            desc: self.desc@,
            start_at: self.start_at,
            end_at: self.end_at,
            duration: self.duration as int,
            paused: self.paused,
        }
    }
}

impl ItemView {
    /// The item with empty texts, no timing marks, nothing accumulated.
    pub open spec fn empty() -> ItemView {
        ItemView {
            title: Seq::empty(),
            desc: Seq::empty(),
            start_at: None,
            end_at: None,
            duration: 0,
            paused: false,
        }
    }

    pub open spec fn is_started(self) -> bool {
        self.start_at is Some
    }

    pub open spec fn is_done(self) -> bool {
        self.end_at is Some
    }

    /// Running time accrues only while started, not done and not paused.
    pub open spec fn is_running(self) -> bool {
        self.is_started() && !self.is_done() && !self.paused
    }

    pub open spec fn status(self) -> Status {
        if self.is_done() {
            Status::Done
        } else if self.paused {
            Status::Paused
        } else if self.is_started() {
            Status::Started
        } else {
            Status::NotStarted
        }
    }

    /// The item after a tick of `ms` milliseconds: a running item accrues
    /// them, saturating at the largest `i64`; any other is unchanged.
    pub open spec fn after_tick(self, ms: int) -> ItemView {
        if self.is_running() {
            ItemView { duration: saturating_sum(self.duration, ms), ..self }
        } else {
            self
        }
    }

    /// Toggling the start mark: a started item is reset (no marks, nothing
    /// accumulated); any other gets `now` as its start.
    pub open spec fn toggle_start(self, now: Timestamp) -> ItemView {
        if self.is_started() {
            ItemView { start_at: None, end_at: None, duration: 0, ..self }
        } else {
            ItemView { start_at: Some(now), ..self }
        }
    }

    /// Toggling the end mark between unset and `now`.
    pub open spec fn toggle_end(self, now: Timestamp) -> ItemView {
        if self.is_done() {
            ItemView { end_at: None, ..self }
        } else {
            ItemView { end_at: Some(now), ..self }
        }
    }

    pub open spec fn toggle_pause(self) -> ItemView {
        ItemView { paused: !self.paused, ..self }
    }
}

impl ItemView {
    /// The item after one tick for each element of `ticks`, in order.
    pub open spec fn after_ticks(self, ticks: Seq<int>) -> ItemView
        decreases ticks.len(),
    {
        if ticks.len() == 0 {
            self
        } else {
            self.after_tick(ticks[0]).after_ticks(ticks.drop_first())
        }
    }
}

/// Sum of a sequence of amounts.
pub open spec fn total(ticks: Seq<int>) -> int
    decreases ticks.len(),
{
    if ticks.len() == 0 {
        0
    } else {
        ticks[0] + total(ticks.drop_first())
    }
}

proof fn lemma_total_nonnegative(ticks: Seq<int>)
    requires
        forall|k: int| 0 <= k < ticks.len() ==> ticks[k] >= 0,
    ensures
        total(ticks) >= 0,
    decreases ticks.len(),
{
    if ticks.len() > 0 {
        lemma_total_nonnegative(ticks.drop_first());
    }
}

/// Over any sequence of ticks, a running item accrues exactly their sum
/// (as long as that stays within `i64`), and an item in any other state
/// does not change at all.
pub proof fn lemma_tick_sequence(item: ItemView, ticks: Seq<int>)
    requires
        forall|k: int| 0 <= k < ticks.len() ==> ticks[k] >= 0,
        item.duration + total(ticks) <= i64::MAX,
    ensures
        item.is_running() ==> item.after_ticks(ticks) == (ItemView {
            duration: item.duration + total(ticks),
            ..item
        }),
        !item.is_running() ==> item.after_ticks(ticks) == item,
    decreases ticks.len(),
{
    if ticks.len() > 0 {
        let rest = ticks.drop_first();
        lemma_total_nonnegative(rest);
        lemma_tick_sequence(item.after_tick(ticks[0]), rest);
    }
}

/// Toggling the start mark of a started item restarts it: no start or end
/// mark and nothing accumulated; its texts and pause flag are kept.
pub proof fn lemma_restart(item: ItemView, now: Timestamp)
    requires
        item.is_started(),
    ensures
        item.toggle_start(now).duration == 0,
        item.toggle_start(now).end_at is None,
        item.toggle_start(now).start_at is None,
        item.toggle_start(now).title == item.title,
        item.toggle_start(now).desc == item.desc,
        item.toggle_start(now).paused == item.paused,
{
}

/// `a + b`, held at the largest `i64` when it would exceed it.
pub open spec fn saturating_sum(a: int, b: int) -> int {
    if a + b > i64::MAX {
        i64::MAX as int
    } else {
        a + b
    }
}

/// `" <v><unit>"` when `v` is positive, else nothing.
pub open spec fn unit_text(v: nat, unit: char) -> Seq<char> {
    if v > 0 {
        seq![' '] + decimal(v) + seq![unit]
    } else {
        Seq::empty()
    }
}

/// The elapsed-time line of an item that has accumulated `ms`
/// milliseconds: weeks, hours and minutes where not zero, then seconds, each
/// taken from what the larger units leave. A negative amount shows only its
/// whole seconds, rounded towards zero.
pub open spec fn duration_text(ms: int) -> Seq<char> {
    let head = seq!['D', 'u', 'r', 'a', 't', 'i', 'o', 'n', ':'];
    if ms >= 0 {
        let n = ms as nat;
        let after_weeks = n % (WEEK_MS as nat);
        let after_hours = after_weeks % (HOUR_MS as nat);
        let after_minutes = after_hours % (MINUTE_MS as nat);
        head + unit_text(n / (WEEK_MS as nat), 'w') + unit_text(after_weeks / (HOUR_MS as nat), 'h')
            + unit_text(after_hours / (MINUTE_MS as nat), 'm') + seq![' '] + decimal(
            after_minutes / (SECOND_MS as nat),
        ) + seq!['s']
    } else {
        let secs = ((-ms) as nat) / (SECOND_MS as nat);
        if secs == 0 {
            head + seq![' ', '0', 's']
        } else {
            head + seq![' ', '-'] + decimal(secs) + seq!['s']
        }
    }
}

/// Append `" <v><unit>"` when `v` is positive.
fn push_unit(s: &mut String, v: u64, unit: char)
    ensures
        final(s)@ == old(s)@ + unit_text(v as nat, unit),
{
    if v > 0 {
        push_char(s, ' ');
        push_decimal(s, v);
        push_char(s, unit);
        assert(s@ =~= old(s)@ + unit_text(v as nat, unit));
    } else {
        assert(s@ =~= old(s)@ + unit_text(v as nat, unit));
    }
}

impl Default for Item {
    fn default() -> (r: Item)
        ensures
            r@ == ItemView::empty(),
    {
        Item {
            title: String::new(),
            desc: String::new(),
            start_at: None,
            end_at: None,
            duration: 0,
            paused: false,
        }
    }
}

impl Clone for Item {
    fn clone(&self) -> (r: Item)
        ensures
            r == *self,
    {
        Item {
            title: self.title.clone(),
            desc: self.desc.clone(),
            start_at: self.start_at,
            end_at: self.end_at,
            duration: self.duration,
            paused: self.paused,
        }
    }
}

impl Item {
    pub fn started(&self) -> (r: bool)
        ensures
            r == self@.is_started(),
    {
        self.start_at.is_some()
    }

    pub fn done(&self) -> (r: bool)
        ensures
            r == self@.is_done(),
    {
        self.end_at.is_some()
    }

    pub fn running(&self) -> (r: bool)
        ensures
            r == self@.is_running(),
    {
        self.start_at.is_some() && self.end_at.is_none() && !self.paused
    }

    pub fn status(&self) -> (r: Status)
        ensures
            r == self@.status(),
    {
        if self.end_at.is_some() {
            Status::Done
        } else if self.paused {
            Status::Paused
        } else if self.start_at.is_some() {
            Status::Started
        } else {
            Status::NotStarted
        }
    }

    /// Restart a started item, or mark it started at `now`.
    pub fn toggle_start(&mut self, now: Timestamp)
        ensures
            final(self)@ == old(self)@.toggle_start(now),
    {
        if self.start_at.is_some() {
            self.start_at = None;
            self.end_at = None;
            self.duration = 0;
        } else {
            self.start_at = Some(now);
        }
    }

    /// Clear the end mark, or set it to `now`.
    pub fn toggle_end(&mut self, now: Timestamp)
        ensures
            final(self)@ == old(self)@.toggle_end(now),
    {
        if self.end_at.is_some() {
            self.end_at = None;
        } else {
            self.end_at = Some(now);
        }
    }

    pub fn toggle_pause(&mut self)
        ensures
            final(self)@ == old(self)@.toggle_pause(),
    {
        self.paused = !self.paused;
    }

    /// Accrue `ms` milliseconds if the item is running.
    pub fn add_millis(&mut self, ms: u64)
        ensures
            final(self)@ == old(self)@.after_tick(ms as int),
    {
        if self.start_at.is_some() && self.end_at.is_none() && !self.paused {
            let sum: i128 = self.duration as i128 + ms as i128;
            self.duration = if sum > i64::MAX as i128 {
                i64::MAX
            } else {
                sum as i64
            };
        }
    }

    /// The progress line shown under an item: "Paused" for a paused item,
    /// "In progress" for one started and not done, else nothing.
    pub fn progress_label(&self) -> (r: &'static str)
        ensures
            r@ == (if self.paused {
                seq!['P', 'a', 'u', 's', 'e', 'd']
            } else if self@.is_started() && !self@.is_done() {
                seq!['I', 'n', ' ', 'p', 'r', 'o', 'g', 'r', 'e', 's', 's']
            } else {
                Seq::empty()
            }),
    {
        proof {
            reveal_strlit("Paused");
            reveal_strlit("In progress");
            reveal_strlit("");
        }
        if self.paused {
            "Paused"
        } else if self.start_at.is_some() && self.end_at.is_none() {
            "In progress"
        } else {
            ""
        }
    }

    /// The elapsed time accumulated, as text.
    pub fn formatted_duration(&self) -> (r: String)
        ensures
            r@ == duration_text(self.duration as int),
    {
        let mut output = String::from_str("Duration:");
        proof {
            reveal_strlit("Duration:");
        }
        let head: Ghost<Seq<char>> = Ghost(output@);
        if self.duration >= 0 {
            let ms = self.duration as u64;
            let after_weeks = ms % WEEK_MS;
            let after_hours = after_weeks % HOUR_MS;
            let after_minutes = after_hours % MINUTE_MS;
            push_unit(&mut output, ms / WEEK_MS, 'w');
            push_unit(&mut output, after_weeks / HOUR_MS, 'h');
            push_unit(&mut output, after_hours / MINUTE_MS, 'm');
            push_char(&mut output, ' ');
            push_decimal(&mut output, after_minutes / SECOND_MS);
            push_char(&mut output, 's');
        } else {
            let magnitude: u64 = if self.duration == i64::MIN {
                9_223_372_036_854_775_808
            } else {
                (-self.duration) as u64
            };
            let secs = magnitude / SECOND_MS;
            push_char(&mut output, ' ');
            if secs > 0 {
                push_char(&mut output, '-');
            }
            push_decimal(&mut output, secs);
            push_char(&mut output, 's');
        }
        assert(output@ =~= duration_text(self.duration as int));
        output
    }
}

} // verus!
