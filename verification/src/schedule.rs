//! The countdown schedule: an ordered table of (offset, message) pairs.
//! A warning fires the first tick at which the remaining time before the
//! scheduled restart is at or below its offset; a monotone cursor guarantees
//! each entry fires at most once per restart cycle.

use vstd::prelude::*;
use vstd::string::*;

verus! {

/// One countdown entry: a warning to broadcast once the time remaining
/// before the scheduled restart drops to `offset_secs` or below.
pub struct ScheduleEntry {
    pub offset_secs: u64,
    pub message: String,
}

/// Offsets strictly decrease along the table, so warnings fire in table
/// order as the remaining time shrinks toward zero.
pub open spec fn strictly_decreasing(s: Seq<ScheduleEntry>) -> bool {
    forall|i: int, j: int|
        0 <= i < j < s.len() ==> s[i].offset_secs > s[j].offset_secs
}

/// The cursor position after every warning due at `remaining` seconds has
/// fired: the first index at or past `cursor` whose offset is strictly
/// below `remaining` (or the table's end).
pub open spec fn cursor_after(s: Seq<ScheduleEntry>, cursor: int, remaining: u64) -> int
    decreases s.len() - cursor,
{
    if 0 <= cursor < s.len() && s[cursor].offset_secs >= remaining {
        cursor_after(s, cursor + 1, remaining)
    } else {
        cursor
    }
}

pub proof fn lemma_cursor_after_bounds(s: Seq<ScheduleEntry>, cursor: int, remaining: u64)
    requires
        0 <= cursor <= s.len(),
    ensures
        cursor <= cursor_after(s, cursor, remaining) <= s.len(),
        forall|i: int|
            cursor <= i < cursor_after(s, cursor, remaining) ==> s[i].offset_secs >= remaining,
        cursor_after(s, cursor, remaining) < s.len()
            ==> s[cursor_after(s, cursor, remaining)].offset_secs < remaining,
    decreases s.len() - cursor,
{
    if 0 <= cursor < s.len() && s[cursor].offset_secs >= remaining {
        lemma_cursor_after_bounds(s, cursor + 1, remaining);
    }
}

/// Once the remaining time reaches zero, the scan consumes the whole table:
/// every offset is at least zero.
pub proof fn lemma_cursor_after_zero(s: Seq<ScheduleEntry>, cursor: int)
    requires
        0 <= cursor <= s.len(),
    ensures
        cursor_after(s, cursor, 0) == s.len(),
    decreases s.len() - cursor,
{
    if cursor < s.len() {
        lemma_cursor_after_zero(s, cursor + 1);
    }
}

/// Collect the messages of every entry due at `remaining` seconds, starting
/// from `cursor`; returns the messages in table order together with the
/// advanced cursor.
pub fn collect_due_warnings(schedule: &Vec<ScheduleEntry>, cursor: usize, remaining: u64) -> (r: (
    Vec<String>,
    usize,
))
    requires
        cursor <= schedule@.len(),
    ensures
        r.1 == cursor_after(schedule@, cursor as int, remaining),
        r.0@.len() == r.1 - cursor,
        forall|j: int| 0 <= j < r.0@.len() ==> r.0@[j] == schedule@[cursor + j].message,
{
    let mut msgs: Vec<String> = Vec::new();
    let mut c: usize = cursor;
    while c < schedule.len() && schedule[c].offset_secs >= remaining
        invariant
            cursor <= c <= schedule@.len(),
            cursor_after(schedule@, c as int, remaining) == cursor_after(
                schedule@,
                cursor as int,
                remaining,
            ),
            msgs@.len() == c - cursor,
            forall|j: int| 0 <= j < msgs@.len() ==> msgs@[j] == schedule@[cursor + j].message,
        decreases schedule@.len() - c,
    {
        msgs.push(schedule[c].message.clone());
        c = c + 1;
    }
    (msgs, c)
}

/// The countdown table the supervisor runs with: warnings from five
/// minutes out down to the final reboot notice, offsets strictly
/// decreasing toward the restart deadline.
pub fn restart_countdown_messages() -> (v: Vec<ScheduleEntry>)
    ensures
        strictly_decreasing(v@),
        v@.len() == 9,
        v@[0].offset_secs == 300 && v@[0].message@ == "Server restarting in 5 minutes!"@,
        v@[1].offset_secs == 60 && v@[1].message@ == "Server restarting in 1 minute!"@,
        v@[2].offset_secs == 30 && v@[2].message@ == "Server restarting in 30 seconds!"@,
        v@[3].offset_secs == 5 && v@[3].message@ == "Restarting in 5..."@,
        v@[4].offset_secs == 4 && v@[4].message@ == "4..."@,
        v@[5].offset_secs == 3 && v@[5].message@ == "3..."@,
        v@[6].offset_secs == 2 && v@[6].message@ == "2..."@,
        v@[7].offset_secs == 1 && v@[7].message@ == "1..."@,
        v@[8].offset_secs == 0 && v@[8].message@ == "Rebooting!"@,
{
    let mut v: Vec<ScheduleEntry> = Vec::new();
    v.push(ScheduleEntry { offset_secs: 300, message: String::from_str("Server restarting in 5 minutes!") });
    v.push(ScheduleEntry { offset_secs: 60, message: String::from_str("Server restarting in 1 minute!") });
    v.push(ScheduleEntry { offset_secs: 30, message: String::from_str("Server restarting in 30 seconds!") });
    v.push(ScheduleEntry { offset_secs: 5, message: String::from_str("Restarting in 5...") });
    v.push(ScheduleEntry { offset_secs: 4, message: String::from_str("4...") });
    v.push(ScheduleEntry { offset_secs: 3, message: String::from_str("3...") });
    v.push(ScheduleEntry { offset_secs: 2, message: String::from_str("2...") });
    v.push(ScheduleEntry { offset_secs: 1, message: String::from_str("1...") });
    v.push(ScheduleEntry { offset_secs: 0, message: String::from_str("Rebooting!") });
    v
}

/// The cursor before tick `k` of a run whose remaining-time readings are
/// `rs`, starting from the table's beginning.
pub open spec fn cursor_at_tick(s: Seq<ScheduleEntry>, rs: Seq<u64>, k: int) -> int
    decreases k,
{
    if k <= 0 {
        0
    } else {
        cursor_after(s, cursor_at_tick(s, rs, k - 1), rs[k - 1])
    }
}

proof fn lemma_cursor_at_tick_bounds(s: Seq<ScheduleEntry>, rs: Seq<u64>, k: int)
    requires
        0 <= k <= rs.len(),
    ensures
        0 <= cursor_at_tick(s, rs, k) <= s.len(),
    decreases k,
{
    if k > 0 {
        lemma_cursor_at_tick_bounds(s, rs, k - 1);
        lemma_cursor_after_bounds(s, cursor_at_tick(s, rs, k - 1), rs[k - 1]);
    }
}

proof fn lemma_cursor_at_tick_mono(s: Seq<ScheduleEntry>, rs: Seq<u64>, m1: int, m2: int)
    requires
        0 <= m1 <= m2 <= rs.len(),
    ensures
        cursor_at_tick(s, rs, m1) <= cursor_at_tick(s, rs, m2),
    decreases m2 - m1,
{
    if m1 < m2 {
        lemma_cursor_at_tick_mono(s, rs, m1, m2 - 1);
        lemma_cursor_at_tick_bounds(s, rs, m2 - 1);
        lemma_cursor_after_bounds(s, cursor_at_tick(s, rs, m2 - 1), rs[m2 - 1]);
    }
}

/// Entry `i` fires at tick `t` of the run: the scan of tick `t` moves the
/// cursor from at or below `i` to beyond it.
pub open spec fn fires_at(s: Seq<ScheduleEntry>, rs: Seq<u64>, i: int, t: int) -> bool {
    cursor_at_tick(s, rs, t) <= i < cursor_at_tick(s, rs, t + 1)
}

/// Entry `i` fires at some tick of the run.
pub open spec fn fires_within(s: Seq<ScheduleEntry>, rs: Seq<u64>, i: int) -> bool {
    exists|t: int| 0 <= t < rs.len() && #[trigger] fires_at(s, rs, i, t)
}

proof fn lemma_tick_crossing(s: Seq<ScheduleEntry>, rs: Seq<u64>, i: int, k: int)
    requires
        0 <= k <= rs.len(),
        0 <= i < cursor_at_tick(s, rs, k),
    ensures
        exists|t: int| 0 <= t < k && #[trigger] fires_at(s, rs, i, t),
    decreases k,
{
    if k > 0 {
        if i < cursor_at_tick(s, rs, k - 1) {
            lemma_tick_crossing(s, rs, i, k - 1);
        } else {
            assert(fires_at(s, rs, i, k - 1));
        }
    }
}

proof fn lemma_coverage(s: Seq<ScheduleEntry>, rs: Seq<u64>)
    requires
        rs.len() > 0,
        rs[rs.len() - 1] == 0,
    ensures
        forall|i: int| 0 <= i < s.len() ==> #[trigger] fires_within(s, rs, i),
{
    let n = rs.len() as int;
    lemma_cursor_at_tick_bounds(s, rs, n - 1);
    lemma_cursor_after_zero(s, cursor_at_tick(s, rs, n - 1));
    assert(cursor_at_tick(s, rs, n) == s.len());
    assert forall|i: int| 0 <= i < s.len() implies #[trigger] fires_within(s, rs, i) by {
        lemma_tick_crossing(s, rs, i, n);
    }
}

/// Each entry of a strictly decreasing schedule fires exactly once over a
/// run whose remaining-time readings shrink monotonically to zero: the
/// per-tick cursor intervals are monotone (so no entry fires twice), and
/// every entry falls inside exactly one tick's interval (so none is
/// skipped); within a tick, entries fire in ascending index order, that is,
/// largest offset first.
pub proof fn lemma_each_entry_fires_exactly_once(s: Seq<ScheduleEntry>, rs: Seq<u64>)
    requires
        strictly_decreasing(s),
        rs.len() > 0,
        forall|k1: int, k2: int|
            #![trigger rs[k1], rs[k2]]
            0 <= k1 <= k2 < rs.len() ==> rs[k1] >= rs[k2],
        rs[rs.len() - 1] == 0,
    ensures
        cursor_at_tick(s, rs, rs.len() as int) == s.len(),
        forall|m1: int, m2: int|
            #![trigger cursor_at_tick(s, rs, m1), cursor_at_tick(s, rs, m2)]
            0 <= m1 <= m2 <= rs.len() ==> cursor_at_tick(s, rs, m1) <= cursor_at_tick(s, rs, m2),
        forall|i: int| 0 <= i < s.len() ==> #[trigger] fires_within(s, rs, i),
{
    let n = rs.len() as int;
    lemma_cursor_at_tick_bounds(s, rs, n - 1);
    lemma_cursor_after_zero(s, cursor_at_tick(s, rs, n - 1));
    assert forall|m1: int, m2: int|
        #![trigger cursor_at_tick(s, rs, m1), cursor_at_tick(s, rs, m2)]
        0 <= m1 <= m2 <= rs.len() implies cursor_at_tick(s, rs, m1) <= cursor_at_tick(
        s,
        rs,
        m2,
    ) by {
        lemma_cursor_at_tick_mono(s, rs, m1, m2);
    }
    lemma_coverage(s, rs);
}

} // verus!
