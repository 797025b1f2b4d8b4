//! The log of a game: the actions played so far, with each run of one
//! repeated action kept as a single entry and its count.
use vstd::prelude::*;

use crate::game::actions::Action;

verus! {

/// An action and how many consecutive iterations played it.
pub type LogEntry = (Action, u64);

/// Entries with their counts taken as integers.
pub open spec fn widen(log: Seq<LogEntry>) -> Seq<(Action, int)> {
    log.map_values(|e: LogEntry| (e.0, e.1 as int))
}

/// One step of rebuilding a log: an entry whose action is that of the last
/// entry kept so far adds one to that entry's count; any other entry is
/// kept as it is.
pub open spec fn coalesce_step(kept: Seq<(Action, int)>, e: LogEntry) -> Seq<(Action, int)> {
    if kept.len() > 0 && kept.last().0 == e.0 {
        kept.update(kept.len() - 1, (e.0, kept.last().1 + 1))
    } else {
        kept.push((e.0, e.1 as int))
    }
}

/// Rebuilds a log entry by entry with `coalesce_step`.
pub open spec fn coalesce(entries: Seq<LogEntry>) -> Seq<(Action, int)>
    decreases entries.len(),
{
    if entries.len() == 0 {
        seq![]
    } else {
        coalesce_step(coalesce(entries.drop_last()), entries.last())
    }
}

/// The log after one more iteration that played `action`.
pub open spec fn appended(log: Seq<LogEntry>, action: Action) -> Seq<(Action, int)> {
    coalesce(log.push((action, 1u64)))
}

/// Whether every count of the appended log fits in a `u64`.
pub open spec fn append_fits(log: Seq<LogEntry>, action: Action) -> bool {
    forall|i: int| 0 <= i < appended(log, action).len() ==> #[trigger] appended(log, action)[i].1
        <= u64::MAX
}

/// No two neighbouring entries share an action.
pub open spec fn is_compact(log: Seq<(Action, int)>) -> bool {
    forall|i: int| 0 <= i < log.len() - 1 ==> #[trigger] log[i].0 != log[i + 1].0
}

/// Every entry counts at least one iteration.
pub open spec fn counts_positive(log: Seq<(Action, int)>) -> bool {
    forall|i: int| 0 <= i < log.len() ==> #[trigger] log[i].1 >= 1
}

/// The actions of a log, one per iteration, in order.
pub open spec fn expand(log: Seq<(Action, int)>) -> Seq<Action>
    decreases log.len(),
{
    if log.len() == 0 {
        seq![]
    } else {
        expand(log.drop_last()) + Seq::new(log.last().1 as nat, |k: int| log.last().0)
    }
}

/// The coalesced prefixes of a log grow entry by entry: a longer prefix has
/// at least as many entries, with the same actions and no smaller counts.
proof fn lemma_coalesce_prefix(s: Seq<LogEntry>, k: int, m: int)
    requires
        0 <= k <= m <= s.len(),
    ensures
        coalesce(s.take(k)).len() <= coalesce(s.take(m)).len(),
        forall|j: int|
            #![trigger coalesce(s.take(k))[j]]
            0 <= j < coalesce(s.take(k)).len() ==> coalesce(s.take(k))[j].0 == coalesce(
                s.take(m),
            )[j].0 && coalesce(s.take(k))[j].1 <= coalesce(s.take(m))[j].1,
    decreases m - k,
{
    if k < m {
        lemma_coalesce_prefix(s, k, m - 1);
        assert(s.take(m).drop_last() =~= s.take(m - 1));
    }
}

/// Rebuilding one more entry of the appended log stays within the counts
/// of the whole appended log.
proof fn lemma_next_fits(log: Seq<LogEntry>, action: Action, i: int)
    requires
        0 <= i <= log.len(),
        append_fits(log, action),
    ensures
        ({
            let all = log.push((action, 1u64));
            &&& coalesce(all.take(i + 1)) == coalesce_step(coalesce(all.take(i)), all[i])
            &&& forall|j: int|
                0 <= j < coalesce_step(coalesce(all.take(i)), all[i]).len()
                    ==> #[trigger] coalesce_step(coalesce(all.take(i)), all[i])[j].1 <= u64::MAX
        }),
{
    let all = log.push((action, 1u64));
    assert(all.take(i + 1).drop_last() =~= all.take(i));
    assert(all.take(i + 1).last() == all[i]);
    assert(coalesce(all.take(i + 1)) == coalesce_step(coalesce(all.take(i)), all[i]));
    assert(all.take(all.len() as int) =~= all);
    lemma_coalesce_prefix(all, i + 1, all.len() as int);
    assert forall|j: int|
        0 <= j < coalesce_step(coalesce(all.take(i)), all[i]).len() implies #[trigger] coalesce_step(
        coalesce(all.take(i)),
        all[i],
    )[j].1 <= u64::MAX by {
        assert(coalesce(all.take(i + 1))[j].1 <= coalesce(all.take(all.len() as int))[j].1);
        assert(appended(log, action)[j].1 <= u64::MAX);
    }
}

/// One step of the rebuild, on the entries kept so far.
fn push_entry(out: &mut Vec<LogEntry>, entry: LogEntry)
    requires
        forall|j: int|
            0 <= j < coalesce_step(widen(old(out)@), entry).len() ==> #[trigger] coalesce_step(
                widen(old(out)@),
                entry,
            )[j].1 <= u64::MAX,
    ensures
        widen(final(out)@) == coalesce_step(widen(old(out)@), entry),
{
    let len = out.len();
    if len > 0 && out[len - 1].0 == entry.0 {
        let last = out[len - 1];
        assert(coalesce_step(widen(out@), entry)[len - 1].1 == last.1 + 1);
        out.set(len - 1, (last.0, last.1 + 1));
    } else {
        out.push(entry);
    }
    assert(widen(out@) =~= coalesce_step(widen(old(out)@), entry));
}

/// Appends one iteration of `action` to the log: the log is rebuilt entry by
/// entry with the new entry `(action, 1)` at its end, as `coalesce` says.
pub fn append_log(log: &Vec<LogEntry>, action: Action) -> (r: Vec<LogEntry>)
    requires
        append_fits(log@, action),
    ensures
        widen(r@) == appended(log@, action),
{
    let ghost all = log@.push((action, 1u64));
    let n = log.len();
    let mut out: Vec<LogEntry> = Vec::new();
    assert(all.take(all.len() as int) =~= all);
    for i in 0..n
        invariant
            n == log@.len(),
            all == log@.push((action, 1u64)),
            widen(out@) == coalesce(all.take(i as int)),
            append_fits(log@, action),
            all.take(all.len() as int) == all,
    {
        proof {
            lemma_next_fits(log@, action, i as int);
        }
        push_entry(&mut out, log[i]);
    }
    proof {
        lemma_next_fits(log@, action, n as int);
    }
    push_entry(&mut out, (action, 1u64));
    out
}

/// A log in which no two neighbouring entries share an action is kept as it
/// is by the rebuild.
pub proof fn lemma_coalesce_compact(log: Seq<LogEntry>)
    requires
        is_compact(widen(log)),
    ensures
        coalesce(log) == widen(log),
    decreases log.len(),
{
    if log.len() > 0 {
        let init = log.drop_last();
        assert(widen(init) =~= widen(log).drop_last());
        assert(is_compact(widen(init)));
        lemma_coalesce_compact(init);
        if log.len() > 1 {
            assert(widen(log)[log.len() - 2].0 != widen(log)[log.len() - 1].0);
        }
        assert(coalesce(log) =~= widen(log));
    }
}

/// The appended log of a compact log: the last entry counts one more
/// iteration when it played `action`, and otherwise `(action, 1)` is added.
pub proof fn lemma_appended_compact(log: Seq<LogEntry>, action: Action)
    requires
        is_compact(widen(log)),
    ensures
        appended(log, action) == (if log.len() > 0 && log.last().0 == action {
            widen(log).update(log.len() - 1, (action, log.last().1 + 1))
        } else {
            widen(log).push((action, 1int))
        }),
        append_fits(log, action) <==> !(log.len() > 0 && log.last().0 == action && log.last().1
            == u64::MAX),
{
    let all = log.push((action, 1u64));
    assert(all.drop_last() =~= log);
    lemma_coalesce_compact(log);
    let a = appended(log, action);
    if log.len() > 0 && log.last().0 == action && log.last().1 == u64::MAX {
        assert(a[log.len() - 1].1 > u64::MAX);
    }
}

/// Appending to a compact log with positive counts keeps it compact with
/// positive counts, and its actions gain exactly `action` at their end.
pub proof fn lemma_appended_expands(log: Seq<LogEntry>, action: Action)
    requires
        is_compact(widen(log)),
        counts_positive(widen(log)),
    ensures
        is_compact(appended(log, action)),
        counts_positive(appended(log, action)),
        expand(appended(log, action)) == expand(widen(log)).push(action),
{
    lemma_appended_compact(log, action);
    let w = widen(log);
    let a = appended(log, action);
    if log.len() > 0 && log.last().0 == action {
        let c = log.last().1 as int;
        assert(a.drop_last() =~= w.drop_last());
        assert(Seq::new((c + 1) as nat, |k: int| action) =~= Seq::new(c as nat, |k: int| action).push(
            action,
        ));
        assert(w.last() == (action, c));
        assert(expand(a) =~= expand(w).push(action));
    } else {
        assert(a.drop_last() =~= w);
        assert(Seq::new(1nat, |k: int| action) =~= seq![action]);
        assert(expand(a) =~= expand(w).push(action));
    }
}

/// Whether appending one iteration of `action` to the log keeps every count
/// within a `u64`: the rebuild of `append_log`, checking each count it adds
/// to.
pub fn log_append_fits(log: &Vec<LogEntry>, action: Action) -> (r: bool)
    ensures
        r == append_fits(log@, action),
{
    let ghost all = log@.push((action, 1u64));
    let n = log.len();
    let mut out: Vec<LogEntry> = Vec::new();
    assert(all.take(all.len() as int) =~= all);
    let mut i: usize = 0;
    while i <= n
        invariant
            n == log@.len(),
            all == log@.push((action, 1u64)),
            i <= n + 1,
            widen(out@) == coalesce(all.take(i as int)),
            all.take(all.len() as int) == all,
        decreases n + 1 - i,
    {
        let entry: LogEntry = if i < n {
            log[i]
        } else {
            (action, 1u64)
        };
        assert(all.take(i + 1).drop_last() =~= all.take(i as int));
        assert(all.take(i + 1).last() == entry);
        assert(coalesce(all.take(i + 1)) == coalesce_step(coalesce(all.take(i as int)), entry));
        proof {
            lemma_coalesce_prefix(all, i + 1, all.len() as int);
        }
        let len = out.len();
        if len > 0 && out[len - 1].0 == entry.0 {
            let last = out[len - 1];
            if last.1 == u64::MAX {
                assert(coalesce(all.take(i + 1))[len - 1].1 > u64::MAX);
                assert(appended(log@, action)[len - 1].1 > u64::MAX);
                return false;
            }
            out.set(len - 1, (last.0, last.1 + 1));
        } else {
            out.push(entry);
        }
        assert(widen(out@) =~= coalesce(all.take(i + 1)));
        if i == n {
            assert(widen(out@) == appended(log@, action));
            assert(forall|j: int| 0 <= j < out@.len() ==> #[trigger] widen(out@)[j].1 <= u64::MAX);
            return true;
        }
        i = i + 1;
    }
    true
}

} // verus!
