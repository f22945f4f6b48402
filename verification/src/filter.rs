use vstd::prelude::*;
use crate::mount::{MountV, MatchInfo, mount_matches};

verus! {

/// The filtered subsequence: the mounts whose verdicts match, in master
/// order, no resorting.
pub open spec fn kept_views(ms: Seq<MountV>, fl: Seq<MatchInfo>) -> Seq<MountV>
    decreases ms.len(),
{
    if ms.len() == 0 || fl.len() == 0 {
        Seq::empty()
    } else {
        let prefix = kept_views(ms.drop_last(), fl.drop_last());
        if mount_matches(ms.last(), fl.last()) {
            prefix.push(ms.last())
        } else {
            prefix
        }
    }
}

/// The overlay selection reached after scanning the first `i` mounts with the
/// master selection at `s`: the filtered position of the most recently kept
/// mount whose original index is at most `s`, or 0 when none was kept yet.
pub open spec fn sel_at(ms: Seq<MountV>, fl: Seq<MatchInfo>, s: int, i: int) -> int
    decreases i,
{
    if i <= 0 {
        0
    } else if 0 <= i - 1 < ms.len() && i - 1 < fl.len() && mount_matches(ms[i - 1], fl[i - 1])
        && i - 1 <= s {
        kept_views(ms.take(i - 1), fl.take(i - 1)).len() as int
    } else {
        sel_at(ms, fl, s, i - 1)
    }
}

/// The overlay selection a filter edit computes: the whole scan's outcome.
pub open spec fn overlay_sel(ms: Seq<MountV>, fl: Seq<MatchInfo>, s: int) -> int {
    sel_at(ms, fl, s, ms.len() as int)
}

/// Extending the scanned prefix by one mount extends the filtered
/// subsequence exactly when that mount matches.
pub proof fn lemma_kept_step(ms: Seq<MountV>, fl: Seq<MatchInfo>, i: int)
    requires
        0 <= i < ms.len(),
        ms.len() == fl.len(),
    ensures
        kept_views(ms.take(i + 1), fl.take(i + 1)) == if mount_matches(ms[i], fl[i]) {
            kept_views(ms.take(i), fl.take(i)).push(ms[i])
        } else {
            kept_views(ms.take(i), fl.take(i))
        },
{
    assert(ms.take(i + 1).drop_last() =~= ms.take(i));
    assert(fl.take(i + 1).drop_last() =~= fl.take(i));
    assert(ms.take(i + 1).last() == ms[i]);
    assert(fl.take(i + 1).last() == fl[i]);
}

/// The whole scan keeps exactly the matching mounts: the inclusion law.
/// A mount is in the filtered subsequence iff some master position holds
/// it with a matching verdict.
pub proof fn lemma_inclusion(ms: Seq<MountV>, fl: Seq<MatchInfo>)
    requires
        ms.len() == fl.len(),
    ensures
        forall|i: int|
            0 <= i < ms.len() && mount_matches(ms[i], fl[i]) ==> kept_views(ms, fl).contains(ms[i]),
        forall|v: MountV|
            kept_views(ms, fl).contains(v) ==> exists|i: int|
                0 <= i < ms.len() && ms[i] == v && mount_matches(ms[i], fl[i]),
    decreases ms.len(),
{
    if ms.len() == 0 {
    } else {
        let msp = ms.drop_last();
        let flp = fl.drop_last();
        lemma_inclusion(msp, flp);
        let prefix = kept_views(msp, flp);
        let whole = kept_views(ms, fl);
        let last = ms.last();
        assert forall|i: int|
            0 <= i < ms.len() && mount_matches(ms[i], fl[i]) implies whole.contains(ms[i]) by {
            if i < ms.len() - 1 {
                assert(msp[i] == ms[i] && flp[i] == fl[i]);
                assert(prefix.contains(ms[i]));
                let j = choose|j: int| 0 <= j < prefix.len() && prefix[j] == ms[i];
                assert(whole[j] == ms[i]);
            } else {
                assert(mount_matches(last, fl.last()));
                assert(whole.last() == last);
            }
        }
        assert forall|v: MountV| whole.contains(v) implies exists|i: int|
            0 <= i < ms.len() && ms[i] == v && mount_matches(ms[i], fl[i]) by {
            let j = choose|j: int| 0 <= j < whole.len() && whole[j] == v;
            if j < prefix.len() {
                assert(prefix.contains(v));
                let i = choose|i: int|
                    0 <= i < msp.len() && msp[i] == v && mount_matches(msp[i], flp[i]);
                assert(ms[i] == v && mount_matches(ms[i], fl[i]));
            } else {
                assert(v == last && mount_matches(last, fl.last()));
                assert(ms[ms.len() - 1] == v);
            }
        }
    }
}

/// The carry-over law, matching case: when `j` is the last master index at
/// or before the master selection `s` whose mount matches, the overlay
/// selection is that mount's filtered position — the number of matches
/// strictly before it.
pub proof fn lemma_carry_over_match(ms: Seq<MountV>, fl: Seq<MatchInfo>, s: int, j: int, i: int)
    requires
        ms.len() == fl.len(),
        0 <= j <= s,
        j < ms.len(),
        mount_matches(ms[j], fl[j]),
        forall|k: int| j < k < ms.len() && k <= s ==> !mount_matches(ms[k], fl[k]),
        j + 1 <= i <= ms.len(),
    ensures
        sel_at(ms, fl, s, i) == kept_views(ms.take(j), fl.take(j)).len(),
    decreases i,
{
    if i == j + 1 {
        assert(sel_at(ms, fl, s, i) == kept_views(ms.take(j), fl.take(j)).len());
    } else {
        lemma_carry_over_match(ms, fl, s, j, i - 1);
        if i - 1 <= s {
            assert(!mount_matches(ms[i - 1], fl[i - 1]));
        }
    }
}

/// The carry-over law, empty case: when no master index at or before the
/// master selection matches, the overlay selection is 0.
pub proof fn lemma_carry_over_none(ms: Seq<MountV>, fl: Seq<MatchInfo>, s: int, i: int)
    requires
        ms.len() == fl.len(),
        forall|k: int| 0 <= k < ms.len() && k <= s ==> !mount_matches(ms[k], fl[k]),
        0 <= i <= ms.len(),
    ensures
        sel_at(ms, fl, s, i) == 0,
    decreases i,
{
    if i > 0 {
        lemma_carry_over_none(ms, fl, s, i - 1);
    }
}

} // verus!
