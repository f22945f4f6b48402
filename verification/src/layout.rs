use vstd::prelude::*;

verus! {

/// Fixed column widths: the disk type label, the size, used and free cells
/// (four characters each by the size writing), and the percentage cell.
pub const W_DSK: usize = 3;

pub const W_SIZE: usize = 4;

pub const W_USE: usize = 4;

pub const W_USE_SHARE: usize = 4;

pub const W_FREE: usize = 4;

/// The column plan for one render: which optional columns are enabled and
/// the resolved widths. Mandatory columns — fs name (with the selection
/// marker when shown), size, free, mount point — are always drawn, one
/// one-character border between neighbours.
#[derive(Clone, Copy, PartialEq, Eq, Structural, Debug)]
pub struct Layout {
    pub wc_fs: usize,
    pub w_type: usize,
    pub w_mount_point: usize,
    pub e_dsk: bool,
    pub e_type: bool,
    pub e_use: bool,
    pub e_use_bar: bool,
    pub e_use_share: bool,
    pub w_use_bar: usize,
    pub wc_use: usize,
}

/// The width the mandatory columns claim: fs column, size, free, mount
/// point, and the three borders between them.
pub open spec fn mandatory_width(wc_fs: int, w_mp: int) -> int {
    wc_fs + 1 + W_SIZE + 1 + W_FREE + 1 + w_mp
}

/// The column plan for an output width and the content widths of the three
/// text columns. Optional columns are enabled greedily in fixed priority
/// order — usage-used, usage share, disk type, usage bar, filesystem type —
/// each only when the remaining budget still exceeds its width plus a
/// border; leftover width then grows the usage bar by at most nine
/// characters.
pub open spec fn plan_spec(width: int, wc_fs: int, w_type: int, w_mp: int) -> Layout {
    let base = Layout {
        wc_fs: wc_fs as usize,
        w_type: w_type as usize,
        w_mount_point: w_mp as usize,
        e_dsk: false,
        e_type: false,
        e_use: false,
        e_use_bar: false,
        e_use_share: false,
        w_use_bar: 1,
        wc_use: W_USE,
    };
    if mandatory_width(wc_fs, w_mp) + 1 < width {
        let rem = width - mandatory_width(wc_fs, w_mp) - 1;
        let e_use = rem > W_USE;
        let rem = if e_use { rem - (W_USE + 1) } else { rem };
        let e_use_share = e_use && rem > W_USE_SHARE;
        let rem = if e_use_share { rem - W_USE_SHARE } else { rem };
        let e_dsk = rem > W_DSK;
        let rem = if e_dsk { rem - (W_DSK + 1) } else { rem };
        let e_use_bar = e_use && rem > 1;
        let rem = if e_use_bar { rem - 2 } else { rem };
        let e_type = rem > w_type;
        let rem = if e_type { rem - (w_type + 1) } else { rem };
        let incr = if e_use_bar && rem > 0 { if rem < 9 { rem } else { 9 } } else { 0 };
        Layout {
            e_dsk,
            e_type,
            e_use,
            e_use_bar,
            e_use_share,
            w_use_bar: (1 + incr) as usize,
            wc_use: (W_USE + (if e_use_share { W_USE_SHARE as int } else { 0 })
                + (if e_use_bar { 1 + 1 + incr } else { 0 })) as usize,
            ..base
        }
    } else {
        base
    }
}

/// Computes the column plan; a pure function of the widths alone.
pub fn plan(width: usize, wc_fs: usize, w_type: usize, w_mp: usize) -> (r: Layout)
    ensures
        r == plan_spec(width as int, wc_fs as int, w_type as int, w_mp as int),
        r.w_use_bar <= 10,
        r.wc_use <= W_USE + W_USE_SHARE + 1 + 10,
{
    let mut lay = Layout {
        wc_fs,
        w_type,
        w_mount_point: w_mp,
        e_dsk: false,
        e_type: false,
        e_use: false,
        e_use_bar: false,
        e_use_share: false,
        w_use_bar: 1,
        wc_use: W_USE,
    };
    // sums are computed widened so that extreme content widths cannot wrap
    let mand: u128 = wc_fs as u128 + 1 + W_SIZE as u128 + 1 + W_FREE as u128 + 1 + w_mp as u128;
    if mand + 1 < width as u128 {
        let mut rem: u128 = width as u128 - mand - 1;
        if rem > W_USE as u128 {
            rem = rem - (W_USE as u128 + 1);
            lay.e_use = true;
        }
        if lay.e_use && rem > W_USE_SHARE as u128 {
            rem = rem - W_USE_SHARE as u128;
            lay.e_use_share = true;
            lay.wc_use = lay.wc_use + W_USE_SHARE;
        }
        if rem > W_DSK as u128 {
            rem = rem - (W_DSK as u128 + 1);
            lay.e_dsk = true;
        }
        if lay.e_use && rem > 1 {
            rem = rem - 2;
            lay.e_use_bar = true;
            lay.wc_use = lay.wc_use + 2;
        }
        if rem > w_type as u128 {
            rem = rem - (w_type as u128 + 1);
            lay.e_type = true;
        }
        if lay.e_use_bar && rem > 0 {
            let incr: usize = if rem < 9 { rem as usize } else { 9 };
            lay.w_use_bar = lay.w_use_bar + incr;
            lay.wc_use = lay.wc_use + incr;
        }
    }
    lay
}

/// Layout monotonicity for the usage columns, at every width: growing the
/// available width never disables the usage-used or the usage-share column,
/// so shrinking it never enables one.
pub proof fn lemma_use_monotone(w1: int, w2: int, wc_fs: int, w_type: int, w_mp: int)
    requires
        w1 <= w2,
    ensures
        plan_spec(w1, wc_fs, w_type, w_mp).e_use ==> plan_spec(w2, wc_fs, w_type, w_mp).e_use,
        plan_spec(w1, wc_fs, w_type, w_mp).e_use_share
            ==> plan_spec(w2, wc_fs, w_type, w_mp).e_use_share,
{
}

/// Layout monotonicity: for fixed content widths, once the width is past
/// the point where the whole usage group and the disk column fit
/// (fourteen characters over the mandatory columns), shrinking the
/// available width never re-enables a column disabled at a larger width —
/// equivalently, every column enabled at the smaller width stays enabled
/// at the larger one. Below that point the greedy scan is not monotone:
/// enabling the usage group can evict the disk or bar column.
pub proof fn lemma_layout_monotone(w1: int, w2: int, wc_fs: int, w_type: int, w_mp: int)
    requires
        w1 <= w2,
        w_type >= 4,
        w1 >= mandatory_width(wc_fs, w_mp) + 14,
    ensures
        plan_spec(w1, wc_fs, w_type, w_mp).e_use ==> plan_spec(w2, wc_fs, w_type, w_mp).e_use,
        plan_spec(w1, wc_fs, w_type, w_mp).e_use_share
            ==> plan_spec(w2, wc_fs, w_type, w_mp).e_use_share,
        plan_spec(w1, wc_fs, w_type, w_mp).e_dsk ==> plan_spec(w2, wc_fs, w_type, w_mp).e_dsk,
        plan_spec(w1, wc_fs, w_type, w_mp).e_use_bar
            ==> plan_spec(w2, wc_fs, w_type, w_mp).e_use_bar,
        plan_spec(w1, wc_fs, w_type, w_mp).e_type ==> plan_spec(w2, wc_fs, w_type, w_mp).e_type,
{
    let m = mandatory_width(wc_fs, w_mp);
    let r1 = w1 - m - 1;
    let r2 = w2 - m - 1;
    assert(r1 >= 13);
    assert(r2 >= r1);
}

} // verus!
