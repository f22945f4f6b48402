use vstd::prelude::*;
use crate::mount::{Mount, MountV, MatchInfo, TreeOptions, StateError, Selection, SelectionType,
    views_of, mount_matches, matches_mount, copy_chars};
use crate::scroll::{ScrollCommand, max_scroll, clamp_scroll};
use crate::filter::{kept_views, overlay_sel, sel_at, lemma_kept_step};
use crate::ext::{nev_mounts, nev_from_vec, nev_slice};

verus! {

/// The derived view present while a non-empty filter is active: the
/// triggering pattern, the kept mounts in master order, and a selection
/// index of its own.
pub struct FilteredContent {
    pub pattern: Vec<char>,
    pub mounts: Vec<Mount>,
    pub selection_idx: usize,
}

impl FilteredContent {
    /// Well-formed against the master models: the selection is in bounds
    /// (0 when the subsequence is empty) and every kept mount is a master
    /// mount.
    pub open spec fn wf_in(&self, master: Seq<MountV>) -> bool {
        &&& (self.mounts@.len() == 0 ==> self.selection_idx == 0)
        &&& (self.mounts@.len() > 0 ==> self.selection_idx < self.mounts@.len())
        &&& forall|j: int| 0 <= j < self.mounts@.len() ==> master.contains(#[trigger] self.mounts@[j]@)
    }
}

/// Whether the mount source keeps a mount: in disks-only mode those with a
/// disk descriptor, otherwise those with usable statistics.
pub open spec fn source_keeps(m: MountV, only_disks: bool) -> bool {
    if only_disks {
        m.disk is Some
    } else {
        m.stats is Some
    }
}

/// The candidate list construction builds: the usable mounts, in order.
pub open spec fn source_kept(ms: Seq<MountV>, only_disks: bool) -> Seq<MountV>
    decreases ms.len(),
{
    if ms.len() == 0 {
        Seq::empty()
    } else {
        let prefix = source_kept(ms.drop_last(), only_disks);
        if source_keeps(ms.last(), only_disks) {
            prefix.push(ms.last())
        } else {
            prefix
        }
    }
}

proof fn lemma_source_step(ms: Seq<MountV>, only_disks: bool, i: int)
    requires
        0 <= i < ms.len(),
    ensures
        source_kept(ms.take(i + 1), only_disks) == if source_keeps(ms[i], only_disks) {
            source_kept(ms.take(i), only_disks).push(ms[i])
        } else {
            source_kept(ms.take(i), only_disks)
        },
{
    assert(ms.take(i + 1).drop_last() =~= ms.take(i));
    assert(ms.take(i + 1).last() == ms[i]);
}

/// The panel's state: the master mount list (never empty), its selection,
/// the scroll model, the pass-through display options, and the optional
/// filter overlay.
pub struct FilesystemState {
    pub mounts: strict::NonEmptyVec<Mount>,
    pub selection_idx: usize,
    pub scroll: usize,
    pub page_height: u16,
    pub tree_options: TreeOptions,
    pub filtered: Option<FilteredContent>,
}

impl FilesystemState {
    /// The master mounts.
    pub open spec fn master(&self) -> Seq<Mount> {
        nev_mounts(&self.mounts)
    }

    /// The master mounts' models.
    pub open spec fn master_views(&self) -> Seq<MountV> {
        views_of(self.master())
    }

    /// The state invariant: a non-empty master list, the master selection in
    /// bounds, well-formed statistics, and a well-formed overlay if any.
    pub open spec fn wf(&self) -> bool {
        &&& self.master().len() >= 1
        &&& self.selection_idx < self.master().len()
        &&& forall|i: int| 0 <= i < self.master_views().len() ==> (#[trigger] self.master_views()[i]).wf()
        &&& match self.filtered {
            Some(f) => f.wf_in(self.master_views()),
            None => true,
        }
    }

    /// The master fields this panel promises never to touch while an
    /// overlay is active: the mounts, the master selection, and the
    /// display options.
    pub open spec fn same_master(pre: Self, post: Self) -> bool {
        &&& post.mounts == pre.mounts
        &&& post.selection_idx == pre.selection_idx
        &&& post.tree_options == pre.tree_options
    }

    /// The number of addressable rows: the overlay's length while one is
    /// active, else the master length.
    pub open spec fn count_spec(&self) -> int {
        match self.filtered {
            Some(f) => f.mounts@.len() as int,
            None => self.master().len() as int,
        }
    }

    /// The model of the mount the active view selects: the overlay's
    /// selected mount while a non-empty overlay is active, else the
    /// master's.
    pub open spec fn sel_mount_view(&self) -> MountV {
        match self.filtered {
            Some(f) => if f.mounts@.len() > 0 {
                f.mounts@[f.selection_idx as int]@
            } else {
                self.master_views()[self.selection_idx as int]
            },
            None => self.master_views()[self.selection_idx as int],
        }
    }

    /// Builds the panel state from the loaded mounts: keeps the usable ones,
    /// fails when none is left, and selects the mount holding the device the
    /// initial path lives on, or the first mount.
    pub fn new(
        mounts: &Vec<Mount>,
        show_only_disks: bool,
        device_id: u64,
        tree_options: TreeOptions,
    ) -> (r: Result<FilesystemState, StateError>)
        requires
            forall|i: int| 0 <= i < mounts@.len() ==> (#[trigger] mounts@[i]@).wf(),
        ensures
            r is Err <==> source_kept(views_of(mounts@), show_only_disks).len() == 0,
            r matches Err(e) ==> e == StateError::NoMounts,
            r matches Ok(s) ==> {
                let kv = source_kept(views_of(mounts@), show_only_disks);
                &&& s.wf()
                &&& s.master_views() == kv
                &&& if exists|i: int| 0 <= i < kv.len() && (#[trigger] kv[i]).dev == device_id {
                    &&& s.selection_idx < kv.len()
                    &&& kv[s.selection_idx as int].dev == device_id
                    &&& forall|k: int| 0 <= k < s.selection_idx ==> (#[trigger] kv[k]).dev != device_id
                } else {
                    s.selection_idx == 0
                }
                &&& s.scroll == 0
                &&& s.page_height == 0
                &&& s.tree_options == tree_options
                &&& s.filtered is None
            },
    {
        let ghost mv = views_of(mounts@);
        let mut kept: Vec<Mount> = Vec::new();
        let mut i: usize = 0;
        while i < mounts.len()
            invariant
                i <= mounts@.len(),
                mv == views_of(mounts@),
                mv.len() == mounts@.len(),
                forall|k: int| 0 <= k < mounts@.len() ==> mv[k] == mounts@[k]@,
                views_of(kept@) == source_kept(mv.take(i as int), show_only_disks),
                forall|k: int| 0 <= k < mounts@.len() ==> (#[trigger] mounts@[k]@).wf(),
                forall|j: int| 0 <= j < kept@.len() ==> (#[trigger] kept@[j]@).wf(),
            decreases mounts@.len() - i,
        {
            let keep = if show_only_disks {
                mounts[i].disk.is_some()
            } else {
                mounts[i].stats.is_some()
            };
            proof {
                lemma_source_step(mv, show_only_disks, i as int);
            }
            if keep {
                kept.push(mounts[i].duplicate());
                proof {
                    assert(views_of(kept@) =~= source_kept(mv.take(i + 1), show_only_disks));
                }
            }
            i = i + 1;
        }
        proof {
            assert(mv.take(mounts@.len() as int) =~= mv);
        }
        let ghost kv = source_kept(mv, show_only_disks);
        // pick the selection: the first mount on the wanted device, else 0
        let mut selection_idx: usize = 0;
        let mut j: usize = 0;
        let mut found = false;
        while j < kept.len()
            invariant
                j <= kept@.len(),
                views_of(kept@) == kv,
                kv.len() == kept@.len(),
                forall|k: int| 0 <= k < kept@.len() ==> kv[k] == kept@[k]@,
                !found ==> selection_idx == 0,
                !found ==> forall|k: int| 0 <= k < j ==> (#[trigger] kv[k]).dev != device_id,
                found ==> selection_idx < j && kv[selection_idx as int].dev == device_id
                    && forall|k: int| 0 <= k < selection_idx ==> (#[trigger] kv[k]).dev != device_id,
            decreases kept@.len() - j,
        {
            if !found && kept[j].dev == device_id {
                selection_idx = j;
                found = true;
            }
            j = j + 1;
        }
        let nev = nev_from_vec(kept);
        match nev {
            Some(ms) => {
                let s = FilesystemState {
                    mounts: ms,
                    selection_idx,
                    scroll: 0,
                    page_height: 0,
                    tree_options,
                    filtered: None,
                };
                proof {
                    assert(s.master_views() =~= kv);
                }
                Ok(s)
            },
            None => Err(StateError::NoMounts),
        }
    }

    /// The number of addressable rows in the active view.
    pub fn count(&self) -> (r: usize)
        ensures
            r == self.count_spec(),
    {
        match &self.filtered {
            Some(f) => f.mounts.len(),
            None => nev_slice(&self.mounts).len(),
        }
    }

    /// Applies a scroll command, clamped into
    /// [0, max(0, count - page_height)]; reports whether the offset moved.
    pub fn try_scroll(&mut self, cmd: ScrollCommand) -> (r: bool)
        ensures
            final(self).scroll == clamp_scroll(
                old(self).scroll + cmd.delta_spec(old(self).scroll as int, old(self).page_height as int),
                max_scroll(old(self).count_spec(), old(self).page_height as int),
            ),
            r == (final(self).scroll != old(self).scroll),
            Self::same_master(*old(self), *final(self)),
            final(self).page_height == old(self).page_height,
            final(self).filtered == old(self).filtered,
    {
        let old_scroll = self.scroll;
        self.scroll = cmd.apply(self.scroll, self.count(), self.page_height);
        self.scroll != old_scroll
    }

    /// The mount point of the row the active view selects; while an overlay
    /// with no match is active, no row is addressable there and the master
    /// selection answers.
    pub fn selected_path(&self) -> (r: &Vec<char>)
        requires
            self.wf(),
        ensures
            r@ == self.sel_mount_view().mount_point,
    {
        match &self.filtered {
            Some(f) => {
                if f.mounts.len() > 0 {
                    &f.mounts[f.selection_idx].mount_point
                } else {
                    &nev_slice(&self.mounts)[self.selection_idx].mount_point
                }
            },
            None => &nev_slice(&self.mounts)[self.selection_idx].mount_point,
        }
    }

    /// What the host reads of the current selection: the selected mount
    /// point, always a directory, never executable, no line.
    pub fn selection(&self) -> (r: Selection)
        requires
            self.wf(),
        ensures
            r.path@ == self.sel_mount_view().mount_point,
            r.stype == SelectionType::Directory,
            !r.is_exe,
            r.line == 0,
    {
        Selection {
            path: copy_chars(self.selected_path()),
            stype: SelectionType::Directory,
            is_exe: false,
            line: 0,
        }
    }

    /// The pass-through display options.
    pub fn tree_options(&self) -> (r: TreeOptions)
        ensures
            r == self.tree_options,
    {
        self.tree_options
    }

    /// Applies a host-supplied transformation to the display options and
    /// keeps the panel open.
    pub fn with_new_options<F: Fn(TreeOptions) -> TreeOptions>(&mut self, change_options: F)
        requires
            call_requires(change_options, (old(self).tree_options,)),
        ensures
            call_ensures(change_options, (old(self).tree_options,), final(self).tree_options),
            final(self).mounts == old(self).mounts,
            final(self).selection_idx == old(self).selection_idx,
            final(self).scroll == old(self).scroll,
            final(self).page_height == old(self).page_height,
            final(self).filtered == old(self).filtered,
    {
        self.tree_options = change_options(self.tree_options);
    }

    /// The mount list is loaded once at construction; refreshing changes
    /// nothing of this state.
    pub fn refresh(&mut self)
        ensures
            *final(self) == *old(self),
    {
    }

    /// Applies a filter edit. A cleared pattern destroys the overlay and the
    /// master state, untouched throughout the filtering episode, becomes
    /// active again. A non-empty pattern replaces the overlay wholesale:
    /// the kept mounts are those whose verdicts match, in master order, and
    /// the overlay selection carries the master selection over — the
    /// filtered position of the last kept mount at or before it, else 0.
    pub fn on_pattern(&mut self, pattern: Option<Vec<char>>, verdicts: &Vec<MatchInfo>)
        requires
            old(self).wf(),
            pattern matches Some(p) ==> verdicts@.len() == old(self).master().len(),
        ensures
            final(self).wf(),
            Self::same_master(*old(self), *final(self)),
            final(self).scroll == old(self).scroll,
            final(self).page_height == old(self).page_height,
            pattern is None ==> final(self).filtered is None,
            pattern matches Some(p) ==> final(self).filtered matches Some(f) && {
                &&& f.pattern@ == p@
                &&& views_of(f.mounts@) == kept_views(old(self).master_views(), verdicts@)
                &&& f.selection_idx == overlay_sel(
                    old(self).master_views(), verdicts@, old(self).selection_idx as int)
            },
    {
        match pattern {
            None => {
                self.filtered = None;
            },
            Some(p) => {
                let ghost mv = self.master_views();
                let ghost s = self.selection_idx as int;
                let ms = nev_slice(&self.mounts);
                let mut kept: Vec<Mount> = Vec::new();
                let mut selection_idx: usize = 0;
                let mut idx: usize = 0;
                while idx < ms.len()
                    invariant
                        idx <= ms@.len(),
                        mv == views_of(ms@),
                        s == self.selection_idx as int,
                        mv.len() == ms@.len(),
                        mv.len() == verdicts@.len(),
                        forall|k: int| 0 <= k < ms@.len() ==> mv[k] == ms@[k]@,
                        views_of(kept@) == kept_views(mv.take(idx as int), verdicts@.take(idx as int)),
                        kept@.len() <= idx,
                        selection_idx as int == sel_at(mv, verdicts@, s, idx as int),
                        kept@.len() == 0 ==> selection_idx == 0,
                        kept@.len() > 0 ==> selection_idx < kept@.len(),
                        forall|j: int| 0 <= j < kept@.len() ==> mv.contains(#[trigger] kept@[j]@),
                    decreases ms@.len() - idx,
                {
                    let ghost fl = verdicts@;
                    let ghost idx0 = idx as int;
                    proof {
                        lemma_kept_step(mv, fl, idx0);
                    }
                    if matches_mount(&ms[idx], verdicts[idx]) {
                        if idx <= self.selection_idx {
                            selection_idx = kept.len();
                            proof {
                                assert(selection_idx as int
                                    == kept_views(mv.take(idx0), fl.take(idx0)).len());
                            }
                        }
                        kept.push(ms[idx].duplicate());
                        proof {
                            assert(views_of(kept@) =~= kept_views(
                                mv.take(idx0 + 1), fl.take(idx0 + 1)));
                            assert(mv[idx0] == kept@.last()@);
                        }
                    }
                    idx = idx + 1;
                    proof {
                        assert(sel_at(mv, fl, s, idx0 + 1) == if mount_matches(mv[idx0], fl[idx0])
                            && idx0 <= s {
                            kept_views(mv.take(idx0), fl.take(idx0)).len() as int
                        } else {
                            sel_at(mv, fl, s, idx0)
                        });
                    }
                }
                proof {
                    assert(mv.take(mv.len() as int) =~= mv);
                    assert(verdicts@.take(verdicts@.len() as int) =~= verdicts@);
                }
                self.filtered = Some(FilteredContent {
                    pattern: p,
                    mounts: kept,
                    selection_idx,
                });
            },
        }
    }

    /// A click in the data-row band selects the clicked master row when it
    /// exists; this path addresses the master list even while an overlay is
    /// active.
    pub fn on_click(&mut self, _x: u16, y: u16)
        requires
            old(self).wf(),
        ensures
            final(self).wf(),
            final(self).mounts == old(self).mounts,
            final(self).scroll == old(self).scroll,
            final(self).page_height == old(self).page_height,
            final(self).tree_options == old(self).tree_options,
            final(self).filtered == old(self).filtered,
            final(self).selection_idx == if y >= 2
                && y - 2 + old(self).scroll < old(self).master().len() {
                y - 2 + old(self).scroll
            } else {
                old(self).selection_idx as int
            },
    {
        if y >= 2 {
            let off: usize = y as usize - 2;
            let len = nev_slice(&self.mounts).len();
            if off < len && self.scroll < len - off {
                self.selection_idx = self.scroll + off;
            }
        }
        proof {
            assert(self.master_views() == old(self).master_views());
        }
    }
}

/// Filtering is idempotent on clearing: any filtering episode — a filter
/// edit followed by navigation and ended by a clearing edit — leaves the
/// master mounts, the master selection and the display options exactly as
/// they were before filtering began, with no overlay active.
pub proof fn lemma_filter_then_clear(s0: FilesystemState, s1: FilesystemState, s2: FilesystemState)
    requires
        FilesystemState::same_master(s0, s1),
        FilesystemState::same_master(s1, s2),
        s2.filtered is None,
    ensures
        s2.mounts == s0.mounts,
        s2.selection_idx == s0.selection_idx,
        s2.tree_options == s0.tree_options,
        s2.filtered is None,
{
}

} // verus!
