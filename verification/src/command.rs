use vstd::prelude::*;
use crate::mount::{TreeOptions, copy_chars};
use crate::scroll::{ScrollCommand, max_scroll, clamp_scroll};
use crate::state::FilesystemState;
use crate::ext::nev_slice;

verus! {

/// The closed set of named input commands this panel answers; every other
/// command is delegated to the host's generic handler.
#[derive(Clone, Copy, PartialEq, Eq, Structural, Debug)]
pub enum Internal {
    Back,
    LineDown,
    LineUp,
    OpenStay,
    PanelLeft,
    PanelRight,
    PageDown,
    PageUp,
    OpenLeave,
    Other,
}

/// A horizontal direction, for panel creation and focus requests.
#[derive(Clone, Copy, PartialEq, Eq, Structural, Debug)]
pub enum HDir {
    Left,
    Right,
}

/// What a command asks of the host once this panel has updated its state.
#[derive(Debug)]
pub enum CmdResult {
    /// stay as is
    Keep,
    /// close this panel
    PopState,
    /// close this panel and re-run the triggering command on the new top one
    PopStateAndReapply,
    /// open a child browsing view rooted at `path`
    OpenBrowser { path: Vec<char>, options: TreeOptions, in_new_panel: bool },
    /// create a new panel on `side` showing `path`
    NewPanelOnPath { path: Vec<char>, options: TreeOptions, side: HDir },
    /// shift the focus to the existing panel on that side
    HandleInApp(HDir),
    /// hand the command to the shared generic handler
    Generic,
}

impl FilesystemState {
    /// The command state machine. One named command moves this panel's
    /// state and yields the request the host must honour:
    /// back leaves filtering (carrying the overlay selection to the master
    /// list by mount identity) or closes the panel; line moves shift the
    /// active view's selection by one, clamped; page moves scroll by one
    /// page, clamped; open-stay asks for a child browsing view on the
    /// selected mount point with the root filesystem shown; the panel
    /// commands ask for a new side panel on the selected path at the edge of
    /// the screen, else a focus shift; open-and-leave closes this panel and
    /// replays; anything else is delegated.
    pub fn on_internal(
        &mut self,
        internal: Internal,
        invocation_bang: Option<bool>,
        exec_bang: bool,
        is_first_panel: bool,
        is_last_panel: bool,
    ) -> (r: CmdResult)
        requires
            old(self).wf(),
        ensures
            final(self).wf(),
            final(self).mounts == old(self).mounts,
            final(self).tree_options == old(self).tree_options,
            match internal {
                Internal::Back => {
                    match old(self).filtered {
                        Some(f) => {
                            &&& r is Keep
                            &&& final(self).filtered is None
                            &&& final(self).scroll == old(self).scroll
                            &&& final(self).page_height == old(self).page_height
                            &&& if f.mounts@.len() > 0 {
                                let id = f.mounts@[f.selection_idx as int]@.id;
                                &&& final(self).selection_idx < old(self).master_views().len()
                                &&& old(self).master_views()[final(self).selection_idx as int].id
                                    == id
                                &&& forall|k: int| 0 <= k < final(self).selection_idx
                                    ==> old(self).master_views()[k].id != id
                            } else {
                                final(self).selection_idx == old(self).selection_idx
                            }
                        },
                        None => r is PopState && *final(self) == *old(self),
                    }
                },
                Internal::LineDown => {
                    &&& r is Keep
                    &&& final(self).scroll == old(self).scroll
                    &&& final(self).page_height == old(self).page_height
                    &&& match old(self).filtered {
                        Some(f) => {
                            &&& final(self).selection_idx == old(self).selection_idx
                            &&& final(self).filtered matches Some(f2)
                                && f2.pattern == f.pattern
                                && f2.mounts == f.mounts
                                && f2.selection_idx == if f.selection_idx + 1 < f.mounts@.len() {
                                    f.selection_idx + 1
                                } else {
                                    f.selection_idx as int
                                }
                        },
                        None => {
                            &&& final(self).filtered is None
                            &&& final(self).selection_idx == if old(self).selection_idx + 1
                                < old(self).master().len() {
                                old(self).selection_idx + 1
                            } else {
                                old(self).selection_idx as int
                            }
                        },
                    }
                },
                Internal::LineUp => {
                    &&& r is Keep
                    &&& final(self).scroll == old(self).scroll
                    &&& final(self).page_height == old(self).page_height
                    &&& match old(self).filtered {
                        Some(f) => {
                            &&& final(self).selection_idx == old(self).selection_idx
                            &&& final(self).filtered matches Some(f2)
                                && f2.pattern == f.pattern
                                && f2.mounts == f.mounts
                                && f2.selection_idx == if f.selection_idx > 0 {
                                    f.selection_idx - 1
                                } else {
                                    0
                                }
                        },
                        None => {
                            &&& final(self).filtered is None
                            &&& final(self).selection_idx == if old(self).selection_idx > 0 {
                                old(self).selection_idx - 1
                            } else {
                                0
                            }
                        },
                    }
                },
                Internal::OpenStay => {
                    &&& *final(self) == *old(self)
                    &&& r matches CmdResult::OpenBrowser { path, options, in_new_panel }
                    &&& path@ == old(self).sel_mount_view().mount_point
                    &&& options == (TreeOptions { show_root_fs: true })
                    &&& in_new_panel == match invocation_bang {
                        Some(b) => b,
                        None => exec_bang,
                    }
                },
                Internal::PanelLeft => {
                    &&& *final(self) == *old(self)
                    &&& if is_first_panel {
                        &&& r matches CmdResult::NewPanelOnPath { path, options, side }
                        &&& path@ == old(self).sel_mount_view().mount_point
                        &&& options == old(self).tree_options
                        &&& side is Left
                    } else {
                        r matches CmdResult::HandleInApp(d) && d is Left
                    }
                },
                Internal::PanelRight => {
                    &&& *final(self) == *old(self)
                    &&& if is_last_panel {
                        &&& r matches CmdResult::NewPanelOnPath { path, options, side }
                        &&& path@ == old(self).sel_mount_view().mount_point
                        &&& options == old(self).tree_options
                        &&& side is Right
                    } else {
                        r matches CmdResult::HandleInApp(d) && d is Right
                    }
                },
                Internal::PageDown => {
                    &&& r is Keep
                    &&& final(self).selection_idx == old(self).selection_idx
                    &&& final(self).filtered == old(self).filtered
                    &&& final(self).page_height == old(self).page_height
                    &&& final(self).scroll == clamp_scroll(
                        old(self).scroll + old(self).page_height,
                        max_scroll(old(self).count_spec(), old(self).page_height as int),
                    )
                },
                Internal::PageUp => {
                    &&& r is Keep
                    &&& final(self).selection_idx == old(self).selection_idx
                    &&& final(self).filtered == old(self).filtered
                    &&& final(self).page_height == old(self).page_height
                    &&& final(self).scroll == clamp_scroll(
                        old(self).scroll - old(self).page_height,
                        max_scroll(old(self).count_spec(), old(self).page_height as int),
                    )
                },
                Internal::OpenLeave => r is PopStateAndReapply && *final(self) == *old(self),
                Internal::Other => r is Generic && *final(self) == *old(self),
            },
    {
        match internal {
            Internal::Back => {
                let had_overlay = self.filtered.is_some();
                if had_overlay {
                    let mut found: usize = 0;
                    let mut do_set = false;
                    if let Some(f) = &self.filtered {
                        if f.mounts.len() > 0 {
                            let target_id = f.mounts[f.selection_idx].id;
                            let ghost fv = f.mounts@[f.selection_idx as int]@;
                            proof {
                                assert(self.master_views().contains(fv));
                            }
                            let ms = nev_slice(&self.mounts);
                            let mut i: usize = 0;
                            loop
                                invariant_except_break
                                    ms@ == self.master(),
                                    i <= ms@.len(),
                                    fv.id == target_id,
                                    self.master_views().contains(fv),
                                    forall|k: int| 0 <= k < i
                                        ==> self.master_views()[k].id != target_id,
                                ensures
                                    do_set,
                                    found < self.master_views().len(),
                                    self.master_views()[found as int].id == target_id,
                                    forall|k: int| 0 <= k < found
                                        ==> self.master_views()[k].id != target_id,
                                decreases ms@.len() - i,
                            {
                                proof {
                                    let w = choose|w: int| 0 <= w < self.master_views().len()
                                        && self.master_views()[w] == fv;
                                    assert(self.master_views()[w].id == target_id);
                                    assert(i < ms@.len());
                                    assert(self.master_views()[i as int].id == ms@[i as int].id);
                                }
                                if ms[i].id == target_id {
                                    found = i;
                                    do_set = true;
                                    break;
                                }
                                i = i + 1;
                            }
                        }
                    }
                    if do_set {
                        self.selection_idx = found;
                    }
                    self.filtered = None;
                    proof {
                        assert(self.master_views() == old(self).master_views());
                    }
                    CmdResult::Keep
                } else {
                    CmdResult::PopState
                }
            },
            Internal::LineDown => {
                match self.filtered.take() {
                    Some(mut f) => {
                        if f.selection_idx < f.mounts.len() && f.selection_idx + 1 < f.mounts.len()
                        {
                            f.selection_idx = f.selection_idx + 1;
                        }
                        self.filtered = Some(f);
                    },
                    None => {
                        let len = nev_slice(&self.mounts).len();
                        proof {
                            assert(self.master() == old(self).master());
                            assert(self.selection_idx < len);
                        }
                        if self.selection_idx + 1 < len {
                            self.selection_idx = self.selection_idx + 1;
                        }
                    },
                }
                proof {
                    assert(self.master_views() == old(self).master_views());
                }
                CmdResult::Keep
            },
            Internal::LineUp => {
                match self.filtered.take() {
                    Some(mut f) => {
                        if f.selection_idx > 0 {
                            f.selection_idx = f.selection_idx - 1;
                        }
                        self.filtered = Some(f);
                    },
                    None => {
                        if self.selection_idx > 0 {
                            self.selection_idx = self.selection_idx - 1;
                        }
                    },
                }
                proof {
                    assert(self.master_views() == old(self).master_views());
                }
                CmdResult::Keep
            },
            Internal::OpenStay => {
                let in_new_panel = match invocation_bang {
                    Some(b) => b,
                    None => exec_bang,
                };
                let path = copy_chars(self.selected_path());
                CmdResult::OpenBrowser {
                    path,
                    options: TreeOptions { show_root_fs: true },
                    in_new_panel,
                }
            },
            Internal::PanelLeft => {
                if is_first_panel {
                    CmdResult::NewPanelOnPath {
                        path: copy_chars(self.selected_path()),
                        options: self.tree_options(),
                        side: HDir::Left,
                    }
                } else {
                    CmdResult::HandleInApp(HDir::Left)
                }
            },
            Internal::PanelRight => {
                if is_last_panel {
                    CmdResult::NewPanelOnPath {
                        path: copy_chars(self.selected_path()),
                        options: self.tree_options(),
                        side: HDir::Right,
                    }
                } else {
                    CmdResult::HandleInApp(HDir::Right)
                }
            },
            Internal::PageDown => {
                self.try_scroll(ScrollCommand::Pages(1));
                proof {
                    assert(self.master_views() == old(self).master_views());
                }
                CmdResult::Keep
            },
            Internal::PageUp => {
                self.try_scroll(ScrollCommand::Pages(-1));
                proof {
                    assert(self.master_views() == old(self).master_views());
                    assert(ScrollCommand::Pages(-1i64).delta_spec(
                        old(self).scroll as int, old(self).page_height as int)
                        == -1 * (old(self).page_height as int));
                    assert(self.scroll == clamp_scroll(
                        old(self).scroll + -1 * (old(self).page_height as int),
                        max_scroll(old(self).count_spec(), old(self).page_height as int)));
                    assert(old(self).scroll + -1 * (old(self).page_height as int)
                        == old(self).scroll - old(self).page_height);
                }
                CmdResult::Keep
            },
            Internal::OpenLeave => CmdResult::PopStateAndReapply,
            Internal::Other => CmdResult::Generic,
        }
    }
}

} // verus!
