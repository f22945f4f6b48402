use vstd::prelude::*;

verus! {

/// Live usage statistics of one mounted filesystem, in bytes.
/// `used` never exceeds `size`: the use share is a fraction in [0, 1].
#[derive(Clone, Copy, PartialEq, Eq, Structural, Debug)]
pub struct Stats {
    pub size: u64,
    pub used: u64,
    pub available: u64,
}

impl Stats {
    /// A usable statistics record: the used share is a fraction in [0, 1].
    pub open spec fn wf(&self) -> bool {
        self.used <= self.size
    }

    /// The used share expressed in thousandths, 0 when the size is unknown.
    pub open spec fn use_permille_spec(&self) -> int {
        if self.size == 0 {
            0
        } else {
            (self.used as int) * 1000 / (self.size as int)
        }
    }

    /// Used share in thousandths; at most 1000 for a well formed record.
    pub fn use_permille(&self) -> (r: u64)
        requires
            self.wf(),
        ensures
            r == self.use_permille_spec(),
            r <= 1000,
    {
        if self.size == 0 {
            0
        } else {
            proof {
                let u = self.used as int;
                let s = self.size as int;
                assert(u * 1000 <= s * 1000) by (nonlinear_arith)
                    requires u <= s;
                assert(u * 1000 / s <= s * 1000 / s) by (nonlinear_arith)
                    requires u * 1000 <= s * 1000 && s > 0;
                assert(s * 1000 / s == 1000) by (nonlinear_arith)
                    requires s > 0;
            }
            (((self.used as u128) * 1000) / (self.size as u128)) as u64
        }
    }
}

/// One mounted filesystem, as this panel reads it: a stable identity,
/// textual labels as character cells, the device id, and the optional
/// disk type label and usage statistics.
#[derive(Debug)]
pub struct Mount {
    pub id: u64,
    pub dev: u64,
    pub fs: Vec<char>,
    pub fs_type: Vec<char>,
    pub mount_point: Vec<char>,
    pub disk: Option<Vec<char>>,
    pub stats: Option<Stats>,
}

/// The mathematical model of a mount: the same fields with sequences
/// for the textual ones.
pub struct MountV {
    pub id: u64,
    pub dev: u64,
    pub fs: Seq<char>,
    pub fs_type: Seq<char>,
    pub mount_point: Seq<char>,
    pub disk: Option<Seq<char>>,
    pub stats: Option<Stats>,
}

impl View for Mount {
    type V = MountV;

    open spec fn view(&self) -> MountV {
        MountV {
            id: self.id,
            dev: self.dev,
            fs: self.fs@,
            fs_type: self.fs_type@,
            mount_point: self.mount_point@,
            disk: match self.disk {
                Some(d) => Some(d@),
                None => None,
            },
            stats: self.stats,
        }
    }
}

impl MountV {
    /// A usable mount record: if statistics are present they are well formed.
    pub open spec fn wf(&self) -> bool {
        match self.stats {
            Some(s) => s.wf(),
            None => true,
        }
    }
}

/// The models of a sequence of mounts.
pub open spec fn views_of(s: Seq<Mount>) -> Seq<MountV> {
    s.map_values(|m: Mount| m@)
}

/// An exact copy of a character cell vector.
pub fn copy_chars(v: &Vec<char>) -> (r: Vec<char>)
    ensures
        r@ == v@,
{
    let mut out: Vec<char> = Vec::new();
    let mut i: usize = 0;
    while i < v.len()
        invariant
            i <= v.len(),
            out@ == v@.take(i as int),
        decreases v.len() - i,
    {
        out.push(v[i]);
        i = i + 1;
        proof {
            assert(out@ =~= v@.take(i as int));
        }
    }
    proof {
        assert(v@.take(v.len() as int) =~= v@);
    }
    out
}

impl Mount {
    /// An owned copy whose model equals this mount's model.
    pub fn duplicate(&self) -> (r: Mount)
        ensures
            r@ == self@,
    {
        let r = Mount {
            id: self.id,
            dev: self.dev,
            fs: copy_chars(&self.fs),
            fs_type: copy_chars(&self.fs_type),
            mount_point: copy_chars(&self.mount_point),
            disk: match &self.disk {
                Some(d) => Some(copy_chars(d)),
                None => None,
            },
            stats: self.stats,
        };
        r
    }
}

/// The results of holding one mount's four searchable texts against the
/// active filter pattern: fs name, disk type label, filesystem type and
/// mount point. The pattern capability itself lives outside this core;
/// only these inclusion verdicts enter it.
#[derive(Clone, Copy, PartialEq, Eq, Structural, Debug)]
pub struct MatchInfo {
    pub fs: bool,
    pub disk: bool,
    pub fs_type: bool,
    pub mount_point: bool,
}

/// A mount is kept by the filter when any of its searchable texts matches;
/// the disk type label counts only when a disk descriptor is present.
pub open spec fn mount_matches(m: MountV, t: MatchInfo) -> bool {
    t.fs || (m.disk is Some && t.disk) || t.fs_type || t.mount_point
}

/// Decides inclusion of one mount from its match verdicts.
pub fn matches_mount(m: &Mount, t: MatchInfo) -> (r: bool)
    ensures
        r == mount_matches(m@, t),
{
    t.fs || (m.disk.is_some() && t.disk) || t.fs_type || t.mount_point
}

/// Display options handed through by the host; this panel only ever
/// turns `show_root_fs` on when opening a child browsing view.
#[derive(Clone, Copy, PartialEq, Eq, Structural, Debug)]
pub struct TreeOptions {
    pub show_root_fs: bool,
}

/// Construction failures: the mount source produced no usable mount.
#[derive(Clone, Copy, PartialEq, Eq, Structural, Debug)]
pub enum StateError {
    NoMounts,
}

/// The kind of entry a selection points at.
#[derive(Clone, Copy, PartialEq, Eq, Structural, Debug)]
pub enum SelectionType {
    File,
    Directory,
}

/// What the host reads of the current selection.
#[derive(Debug)]
pub struct Selection {
    pub path: Vec<char>,
    pub stype: SelectionType,
    pub is_exe: bool,
    pub line: usize,
}

} // verus!
