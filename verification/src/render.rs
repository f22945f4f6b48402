use vstd::prelude::*;
use crate::mount::{Mount, MountV};
use crate::layout::{Layout, plan, plan_spec, W_SIZE, W_FREE};
use crate::state::FilesystemState;
use crate::ext::{fit_4, fit4_of, scrollbar, scrollbar_of, nev_slice};

verus! {

/// The role of one cell; the host maps roles to its style set, using the
/// selected variants on a selected row. A bar cell spans the usage bar's
/// width and the host paints its proportional fill; a share cell's text is
/// colored by the same severity mapping.
#[derive(Clone, Copy, PartialEq, Eq, Structural, Debug)]
pub enum CellStyle {
    Text,
    Border,
    Bar { permille: u64 },
    Share { permille: u64 },
}

/// One run of characters with one style; `searchable` marks the cells whose
/// text takes fuzzy-match highlighting from the active pattern.
#[derive(Debug)]
pub struct Cell {
    pub chars: Vec<char>,
    pub style: CellStyle,
    pub searchable: bool,
}

/// The model of a cell.
pub struct CellV {
    pub chars: Seq<char>,
    pub style: CellStyle,
    pub searchable: bool,
}

impl View for Cell {
    type V = CellV;

    open spec fn view(&self) -> CellV {
        CellV { chars: self.chars@, style: self.style, searchable: self.searchable }
    }
}

/// The models of a row's cells.
pub open spec fn cell_views(s: Seq<Cell>) -> Seq<CellV> {
    s.map_values(|c: Cell| c@)
}

/// The character width of a row.
pub open spec fn row_width(s: Seq<CellV>) -> int
    decreases s.len(),
{
    if s.len() == 0 {
        0
    } else {
        row_width(s.drop_last()) + s.last().chars.len()
    }
}

/// `n` spaces.
pub open spec fn spaces(n: int) -> Seq<char> {
    Seq::new(n as nat, |i: int| ' ')
}

/// Appending one piece to a row under a width budget: the piece is cropped
/// to what remains.
pub open spec fn pushed(
    row: Seq<CellV>,
    rem: int,
    chars: Seq<char>,
    style: CellStyle,
    searchable: bool,
) -> (Seq<CellV>, int) {
    let take = if chars.len() <= rem { chars.len() as int } else { rem };
    (row.push(CellV { chars: chars.take(take), style, searchable }), rem - take)
}

proof fn lemma_pushed_width(row: Seq<CellV>, rem: int, chars: Seq<char>, style: CellStyle, b: bool)
    requires
        rem >= 0,
    ensures
        ({
            let (r2, rem2) = pushed(row, rem, chars, style, b);
            &&& row_width(r2) == row_width(row) + (rem - rem2)
            &&& 0 <= rem2 <= rem
        }),
{
    let (r2, rem2) = pushed(row, rem, chars, style, b);
    assert(r2.drop_last() =~= row);
}

/// Composes one row, cropping every piece to the remaining budget so that
/// the finished row is exactly as wide as the budget it started with.
pub struct RowBuilder {
    pub cells: Vec<Cell>,
    pub rem: usize,
}

impl RowBuilder {
    /// The row built so far.
    pub open spec fn views(&self) -> Seq<CellV> {
        cell_views(self.cells@)
    }

    /// The budget accounting: what is built plus what remains is the width.
    pub open spec fn wf(&self, width: int) -> bool {
        row_width(self.views()) + self.rem == width
    }

    pub fn new(width: usize) -> (r: RowBuilder)
        ensures
            r.wf(width as int),
            r.views() == Seq::<CellV>::empty(),
            r.rem == width,
    {
        let r = RowBuilder { cells: Vec::new(), rem: width };
        proof {
            assert(r.views() =~= Seq::<CellV>::empty());
        }
        r
    }

    /// Appends a piece, cropped to the remaining budget.
    pub fn push(&mut self, chars: Vec<char>, style: CellStyle, searchable: bool)
        ensures
            (final(self).views(), final(self).rem as int) == pushed(
                old(self).views(), old(self).rem as int, chars@, style, searchable),
            row_width(final(self).views()) + final(self).rem
                == row_width(old(self).views()) + old(self).rem,
            final(self).rem <= old(self).rem,
    {
        proof {
            lemma_pushed_width(self.views(), self.rem as int, chars@, style, searchable);
        }
        let take: usize = if chars.len() <= self.rem { chars.len() } else { self.rem };
        let mut cropped: Vec<char> = Vec::new();
        let mut i: usize = 0;
        while i < take
            invariant
                i <= take,
                take <= chars@.len(),
                take <= self.rem,
                take as int == if chars@.len() <= old(self).rem {
                    chars@.len() as int
                } else {
                    old(self).rem as int
                },
                *self == *old(self),
                cropped@ == chars@.take(i as int),
            decreases take - i,
        {
            cropped.push(chars[i]);
            i = i + 1;
            proof {
                assert(cropped@ =~= chars@.take(i as int));
            }
        }
        self.rem = self.rem - take;
        self.cells.push(Cell { chars: cropped, style, searchable });
        proof {
            assert(self.views() =~= pushed(
                old(self).views(), old(self).rem as int, chars@, style, searchable).0);
        }
    }

    /// Appends one character.
    pub fn push_char(&mut self, c: char, style: CellStyle)
        ensures
            (final(self).views(), final(self).rem as int) == pushed(
                old(self).views(), old(self).rem as int, seq![c], style, false),
            row_width(final(self).views()) + final(self).rem
                == row_width(old(self).views()) + old(self).rem,
            final(self).rem <= old(self).rem,
    {
        let mut v: Vec<char> = Vec::new();
        v.push(c);
        proof {
            assert(v@ =~= seq![c]);
        }
        self.push(v, style, false);
    }

    /// Pads the rest of the row with one character and finishes it.
    pub fn fill(&mut self, c: char, style: CellStyle) -> (r: Vec<Cell>)
        ensures
            cell_views(r@) == pushed(
                old(self).views(), old(self).rem as int,
                Seq::new(old(self).rem as nat, |i: int| c), style, false).0,
            row_width(cell_views(r@)) == row_width(old(self).views()) + old(self).rem,
    {
        let n = self.rem;
        let mut pad: Vec<char> = Vec::new();
        let mut i: usize = 0;
        while i < n
            invariant
                i <= n,
                n == old(self).rem,
                *self == *old(self),
                pad@ == Seq::new(i as nat, |k: int| c),
            decreases n - i,
        {
            pad.push(c);
            i = i + 1;
            proof {
                assert(pad@ =~= Seq::new(i as nat, |k: int| c));
            }
        }
        proof {
            assert(pad@.take(n as int) =~= pad@);
        }
        self.push(pad, style, false);
        proof {
            lemma_pushed_width(old(self).views(), old(self).rem as int,
                Seq::new(old(self).rem as nat, |i: int| c), style, false);
        }
        let mut out: Vec<Cell> = Vec::new();
        std::mem::swap(&mut out, &mut self.cells);
        out
    }
}

/// Cell text alignment inside its column.
#[derive(Clone, Copy, PartialEq, Eq, Structural, Debug)]
pub enum Alignment {
    Left,
    Center,
    Right,
}

/// A text padded to a column width; text already that wide stays as is.
/// Centering puts the extra space on the right.
pub open spec fn pad_spec(s: Seq<char>, w: int, align: Alignment) -> Seq<char> {
    if s.len() >= w {
        s
    } else {
        let d = w - s.len();
        match align {
            Alignment::Left => s + spaces(d),
            Alignment::Right => spaces(d) + s,
            Alignment::Center => spaces(d / 2) + s + spaces(d - d / 2),
        }
    }
}

/// Pads a text to a column width.
pub fn pad(chars: &Vec<char>, w: usize, align: Alignment) -> (r: Vec<char>)
    ensures
        r@ == pad_spec(chars@, w as int, align),
{
    if chars.len() >= w {
        return crate::mount::copy_chars(chars);
    }
    let d: usize = w - chars.len();
    let lead: usize = match align {
        Alignment::Left => 0,
        Alignment::Right => d,
        Alignment::Center => d / 2,
    };
    let mut out: Vec<char> = Vec::new();
    let mut i: usize = 0;
    while i < lead
        invariant
            i <= lead,
            out@ == spaces(i as int),
        decreases lead - i,
    {
        out.push(' ');
        i = i + 1;
        proof {
            assert(out@ =~= spaces(i as int));
        }
    }
    let mut j: usize = 0;
    while j < chars.len()
        invariant
            j <= chars@.len(),
            out@ == spaces(lead as int) + chars@.take(j as int),
        decreases chars@.len() - j,
    {
        out.push(chars[j]);
        j = j + 1;
        proof {
            assert(out@ =~= spaces(lead as int) + chars@.take(j as int));
        }
    }
    proof {
        assert(chars@.take(chars@.len() as int) =~= chars@);
    }
    while out.len() < w
        invariant
            out@.len() >= spaces(lead as int).len() + chars@.len(),
            out@.len() <= w,
            out@.subrange(0, lead as int + chars@.len() as int)
                == spaces(lead as int) + chars@,
            forall|k: int| lead + chars@.len() <= k < out@.len() ==> out@[k] == ' ',
        decreases w - out.len(),
    {
        out.push(' ');
    }
    proof {
        assert(out@ =~= pad_spec(chars@, w as int, align));
    }
    out
}

/// The decimal digit characters.
pub open spec fn digit_char_spec(d: int) -> char {
    if d == 0 { '0' }
    else if d == 1 { '1' }
    else if d == 2 { '2' }
    else if d == 3 { '3' }
    else if d == 4 { '4' }
    else if d == 5 { '5' }
    else if d == 6 { '6' }
    else if d == 7 { '7' }
    else if d == 8 { '8' }
    else { '9' }
}

fn digit_char(d: u64) -> (c: char)
    requires
        d < 10,
    ensures
        c == digit_char_spec(d as int),
{
    match d {
        0 => '0',
        1 => '1',
        2 => '2',
        3 => '3',
        4 => '4',
        5 => '5',
        6 => '6',
        7 => '7',
        8 => '8',
        _ => '9',
    }
}

/// A percentage written in decimal, one to three characters.
pub open spec fn percent_chars(p: int) -> Seq<char> {
    if p >= 100 {
        seq!['1', '0', '0']
    } else if p >= 10 {
        seq![digit_char_spec(p / 10), digit_char_spec(p % 10)]
    } else {
        seq![digit_char_spec(p)]
    }
}

/// The usage share cell's text: the permille rounded to a percentage,
/// right-aligned over three characters, and a percent sign.
pub open spec fn share_chars(pm: int) -> Seq<char> {
    pad_spec(percent_chars((pm + 5) / 10), 3, Alignment::Right) + seq!['%']
}

/// Writes the usage share cell's text.
fn share_cells(pm: u64) -> (r: Vec<char>)
    requires
        pm <= 1000,
    ensures
        r@ == share_chars(pm as int),
{
    let p: u64 = (pm + 5) / 10;
    let mut digits: Vec<char> = Vec::new();
    if p >= 100 {
        digits.push('1');
        digits.push('0');
        digits.push('0');
        proof {
            assert(digits@ =~= percent_chars(p as int));
        }
    } else if p >= 10 {
        digits.push(digit_char(p / 10));
        digits.push(digit_char(p % 10));
        proof {
            assert(digits@ =~= percent_chars(p as int));
        }
    } else {
        digits.push(digit_char(p));
        proof {
            assert(digits@ =~= percent_chars(p as int));
        }
    }
    let mut r = pad(&digits, 3, Alignment::Right);
    r.push('%');
    proof {
        assert(r@ =~= share_chars(pm as int));
    }
    r
}

/// Whether a data row at screen row `y` lies within the scrollbar thumb.
pub open spec fn is_thumb_spec(y: u16, scrollbar: Option<(u16, u16)>) -> bool {
    match scrollbar {
        Some((sctop, scbottom)) => sctop <= y && y <= scbottom,
        None => false,
    }
}

/// Tells whether screen row `y` falls in the scrollbar thumb range.
pub fn is_thumb(y: u16, scrollbar: Option<(u16, u16)>) -> (r: bool)
    ensures
        r == is_thumb_spec(y, scrollbar),
{
    if let Some((sctop, scbottom)) = scrollbar {
        if sctop <= y && y <= scbottom {
            return true;
        }
    }
    false
}

/// The cells of one data row holding a mount, under a width budget of the
/// area width less the scrollbar column: the optional selection marker, the
/// fs cell, the optional disk type, filesystem type and usage cells, the
/// size and free cells (blank without usable statistics), the mount point,
/// and space filling — every piece cropped to the remaining budget.
pub open spec fn data_row_spec(
    m: MountV,
    lay: Layout,
    selected: bool,
    show_mark: bool,
    width1: int,
) -> Seq<CellV> {
    let st = (Seq::<CellV>::empty(), width1);
    let st = if show_mark {
        pushed(st.0, st.1, seq![if selected { '\u{25b6}' } else { ' ' }], CellStyle::Text, false)
    } else {
        st
    };
    let w_fs = if show_mark { lay.wc_fs - 1 } else { lay.wc_fs as int };
    let st = pushed(st.0, st.1, pad_spec(m.fs, w_fs, Alignment::Left), CellStyle::Text, true);
    let st = pushed(st.0, st.1, seq!['\u{2502}'], CellStyle::Border, false);
    let st = if lay.e_dsk {
        let st = match m.disk {
            Some(d) => pushed(st.0, st.1, pad_spec(d, 3, Alignment::Left), CellStyle::Text, true),
            None => pushed(st.0, st.1, spaces(3), CellStyle::Text, false),
        };
        pushed(st.0, st.1, seq!['\u{2502}'], CellStyle::Border, false)
    } else {
        st
    };
    let st = if lay.e_type {
        let st = pushed(st.0, st.1, pad_spec(m.fs_type, lay.w_type as int, Alignment::Center),
            CellStyle::Text, true);
        pushed(st.0, st.1, seq!['\u{2502}'], CellStyle::Border, false)
    } else {
        st
    };
    let st = match m.stats {
        Some(s) => if s.size > 0 {
            let pm = s.use_permille_spec() as u64;
            let st = pushed(st.0, st.1, pad_spec(fit4_of(s.size), W_SIZE as int, Alignment::Right),
                CellStyle::Text, false);
            let st = pushed(st.0, st.1, seq!['\u{2502}'], CellStyle::Border, false);
            let st = if lay.e_use {
                let st = pushed(st.0, st.1,
                    pad_spec(fit4_of(s.used), 4, Alignment::Right), CellStyle::Text, false);
                let st = if lay.e_use_bar {
                    let st = pushed(st.0, st.1, seq![' '], CellStyle::Text, false);
                    pushed(st.0, st.1, spaces(lay.w_use_bar as int),
                        CellStyle::Bar { permille: pm }, false)
                } else {
                    st
                };
                let st = if lay.e_use_share {
                    pushed(st.0, st.1, share_chars(pm as int),
                        CellStyle::Share { permille: pm }, false)
                } else {
                    st
                };
                pushed(st.0, st.1, seq!['\u{2502}'], CellStyle::Border, false)
            } else {
                st
            };
            let st = pushed(st.0, st.1,
                pad_spec(fit4_of(s.available), W_FREE as int, Alignment::Right),
                CellStyle::Text, false);
            pushed(st.0, st.1, seq!['\u{2502}'], CellStyle::Border, false)
        } else {
            data_row_blank_stats(st, lay)
        },
        None => data_row_blank_stats(st, lay),
    };
    let st = pushed(st.0, st.1, m.mount_point, CellStyle::Text, true);
    pushed(st.0, st.1, spaces(st.1), CellStyle::Text, false).0
}

/// The size, usage and free cells of a row without usable statistics:
/// blank, borders kept.
pub open spec fn data_row_blank_stats(st: (Seq<CellV>, int), lay: Layout) -> (Seq<CellV>, int) {
    let st = pushed(st.0, st.1, spaces(W_SIZE as int), CellStyle::Text, false);
    let st = pushed(st.0, st.1, seq!['\u{2502}'], CellStyle::Border, false);
    let st = if lay.e_use {
        let st = pushed(st.0, st.1, spaces(lay.wc_use as int), CellStyle::Text, false);
        pushed(st.0, st.1, seq!['\u{2502}'], CellStyle::Border, false)
    } else {
        st
    };
    let st = pushed(st.0, st.1, spaces(W_FREE as int), CellStyle::Text, false);
    pushed(st.0, st.1, seq!['\u{2502}'], CellStyle::Border, false)
}

/// A row with no mount at its position: blank space over the whole budget.
pub open spec fn blank_row_spec(width1: int) -> Seq<CellV> {
    pushed(Seq::<CellV>::empty(), width1, spaces(width1), CellStyle::Text, false).0
}

/// Composes the cells of one data row.
pub fn data_row(
    m: &Mount,
    lay: &Layout,
    selected: bool,
    show_mark: bool,
    width1: usize,
) -> (r: Vec<Cell>)
    requires
        m@.wf(),
        show_mark ==> lay.wc_fs >= 1,
    ensures
        cell_views(r@) == data_row_spec(m@, *lay, selected, show_mark, width1 as int),
        row_width(cell_views(r@)) == width1,
{
    let mut b = RowBuilder::new(width1);
    if show_mark {
        b.push_char(if selected { '\u{25b6}' } else { ' ' }, CellStyle::Text);
    }
    let w_fs: usize = if show_mark { lay.wc_fs - 1 } else { lay.wc_fs };
    b.push(pad(&m.fs, w_fs, Alignment::Left), CellStyle::Text, true);
    b.push_char('\u{2502}', CellStyle::Border);
    if lay.e_dsk {
        match &m.disk {
            Some(d) => {
                b.push(pad(d, 3, Alignment::Left), CellStyle::Text, true);
            },
            None => {
                let e: Vec<char> = Vec::new();
                proof {
                    assert(pad_spec(e@, 3, Alignment::Left) =~= spaces(3));
                }
                b.push(pad(&e, 3, Alignment::Left), CellStyle::Text, false);
            },
        }
        b.push_char('\u{2502}', CellStyle::Border);
    }
    if lay.e_type {
        b.push(pad(&m.fs_type, lay.w_type, Alignment::Center), CellStyle::Text, true);
        b.push_char('\u{2502}', CellStyle::Border);
    }
    let has_stats = match &m.stats {
        Some(s) => s.size > 0,
        None => false,
    };
    if has_stats {
        let s = match &m.stats {
            Some(s) => *s,
            None => crate::mount::Stats { size: 0, used: 0, available: 0 },
        };
        let pm = s.use_permille();
        b.push(pad(&fit_4(s.size), W_SIZE, Alignment::Right), CellStyle::Text, false);
        b.push_char('\u{2502}', CellStyle::Border);
        if lay.e_use {
            b.push(pad(&fit_4(s.used), 4, Alignment::Right), CellStyle::Text, false);
            if lay.e_use_bar {
                b.push_char(' ', CellStyle::Text);
                let e: Vec<char> = Vec::new();
                proof {
                    assert(pad_spec(e@, lay.w_use_bar as int, Alignment::Left)
                        =~= spaces(lay.w_use_bar as int));
                }
                b.push(pad(&e, lay.w_use_bar, Alignment::Left),
                    CellStyle::Bar { permille: pm }, false);
            }
            if lay.e_use_share {
                b.push(share_cells(pm), CellStyle::Share { permille: pm }, false);
            }
            b.push_char('\u{2502}', CellStyle::Border);
        }
        b.push(pad(&fit_4(s.available), W_FREE, Alignment::Right), CellStyle::Text, false);
        b.push_char('\u{2502}', CellStyle::Border);
    } else {
        let e: Vec<char> = Vec::new();
        proof {
            assert(pad_spec(e@, W_SIZE as int, Alignment::Left) =~= spaces(W_SIZE as int));
            assert(pad_spec(e@, lay.wc_use as int, Alignment::Left)
                =~= spaces(lay.wc_use as int));
            assert(pad_spec(e@, W_FREE as int, Alignment::Left) =~= spaces(W_FREE as int));
        }
        b.push(pad(&e, W_SIZE, Alignment::Left), CellStyle::Text, false);
        b.push_char('\u{2502}', CellStyle::Border);
        if lay.e_use {
            b.push(pad(&e, lay.wc_use, Alignment::Left), CellStyle::Text, false);
            b.push_char('\u{2502}', CellStyle::Border);
        }
        b.push(pad(&e, W_FREE, Alignment::Left), CellStyle::Text, false);
        b.push_char('\u{2502}', CellStyle::Border);
    }
    b.push(crate::mount::copy_chars(&m.mount_point), CellStyle::Text, true);
    let cells = b.fill(' ', CellStyle::Text);
    proof {
        assert(cell_views(cells@) =~= data_row_spec(m@, *lay, selected, show_mark, width1 as int));
    }
    cells
}

/// The widest fs name, also wide enough for its column label.
pub open spec fn w_fs_of(ms: Seq<MountV>) -> int
    decreases ms.len(),
{
    if ms.len() == 0 {
        10
    } else {
        let p = w_fs_of(ms.drop_last());
        if ms.last().fs.len() > p { ms.last().fs.len() as int } else { p }
    }
}

/// The widest filesystem type, also wide enough for its column label.
pub open spec fn w_type_of(ms: Seq<MountV>) -> int
    decreases ms.len(),
{
    if ms.len() == 0 {
        4
    } else {
        let p = w_type_of(ms.drop_last());
        if ms.last().fs_type.len() > p { ms.last().fs_type.len() as int } else { p }
    }
}

/// The widest mount point, also wide enough for its column label.
pub open spec fn w_mp_of(ms: Seq<MountV>) -> int
    decreases ms.len(),
{
    if ms.len() == 0 {
        11
    } else {
        let p = w_mp_of(ms.drop_last());
        if ms.last().mount_point.len() > p { ms.last().mount_point.len() as int } else { p }
    }
}

proof fn lemma_widths_step(ms: Seq<MountV>, i: int)
    requires
        0 <= i < ms.len(),
    ensures
        w_fs_of(ms.take(i + 1))
            == if ms[i].fs.len() > w_fs_of(ms.take(i)) {
                ms[i].fs.len() as int
            } else {
                w_fs_of(ms.take(i))
            },
        w_type_of(ms.take(i + 1))
            == if ms[i].fs_type.len() > w_type_of(ms.take(i)) {
                ms[i].fs_type.len() as int
            } else {
                w_type_of(ms.take(i))
            },
        w_mp_of(ms.take(i + 1))
            == if ms[i].mount_point.len() > w_mp_of(ms.take(i)) {
                ms[i].mount_point.len() as int
            } else {
                w_mp_of(ms.take(i))
            },
{
    assert(ms.take(i + 1).drop_last() =~= ms.take(i));
    assert(ms.take(i + 1).last() == ms[i]);
}

/// One row ready to draw.
#[derive(Debug)]
pub struct DataRow {
    pub cells: Vec<Cell>,
    pub selected: bool,
    pub thumb: bool,
}

/// One render's output: the resolved column plan, the header and separator
/// rows, and one row per visible line, each exactly as wide as the area
/// (the data rows one character narrower, for the scrollbar column).
#[derive(Debug)]
pub struct RenderPlan {
    pub layout: Layout,
    pub header: Vec<Cell>,
    pub separator: Vec<Cell>,
    pub rows: Vec<DataRow>,
}

/// The running row index the renderer tracks: it advances only while rows
/// hold mounts, so blank filler rows keep the index of the first missing
/// mount.
pub open spec fn row_idx(scroll: int, k: int, count: int) -> int {
    let stop = if scroll > count { scroll } else { count };
    if scroll + k < stop { scroll + k } else { stop }
}

/// A column's stretch of the separator row: its width in dashes, then the
/// crossing glyph over the border.
pub open spec fn dash_piece(n: int) -> Seq<char> {
    Seq::new(n as nat, |i: int| '\u{2500}').push('\u{253c}')
}

fn dashes(n: usize) -> (r: Vec<char>)
    ensures
        r@ == dash_piece(n as int),
{
    let mut out: Vec<char> = Vec::new();
    let mut i: usize = 0;
    while i < n
        invariant
            i <= n,
            out@ == Seq::new(i as nat, |k: int| '\u{2500}'),
        decreases n - i,
    {
        out.push('\u{2500}');
        i = i + 1;
        proof {
            assert(out@ =~= Seq::new(i as nat, |k: int| '\u{2500}'));
        }
    }
    out.push('\u{253c}');
    proof {
        assert(out@ =~= dash_piece(n as int));
    }
    out
}

/// The header row: each enabled column's label over its width, text columns
/// left-aligned, the type and usage groups centered, space filling to the
/// right under the border style.
pub open spec fn header_row_spec(lay: Layout, width: int) -> Seq<CellV> {
    let st = (Seq::<CellV>::empty(), width);
    let st = pushed(st.0, st.1,
        pad_spec(seq!['f', 'i', 'l', 'e', 's', 'y', 's', 't', 'e', 'm'],
            lay.wc_fs as int, Alignment::Left),
        CellStyle::Text, false);
    let st = pushed(st.0, st.1, seq!['\u{2502}'], CellStyle::Border, false);
    let st = if lay.e_dsk {
        let st = pushed(st.0, st.1, seq!['d', 's', 'k'], CellStyle::Text, false);
        pushed(st.0, st.1, seq!['\u{2502}'], CellStyle::Border, false)
    } else {
        st
    };
    let st = if lay.e_type {
        let st = pushed(st.0, st.1,
            pad_spec(seq!['t', 'y', 'p', 'e'], lay.w_type as int, Alignment::Center),
            CellStyle::Text, false);
        pushed(st.0, st.1, seq!['\u{2502}'], CellStyle::Border, false)
    } else {
        st
    };
    let st = pushed(st.0, st.1, seq!['s', 'i', 'z', 'e'], CellStyle::Text, false);
    let st = pushed(st.0, st.1, seq!['\u{2502}'], CellStyle::Border, false);
    let st = if lay.e_use {
        let label = if lay.wc_use > 4 {
            seq!['u', 's', 'a', 'g', 'e']
        } else {
            seq!['u', 's', 'e']
        };
        let st = pushed(st.0, st.1, pad_spec(label, lay.wc_use as int, Alignment::Center),
            CellStyle::Text, false);
        pushed(st.0, st.1, seq!['\u{2502}'], CellStyle::Border, false)
    } else {
        st
    };
    let st = pushed(st.0, st.1, seq!['f', 'r', 'e', 'e'], CellStyle::Text, false);
    let st = pushed(st.0, st.1, seq!['\u{2502}'], CellStyle::Border, false);
    let st = pushed(st.0, st.1,
        seq!['m', 'o', 'u', 'n', 't', ' ', 'p', 'o', 'i', 'n', 't'], CellStyle::Text, false);
    pushed(st.0, st.1, spaces(st.1), CellStyle::Border, false).0
}

/// The separator row: one dashed stretch with a crossing glyph per enabled
/// column left of the mount point, dash filling to the right.
pub open spec fn separator_row_spec(lay: Layout, width: int) -> Seq<CellV> {
    let st = (Seq::<CellV>::empty(), width);
    let st = pushed(st.0, st.1, dash_piece(lay.wc_fs as int), CellStyle::Border, false);
    let st = if lay.e_dsk {
        pushed(st.0, st.1, dash_piece(3), CellStyle::Border, false)
    } else {
        st
    };
    let st = if lay.e_type {
        pushed(st.0, st.1, dash_piece(lay.w_type as int), CellStyle::Border, false)
    } else {
        st
    };
    let st = pushed(st.0, st.1, dash_piece(W_SIZE as int), CellStyle::Border, false);
    let st = if lay.e_use {
        pushed(st.0, st.1, dash_piece(lay.wc_use as int), CellStyle::Border, false)
    } else {
        st
    };
    let st = pushed(st.0, st.1, dash_piece(W_FREE as int), CellStyle::Border, false);
    pushed(st.0, st.1, Seq::new(st.1 as nat, |i: int| '\u{2500}'), CellStyle::Border, false).0
}

fn header_row(lay: &Layout, width: usize) -> (r: Vec<Cell>)
    ensures
        cell_views(r@) == header_row_spec(*lay, width as int),
        row_width(cell_views(r@)) == width,
{
    let mut b = RowBuilder::new(width);
    let mut label: Vec<char> = Vec::new();
    label.push('f');
    label.push('i');
    label.push('l');
    label.push('e');
    label.push('s');
    label.push('y');
    label.push('s');
    label.push('t');
    label.push('e');
    label.push('m');
    proof {
        assert(label@ =~= seq!['f', 'i', 'l', 'e', 's', 'y', 's', 't', 'e', 'm']);
    }
    b.push(pad(&label, lay.wc_fs, Alignment::Left), CellStyle::Text, false);
    b.push_char('\u{2502}', CellStyle::Border);
    if lay.e_dsk {
        let mut label: Vec<char> = Vec::new();
        label.push('d');
        label.push('s');
        label.push('k');
        proof {
            assert(label@ =~= seq!['d', 's', 'k']);
        }
        b.push(label, CellStyle::Text, false);
        b.push_char('\u{2502}', CellStyle::Border);
    }
    if lay.e_type {
        let mut label: Vec<char> = Vec::new();
        label.push('t');
        label.push('y');
        label.push('p');
        label.push('e');
        proof {
            assert(label@ =~= seq!['t', 'y', 'p', 'e']);
        }
        b.push(pad(&label, lay.w_type, Alignment::Center), CellStyle::Text, false);
        b.push_char('\u{2502}', CellStyle::Border);
    }
    let mut label: Vec<char> = Vec::new();
    label.push('s');
    label.push('i');
    label.push('z');
    label.push('e');
    proof {
        assert(label@ =~= seq!['s', 'i', 'z', 'e']);
    }
    b.push(label, CellStyle::Text, false);
    b.push_char('\u{2502}', CellStyle::Border);
    if lay.e_use {
        let mut label: Vec<char> = Vec::new();
        label.push('u');
        label.push('s');
        if lay.wc_use > 4 {
            label.push('a');
            label.push('g');
            label.push('e');
        } else {
            label.push('e');
        }
        proof {
            assert(label@ =~= if lay.wc_use > 4 {
                seq!['u', 's', 'a', 'g', 'e']
            } else {
                seq!['u', 's', 'e']
            });
        }
        b.push(pad(&label, lay.wc_use, Alignment::Center), CellStyle::Text, false);
        b.push_char('\u{2502}', CellStyle::Border);
    }
    let mut label: Vec<char> = Vec::new();
    label.push('f');
    label.push('r');
    label.push('e');
    label.push('e');
    proof {
        assert(label@ =~= seq!['f', 'r', 'e', 'e']);
    }
    b.push(label, CellStyle::Text, false);
    b.push_char('\u{2502}', CellStyle::Border);
    let mut label: Vec<char> = Vec::new();
    label.push('m');
    label.push('o');
    label.push('u');
    label.push('n');
    label.push('t');
    label.push(' ');
    label.push('p');
    label.push('o');
    label.push('i');
    label.push('n');
    label.push('t');
    proof {
        assert(label@ =~= seq!['m', 'o', 'u', 'n', 't', ' ', 'p', 'o', 'i', 'n', 't']);
    }
    b.push(label, CellStyle::Text, false);
    let cells = b.fill(' ', CellStyle::Border);
    proof {
        assert(cell_views(cells@) =~= header_row_spec(*lay, width as int));
    }
    cells
}

fn separator_row(lay: &Layout, width: usize) -> (r: Vec<Cell>)
    ensures
        cell_views(r@) == separator_row_spec(*lay, width as int),
        row_width(cell_views(r@)) == width,
{
    let mut b = RowBuilder::new(width);
    b.push(dashes(lay.wc_fs), CellStyle::Border, false);
    if lay.e_dsk {
        b.push(dashes(3), CellStyle::Border, false);
    }
    if lay.e_type {
        b.push(dashes(lay.w_type), CellStyle::Border, false);
    }
    b.push(dashes(W_SIZE), CellStyle::Border, false);
    if lay.e_use {
        b.push(dashes(lay.wc_use), CellStyle::Border, false);
    }
    b.push(dashes(W_FREE), CellStyle::Border, false);
    let cells = b.fill('\u{2500}', CellStyle::Border);
    proof {
        assert(cell_views(cells@) =~= separator_row_spec(*lay, width as int));
    }
    cells
}

impl FilesystemState {
    /// The mounts the active view shows: the overlay's while one is active,
    /// else the master's.
    pub open spec fn active_views(&self) -> Seq<MountV> {
        match self.filtered {
            Some(f) => crate::mount::views_of(f.mounts@),
            None => self.master_views(),
        }
    }

    /// The selection index of the active view.
    pub open spec fn active_sel(&self) -> int {
        match self.filtered {
            Some(f) => f.selection_idx as int,
            None => self.selection_idx as int,
        }
    }

    fn active_at(&self, i: usize) -> (r: &Mount)
        requires
            self.wf(),
            i < self.active_views().len(),
        ensures
            r@ == self.active_views()[i as int],
    {
        match &self.filtered {
            Some(f) => &f.mounts[i],
            None => &nev_slice(&self.mounts)[i],
        }
    }

    proof fn lemma_active_wf(&self)
        requires
            self.wf(),
        ensures
            forall|i: int| 0 <= i < self.active_views().len()
                ==> (#[trigger] self.active_views()[i]).wf(),
    {
        match self.filtered {
            Some(f) => {
                assert forall|i: int| 0 <= i < self.active_views().len()
                    implies (#[trigger] self.active_views()[i]).wf() by {
                    assert(self.master_views().contains(f.mounts@[i]@));
                    let w = choose|w: int| 0 <= w < self.master_views().len()
                        && self.master_views()[w] == f.mounts@[i]@;
                    assert(self.master_views()[w].wf());
                }
            },
            None => {},
        }
    }

    /// Composes one frame: the column plan from the output width and the
    /// active view's content widths, a header and a separator row, and one
    /// row per remaining line — the mount at `scroll + k` when there is
    /// one, blank filler beyond — each with its selection and scrollbar
    /// thumb marks. Only the stored page height changes.
    pub fn render(&mut self, width: usize, height: u16, show_selection_mark: bool) -> (r: RenderPlan)
        requires
            old(self).wf(),
            width >= 1,
            height <= 0x7fff,
            old(self).active_views().len() <= 0x7fff_ffff,
            w_fs_of(old(self).active_views()) < usize::MAX,
        ensures
            final(self).wf(),
            Self::same_master(*old(self), *final(self)),
            final(self).scroll == old(self).scroll,
            final(self).filtered == old(self).filtered,
            final(self).page_height == height,
            ({
                let av = old(self).active_views();
                let count = av.len() as int;
                let scroll = old(self).scroll as int;
                let sb_scroll = if scroll > count { count } else { scroll };
                let sb = scrollbar_of(0, height, sb_scroll as usize, av.len() as usize);
                let lay = plan_spec(
                    width as int,
                    w_fs_of(av) + if show_selection_mark { 1int } else { 0int },
                    w_type_of(av),
                    w_mp_of(av),
                );
                &&& r.layout == lay
                &&& cell_views(r.header@) == header_row_spec(lay, width as int)
                &&& cell_views(r.separator@) == separator_row_spec(lay, width as int)
                &&& row_width(cell_views(r.header@)) == width
                &&& row_width(cell_views(r.separator@)) == width
                &&& r.rows@.len() == if height >= 2 { height - 2 } else { 0int }
                &&& forall|k: int| 0 <= k < r.rows@.len()
                    ==> (#[trigger] r.rows@[k]).thumb == is_thumb_spec((k + 2) as u16, sb)
                &&& forall|k: int| 0 <= k < r.rows@.len()
                    ==> (#[trigger] r.rows@[k]).selected
                        == (old(self).active_sel() == row_idx(scroll, k, count))
                &&& forall|k: int| 0 <= k < r.rows@.len()
                    ==> row_width(cell_views((#[trigger] r.rows@[k]).cells@)) == width - 1
                &&& forall|k: int| 0 <= k < r.rows@.len() && scroll + k < count
                    ==> cell_views((#[trigger] r.rows@[k]).cells@) == data_row_spec(
                        av[scroll + k], lay,
                        old(self).active_sel() == scroll + k,
                        show_selection_mark, width - 1)
                &&& forall|k: int| 0 <= k < r.rows@.len() && scroll + k >= count
                    ==> cell_views((#[trigger] r.rows@[k]).cells@) == blank_row_spec(width - 1)
            }),
    {
        self.page_height = height;
        proof {
            assert(self.master_views() == old(self).master_views());
            self.lemma_active_wf();
        }
        let ghost av = self.active_views();
        let count = self.count();
        proof {
            assert(count == av.len());
        }
        // content widths of the three text columns
        let mut w_fs: usize = 10;
        let mut w_type: usize = 4;
        let mut w_mp: usize = 11;
        let mut i: usize = 0;
        while i < count
            invariant
                self.wf(),
                av == self.active_views(),
                count == av.len(),
                i <= count,
                w_fs as int == w_fs_of(av.take(i as int)),
                w_type as int == w_type_of(av.take(i as int)),
                w_mp as int == w_mp_of(av.take(i as int)),
            decreases count - i,
        {
            proof {
                lemma_widths_step(av, i as int);
            }
            let m = self.active_at(i);
            if m.fs.len() > w_fs {
                w_fs = m.fs.len();
            }
            if m.fs_type.len() > w_type {
                w_type = m.fs_type.len();
            }
            if m.mount_point.len() > w_mp {
                w_mp = m.mount_point.len();
            }
            i = i + 1;
        }
        proof {
            assert(av.take(count as int) =~= av);
        }
        let wc_fs: usize = if show_selection_mark { w_fs + 1 } else { w_fs };
        let lay = plan(width, wc_fs, w_type, w_mp);
        let header = header_row(&lay, width);
        let separator = separator_row(&lay, width);
        // the scrollbar thumb, from the clamped scroll
        let sb_scroll: usize = if self.scroll > count { count } else { self.scroll };
        let sb = scrollbar(0, height, sb_scroll, count);
        // data rows
        let nrows: usize = if height >= 2 { height as usize - 2 } else { 0 };
        let mut rows: Vec<DataRow> = Vec::new();
        let mut idx: usize = self.scroll;
        let mut k: usize = 0;
        let ghost scroll = self.scroll as int;
        let ghost asel = self.active_sel();
        while k < nrows
            invariant
                self.wf(),
                av == self.active_views(),
                count == av.len(),
                scroll == self.scroll as int,
                asel == self.active_sel(),
                lay == plan_spec(width as int,
                    w_fs_of(av) + if show_selection_mark { 1int } else { 0int },
                    w_type_of(av), w_mp_of(av)),
                show_selection_mark ==> lay.wc_fs >= 1,
                width >= 1,
                height <= 0x7fff,
                nrows == if height >= 2 { height - 2 } else { 0int },
                sb == scrollbar_of(0, height,
                    (if scroll > count { count as int } else { scroll }) as usize,
                    av.len() as usize),
                k <= nrows,
                idx as int == row_idx(scroll, k as int, count as int),
                rows@.len() == k,
                forall|j: int| 0 <= j < k
                    ==> (#[trigger] rows@[j]).thumb == is_thumb_spec((j + 2) as u16, sb),
                forall|j: int| 0 <= j < k
                    ==> (#[trigger] rows@[j]).selected == (asel == row_idx(scroll, j, count as int)),
                forall|j: int| 0 <= j < k
                    ==> row_width(cell_views((#[trigger] rows@[j]).cells@)) == width - 1,
                forall|j: int| 0 <= j < k && scroll + j < count
                    ==> cell_views((#[trigger] rows@[j]).cells@) == data_row_spec(
                        av[scroll + j], lay, asel == scroll + j, show_selection_mark, width - 1),
                forall|j: int| 0 <= j < k && scroll + j >= count
                    ==> cell_views((#[trigger] rows@[j]).cells@) == blank_row_spec(width - 1),
            decreases nrows - k,
        {
            let selected = match &self.filtered {
                Some(f) => f.selection_idx == idx,
                None => self.selection_idx == idx,
            };
            let cells = if idx < count {
                let m = self.active_at(idx);
                let c = data_row(m, &lay, selected, show_selection_mark, width - 1);
                idx = idx + 1;
                c
            } else {
                let mut b = RowBuilder::new(width - 1);
                b.fill(' ', CellStyle::Text)
            };
            let y: u16 = k as u16 + 2;
            let thumb = is_thumb(y, sb);
            rows.push(DataRow { cells, selected, thumb });
            k = k + 1;
        }
        RenderPlan { layout: lay, header, separator, rows }
    }
}

} // verus!


