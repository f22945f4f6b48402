use vstd::prelude::*;

verus! {

/// A scroll request: by lines, by pages, or to an absolute offset.
#[derive(Clone, Copy, PartialEq, Eq, Structural, Debug)]
pub enum ScrollCommand {
    Lines(i64),
    Pages(i64),
    Absolute(usize),
}

/// The largest admissible scroll offset: content length minus one page,
/// or 0 when everything fits.
pub open spec fn max_scroll(count: int, page_height: int) -> int {
    if count > page_height {
        count - page_height
    } else {
        0
    }
}

/// Clamps a target offset into [0, max].
pub open spec fn clamp_scroll(target: int, max: int) -> int {
    if target < 0 {
        0
    } else if target > max {
        max
    } else {
        target
    }
}

impl ScrollCommand {
    /// The signed line delta this command asks for; an absolute request
    /// is the delta from the current offset.
    pub open spec fn delta_spec(&self, scroll: int, page_height: int) -> int {
        match *self {
            ScrollCommand::Lines(n) => n as int,
            ScrollCommand::Pages(n) => n * page_height,
            ScrollCommand::Absolute(t) => t - scroll,
        }
    }

    /// Applies this command to a scroll offset, clamping the result into
    /// [0, max_scroll(count, page_height)]. Out-of-range requests clamp
    /// silently; this never fails.
    pub fn apply(&self, scroll: usize, count: usize, page_height: u16) -> (r: usize)
        ensures
            r == clamp_scroll(
                scroll + self.delta_spec(scroll as int, page_height as int),
                max_scroll(count as int, page_height as int),
            ),
            r <= max_scroll(count as int, page_height as int),
    {
        let ph: usize = page_height as usize;
        let max: usize = if count > ph { count - ph } else { 0 };
        let target: i128 = match *self {
            ScrollCommand::Lines(n) => scroll as i128 + n as i128,
            ScrollCommand::Pages(n) => {
                proof {
                    let nn = n as int;
                    let pp = page_height as int;
                    assert(nn * pp <= 0x8000_0000_0000_0000 * 0x10000
                        && nn * pp >= -0x8000_0000_0000_0000 * 0x10000) by (nonlinear_arith)
                        requires
                            -0x8000_0000_0000_0000 <= nn <= 0x8000_0000_0000_0000,
                            0 <= pp <= 0x10000,
                    ;
                }
                scroll as i128 + (n as i128) * (page_height as i128)
            },
            ScrollCommand::Absolute(t) => t as i128,
        };
        if target < 0 {
            0
        } else if target > max as i128 {
            max
        } else {
            target as usize
        }
    }
}

} // verus!
