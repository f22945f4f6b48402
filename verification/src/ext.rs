use vstd::prelude::*;
use crate::mount::Mount;
use std::convert::TryFrom;

verus! {

// ---------------------------------------------------------------------------
// strict::NonEmptyVec — the master mount list is held in this outside
// collection, as a vector that is never empty.
// ---------------------------------------------------------------------------

#[verifier::external_type_specification]
#[verifier::external_body]
#[verifier::reject_recursive_types(T)]
pub struct ExNonEmptyVec<T>(strict::NonEmptyVec<T>);

/// The mounts a `strict::NonEmptyVec<Mount>` holds, in order.
pub uninterp spec fn nev_mounts(v: &strict::NonEmptyVec<Mount>) -> Seq<Mount>;

/// Relies on strict's `TryFrom<Vec<T>> for NonEmptyVec<T>`: the conversion
/// fails exactly on an empty vector and otherwise keeps the vector as is.
#[verifier::external_body]
pub(crate) fn nev_from_vec(v: Vec<Mount>) -> (r: Option<strict::NonEmptyVec<Mount>>)
    ensures
        v@.len() == 0 <==> r is None,
        r matches Some(nev) ==> nev_mounts(&nev) == v@,
{
    strict::NonEmptyVec::try_from(v).ok()
}

/// Relies on strict's `NonEmptyVec::as_slice`: it exposes the held vector.
#[verifier::external_body]
pub(crate) fn nev_slice(v: &strict::NonEmptyVec<Mount>) -> (r: &[Mount])
    ensures
        r@ == nev_mounts(v),
{
    v.as_slice()
}

// ---------------------------------------------------------------------------
// file_size::fit_4 — the size, used and free cells show sizes in at most
// four characters.
// ---------------------------------------------------------------------------

/// The characters `file_size::fit_4` writes for a byte count.
pub uninterp spec fn fit4_of(size: u64) -> Seq<char>;

/// Relies on `file_size::fit_4`: an ISO size writing of at most four
/// characters (and at least one), a function of the byte count alone.
#[verifier::external_body]
pub(crate) fn fit_4(size: u64) -> (r: Vec<char>)
    ensures
        r@ == fit4_of(size),
        1 <= r@.len() <= 4,
{
    file_size::fit_4(size).chars().collect()
}

// ---------------------------------------------------------------------------
// termimad scrollbar geometry — the thumb range of the vertical scrollbar.
// ---------------------------------------------------------------------------

/// The thumb range `termimad::compute_scrollbar` reports for an area of the
/// given top and height over content of `count` rows scrolled by `scroll`:
/// the first and last row (inclusive) drawn as the thumb, or `None` when the
/// content fits.
pub uninterp spec fn scrollbar_of(top: u16, height: u16, scroll: usize, count: usize) -> Option<(u16, u16)>;

/// Relies on `termimad::compute_scrollbar`: `None` exactly when the content
/// fits the available height, and a function of its four arguments alone.
/// The bounds keep its internal arithmetic in range and its conversions to
/// `u16` from failing.
#[verifier::external_body]
pub(crate) fn scrollbar(top: u16, height: u16, scroll: usize, count: usize) -> (r: Option<(u16, u16)>)
    requires
        scroll <= count,
        count <= 0x7fff_ffff,
        top + 2 * height <= u16::MAX,
    ensures
        r == scrollbar_of(top, height, scroll, count),
        count <= height ==> r is None,
        r is Some ==> count > height,
{
    termimad::compute_scrollbar(scroll, count, height as usize, top as usize)
        .map(|(a, b): (usize, usize)| (a as u16, b as u16))
}

} // verus!
