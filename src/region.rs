//! Byte ranges of a view that page protection may be applied to.
use vstd::prelude::*;

verus! {

/// One end of a byte range, as a range expression gives it.
#[derive(Clone, Copy, Debug, PartialEq, Eq, Structural)]
pub enum Endpoint {
    Included(usize),
    Excluded(usize),
    Unbounded,
}

/// Why a range was refused for protection. Both are input errors: no
/// protection is changed when one is returned.
#[derive(Clone, Copy, Debug, PartialEq, Eq, Structural)]
pub enum RangeError {
    /// The range is empty or reaches past the end of the view.
    OutOfBounds,
    /// An end of the range does not lie on a page boundary.
    Misaligned,
}

impl RangeError {
    /// A description of the error.
    pub fn message(&self) -> (r: &'static str)
        ensures
            r@.len() > 0,
    {
        match self {
            RangeError::OutOfBounds => {
                let m = "Invalid range for memory protection";
                proof {
                    reveal_strlit("Invalid range for memory protection");
                }
                m
            },
            RangeError::Misaligned => {
                let m = "Memory protection range must be page-aligned";
                proof {
                    reveal_strlit("Memory protection range must be page-aligned");
                }
                m
            },
        }
    }
}

/// The first byte offset that a range starting at `b` covers.
pub open spec fn start_offset(b: Endpoint) -> int {
    match b {
        Endpoint::Included(s) => s as int,
        Endpoint::Excluded(s) => s + 1,
        Endpoint::Unbounded => 0,
    }
}

/// The offset just past the last byte that a range ending at `b` covers, in
/// a view of `size` bytes.
pub open spec fn end_offset(b: Endpoint, size: int) -> int {
    match b {
        Endpoint::Included(s) => s + 1,
        Endpoint::Excluded(s) => s as int,
        Endpoint::Unbounded => size,
    }
}

/// The range `[start, end)` that the two endpoints give in a view of `size`
/// bytes with pages of `page` bytes, or why it cannot be protected: it must
/// be non-empty, lie within the view, and start and end on page boundaries.
pub open spec fn region_spec(start: Endpoint, end: Endpoint, size: int, page: int) -> Result<
    (int, int),
    RangeError,
> {
    let s = start_offset(start);
    let e = end_offset(end, size);
    if e <= s || e > size {
        Err(RangeError::OutOfBounds)
    } else if s % page != 0 || e % page != 0 {
        Err(RangeError::Misaligned)
    } else {
        Ok((s, e))
    }
}

/// Resolves the endpoints of a range in a view of `size` bytes and checks
/// that page protection can be applied to it.
pub fn resolve_region(start: Endpoint, end: Endpoint, size: usize, page: usize) -> (r: Result<
    (usize, usize),
    RangeError,
>)
    requires
        page > 0,
    ensures
        match region_spec(start, end, size as int, page as int) {
            Ok((s, e)) => r == Ok::<(usize, usize), RangeError>((s as usize, e as usize)),
            Err(err) => r == Err::<(usize, usize), RangeError>(err),
        },
{
    let s: usize = match start {
        Endpoint::Included(s) => s,
        Endpoint::Excluded(s) => {
            if s == usize::MAX {
                return Err(RangeError::OutOfBounds);
            }
            s + 1
        },
        Endpoint::Unbounded => 0,
    };
    let e: usize = match end {
        Endpoint::Included(e) => {
            if e == usize::MAX {
                return Err(RangeError::OutOfBounds);
            }
            e + 1
        },
        Endpoint::Excluded(e) => e,
        Endpoint::Unbounded => size,
    };
    if e <= s || e > size {
        return Err(RangeError::OutOfBounds);
    }
    if s % page != 0 || e % page != 0 {
        return Err(RangeError::Misaligned);
    }
    Ok((s, e))
}

} // verus!
