//! The size of a snapshot and the mappings that views of it ask for.
use vstd::prelude::*;

use crate::access::{PageProtection, Sharing, ViewMode};
use crate::geometry::{map_len, map_len_spec, round_up, round_up_spec};

verus! {

/// Why a snapshot of a requested size cannot be laid out.
#[derive(Clone, Copy, Debug, PartialEq, Eq, Structural)]
pub enum LayoutError {
    /// The page size given is zero.
    InvalidPageSize,
    /// The size, rounded up to whole pages, does not fit in a `usize`.
    TooLarge,
}

/// The size of a snapshot's content: a whole number of pages.
#[derive(Clone, Copy, Debug)]
pub struct SnapshotLayout {
    size: usize,
    page: usize,
}

/// A request to map a memory object into the address space, from its start.
#[derive(Clone, Copy, Debug, PartialEq, Eq, Structural)]
pub struct MapRequest {
    /// The address the mapping must replace and take, or `None` where any
    /// address will do.
    pub fixed_at: Option<usize>,
    /// The number of bytes to map.
    pub len: usize,
    /// Whether writes stay private to the mapping or reach the object.
    pub sharing: Sharing,
    /// The protection every page starts with.
    pub protection: PageProtection,
    /// Whether backing store is set aside for the whole mapping up front.
    pub reserve: bool,
}

/// Why a mapping that was made is not accepted.
#[derive(Clone, Copy, Debug, PartialEq, Eq, Structural)]
pub enum PlacementError {
    /// The mapping was placed elsewhere than the address it had to take.
    Moved { expected: usize, received: usize },
}

impl MapRequest {
    /// Whether a mapping placed at `addr` meets this request.
    pub open spec fn accepts(self, addr: usize) -> bool {
        match self.fixed_at {
            Some(a) => a == addr,
            None => true,
        }
    }

    /// Checks where the mapping made for this request was placed: a
    /// request for a fixed address is met only at that address.
    pub fn check_placed(&self, addr: usize) -> (r: Result<(), PlacementError>)
        ensures
            r is Ok <==> self.accepts(addr),
            r is Err ==> r == Err::<(), PlacementError>(
                PlacementError::Moved { expected: self.fixed_at->0, received: addr },
            ),
    {
        match self.fixed_at {
            Some(a) => {
                if a == addr {
                    Ok(())
                } else {
                    Err(PlacementError::Moved { expected: a, received: addr })
                }
            },
            None => Ok(()),
        }
    }
}

impl SnapshotLayout {
    #[verifier::type_invariant]
    spec fn inv(self) -> bool {
        self.page > 0 && self.size % self.page == 0
    }

    /// The snapshot's size in bytes.
    pub closed spec fn size_spec(self) -> usize {
        self.size
    }

    /// The page size the snapshot was laid out with.
    pub closed spec fn page_spec(self) -> usize {
        self.page
    }

    /// Lays out a snapshot of `len` bytes in pages of `page` bytes.
    pub fn new(len: usize, page: usize) -> (r: Result<SnapshotLayout, LayoutError>)
        ensures
            page == 0 ==> r == Err::<SnapshotLayout, LayoutError>(LayoutError::InvalidPageSize),
            page > 0 && round_up_spec(len as int, page as int) > usize::MAX ==> r == Err::<
                SnapshotLayout,
                LayoutError,
            >(LayoutError::TooLarge),
            page > 0 && round_up_spec(len as int, page as int) <= usize::MAX ==> r is Ok,
            r is Ok ==> r->Ok_0.size_spec() == round_up_spec(len as int, page as int)
                && r->Ok_0.page_spec() == page,
            r is Ok ==> r->Ok_0.size_spec() >= len && r->Ok_0.size_spec() < len + page
                && r->Ok_0.size_spec() % page == 0,
    {
        if page == 0 {
            return Err(LayoutError::InvalidPageSize);
        }
        proof {
            crate::geometry::lemma_round_up_covers(len as int, page as int);
        }
        match round_up(len, page) {
            Some(size) => Ok(SnapshotLayout { size, page }),
            None => Err(LayoutError::TooLarge),
        }
    }

    /// Lays out a snapshot of a file of `len` bytes in pages of `page` bytes.
    pub fn for_file(len: u64, page: usize) -> (r: Result<SnapshotLayout, LayoutError>)
        ensures
            page == 0 ==> r == Err::<SnapshotLayout, LayoutError>(LayoutError::InvalidPageSize),
            page > 0 && round_up_spec(len as int, page as int) > usize::MAX ==> r == Err::<
                SnapshotLayout,
                LayoutError,
            >(LayoutError::TooLarge),
            page > 0 && round_up_spec(len as int, page as int) <= usize::MAX ==> r is Ok,
            r is Ok ==> r->Ok_0.size_spec() == round_up_spec(len as int, page as int)
                && r->Ok_0.page_spec() == page,
    {
        if page == 0 {
            return Err(LayoutError::InvalidPageSize);
        }
        if len > usize::MAX as u64 {
            proof {
                crate::geometry::lemma_round_up_covers(len as int, page as int);
            }
            return Err(LayoutError::TooLarge);
        }
        SnapshotLayout::new(len as usize, page)
    }

    /// Lays out a snapshot of `len` bytes in pages of this system's size.
    /// Whatever page size the system reports, an `Ok` layout covers `len`
    /// in whole pages of it; a page size of zero is refused.
    pub fn of_len(len: usize) -> (r: Result<SnapshotLayout, LayoutError>)
        ensures
            r is Ok ==> r->Ok_0.size_spec() == round_up_spec(
                len as int,
                r->Ok_0.page_spec() as int,
            ),
            r is Ok ==> r->Ok_0.size_spec() >= len && r->Ok_0.size_spec() < len
                + r->Ok_0.page_spec() && r->Ok_0.size_spec() % r->Ok_0.page_spec() == 0,
    {
        SnapshotLayout::new(len, crate::page_size())
    }

    /// Lays out a snapshot of a file of `len` bytes in pages of this
    /// system's size.
    pub fn of_file_len(len: u64) -> (r: Result<SnapshotLayout, LayoutError>)
        ensures
            r is Ok ==> r->Ok_0.size_spec() == round_up_spec(
                len as int,
                r->Ok_0.page_spec() as int,
            ),
    {
        SnapshotLayout::for_file(len, crate::page_size())
    }

    /// The snapshot's size in bytes: a multiple of the page size.
    pub fn size(&self) -> (r: usize)
        ensures
            r == self.size_spec(),
            r as int % self.page_spec() as int == 0,
    {
        proof {
            use_type_invariant(self);
        }
        self.size
    }

    /// The page size the snapshot was laid out with.
    pub fn page(&self) -> (r: usize)
        ensures
            r == self.page_spec(),
            r > 0,
    {
        proof {
            use_type_invariant(self);
        }
        self.page
    }

    /// The length of address space a view of the snapshot maps.
    pub open spec fn map_len_spec(self) -> int {
        map_len_spec(self.size_spec() as int, self.page_spec() as int)
    }

    /// The length of address space a view of the snapshot maps: the size,
    /// but at least one page.
    pub fn map_len(&self) -> (r: usize)
        ensures
            r == self.map_len_spec(),
            r > 0,
            r >= self.size_spec(),
    {
        proof {
            use_type_invariant(self);
        }
        map_len(self.size, self.page)
    }

    /// The mapping that a new view of the given mode asks for.
    pub open spec fn map_request_spec(self, mode: ViewMode) -> MapRequest {
        MapRequest {
            fixed_at: None,
            len: self.map_len_spec() as usize,
            sharing: mode.sharing_spec(),
            protection: PageProtection { read: true, write: true, execute: false },
            reserve: false,
        }
    }

    /// The mapping that a new view of the given mode asks for: the whole
    /// object, anywhere, readable and writable, private to a copy-on-write
    /// view and shared for a mutable one, with no backing store set aside.
    pub fn map_request(&self, mode: ViewMode) -> (r: MapRequest)
        ensures
            r == self.map_request_spec(mode),
    {
        MapRequest {
            fixed_at: None,
            len: self.map_len(),
            sharing: mode.sharing(),
            protection: PageProtection::read_write(),
            reserve: false,
        }
    }
}

} // verus!
