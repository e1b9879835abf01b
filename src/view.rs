//! The state of a live view and the decisions taken on it.
use vstd::prelude::*;

use crate::access::{Access, PageProtection, Sharing, ViewMode};
use crate::layout::{MapRequest, SnapshotLayout};
use crate::region::{end_offset, region_spec, resolve_region, start_offset, Endpoint, RangeError};

verus! {

/// A view's mapping: where it was placed, what it maps, and how.
#[derive(Clone, Copy, Debug)]
pub struct ViewState {
    layout: SnapshotLayout,
    mode: ViewMode,
    base: usize,
}

/// A change of protection on part of a view, by offset from its base.
#[derive(Clone, Copy, Debug, PartialEq, Eq, Structural)]
pub struct ProtectRequest {
    pub offset: usize,
    pub len: usize,
    pub protection: PageProtection,
}

impl ViewState {
    pub closed spec fn layout_spec(self) -> SnapshotLayout {
        self.layout
    }

    pub closed spec fn mode_spec(self) -> ViewMode {
        self.mode
    }

    pub closed spec fn base_spec(self) -> usize {
        self.base
    }

    /// The state of a view of a snapshot with the given layout, mapped in the
    /// given mode at address `base`.
    pub fn new(layout: SnapshotLayout, mode: ViewMode, base: usize) -> (r: ViewState)
        ensures
            r.layout_spec() == layout,
            r.mode_spec() == mode,
            r.base_spec() == base,
    {
        ViewState { layout, mode, base }
    }

    /// The view's length in bytes: its snapshot's size.
    pub fn len(&self) -> (r: usize)
        ensures
            r == self.layout_spec().size_spec(),
    {
        self.layout.size()
    }

    /// Whether the view holds no bytes.
    pub fn is_empty(&self) -> (r: bool)
        ensures
            r == (self.layout_spec().size_spec() == 0),
    {
        self.layout.size() == 0
    }

    /// The address the view is mapped at.
    pub fn base(&self) -> (r: usize)
        ensures
            r == self.base_spec(),
    {
        self.base
    }

    /// The view's mode.
    pub fn mode(&self) -> (r: ViewMode)
        ensures
            r == self.mode_spec(),
    {
        self.mode
    }

    /// The layout of the view's snapshot.
    pub fn layout(&self) -> (r: SnapshotLayout)
        ensures
            r == self.layout_spec(),
    {
        self.layout
    }

    /// The mapping that restoring the view asks for, if any.
    pub open spec fn restore_request_spec(self) -> Option<MapRequest> {
        match self.mode_spec() {
            ViewMode::Mutable => None,
            ViewMode::Cow => Some(
                MapRequest {
                    fixed_at: Some(self.base_spec()),
                    len: self.layout_spec().map_len_spec() as usize,
                    sharing: Sharing::Private,
                    protection: PageProtection { read: true, write: true, execute: false },
                    reserve: false,
                },
            ),
        }
    }

    /// What restoring the view takes. A mutable view always shows its
    /// snapshot's content, so there is nothing to do. A copy-on-write view is
    /// mapped afresh, privately, over its whole length and at its own
    /// address, which also gives every page back its first protection.
    pub fn restore_request(&self) -> (r: Option<MapRequest>)
        ensures
            r == self.restore_request_spec(),
    {
        match self.mode {
            ViewMode::Mutable => None,
            ViewMode::Cow => Some(
                MapRequest {
                    fixed_at: Some(self.base),
                    len: self.layout.map_len(),
                    sharing: Sharing::Private,
                    protection: PageProtection::read_write(),
                    reserve: false,
                },
            ),
        }
    }

    /// The change of protection that `protect` asks for, or why the range
    /// is refused.
    pub open spec fn protect_request_spec(self, start: Endpoint, end: Endpoint, allow: Access) -> Result<
        ProtectRequest,
        RangeError,
    > {
        match region_spec(
            start,
            end,
            self.layout_spec().size_spec() as int,
            self.layout_spec().page_spec() as int,
        ) {
            Ok((s, e)) => Ok(
                ProtectRequest {
                    offset: s as usize,
                    len: (e - s) as usize,
                    protection: allow.protection_spec(),
                },
            ),
            Err(err) => Err(err),
        }
    }

    /// Checks a range of the view for protection and gives the change to
    /// make: the protection that grants `allow`, on exactly the bytes of the
    /// range. A range that is empty, reaches past the view or does not start
    /// and end on page boundaries is refused, and nothing is to be changed.
    pub fn protect_request(&self, start: Endpoint, end: Endpoint, allow: Access) -> (r: Result<
        ProtectRequest,
        RangeError,
    >)
        ensures
            r == self.protect_request_spec(start, end, allow),
    {
        let page = self.layout.page();
        match resolve_region(start, end, self.layout.size(), page) {
            Ok((s, e)) => Ok(ProtectRequest { offset: s, len: e - s, protection: allow.protection() }),
            Err(err) => Err(err),
        }
    }
}

/// Restoring a copy-on-write view keeps it where it is: the remapping it
/// asks for must take the view's own address over its whole length, and a
/// placement anywhere else is refused. Restoring a mutable view asks for
/// nothing.
pub proof fn lemma_restore_stays_in_place(view: ViewState, addr: usize)
    ensures
        view.mode_spec() == ViewMode::Mutable ==> view.restore_request_spec() is None,
        view.mode_spec() == ViewMode::Cow ==> {
            let req = view.restore_request_spec()->0;
            &&& view.restore_request_spec() is Some
            &&& req.fixed_at == Some(view.base_spec())
            &&& req.len == view.layout_spec().map_len_spec()
            &&& req.len >= view.layout_spec().size_spec()
            &&& (req.accepts(addr) <==> addr == view.base_spec())
        },
{
}

/// Copy-on-write views are isolated and mutable views are not: every mapping
/// that a copy-on-write view asks for, when it is made and when it is
/// restored, is private, and the mapping of a mutable view is shared.
pub proof fn lemma_sharing_follows_mode(view: ViewState, layout: SnapshotLayout)
    ensures
        layout.map_request_spec(ViewMode::Cow).sharing == Sharing::Private,
        layout.map_request_spec(ViewMode::Mutable).sharing == Sharing::Shared,
        view.mode_spec() == ViewMode::Cow ==> view.restore_request_spec()->0.sharing
            == Sharing::Private,
{
}

/// A range is accepted for protection exactly when it is non-empty, lies
/// within the view and starts and ends on page boundaries; the change then
/// covers exactly that range. A refused range leaves nothing to change.
pub proof fn lemma_protect_range_rules(
    view: ViewState,
    start: Endpoint,
    end: Endpoint,
    allow: Access,
)
    ensures
        ({
            let s = start_offset(start);
            let e = end_offset(end, view.layout_spec().size_spec() as int);
            let page = view.layout_spec().page_spec() as int;
            let r = view.protect_request_spec(start, end, allow);
            &&& r is Ok <==> (s < e && e <= view.layout_spec().size_spec() && s % page == 0 && e
                % page == 0)
            &&& r is Ok ==> {
                &&& r->Ok_0.offset == s
                &&& r->Ok_0.offset + r->Ok_0.len == e
                &&& r->Ok_0.len > 0
                &&& r->Ok_0.protection == allow.protection_spec()
            }
        }),
{
}

} // verus!
