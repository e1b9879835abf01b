use memory_snapshot::access::{Access, PageProtection, Sharing, ViewMode};
use memory_snapshot::layout::SnapshotLayout;
use memory_snapshot::region::{resolve_region, Endpoint, RangeError};
use memory_snapshot::view::{ProtectRequest, ViewState};

fn view(len: usize, mode: ViewMode) -> ViewState {
    ViewState::new(SnapshotLayout::new(len, 4096).unwrap(), mode, 0x20000)
}

#[test]
fn view_state_accessors() {
    let v = view(10, ViewMode::Mutable);
    assert_eq!(v.len(), 4096);
    assert!(!v.is_empty());
    assert_eq!(v.base(), 0x20000);
    assert_eq!(v.mode(), ViewMode::Mutable);
    assert_eq!(v.layout().size(), 4096);
}

#[test]
fn restore_of_mutable_view_is_nothing() {
    assert_eq!(view(10, ViewMode::Mutable).restore_request(), None);
}

#[test]
fn restore_of_cow_view_remaps_in_place() {
    let req = view(5000, ViewMode::Cow).restore_request().unwrap();
    assert_eq!(req.fixed_at, Some(0x20000));
    assert_eq!(req.len, 8192);
    assert_eq!(req.sharing, Sharing::Private);
    assert_eq!(req.protection, PageProtection { read: true, write: true, execute: false });
}

#[test]
fn protect_whole_view() {
    let v = view(3 * 4096, ViewMode::Mutable);
    assert_eq!(
        v.protect_request(Endpoint::Unbounded, Endpoint::Unbounded, Access::none()),
        Ok(ProtectRequest {
            offset: 0,
            len: 3 * 4096,
            protection: PageProtection { read: false, write: false, execute: false },
        })
    );
}

#[test]
fn protect_inner_pages() {
    let v = view(3 * 4096, ViewMode::Cow);
    let r = v.protect_request(Endpoint::Included(4096), Endpoint::Included(8191), Access::read());
    assert_eq!(
        r,
        Ok(ProtectRequest {
            offset: 4096,
            len: 4096,
            protection: PageProtection { read: true, write: false, execute: false },
        })
    );
}

#[test]
fn protect_refuses_misaligned_range() {
    let v = view(3 * 4096, ViewMode::Cow);
    let r = v.protect_request(Endpoint::Included(1), Endpoint::Excluded(4096), Access::read());
    assert_eq!(r, Err(RangeError::Misaligned));
    let r = v.protect_request(Endpoint::Unbounded, Endpoint::Excluded(100), Access::read());
    assert_eq!(r, Err(RangeError::Misaligned));
}

#[test]
fn protect_refuses_out_of_bounds_range() {
    let v = view(4096, ViewMode::Cow);
    let r = v.protect_request(Endpoint::Unbounded, Endpoint::Excluded(8192), Access::write());
    assert_eq!(r, Err(RangeError::OutOfBounds));
    let r = v.protect_request(Endpoint::Included(4096), Endpoint::Unbounded, Access::write());
    assert_eq!(r, Err(RangeError::OutOfBounds));
    let r = v.protect_request(Endpoint::Included(0), Endpoint::Excluded(0), Access::write());
    assert_eq!(r, Err(RangeError::OutOfBounds));
}

#[test]
fn protect_refuses_empty_view() {
    let v = view(0, ViewMode::Cow);
    let r = v.protect_request(Endpoint::Unbounded, Endpoint::Unbounded, Access::read());
    assert_eq!(r, Err(RangeError::OutOfBounds));
}

#[test]
fn region_endpoints_at_the_limits() {
    assert_eq!(
        resolve_region(Endpoint::Excluded(usize::MAX), Endpoint::Unbounded, usize::MAX, 1),
        Err(RangeError::OutOfBounds)
    );
    assert_eq!(
        resolve_region(Endpoint::Unbounded, Endpoint::Included(usize::MAX), usize::MAX, 1),
        Err(RangeError::OutOfBounds)
    );
    assert_eq!(
        resolve_region(Endpoint::Excluded(4095), Endpoint::Excluded(8192), 8192, 4096),
        Ok((4096, 8192))
    );
    assert_eq!(
        resolve_region(Endpoint::Excluded(0), Endpoint::Excluded(8192), 8192, 4096),
        Err(RangeError::Misaligned)
    );
}

#[test]
fn range_error_messages() {
    assert_eq!(RangeError::OutOfBounds.message(), "Invalid range for memory protection");
    assert_eq!(RangeError::Misaligned.message(), "Memory protection range must be page-aligned");
}
