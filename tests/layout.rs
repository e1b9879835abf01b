use memory_snapshot::access::{PageProtection, Sharing, ViewMode};
use memory_snapshot::geometry::{map_len, round_up, split_size};
use memory_snapshot::layout::{LayoutError, MapRequest, PlacementError, SnapshotLayout};
use memory_snapshot::page_size;
use memory_snapshot::view::ViewState;

#[test]
fn round_up_to_pages() {
    assert_eq!(round_up(0, 4096), Some(0));
    assert_eq!(round_up(1, 4096), Some(4096));
    assert_eq!(round_up(4096, 4096), Some(4096));
    assert_eq!(round_up(4097, 4096), Some(8192));
    assert_eq!(round_up(10, 3), Some(12));
    assert_eq!(round_up(usize::MAX, 4096), None);
    assert_eq!(round_up(usize::MAX, 1), Some(usize::MAX));
}

#[test]
fn layout_rounds_requested_size() {
    let l = SnapshotLayout::new(1, 4096).unwrap();
    assert_eq!(l.size(), 4096);
    assert_eq!(l.page(), 4096);
    assert_eq!(SnapshotLayout::new(11, 4096).unwrap().size(), 4096);
    assert_eq!(SnapshotLayout::new(8192, 4096).unwrap().size(), 8192);
    assert_eq!(SnapshotLayout::new(8193, 4096).unwrap().size(), 12288);
}

#[test]
fn layout_errors() {
    assert_eq!(SnapshotLayout::new(10, 0).unwrap_err(), LayoutError::InvalidPageSize);
    assert_eq!(SnapshotLayout::new(usize::MAX, 4096).unwrap_err(), LayoutError::TooLarge);
    assert_eq!(SnapshotLayout::for_file(10, 0).unwrap_err(), LayoutError::InvalidPageSize);
    assert_eq!(SnapshotLayout::for_file(u64::MAX, 4096).unwrap_err(), LayoutError::TooLarge);
    assert_eq!(SnapshotLayout::for_file(10, 4096).unwrap().size(), 4096);
}

#[test]
fn layout_with_system_page_size() {
    let page = page_size();
    assert!(page > 0);
    assert!(page.is_power_of_two());
    for len in [0usize, 1, 10, page - 1, page, page + 1, 3 * page + 7] {
        let l = SnapshotLayout::of_len(len).unwrap();
        assert_eq!(l.page(), page);
        assert!(l.size() >= len);
        assert!(l.size() < len + page);
        assert_eq!(l.size() % page, 0);
    }
    assert_eq!(SnapshotLayout::of_file_len(10).unwrap().size(), page);
}

#[test]
fn empty_snapshot_layout() {
    let l = SnapshotLayout::new(0, 4096).unwrap();
    assert_eq!(l.size(), 0);
    assert_eq!(l.map_len(), 4096);
    let v = ViewState::new(l, ViewMode::Cow, 0x10000);
    assert_eq!(v.len(), 0);
    assert!(v.is_empty());
}

#[test]
fn mapping_length() {
    assert_eq!(map_len(0, 4096), 4096);
    assert_eq!(map_len(4096, 4096), 4096);
    assert_eq!(map_len(12288, 4096), 12288);
    assert_eq!(SnapshotLayout::new(5000, 4096).unwrap().map_len(), 8192);
}

#[test]
fn map_requests_follow_mode() {
    let l = SnapshotLayout::new(10, 4096).unwrap();
    let cow = l.map_request(ViewMode::Cow);
    assert_eq!(
        cow,
        MapRequest {
            fixed_at: None,
            len: 4096,
            sharing: Sharing::Private,
            protection: PageProtection { read: true, write: true, execute: false },
            reserve: false,
        }
    );
    let mutable = l.map_request(ViewMode::Mutable);
    assert_eq!(mutable.sharing, Sharing::Shared);
    assert_eq!(mutable.len, 4096);
    assert_eq!(mutable.fixed_at, None);
}

#[test]
fn placement_checks() {
    let l = SnapshotLayout::new(10, 4096).unwrap();
    let anywhere = l.map_request(ViewMode::Cow);
    assert_eq!(anywhere.check_placed(0x7000), Ok(()));
    let v = ViewState::new(l, ViewMode::Cow, 0x4000);
    let fixed = v.restore_request().unwrap();
    assert_eq!(fixed.check_placed(0x4000), Ok(()));
    assert_eq!(
        fixed.check_placed(0x8000),
        Err(PlacementError::Moved { expected: 0x4000, received: 0x8000 })
    );
}

#[test]
fn split_size_halves() {
    assert_eq!(split_size(0), (0, 0));
    assert_eq!(split_size(0x1234_5678), (0x1234_5678, 0));
    assert_eq!(split_size(u32::MAX as usize), (u32::MAX, 0));
    if usize::BITS == 64 {
        let n: u64 = 0x1_0000_0005;
        assert_eq!(split_size(n as usize), (5, 1));
        assert_eq!(split_size(usize::MAX), (u32::MAX, u32::MAX));
    }
}
