use level_editor::geometry::ScreenPos;
use level_editor::ui::is_occluded;
use level_editor::ui::UiRegion;

#[test]
fn region_bounds_are_inclusive() {
    let r = UiRegion { center_x: 100, center_y: 100, half_width: 10, half_height: 10 };
    assert!(r.contains(ScreenPos { x: 90, y: 90 }));
    assert!(r.contains(ScreenPos { x: 110, y: 110 }));
    assert!(r.contains(ScreenPos { x: 100, y: 100 }));
    assert!(!r.contains(ScreenPos { x: 111, y: 100 }));
    assert!(!r.contains(ScreenPos { x: 100, y: 89 }));
}

#[test]
fn region_bounds_match_center_and_half_size() {
    let r = UiRegion { center_x: 40, center_y: 300, half_width: 40, half_height: 300 };
    assert_eq!(r.bounds(), (0, 0, 80, 600));
}

#[test]
fn occlusion_scans_every_region() {
    let regions = vec![
        UiRegion { center_x: 40, center_y: 300, half_width: 40, half_height: 300 },
        UiRegion { center_x: 400, center_y: 50, half_width: 200, half_height: 50 },
    ];
    // inside the first region only
    assert!(is_occluded(ScreenPos { x: 10, y: 10 }, &regions));
    // inside the second region only
    assert!(is_occluded(ScreenPos { x: 400, y: 80 }, &regions));
    // inside none
    assert!(!is_occluded(ScreenPos { x: 700, y: 500 }, &regions));
}

#[test]
fn occlusion_with_no_regions_is_false() {
    let regions: Vec<UiRegion> = Vec::new();
    assert!(!is_occluded(ScreenPos { x: 0, y: 0 }, &regions));
}
