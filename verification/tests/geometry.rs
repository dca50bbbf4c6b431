use winit::geometry::FrameExtents;
use winit::geometry::FrameExtentsHeuristic;
use winit::geometry::FrameExtentsHeuristicPath;
use winit::geometry::OuterGeometry;
use winit::geometry::TranslatedCoords;
use winit::geometry::WindowGeometry;
use winit::geometry::get_frame_extents_heuristic;

#[test]
fn supported_path_uses_the_server_extents() {
    let translated = TranslatedCoords { x_rel_root: 10, y_rel_root: 30, child: 77 };
    let heuristic = get_frame_extents_heuristic(
        5,
        translated,
        640,
        480,
        0,
        None,
        Some(FrameExtents::new(10, 10, 30, 10)),
        None,
    );
    assert_eq!(heuristic.heuristic_path, FrameExtentsHeuristicPath::Supported);
    assert_eq!(heuristic.frame_extents, FrameExtents::new(10, 10, 30, 10));
    // Converting an inner position to the outer one backs out exactly the
    // reported left/top margins.
    assert_eq!(heuristic.inner_pos_to_outer(100, 200), (90, 170));
}

#[test]
fn supported_path_zeroes_extents_for_unnested_windows() {
    let translated = TranslatedCoords { x_rel_root: 10, y_rel_root: 30, child: 5 };
    let heuristic = get_frame_extents_heuristic(
        5,
        translated,
        640,
        480,
        0,
        None,
        Some(FrameExtents::new(10, 10, 30, 10)),
        None,
    );
    assert_eq!(heuristic.heuristic_path, FrameExtentsHeuristicPath::Supported);
    assert_eq!(heuristic.frame_extents, FrameExtents::new(0, 0, 0, 0));
}

#[test]
fn nested_path_splits_the_geometry_difference() {
    let translated = TranslatedCoords { x_rel_root: 12, y_rel_root: 15, child: 77 };
    let heuristic = get_frame_extents_heuristic(
        5,
        translated,
        100,
        100,
        0,
        None,
        None,
        Some(OuterGeometry { y_rel_parent: 5, width: 120, height: 130 }),
    );
    assert_eq!(heuristic.heuristic_path, FrameExtentsHeuristicPath::UnsupportedNested);
    // Horizontal difference 20 splits into equal halves; the vertical
    // offset 10 is the top margin and the remaining 20 the bottom.
    assert_eq!(heuristic.frame_extents, FrameExtents::new(10, 10, 10, 20));
}

#[test]
fn unreparenting_wm_falls_back_to_the_border() {
    let translated = TranslatedCoords { x_rel_root: 0, y_rel_root: 0, child: 5 };
    let heuristic =
        get_frame_extents_heuristic(5, translated, 640, 480, 3, None, None, None);
    assert_eq!(heuristic.heuristic_path, FrameExtentsHeuristicPath::UnsupportedBordered);
    assert_eq!(heuristic.frame_extents, FrameExtents::new(3, 3, 3, 3));
    // Under the bordered fallback the inner position already is the frame
    // position.
    assert_eq!(heuristic.inner_pos_to_outer(100, 200), (100, 200));
}

#[test]
fn top_level_child_counts_as_unnested() {
    let translated = TranslatedCoords { x_rel_root: 0, y_rel_root: 0, child: 77 };
    let heuristic =
        get_frame_extents_heuristic(5, translated, 640, 480, 2, Some(true), None, None);
    assert_eq!(heuristic.heuristic_path, FrameExtentsHeuristicPath::UnsupportedBordered);
    assert_eq!(heuristic.frame_extents, FrameExtents::new(2, 2, 2, 2));
}

#[test]
fn inner_size_to_outer_adds_margins_and_saturates() {
    let heuristic = FrameExtentsHeuristic {
        frame_extents: FrameExtents::new(10, 10, 30, 10),
        heuristic_path: FrameExtentsHeuristicPath::Supported,
    };
    assert_eq!(heuristic.inner_size_to_outer(640, 480), (660, 520));
    assert_eq!(heuristic.inner_size_to_outer(u32::MAX - 5, 480), (u32::MAX, 520));
}

#[test]
fn window_geometry_derives_positions_and_sizes() {
    let geometry = WindowGeometry {
        x: 50,
        y: 60,
        width: 300,
        height: 200,
        frame: FrameExtents::new(5, 5, 20, 5),
    };
    assert_eq!(geometry.get_position(), (50, 60));
    assert_eq!(geometry.get_inner_position(), (55, 80));
    assert_eq!(geometry.get_inner_size(), (300, 200));
    assert_eq!(geometry.get_outer_size(), (310, 225));
}
