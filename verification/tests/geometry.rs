use vvdoom::error::ErrorKind;
use vvdoom::geometry::{
    ceil_div, fixed, scene_node, update_scene_node, DescriptorValue, Fit, FrameLayout,
    GeometryError, PixelRect, TerminalGeometry,
};

fn geometry() -> TerminalGeometry {
    TerminalGeometry {
        viewport_width_px: 1000,
        viewport_height_px: 800,
        cols: 100,
        rows: 40,
        cell_width_px: 10,
        cell_height_px: 20,
    }
}

fn descriptor() -> Vec<(u64, DescriptorValue)> {
    vec![
        (0, DescriptorValue::Unsigned(1000)),
        (1, DescriptorValue::Unsigned(800)),
        (2, DescriptorValue::Unsigned(100)),
        (3, DescriptorValue::Unsigned(40)),
        (4, DescriptorValue::Unsigned(10)),
        (5, DescriptorValue::Unsigned(20)),
        (6, DescriptorValue::Bool(true)),
        (7, DescriptorValue::Unsigned(3)),
        (8, DescriptorValue::Unsigned(1)),
    ]
}

fn refused(key: usize, value: DescriptorValue) -> GeometryError {
    let mut entries = descriptor();
    entries[key].1 = value;
    TerminalGeometry::from_descriptor(&entries).unwrap_err()
}

#[test]
fn scaled_layout_is_centered_and_preserves_aspect() {
    let layout = geometry().layout(true);
    assert_eq!((layout.column, layout.row), (0, 4));
    assert_eq!((layout.columns, layout.rows), (100, 31));
    let rect = layout.image_rect_px();
    assert!((rect.width as f32 / rect.height as f32 - 1.6).abs() < 0.01);
}

#[test]
fn natural_layout_is_centered() {
    let layout = geometry().layout(false);
    assert_eq!((layout.columns, layout.rows), (64, 20));
    assert_eq!((layout.column, layout.row), (18, 10));
}

#[test]
fn pixel_mouse_delta_accounts_for_fitted_size() {
    let layout = geometry().layout(false);
    assert_eq!(layout.mouse_delta((100, 100), (110, 120)), (10, 20));
}

#[test]
fn fitted_image_stands_in_the_middle_of_its_cells() {
    assert_eq!(
        geometry().layout(true).image_rect_px(),
        PixelRect { x: 4, y: 80, width: 992, height: 620 },
    );
    assert_eq!(
        geometry().layout(false).image_rect_px(),
        PixelRect { x: 180, y: 200, width: 640, height: 400 },
    );
}

#[test]
fn narrow_terminal_fits_the_width() {
    let narrow = TerminalGeometry { cols: 40, ..geometry() };
    let layout = narrow.layout(true);
    assert_eq!((layout.columns, layout.rows), (40, 12));
    assert_eq!((layout.column, layout.row), (0, 14));
}

#[test]
fn tiny_terminal_shows_at_least_one_cell() {
    let tiny = TerminalGeometry {
        viewport_width_px: 1,
        viewport_height_px: 1,
        cols: 1,
        rows: 1,
        cell_width_px: 1,
        cell_height_px: 1,
    };
    for scale in [true, false] {
        let layout = tiny.layout(scale);
        assert_eq!((layout.column, layout.row, layout.columns, layout.rows), (0, 0, 1, 1));
        let rect = layout.image_rect_px();
        assert_eq!((rect.width, rect.height), (1, 1));
    }
}

#[test]
fn motion_is_scaled_and_odd() {
    let layout = geometry().layout(true);
    assert_eq!(layout.mouse_delta((0, 0), (992, 620)), (640, 400));
    assert_eq!(layout.mouse_delta((992, 620), (0, 0)), (-640, -400));
    assert_eq!(layout.mouse_delta((7, 9), (7, 9)), (0, 0));
    // Fractions are dropped toward zero on both sides.
    assert_eq!(layout.mouse_delta((0, 0), (1, 1)), (0, 0));
    assert_eq!(layout.mouse_delta((1, 1), (0, 0)), (0, 0));
    assert_eq!(layout.mouse_delta((0, 0), (2, 2)), (1, 1));
    assert_eq!(layout.mouse_delta((2, 2), (0, 0)), (-1, -1));
}

#[test]
fn oversized_cells_saturate() {
    let layout = FrameLayout {
        terminal: TerminalGeometry {
            viewport_width_px: u32::MAX,
            viewport_height_px: u32::MAX,
            cols: 2,
            rows: 2,
            cell_width_px: u32::MAX,
            cell_height_px: u32::MAX,
        },
        column: 1,
        row: 1,
        columns: 2,
        rows: 2,
    };
    let rect = layout.image_rect_px();
    assert_eq!(rect.width, u32::MAX);
    assert_eq!(rect.height, 2_684_354_559);
    assert_eq!((rect.x, rect.y), (u32::MAX, u32::MAX));
}

#[test]
fn division_rounds_up() {
    assert_eq!(ceil_div(640, 10), 64);
    assert_eq!(ceil_div(641, 10), 65);
    assert_eq!(ceil_div(1, 10), 1);
}

#[test]
fn descriptor_gives_the_geometry() {
    assert_eq!(TerminalGeometry::from_descriptor(&descriptor()), Ok(geometry()));
}

#[test]
fn descriptor_needs_exactly_its_keys() {
    let mut short = descriptor();
    short.pop();
    assert_eq!(TerminalGeometry::from_descriptor(&short), Err(GeometryError::Keys));
    let mut long = descriptor();
    long.push((9, DescriptorValue::Unsigned(1)));
    assert_eq!(TerminalGeometry::from_descriptor(&long), Err(GeometryError::Keys));
    let mut swapped = descriptor();
    swapped.swap(0, 1);
    assert_eq!(TerminalGeometry::from_descriptor(&swapped), Err(GeometryError::Keys));
    assert_eq!(GeometryError::Keys.kind(), ErrorKind::InvalidData);
    assert_eq!(
        GeometryError::Keys.message(),
        "terminal target descriptor must contain exactly keys 0 through 8",
    );
}

#[test]
fn descriptor_sizes_are_checked() {
    let wide = DescriptorValue::Unsigned(1 << 32);
    let tall = DescriptorValue::Unsigned(1 << 16);
    assert_eq!(refused(0, wide), GeometryError::ViewportWidth);
    assert_eq!(refused(1, wide), GeometryError::ViewportHeight);
    assert_eq!(refused(2, tall), GeometryError::Columns);
    assert_eq!(refused(3, tall), GeometryError::Rows);
    assert_eq!(refused(4, wide), GeometryError::CellWidth);
    assert_eq!(refused(5, wide), GeometryError::CellHeight);
    assert_eq!(refused(3, DescriptorValue::Bool(true)), GeometryError::NotUnsigned(3));
    for key in 0..6 {
        assert_eq!(refused(key, DescriptorValue::Unsigned(0)), GeometryError::Invalid);
    }
    assert_eq!(GeometryError::ViewportWidth.message(), "viewport width exceeds u32");
    assert_eq!(GeometryError::ViewportHeight.message(), "viewport height exceeds u32");
    assert_eq!(GeometryError::Columns.message(), "columns exceed u16");
    assert_eq!(GeometryError::Rows.message(), "rows exceed u16");
    assert_eq!(GeometryError::CellWidth.message(), "cell width exceeds u32");
    assert_eq!(GeometryError::CellHeight.message(), "cell height exceeds u32");
    assert_eq!(
        GeometryError::NotUnsigned(3).message(),
        "terminal target descriptor key 3 is not unsigned",
    );
}

#[test]
fn descriptor_capabilities_are_checked() {
    assert_eq!(refused(6, DescriptorValue::Unsigned(1)), GeometryError::Invalid);
    assert_eq!(refused(7, DescriptorValue::Unsigned(2)), GeometryError::Invalid);
    assert_eq!(refused(7, DescriptorValue::Other), GeometryError::NotUnsigned(7));
    assert_eq!(refused(8, DescriptorValue::Unsigned(0)), GeometryError::Invalid);
    assert_eq!(refused(8, DescriptorValue::Other), GeometryError::NotUnsigned(8));
    assert_eq!(
        GeometryError::Invalid.message(),
        "terminal target descriptor contains invalid geometry or anchor capability",
    );
}

#[test]
fn earlier_descriptor_errors_win() {
    let mut entries = descriptor();
    entries[1].1 = DescriptorValue::Other;
    entries[2].1 = DescriptorValue::Unsigned(1 << 16);
    assert_eq!(TerminalGeometry::from_descriptor(&entries), Err(GeometryError::NotUnsigned(1)));
    // A bad flag is reported before the entries behind it are read.
    let mut entries = descriptor();
    entries[6].1 = DescriptorValue::Other;
    entries[7].1 = DescriptorValue::Other;
    assert_eq!(TerminalGeometry::from_descriptor(&entries), Err(GeometryError::Invalid));
}

#[test]
fn node_carries_the_layout_in_fixed_point() {
    let node = scene_node(1, 2, 3, 4, geometry().layout(true));
    assert_eq!((node.owning_context_id, node.node_id), (1, 4));
    assert_eq!((node.surface_context_id, node.surface_id), (2, 3));
    assert_eq!(
        node.geometry,
        [(0, 1), (1, 0), (2, 4 << 32), (3, 100 << 32), (4, 31 << 32), (5, 1)],
    );
    assert_eq!(node.fit, Fit::Contain);
    assert_eq!((node.linear_sampling, node.visible), (false, true));
    assert_eq!((node.z_index, node.opacity), (0, u16::MAX));
    assert_eq!(node.clip, None);
    assert_eq!(fixed(u32::MAX), 0xffff_ffff_0000_0000);
}

#[test]
fn moved_node_equals_a_new_one() {
    let mut node = scene_node(1, 2, 3, 4, geometry().layout(true));
    update_scene_node(&mut node, geometry().layout(false));
    assert_eq!(node.geometry, scene_node(1, 2, 3, 4, geometry().layout(false)).geometry);
    assert_eq!(
        node.geometry,
        [(0, 1), (1, 18 << 32), (2, 10 << 32), (3, 64 << 32), (4, 20 << 32), (5, 1)],
    );
}

#[test]
fn unknown_node_entries_stay() {
    let mut node = scene_node(1, 2, 3, 4, geometry().layout(true));
    node.geometry = vec![(7, 70), (3, 0), (0, 9)];
    update_scene_node(&mut node, geometry().layout(false));
    assert_eq!(node.geometry, [(7, 70), (3, 64 << 32), (0, 9)]);
}
