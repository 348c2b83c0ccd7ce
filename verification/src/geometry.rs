//! Where the game image stands in the terminal, and what mouse motion over it means.
use vstd::prelude::*;

use crate::error::ErrorKind;
use crate::text::{decimal, join};

verus! {

/// The width of the game image in pixels.
pub const DOOM_WIDTH: u32 = 640;

/// The height of the game image in pixels.
pub const DOOM_HEIGHT: u32 = 400;

/// An entry value of a terminal target descriptor, as far as the geometry reads it.
#[derive(Debug, Clone, Copy, PartialEq, Eq, Structural)]
pub enum DescriptorValue {
    Unsigned(u64),
    Bool(bool),
    Other,
}

/// Why a terminal target descriptor was refused.
#[derive(Debug, Clone, Copy, PartialEq, Eq, Structural)]
pub enum GeometryError {
    Keys,
    NotUnsigned(u64),
    ViewportWidth,
    ViewportHeight,
    Columns,
    Rows,
    CellWidth,
    CellHeight,
    Invalid,
}

impl GeometryError {
    /// The kind of the error.
    pub fn kind(&self) -> (kind: ErrorKind)
        ensures
            kind == ErrorKind::InvalidData,
    {
        ErrorKind::InvalidData
    }

    /// The text of the error.
    pub open spec fn spec_message(self) -> Seq<char> {
        match self {
            GeometryError::Keys => {
                "terminal target descriptor must contain exactly keys 0 through 8"@
            },
            GeometryError::NotUnsigned(key) => {
                "terminal target descriptor key "@ + crate::text::decimal_text(key as nat)
                    + " is not unsigned"@
            },
            GeometryError::ViewportWidth => "viewport width exceeds u32"@,
            GeometryError::ViewportHeight => "viewport height exceeds u32"@,
            GeometryError::Columns => "columns exceed u16"@,
            GeometryError::Rows => "rows exceed u16"@,
            GeometryError::CellWidth => "cell width exceeds u32"@,
            GeometryError::CellHeight => "cell height exceeds u32"@,
            GeometryError::Invalid => {
                "terminal target descriptor contains invalid geometry or anchor capability"@
            },
        }
    }

    /// The text of the error.
    pub fn message(&self) -> (text: String)
        ensures
            text@ == self.spec_message(),
    {
        match self {
            GeometryError::Keys => {
                "terminal target descriptor must contain exactly keys 0 through 8".to_owned()
            },
            GeometryError::NotUnsigned(key) => join(
                "terminal target descriptor key ",
                decimal(*key).as_str(),
                " is not unsigned",
            ),
            GeometryError::ViewportWidth => "viewport width exceeds u32".to_owned(),
            GeometryError::ViewportHeight => "viewport height exceeds u32".to_owned(),
            GeometryError::Columns => "columns exceed u16".to_owned(),
            GeometryError::Rows => "rows exceed u16".to_owned(),
            GeometryError::CellWidth => "cell width exceeds u32".to_owned(),
            GeometryError::CellHeight => "cell height exceeds u32".to_owned(),
            GeometryError::Invalid => {
                "terminal target descriptor contains invalid geometry or anchor capability".to_owned()
            },
        }
    }
}

/// The size of the terminal in pixels and in cells.
#[derive(Debug, Clone, Copy, PartialEq, Eq, Structural)]
pub struct TerminalGeometry {
    pub viewport_width_px: u32,
    pub viewport_height_px: u32,
    pub cols: u16,
    pub rows: u16,
    pub cell_width_px: u32,
    pub cell_height_px: u32,
}

/// The cells that the game image is laid out in.
#[derive(Debug, Clone, Copy, PartialEq, Eq, Structural)]
pub struct FrameLayout {
    pub terminal: TerminalGeometry,
    pub column: u32,
    pub row: u32,
    pub columns: u32,
    pub rows: u32,
}

/// A rectangle of pixels.
#[derive(Debug, Clone, Copy, PartialEq, Eq, Structural)]
pub struct PixelRect {
    pub x: u32,
    pub y: u32,
    pub width: u32,
    pub height: u32,
}

/// `value` brought into the range from `low` to `high`.
pub open spec fn clamped(value: int, low: int, high: int) -> int {
    if value < low {
        low
    } else if value > high {
        high
    } else {
        value
    }
}

/// `value`, or the largest `u32` where it does not fit.
pub open spec fn saturated(value: int) -> int {
    if value > u32::MAX {
        u32::MAX as int
    } else {
        value
    }
}

/// The quotient of `n` and a positive `d`, rounded toward zero.
pub open spec fn truncated_quotient(n: int, d: int) -> int {
    if n >= 0 {
        n / d
    } else {
        -((-n) / d)
    }
}

/// The largest size of the game's aspect ratio, in whole pixels, that fits into an area.
pub open spec fn fitted_size(width: int, height: int) -> (int, int) {
    if height * DOOM_WIDTH / DOOM_HEIGHT as int <= width {
        (height * DOOM_WIDTH / DOOM_HEIGHT as int, height)
    } else {
        (width, width * DOOM_HEIGHT / DOOM_WIDTH as int)
    }
}

/// The unsigned value of entry `key`, where it is one.
pub open spec fn entry_unsigned(descriptor: Seq<(u64, DescriptorValue)>, key: int) -> Option<u64> {
    match descriptor[key].1 {
        DescriptorValue::Unsigned(value) => Some(value),
        _ => None,
    }
}

/// The error of entry `key` if it is not an unsigned number of at most `maximum`.
pub open spec fn entry_error(
    descriptor: Seq<(u64, DescriptorValue)>,
    key: u64,
    maximum: u64,
    excess: GeometryError,
) -> Option<GeometryError> {
    match entry_unsigned(descriptor, key as int) {
        Some(value) => if value > maximum {
            Some(excess)
        } else {
            None
        },
        None => Some(GeometryError::NotUnsigned(key)),
    }
}

/// `first`, or `second` where there is no first error.
pub open spec fn or_else(first: Option<GeometryError>, second: Option<GeometryError>) -> Option<
    GeometryError,
> {
    match first {
        Some(_) => first,
        None => second,
    }
}

/// Whether the entries carry the keys from 0 through 8, in order.
pub open spec fn has_descriptor_keys(descriptor: Seq<(u64, DescriptorValue)>) -> bool {
    &&& descriptor.len() == 9
    &&& forall|i: int| 0 <= i < 9 ==> (#[trigger] descriptor[i]).0 == i
}

/// The errors of the six sizes, in order.
pub open spec fn size_error(descriptor: Seq<(u64, DescriptorValue)>) -> Option<GeometryError> {
    or_else(
        entry_error(descriptor, 0, u32::MAX as u64, GeometryError::ViewportWidth),
        or_else(
            entry_error(descriptor, 1, u32::MAX as u64, GeometryError::ViewportHeight),
            or_else(
                entry_error(descriptor, 2, u16::MAX as u64, GeometryError::Columns),
                or_else(
                    entry_error(descriptor, 3, u16::MAX as u64, GeometryError::Rows),
                    or_else(
                        entry_error(descriptor, 4, u32::MAX as u64, GeometryError::CellWidth),
                        entry_error(descriptor, 5, u32::MAX as u64, GeometryError::CellHeight),
                    ),
                ),
            ),
        ),
    )
}

/// The error of the entries after the sizes: a flag, the anchor capability and a revision.
pub open spec fn capability_error(descriptor: Seq<(u64, DescriptorValue)>) -> Option<
    GeometryError,
> {
    if !(descriptor[6].1 is Bool) || (exists|key: int|
        0 <= key < 6 && #[trigger] entry_unsigned(descriptor, key) == Some(0u64)) {
        Some(GeometryError::Invalid)
    } else if entry_unsigned(descriptor, 7) is None {
        Some(GeometryError::NotUnsigned(7))
    } else if entry_unsigned(descriptor, 7) != Some(3u64) {
        Some(GeometryError::Invalid)
    } else if entry_unsigned(descriptor, 8) is None {
        Some(GeometryError::NotUnsigned(8))
    } else if entry_unsigned(descriptor, 8) == Some(0u64) {
        Some(GeometryError::Invalid)
    } else {
        None
    }
}

/// The first error of a terminal target descriptor, if it has one.
pub open spec fn descriptor_error(descriptor: Seq<(u64, DescriptorValue)>) -> Option<
    GeometryError,
> {
    if !has_descriptor_keys(descriptor) {
        Some(GeometryError::Keys)
    } else {
        or_else(size_error(descriptor), capability_error(descriptor))
    }
}

/// Whether `geometry` has the sizes of a terminal target descriptor.
pub open spec fn is_geometry_of(
    geometry: TerminalGeometry,
    descriptor: Seq<(u64, DescriptorValue)>,
) -> bool {
    &&& entry_unsigned(descriptor, 0) == Some(geometry.viewport_width_px as u64)
    &&& entry_unsigned(descriptor, 1) == Some(geometry.viewport_height_px as u64)
    &&& entry_unsigned(descriptor, 2) == Some(geometry.cols as u64)
    &&& entry_unsigned(descriptor, 3) == Some(geometry.rows as u64)
    &&& entry_unsigned(descriptor, 4) == Some(geometry.cell_width_px as u64)
    &&& entry_unsigned(descriptor, 5) == Some(geometry.cell_height_px as u64)
}

/// The unsigned value of entry `key`.
fn unsigned(descriptor: &[(u64, DescriptorValue)], key: usize) -> (value: Result<
    u64,
    GeometryError,
>)
    requires
        key < descriptor@.len(),
    ensures
        value == match entry_unsigned(descriptor@, key as int) {
            Some(value) => Ok(value),
            None => Err(GeometryError::NotUnsigned(key as u64)),
        },
{
    match descriptor[key].1 {
        DescriptorValue::Unsigned(value) => Ok(value),
        _ => Err(GeometryError::NotUnsigned(key as u64)),
    }
}

/// The unsigned value of entry `key`, which must not exceed `maximum`.
fn unsigned_up_to(
    descriptor: &[(u64, DescriptorValue)],
    key: usize,
    maximum: u64,
    excess: GeometryError,
) -> (value: Result<u64, GeometryError>)
    requires
        key < descriptor@.len(),
    ensures
        match value {
            Ok(value) => entry_error(descriptor@, key as u64, maximum, excess) is None
                && entry_unsigned(descriptor@, key as int) == Some(value) && value <= maximum,
            Err(error) => entry_error(descriptor@, key as u64, maximum, excess) == Some(error),
        },
{
    let value: u64 = unsigned(descriptor, key)?;
    if value > maximum {
        return Err(excess);
    }
    Ok(value)
}

impl TerminalGeometry {
    /// Whether the terminal has cells, and these have a size.
    pub open spec fn has_cells(self) -> bool {
        &&& self.cols > 0
        &&& self.rows > 0
        &&& self.cell_width_px > 0
        &&& self.cell_height_px > 0
    }

    /// Whether no size is zero.
    pub open spec fn wf(self) -> bool {
        &&& self.viewport_width_px > 0
        &&& self.viewport_height_px > 0
        &&& self.has_cells()
    }

    /// Reads the geometry out of a terminal target descriptor.
    pub fn from_descriptor(descriptor: &[(u64, DescriptorValue)]) -> (geometry: Result<
        TerminalGeometry,
        GeometryError,
    >)
        ensures
            match geometry {
                Ok(geometry) => {
                    &&& descriptor_error(descriptor@) is None
                    &&& is_geometry_of(geometry, descriptor@)
                    &&& geometry.wf()
                },
                Err(error) => descriptor_error(descriptor@) == Some(error),
            },
    {
        if descriptor.len() != 9 {
            return Err(GeometryError::Keys);
        }
        let mut index: usize = 0;
        while index < 9
            invariant
                index <= 9,
                descriptor@.len() == 9,
                forall|i: int| 0 <= i < index ==> (#[trigger] descriptor@[i]).0 == i,
            decreases 9 - index,
        {
            if descriptor[index].0 != index as u64 {
                return Err(GeometryError::Keys);
            }
            index = index + 1;
        }
        let viewport_width_px: u64 = unsigned_up_to(
            descriptor,
            0,
            u32::MAX as u64,
            GeometryError::ViewportWidth,
        )?;
        let viewport_height_px: u64 = unsigned_up_to(
            descriptor,
            1,
            u32::MAX as u64,
            GeometryError::ViewportHeight,
        )?;
        let cols: u64 = unsigned_up_to(descriptor, 2, u16::MAX as u64, GeometryError::Columns)?;
        let rows: u64 = unsigned_up_to(descriptor, 3, u16::MAX as u64, GeometryError::Rows)?;
        let cell_width_px: u64 = unsigned_up_to(
            descriptor,
            4,
            u32::MAX as u64,
            GeometryError::CellWidth,
        )?;
        let cell_height_px: u64 = unsigned_up_to(
            descriptor,
            5,
            u32::MAX as u64,
            GeometryError::CellHeight,
        )?;
        let flagged = match descriptor[6].1 {
            DescriptorValue::Bool(_) => true,
            _ => false,
        };
        if !flagged || viewport_width_px == 0 || viewport_height_px == 0 || cols == 0 || rows == 0
            || cell_width_px == 0 || cell_height_px == 0 || unsigned(descriptor, 7)? != 3
            || unsigned(descriptor, 8)? == 0 {
            return Err(GeometryError::Invalid);
        }
        Ok(
            TerminalGeometry {
                viewport_width_px: viewport_width_px as u32,
                viewport_height_px: viewport_height_px as u32,
                cols: cols as u16,
                rows: rows as u16,
                cell_width_px: cell_width_px as u32,
                cell_height_px: cell_height_px as u32,
            },
        )
    }

    /// The layout in whole cells: fitted to the window, or at the natural size of the image.
    pub open spec fn spec_layout(self, scale: bool) -> FrameLayout {
        let (columns, rows) = if scale {
            spec_scaled_cells(self)
        } else {
            spec_natural_cells(self)
        };
        FrameLayout {
            terminal: self,
            column: ((self.cols - columns) / 2) as u32,
            row: ((self.rows - rows) / 2) as u32,
            columns: columns as u32,
            rows: rows as u32,
        }
    }

    /// Lays the image out in the middle of the terminal.
    pub fn layout(self, scale: bool) -> (layout: FrameLayout)
        requires
            self.has_cells(),
        ensures
            layout == self.spec_layout(scale),
    {
        let (columns, rows): (u32, u32) = if scale {
            scaled_cells(self)
        } else {
            natural_cells(self)
        };
        let column: u32 = (self.cols as u32).saturating_sub(columns) / 2;
        let row: u32 = (self.rows as u32).saturating_sub(rows) / 2;
        FrameLayout { terminal: self, column, row, columns, rows }
    }
}

/// The cells of the largest image that fits into the terminal.
pub open spec fn spec_scaled_cells(geometry: TerminalGeometry) -> (int, int) {
    let (width, height) = fitted_size(
        geometry.cols * geometry.cell_width_px,
        geometry.rows * geometry.cell_height_px,
    );
    (
        clamped(width / geometry.cell_width_px as int, 1, geometry.cols as int),
        clamped(height / geometry.cell_height_px as int, 1, geometry.rows as int),
    )
}

/// The cells that an image of natural size touches, as far as the terminal has them.
pub open spec fn spec_natural_cells(geometry: TerminalGeometry) -> (int, int) {
    (
        clamped(
            spec_ceil_div(DOOM_WIDTH as int, geometry.cell_width_px as int),
            1,
            geometry.cols as int,
        ),
        clamped(
            spec_ceil_div(DOOM_HEIGHT as int, geometry.cell_height_px as int),
            1,
            geometry.rows as int,
        ),
    )
}

/// The quotient rounded up, except that the sum it is taken of stops at the largest `u32`.
pub open spec fn spec_ceil_div(value: int, divisor: int) -> int {
    saturated(value + divisor - 1) / divisor
}

/// The number of cells of size `divisor` that `value` pixels touch.
pub fn ceil_div(value: u32, divisor: u32) -> (cells: u32)
    requires
        divisor > 0,
    ensures
        cells == spec_ceil_div(value as int, divisor as int),
{
    value.saturating_add(divisor - 1) / divisor
}

/// `value` brought into the range from `low` to `high`.
fn clamp(value: u64, low: u32, high: u32) -> (result: u32)
    requires
        low <= high,
    ensures
        result == clamped(value as int, low as int, high as int),
{
    if value < low as u64 {
        low
    } else if value > high as u64 {
        high
    } else {
        value as u32
    }
}

/// The size of an area of cells in pixels along one axis.
fn pixels(cells: u16, size: u32) -> (length: u64)
    ensures
        length == cells * size,
        length <= 0xffff * 0xffff_ffff,
{
    proof {
        lemma_product_bound(cells as int, size as int, u16::MAX as int, u32::MAX as int);
    }
    cells as u64 * size as u64
}

proof fn lemma_product_bound(a: int, b: int, a_bound: int, b_bound: int)
    by (nonlinear_arith)
    requires
        0 <= a <= a_bound,
        0 <= b <= b_bound,
    ensures
        0 <= a * b <= a_bound * b_bound,
{
}

/// The cells of the largest image that fits into the terminal.
pub fn scaled_cells(geometry: TerminalGeometry) -> (cells: (u32, u32))
    requires
        geometry.has_cells(),
    ensures
        (cells.0 as int, cells.1 as int) == spec_scaled_cells(geometry),
        1 <= cells.0 <= geometry.cols,
        1 <= cells.1 <= geometry.rows,
{
    let available_width: u64 = pixels(geometry.cols, geometry.cell_width_px);
    let available_height: u64 = pixels(geometry.rows, geometry.cell_height_px);
    assert(0xffff * 0xffff_ffff * 640 <= u64::MAX);
    assert(available_height * 640 <= 0xffff * 0xffff_ffff * 640);
    assert(available_width * 400 <= 0xffff * 0xffff_ffff * 640);
    let width_from_height: u64 = available_height * DOOM_WIDTH as u64 / DOOM_HEIGHT as u64;
    let (width, height): (u64, u64) = if width_from_height <= available_width {
        (width_from_height, available_height)
    } else {
        (available_width, available_width * DOOM_HEIGHT as u64 / DOOM_WIDTH as u64)
    };
    (
        clamp(width / geometry.cell_width_px as u64, 1, geometry.cols as u32),
        clamp(height / geometry.cell_height_px as u64, 1, geometry.rows as u32),
    )
}

/// The cells that an image of natural size touches, as far as the terminal has them.
pub fn natural_cells(geometry: TerminalGeometry) -> (cells: (u32, u32))
    requires
        geometry.has_cells(),
    ensures
        (cells.0 as int, cells.1 as int) == spec_natural_cells(geometry),
        1 <= cells.0 <= geometry.cols,
        1 <= cells.1 <= geometry.rows,
{
    (
        clamp(ceil_div(DOOM_WIDTH, geometry.cell_width_px) as u64, 1, geometry.cols as u32),
        clamp(ceil_div(DOOM_HEIGHT, geometry.cell_height_px) as u64, 1, geometry.rows as u32),
    )
}

/// The product, or the largest `u32` where it does not fit.
fn saturating_product(a: u32, b: u32) -> (product: u32)
    ensures
        product == saturated(a * b),
{
    proof {
        lemma_product_bound(a as int, b as int, u32::MAX as int, u32::MAX as int);
    }
    let product: u64 = a as u64 * b as u64;
    if product > u32::MAX as u64 {
        u32::MAX
    } else {
        product as u32
    }
}

/// The quotient of `n` and `d`, rounded toward zero.
fn quotient(n: i64, d: u32) -> (q: i64)
    requires
        -0x1_0000_0000 <= n <= 0x1_0000_0000,
        d > 0,
    ensures
        q == truncated_quotient(n as int, d as int),
        n >= 0 ==> 0 <= q <= n,
        n < 0 ==> n <= q <= 0,
{
    if n >= 0 {
        proof {
            lemma_quotient_bound(n as int, d as int);
        }
        ((n as u64) / (d as u64)) as i64
    } else {
        proof {
            lemma_quotient_bound(-n as int, d as int);
        }
        -((((-n) as u64) / (d as u64)) as i64)
    }
}

proof fn lemma_quotient_bound(n: int, d: int)
    by (nonlinear_arith)
    requires
        n >= 0,
        d > 0,
    ensures
        0 <= n / d <= n,
{
}

impl FrameLayout {
    /// The pixels of the node, where they can be counted.
    pub open spec fn node_rect(self) -> (int, int, int, int) {
        (
            saturated(self.column * self.terminal.cell_width_px),
            saturated(self.row * self.terminal.cell_height_px),
            saturated(self.columns * self.terminal.cell_width_px),
            saturated(self.rows * self.terminal.cell_height_px),
        )
    }

    /// The pixels that the image covers: the largest of its aspect ratio, in the middle of the
    /// node, and never empty.
    pub open spec fn spec_image_rect_px(self) -> PixelRect {
        let (x, y, node_width, node_height) = self.node_rect();
        let (width, height) = fitted_size(node_width, node_height);
        PixelRect {
            x: saturated(x + (node_width - width) / 2) as u32,
            y: saturated(y + (node_height - height) / 2) as u32,
            width: clamped(width, 1, u32::MAX as int) as u32,
            height: clamped(height, 1, u32::MAX as int) as u32,
        }
    }

    /// The pixels that the image covers.
    pub fn image_rect_px(self) -> (rect: PixelRect)
        ensures
            rect == self.spec_image_rect_px(),
            rect.width > 0,
            rect.height > 0,
    {
        let node_x: u32 = saturating_product(self.column, self.terminal.cell_width_px);
        let node_y: u32 = saturating_product(self.row, self.terminal.cell_height_px);
        let node_width: u32 = saturating_product(self.columns, self.terminal.cell_width_px);
        let node_height: u32 = saturating_product(self.rows, self.terminal.cell_height_px);
        let width_from_height: u64 = node_height as u64 * DOOM_WIDTH as u64 / DOOM_HEIGHT as u64;
        let (width, height): (u32, u32) = if width_from_height <= node_width as u64 {
            (width_from_height as u32, node_height)
        } else {
            (node_width, (node_width as u64 * DOOM_HEIGHT as u64 / DOOM_WIDTH as u64) as u32)
        };
        PixelRect {
            x: node_x.saturating_add(node_width.saturating_sub(width) / 2),
            y: node_y.saturating_add(node_height.saturating_sub(height) / 2),
            width: if width == 0 {
                1
            } else {
                width
            },
            height: if height == 0 {
                1
            } else {
                height
            },
        }
    }

    /// The motion in image pixels for a motion from `previous` to `current` on the screen.
    pub open spec fn spec_mouse_delta(self, previous: (u16, u16), current: (u16, u16)) -> (
        int,
        int,
    ) {
        let rect = self.spec_image_rect_px();
        (
            truncated_quotient((current.0 - previous.0) * DOOM_WIDTH, rect.width as int),
            truncated_quotient((current.1 - previous.1) * DOOM_HEIGHT, rect.height as int),
        )
    }

    /// The motion in image pixels for a motion from `previous` to `current` on the screen.
    pub fn mouse_delta(self, previous: (u16, u16), current: (u16, u16)) -> (delta: (i32, i32))
        ensures
            (delta.0 as int, delta.1 as int) == self.spec_mouse_delta(previous, current),
    {
        let rect = self.image_rect_px();
        let dx: i64 = current.0 as i64 - previous.0 as i64;
        let dy: i64 = current.1 as i64 - previous.1 as i64;
        assert(-0xffff <= dx <= 0xffff && -0xffff <= dy <= 0xffff);
        assert(-0xffff * 640 <= dx * 640 <= 0xffff * 640);
        assert(-0xffff * 400 <= dy * 400 <= 0xffff * 400);
        let scaled_x: i64 = quotient(dx * DOOM_WIDTH as i64, rect.width);
        let scaled_y: i64 = quotient(dy * DOOM_HEIGHT as i64, rect.height);
        (scaled_x as i32, scaled_y as i32)
    }
}

/// How a surface is fitted into its node.
#[derive(Debug, Clone, Copy, PartialEq, Eq, Structural)]
pub enum Fit {
    Fill,
    Contain,
    Cover,
    Unscaled,
}

/// A node of the presenter's scene that shows a surface in a rectangle of cells. The geometry
/// maps 1 and 2 to the column and the row, 3 and 4 to the number of columns and rows, all in
/// fixed point; its other entries do not depend on where the node stands.
#[derive(Debug)]
pub struct SceneNode {
    pub owning_context_id: u64,
    pub node_id: u64,
    pub surface_context_id: u64,
    pub surface_id: u64,
    pub geometry: Vec<(u64, u64)>,
    pub fit: Fit,
    pub linear_sampling: bool,
    pub z_index: i64,
    pub visible: bool,
    pub opacity: u16,
    pub clip: Option<Vec<(u64, u64)>>,
}

/// A number of cells in fixed point.
pub open spec fn spec_fixed(cells: u32) -> u64 {
    (cells * 0x1_0000_0000) as u64
}

/// A number of cells in fixed point. Every number of cells has one.
pub fn fixed(cells: u32) -> (value: u64)
    ensures
        value == spec_fixed(cells),
        value == cells * 0x1_0000_0000,
{
    cells as u64 * 0x1_0000_0000
}

/// The geometry of a node that shows `layout`.
pub open spec fn node_geometry(layout: FrameLayout) -> Seq<(u64, u64)> {
    seq![
        (0u64, 1u64),
        (1u64, spec_fixed(layout.column)),
        (2u64, spec_fixed(layout.row)),
        (3u64, spec_fixed(layout.columns)),
        (4u64, spec_fixed(layout.rows)),
        (5u64, 1u64),
    ]
}

/// A geometry entry after the node was moved to `layout`.
pub open spec fn moved_entry(entry: (u64, u64), layout: FrameLayout) -> (u64, u64) {
    if entry.0 == 1 {
        (entry.0, spec_fixed(layout.column))
    } else if entry.0 == 2 {
        (entry.0, spec_fixed(layout.row))
    } else if entry.0 == 3 {
        (entry.0, spec_fixed(layout.columns))
    } else if entry.0 == 4 {
        (entry.0, spec_fixed(layout.rows))
    } else {
        entry
    }
}

/// A geometry after the node was moved to `layout`.
pub open spec fn moved_geometry(geometry: Seq<(u64, u64)>, layout: FrameLayout) -> Seq<(u64, u64)> {
    geometry.map_values(|entry: (u64, u64)| moved_entry(entry, layout))
}

/// The scene node that shows a surface in `layout`.
pub fn scene_node(
    root_context_id: u64,
    surface_context_id: u64,
    surface_id: u64,
    node_id: u64,
    layout: FrameLayout,
) -> (node: SceneNode)
    ensures
        node.owning_context_id == root_context_id,
        node.node_id == node_id,
        node.surface_context_id == surface_context_id,
        node.surface_id == surface_id,
        node.geometry@ == node_geometry(layout),
        node.fit == Fit::Contain,
        !node.linear_sampling,
        node.z_index == 0,
        node.visible,
        node.opacity == u16::MAX,
        node.clip is None,
{
    SceneNode {
        owning_context_id: root_context_id,
        node_id,
        surface_context_id,
        surface_id,
        geometry: vec![
            (0, 1),
            (1, fixed(layout.column)),
            (2, fixed(layout.row)),
            (3, fixed(layout.columns)),
            (4, fixed(layout.rows)),
            (5, 1),
        ],
        fit: Fit::Contain,
        linear_sampling: false,
        z_index: 0,
        visible: true,
        opacity: u16::MAX,
        clip: None,
    }
}

/// Moves a scene node to `layout`.
pub fn update_scene_node(node: &mut SceneNode, layout: FrameLayout)
    ensures
        final(node).geometry@ == moved_geometry(old(node).geometry@, layout),
        *final(node) == (SceneNode { geometry: final(node).geometry, ..*old(node) }),
{
    let mut index: usize = 0;
    while index < node.geometry.len()
        invariant
            index <= node.geometry@.len(),
            node.geometry@.len() == old(node).geometry@.len(),
            forall|i: int|
                0 <= i < index ==> #[trigger] node.geometry@[i] == moved_entry(
                    old(node).geometry@[i],
                    layout,
                ),
            forall|i: int|
                index <= i < node.geometry@.len() ==> #[trigger] node.geometry@[i]
                    == old(node).geometry@[i],
            *node == (SceneNode { geometry: node.geometry, ..*old(node) }),
        decreases node.geometry@.len() - index,
    {
        let key: u64 = node.geometry[index].0;
        if key == 1 {
            node.geometry[index] = (key, fixed(layout.column));
        } else if key == 2 {
            node.geometry[index] = (key, fixed(layout.row));
        } else if key == 3 {
            node.geometry[index] = (key, fixed(layout.columns));
        } else if key == 4 {
            node.geometry[index] = (key, fixed(layout.rows));
        }
        index = index + 1;
    }
    assert(node.geometry@ == moved_geometry(old(node).geometry@, layout));
}

/// Moving a node gives it the geometry of a node made for the new layout.
pub proof fn law_moved_node_equals_a_new_one(before: FrameLayout, after: FrameLayout)
    ensures
        moved_geometry(node_geometry(before), after) == node_geometry(after),
{
    assert(moved_geometry(node_geometry(before), after) =~= node_geometry(after));
}

proof fn lemma_cells_in_range(geometry: TerminalGeometry, scale: bool)
    requires
        geometry.has_cells(),
    ensures
        ({
            let layout = geometry.spec_layout(scale);
            let (columns, rows) = if scale {
                spec_scaled_cells(geometry)
            } else {
                spec_natural_cells(geometry)
            };
            &&& layout.columns == columns && 1 <= columns <= geometry.cols
            &&& layout.rows == rows && 1 <= rows <= geometry.rows
            &&& layout.column == (geometry.cols - columns) / 2
            &&& layout.row == (geometry.rows - rows) / 2
        }),
{
}

/// In either size the image keeps to the cells of the terminal and stands in their middle, up to
/// the one cell that cannot be halved.
pub proof fn law_layout_fits_and_is_centered(geometry: TerminalGeometry, scale: bool)
    requires
        geometry.has_cells(),
    ensures
        ({
            let layout = geometry.spec_layout(scale);
            &&& layout.terminal == geometry
            &&& layout.columns >= 1
            &&& layout.rows >= 1
            &&& layout.column + layout.columns <= geometry.cols
            &&& layout.row + layout.rows <= geometry.rows
            &&& 0 <= geometry.cols - layout.columns - 2 * layout.column <= 1
            &&& 0 <= geometry.rows - layout.rows - 2 * layout.row <= 1
        }),
{
    lemma_cells_in_range(geometry, scale);
}

proof fn lemma_whole_cells(cells: int, size: int)
    by (nonlinear_arith)
    requires
        size > 0,
    ensures
        cells * size / size == cells,
{
}

/// Fitted to the window, the image takes all columns or all rows of the terminal.
pub proof fn law_scaled_layout_fills_an_axis(geometry: TerminalGeometry)
    requires
        geometry.has_cells(),
    ensures
        ({
            let layout = geometry.spec_layout(true);
            layout.columns == geometry.cols || layout.rows == geometry.rows
        }),
{
    lemma_cells_in_range(geometry, true);
    lemma_whole_cells(geometry.cols as int, geometry.cell_width_px as int);
    lemma_whole_cells(geometry.rows as int, geometry.cell_height_px as int);
}

proof fn lemma_ceil(value: int, divisor: int)
    requires
        0 < value <= 640,
        0 < divisor <= u32::MAX,
    ensures
        spec_ceil_div(value, divisor) >= 1,
        spec_ceil_div(value, divisor) * divisor >= value,
        (spec_ceil_div(value, divisor) - 1) * divisor < value,
{
    let sum = value + divisor - 1;
    if sum > u32::MAX {
        assert(u32::MAX as int / divisor == 1) by (nonlinear_arith)
            requires
                u32::MAX - 640 < divisor <= u32::MAX,
        ;
    } else {
        assert((sum / divisor) * divisor >= value && (sum / divisor - 1) * divisor < value && sum
            / divisor >= 1) by (nonlinear_arith)
            requires
                sum == value + divisor - 1,
                value > 0,
                divisor > 0,
        ;
    }
}

/// At natural size the image gets just the cells that it touches, or as many as there are.
pub proof fn law_natural_layout_shows_the_image(geometry: TerminalGeometry)
    requires
        geometry.has_cells(),
    ensures
        ({
            let layout = geometry.spec_layout(false);
            &&& layout.columns == geometry.cols || layout.columns * geometry.cell_width_px
                >= DOOM_WIDTH
            &&& (layout.columns - 1) * geometry.cell_width_px < DOOM_WIDTH
            &&& layout.rows == geometry.rows || layout.rows * geometry.cell_height_px
                >= DOOM_HEIGHT
            &&& (layout.rows - 1) * geometry.cell_height_px < DOOM_HEIGHT
        }),
{
    lemma_cells_in_range(geometry, false);
    lemma_ceil(DOOM_WIDTH as int, geometry.cell_width_px as int);
    lemma_ceil(DOOM_HEIGHT as int, geometry.cell_height_px as int);
    let layout = geometry.spec_layout(false);
    let columns = spec_ceil_div(DOOM_WIDTH as int, geometry.cell_width_px as int);
    let rows = spec_ceil_div(DOOM_HEIGHT as int, geometry.cell_height_px as int);
    assert((layout.columns - 1) * geometry.cell_width_px <= (columns - 1) * geometry.cell_width_px)
        by (nonlinear_arith)
        requires
            layout.columns <= columns,
            geometry.cell_width_px > 0,
    ;
    assert((layout.rows - 1) * geometry.cell_height_px <= (rows - 1) * geometry.cell_height_px)
        by (nonlinear_arith)
        requires
            layout.rows <= rows,
            geometry.cell_height_px > 0,
    ;
}

/// The image lies within its node and reaches across it on one axis, unless the node is empty.
pub proof fn law_image_lies_within_the_node(layout: FrameLayout)
    requires
        layout.columns * layout.terminal.cell_width_px >= 1,
        layout.rows * layout.terminal.cell_height_px >= 1,
    ensures
        ({
            let (x, y, width, height) = layout.node_rect();
            let rect = layout.spec_image_rect_px();
            &&& x <= rect.x && rect.x + rect.width <= x + width
            &&& y <= rect.y && rect.y + rect.height <= y + height
            &&& rect.width == width || rect.height == height
        }),
{
    assert(0 <= layout.column * layout.terminal.cell_width_px) by (nonlinear_arith);
    assert(0 <= layout.row * layout.terminal.cell_height_px) by (nonlinear_arith);
}

/// The image keeps its aspect ratio to the pixel, unless the node is empty or a single pixel
/// wide.
pub proof fn law_image_keeps_its_aspect(layout: FrameLayout)
    requires
        layout.columns * layout.terminal.cell_width_px >= 2,
        layout.rows * layout.terminal.cell_height_px >= 1,
    ensures
        ({
            let rect = layout.spec_image_rect_px();
            (rect.width * DOOM_HEIGHT <= rect.height * DOOM_WIDTH < (rect.width + 1) * DOOM_HEIGHT)
                || (rect.height * DOOM_WIDTH <= rect.width * DOOM_HEIGHT < (rect.height + 1)
                * DOOM_WIDTH)
        }),
{
}

/// The image lies within the cells of the terminal that it is laid out in.
pub proof fn law_image_stays_in_the_terminal(geometry: TerminalGeometry, scale: bool)
    requires
        geometry.has_cells(),
    ensures
        ({
            let rect = geometry.spec_layout(scale).spec_image_rect_px();
            &&& rect.x + rect.width <= geometry.cols * geometry.cell_width_px
            &&& rect.y + rect.height <= geometry.rows * geometry.cell_height_px
        }),
{
    law_layout_fits_and_is_centered(geometry, scale);
    let layout = geometry.spec_layout(scale);
    assert(layout.columns * geometry.cell_width_px >= 1 && layout.column * geometry.cell_width_px
        + layout.columns * geometry.cell_width_px <= geometry.cols * geometry.cell_width_px)
        by (nonlinear_arith)
        requires
            layout.columns >= 1,
            geometry.cell_width_px >= 1,
            layout.column + layout.columns <= geometry.cols,
    ;
    assert(layout.rows * geometry.cell_height_px >= 1 && layout.row * geometry.cell_height_px
        + layout.rows * geometry.cell_height_px <= geometry.rows * geometry.cell_height_px)
        by (nonlinear_arith)
        requires
            layout.rows >= 1,
            geometry.cell_height_px >= 1,
            layout.row + layout.rows <= geometry.rows,
    ;
    law_image_lies_within_the_node(layout);
}

/// A mouse at rest does not move the game, and moving back undoes a motion.
pub proof fn law_motion_is_odd(layout: FrameLayout, here: (u16, u16), there: (u16, u16))
    ensures
        layout.spec_mouse_delta(here, here) == (0int, 0int),
        layout.spec_mouse_delta(there, here).0 == -layout.spec_mouse_delta(here, there).0,
        layout.spec_mouse_delta(there, here).1 == -layout.spec_mouse_delta(here, there).1,
{
    let rect = layout.spec_image_rect_px();
    assert(rect.width > 0 && rect.height > 0);
    assert(0int / rect.width as int == 0) by (nonlinear_arith)
        requires
            rect.width > 0,
    ;
    assert(0int / rect.height as int == 0) by (nonlinear_arith)
        requires
            rect.height > 0,
    ;
}

/// Over an image of natural size, motion counts pixel for pixel.
pub proof fn law_natural_motion_is_unscaled(
    layout: FrameLayout,
    previous: (u16, u16),
    current: (u16, u16),
)
    requires
        layout.spec_image_rect_px().width == DOOM_WIDTH,
        layout.spec_image_rect_px().height == DOOM_HEIGHT,
    ensures
        layout.spec_mouse_delta(previous, current) == (
            current.0 - previous.0,
            current.1 - previous.1,
        ),
{
}

/// Fitted to the window, the image is as large as its aspect ratio of 640 to 400 lets it be.
/// Where the terminal is too wide for the image, the image takes all rows and as many whole
/// columns as the width that belongs to their height covers. Where it is too high, the image takes
/// all columns and as many whole rows as the height that belongs to their width covers. One cell
/// is the least.
pub proof fn law_scaled_layout_is_the_largest(geometry: TerminalGeometry)
    requires
        geometry.has_cells(),
    ensures
        ({
            let layout = geometry.spec_layout(true);
            let width = geometry.cols * geometry.cell_width_px;
            let height = geometry.rows * geometry.cell_height_px;
            &&& spec_scaled_cells(geometry) == (layout.columns as int, layout.rows as int)
            &&& height * 640 < (width + 1) * 400 ==> {
                &&& layout.rows == geometry.rows
                &&& layout.columns * geometry.cell_width_px * 400 <= height * 640
                    || layout.columns == 1
                &&& height * 640 < (layout.columns + 1) * geometry.cell_width_px * 400
            }
            &&& height * 640 >= (width + 1) * 400 ==> {
                &&& layout.columns == geometry.cols
                &&& layout.rows * geometry.cell_height_px * 640 <= width * 400 || layout.rows == 1
                &&& width * 400 < (layout.rows + 1) * geometry.cell_height_px * 640
            }
        }),
{
    lemma_cells_in_range(geometry, true);
    let layout = geometry.spec_layout(true);
    let cell_width = geometry.cell_width_px as int;
    let cell_height = geometry.cell_height_px as int;
    let width = geometry.cols * cell_width;
    let height = geometry.rows * cell_height;
    lemma_whole_cells(geometry.cols as int, cell_width);
    lemma_whole_cells(geometry.rows as int, cell_height);
    if height * 640 < (width + 1) * 400 {
        let fitted = height * 640 / 400;
        lemma_quotient_bracket(fitted, cell_width);
        lemma_quotient_monotone(fitted, width, cell_width);
        let columns = fitted / cell_width;
        assert(layout.columns == clamped(columns, 1, geometry.cols as int));
        assert((layout.columns + 1) * cell_width >= (columns + 1) * cell_width) by (nonlinear_arith)
            requires
                layout.columns >= columns,
                cell_width > 0,
        ;
    } else {
        let fitted = width * 400 / 640;
        lemma_quotient_bracket(fitted, cell_height);
        lemma_quotient_monotone(fitted, height, cell_height);
        let rows = fitted / cell_height;
        assert(layout.rows == clamped(rows, 1, geometry.rows as int));
        assert((layout.rows + 1) * cell_height >= (rows + 1) * cell_height) by (nonlinear_arith)
            requires
                layout.rows >= rows,
                cell_height > 0,
        ;
    }
}

proof fn lemma_quotient_bracket(n: int, d: int)
    by (nonlinear_arith)
    requires
        n >= 0,
        d > 0,
    ensures
        n / d >= 0,
        (n / d) * d <= n,
        n < (n / d + 1) * d,
{
}

proof fn lemma_quotient_monotone(n: int, m: int, d: int)
    by (nonlinear_arith)
    requires
        n <= m,
        d > 0,
    ensures
        n / d <= m / d,
{
}

/// A length in cells, rounded up, covers the pixels, and one cell less does not, as long as the
/// pixels and one cell together can be counted. Where they cannot, the cells are as many whole ones
/// as can be counted.
pub proof fn law_cells_cover_the_pixels(value: u32, divisor: u32)
    requires
        divisor > 0,
    ensures
        ({
            let cells = spec_ceil_div(value as int, divisor as int);
            &&& value + divisor <= 0x1_0000_0000 ==> (cells - 1) * divisor < value <= cells
                * divisor
            &&& value + divisor > 0x1_0000_0000 ==> cells * divisor <= 0xffff_ffff < (cells + 1)
                * divisor
        }),
{
    lemma_quotient_bracket(value + divisor - 1, divisor as int);
    lemma_quotient_bracket(u32::MAX as int, divisor as int);
    let cells = spec_ceil_div(value as int, divisor as int);
    assert((cells + 1) * divisor == (cells - 1) * divisor + 2 * divisor && cells * divisor == (cells
        - 1) * divisor + divisor) by (nonlinear_arith);
}

/// The image is the largest of its aspect ratio that its node holds, and stands in the middle of
/// the node, up to the one pixel that cannot be halved. The node is counted in pixels up to the
/// largest number; an image that would be empty is one pixel.
pub proof fn law_image_is_the_largest_in_its_node(layout: FrameLayout, width: int, height: int)
    requires
        ({
            let node_width = if layout.columns * layout.terminal.cell_width_px > u32::MAX {
                u32::MAX as int
            } else {
                layout.columns * layout.terminal.cell_width_px
            };
            let node_height = if layout.rows * layout.terminal.cell_height_px > u32::MAX {
                u32::MAX as int
            } else {
                layout.rows * layout.terminal.cell_height_px
            };
            if node_height * 640 < (node_width + 1) * 400 {
                height == node_height && width * 400 <= height * 640 < (width + 1) * 400
            } else {
                width == node_width && height * 640 <= width * 400 < (height + 1) * 640
            }
        }),
    ensures
        ({
            let limit = u32::MAX as int;
            let x = if layout.column * layout.terminal.cell_width_px > limit {
                limit
            } else {
                layout.column * layout.terminal.cell_width_px
            };
            let y = if layout.row * layout.terminal.cell_height_px > limit {
                limit
            } else {
                layout.row * layout.terminal.cell_height_px
            };
            let spare_width = (if layout.columns * layout.terminal.cell_width_px > limit {
                limit
            } else {
                layout.columns * layout.terminal.cell_width_px
            }) - width;
            let spare_height = (if layout.rows * layout.terminal.cell_height_px > limit {
                limit
            } else {
                layout.rows * layout.terminal.cell_height_px
            }) - height;
            let rect = layout.spec_image_rect_px();
            &&& width >= 1 ==> rect.width == width
            &&& width < 1 ==> rect.width == 1
            &&& height >= 1 ==> rect.height == height
            &&& height < 1 ==> rect.height == 1
            &&& 2 * x + spare_width <= 2 * limit + 1 ==> 0 <= spare_width - 2 * (rect.x - x) <= 1
            &&& 2 * x + spare_width > 2 * limit + 1 ==> rect.x == limit
            &&& 2 * y + spare_height <= 2 * limit + 1 ==> 0 <= spare_height - 2 * (rect.y - y) <= 1
            &&& 2 * y + spare_height > 2 * limit + 1 ==> rect.y == limit
        }),
{
    assert(0 <= layout.column * layout.terminal.cell_width_px) by (nonlinear_arith);
    assert(0 <= layout.row * layout.terminal.cell_height_px) by (nonlinear_arith);
    assert(0 <= layout.columns * layout.terminal.cell_width_px) by (nonlinear_arith);
    assert(0 <= layout.rows * layout.terminal.cell_height_px) by (nonlinear_arith);
}

/// Motion over the image counts in pixels of the game: the motion on the screen times 640 over
/// the width of the image, or times 400 over its height, rounded toward zero. Each axis depends
/// on its own coordinates alone.
pub proof fn law_motion_follows_the_scale(
    layout: FrameLayout,
    previous: (u16, u16),
    current: (u16, u16),
)
    ensures
        ({
            let rect = layout.spec_image_rect_px();
            let (x, y) = layout.spec_mouse_delta(previous, current);
            let right = (current.0 - previous.0) * 640;
            let down = (current.1 - previous.1) * 400;
            &&& right >= 0 ==> x >= 0 && x * rect.width <= right < (x + 1) * rect.width
            &&& right < 0 ==> x <= 0 && (x - 1) * rect.width < right <= x * rect.width
            &&& down >= 0 ==> y >= 0 && y * rect.height <= down < (y + 1) * rect.height
            &&& down < 0 ==> y <= 0 && (y - 1) * rect.height < down <= y * rect.height
        }),
{
    let rect = layout.spec_image_rect_px();
    let right = (current.0 - previous.0) * 640;
    let down = (current.1 - previous.1) * 400;
    assert(rect.width > 0 && rect.height > 0);
    lemma_truncated_bracket(right, rect.width as int);
    lemma_truncated_bracket(down, rect.height as int);
}

proof fn lemma_truncated_bracket(n: int, d: int)
    requires
        d > 0,
    ensures
        ({
            let q = truncated_quotient(n, d);
            &&& n >= 0 ==> q >= 0 && q * d <= n < (q + 1) * d
            &&& n < 0 ==> q <= 0 && (q - 1) * d < n <= q * d
        }),
{
    if n >= 0 {
        lemma_quotient_bracket(n, d);
    } else {
        lemma_quotient_bracket(-n, d);
        let q = (-n) / d;
        assert((-q - 1) * d == -((q + 1) * d) && (-q) * d == -(q * d)) by (nonlinear_arith);
    }
}

/// A node carries the layout in fixed point, with 32 bits after the point: the column under 1,
/// the row under 2, the columns under 3 and the rows under 4.
pub proof fn law_node_carries_its_layout(layout: FrameLayout)
    ensures
        ({
            let geometry = node_geometry(layout);
            &&& geometry.len() == 6
            &&& forall|i: int| 0 <= i < 6 ==> (#[trigger] geometry[i]).0 == i
            &&& geometry[0].1 == 1
            &&& geometry[1].1 == layout.column * 0x1_0000_0000
            &&& geometry[2].1 == layout.row * 0x1_0000_0000
            &&& geometry[3].1 == layout.columns * 0x1_0000_0000
            &&& geometry[4].1 == layout.rows * 0x1_0000_0000
            &&& geometry[5].1 == 1
        }),
{
}

/// Moving a node changes nothing but the entries that say where it stands, wherever they are.
pub proof fn law_moving_keeps_the_other_entries(
    geometry: Seq<(u64, u64)>,
    layout: FrameLayout,
    index: int,
)
    requires
        0 <= index < geometry.len(),
    ensures
        ({
            let moved = moved_geometry(geometry, layout);
            let key = geometry[index].0;
            &&& moved.len() == geometry.len()
            &&& moved[index].0 == key
            &&& key == 1 ==> moved[index].1 == layout.column * 0x1_0000_0000
            &&& key == 2 ==> moved[index].1 == layout.row * 0x1_0000_0000
            &&& key == 3 ==> moved[index].1 == layout.columns * 0x1_0000_0000
            &&& key == 4 ==> moved[index].1 == layout.rows * 0x1_0000_0000
            &&& key < 1 || key > 4 ==> moved[index] == geometry[index]
        }),
{
}

/// A terminal target descriptor is accepted if and only if it has the keys from 0 through 8 in
/// order, positive viewport and cell sizes of 32 bits, positive numbers of columns and rows of 16
/// bits, a flag, the anchor capability 3 and a positive revision.
pub proof fn law_whole_descriptors_are_accepted(descriptor: Seq<(u64, DescriptorValue)>)
    ensures
        descriptor_error(descriptor) is None <==> {
            &&& descriptor.len() == 9
            &&& forall|i: int| 0 <= i < 9 ==> (#[trigger] descriptor[i]).0 == i
            &&& descriptor[0].1 matches DescriptorValue::Unsigned(width)
            &&& 1 <= width <= 0xffff_ffff
            &&& descriptor[1].1 matches DescriptorValue::Unsigned(height)
            &&& 1 <= height <= 0xffff_ffff
            &&& descriptor[2].1 matches DescriptorValue::Unsigned(columns)
            &&& 1 <= columns <= 0xffff
            &&& descriptor[3].1 matches DescriptorValue::Unsigned(rows)
            &&& 1 <= rows <= 0xffff
            &&& descriptor[4].1 matches DescriptorValue::Unsigned(cell_width)
            &&& 1 <= cell_width <= 0xffff_ffff
            &&& descriptor[5].1 matches DescriptorValue::Unsigned(cell_height)
            &&& 1 <= cell_height <= 0xffff_ffff
            &&& descriptor[6].1 is Bool
            &&& descriptor[7].1 == DescriptorValue::Unsigned(3)
            &&& descriptor[8].1 matches DescriptorValue::Unsigned(revision)
            &&& 1 <= revision
        },
{
    if has_descriptor_keys(descriptor) && size_error(descriptor) is None {
        assert(entry_unsigned(descriptor, 0) is Some && entry_unsigned(descriptor, 1) is Some
            && entry_unsigned(descriptor, 2) is Some && entry_unsigned(descriptor, 3) is Some
            && entry_unsigned(descriptor, 4) is Some && entry_unsigned(descriptor, 5) is Some);
    }
}

/// Every geometry without a zero can be told by a descriptor, and the descriptor gives back that
/// geometry and no other.
pub proof fn law_geometry_survives_its_descriptor(
    geometry: TerminalGeometry,
    flag: bool,
    revision: u64,
    other: TerminalGeometry,
)
    requires
        geometry.wf(),
        revision > 0,
    ensures
        ({
            let descriptor = seq![
                (0u64, DescriptorValue::Unsigned(geometry.viewport_width_px as u64)),
                (1u64, DescriptorValue::Unsigned(geometry.viewport_height_px as u64)),
                (2u64, DescriptorValue::Unsigned(geometry.cols as u64)),
                (3u64, DescriptorValue::Unsigned(geometry.rows as u64)),
                (4u64, DescriptorValue::Unsigned(geometry.cell_width_px as u64)),
                (5u64, DescriptorValue::Unsigned(geometry.cell_height_px as u64)),
                (6u64, DescriptorValue::Bool(flag)),
                (7u64, DescriptorValue::Unsigned(3)),
                (8u64, DescriptorValue::Unsigned(revision)),
            ];
            &&& descriptor_error(descriptor) is None
            &&& is_geometry_of(other, descriptor) <==> other == geometry
        }),
{
}

/// A descriptor without the keys from 0 through 8 is refused for that. Otherwise the first size
/// that is not a number, or exceeds its limit, is what a descriptor is refused for.
pub proof fn law_refusal_names_the_first_bad_size(
    descriptor: Seq<(u64, DescriptorValue)>,
    key: u64,
)
    ensures
        descriptor_error(descriptor) == Some(GeometryError::Keys) <==> !(descriptor.len() == 9
            && forall|i: int| 0 <= i < 9 ==> (#[trigger] descriptor[i]).0 == i),
        ({
            let limits: Seq<int> = seq![
                0xffff_ffff,
                0xffff_ffff,
                0xffff,
                0xffff,
                0xffff_ffff,
                0xffff_ffff,
            ];
            let excesses = seq![
                GeometryError::ViewportWidth,
                GeometryError::ViewportHeight,
                GeometryError::Columns,
                GeometryError::Rows,
                GeometryError::CellWidth,
                GeometryError::CellHeight,
            ];
            descriptor_error(descriptor) != Some(GeometryError::Keys) && key < 6 && (forall|i: int|
                0 <= i < key ==> (#[trigger] descriptor[i]).1 is Unsigned && descriptor[i].1->Unsigned_0
                    <= limits[i]) ==> {
                &&& !(descriptor[key as int].1 is Unsigned) ==> descriptor_error(descriptor) == Some(
                    GeometryError::NotUnsigned(key),
                )
                &&& (descriptor[key as int].1 is Unsigned && descriptor[key as int].1->Unsigned_0
                    > limits[key as int]) ==> descriptor_error(descriptor) == Some(
                    excesses[key as int],
                )
            }
        }),
{
    if descriptor.len() == 9 {
        assert(forall|i: int| 0 <= i < 9 ==> descriptor[i] == descriptor[i]);
        let (d0, d1, d2) = (descriptor[0].1, descriptor[1].1, descriptor[2].1);
        let (d3, d4, d5) = (descriptor[3].1, descriptor[4].1, descriptor[5].1);
    }
}

/// A descriptor whose sizes are numbers within their limits is refused as invalid for a missing
/// flag, a zero, another anchor capability or the revision 0, and otherwise for the entry that is
/// not a number.
pub proof fn law_refusal_tells_a_missing_capability(descriptor: Seq<(u64, DescriptorValue)>)
    requires
        descriptor.len() == 9,
        forall|i: int| 0 <= i < 9 ==> (#[trigger] descriptor[i]).0 == i,
        forall|i: int|
            0 <= i < 6 ==> (#[trigger] descriptor[i]).1 is Unsigned && descriptor[i].1->Unsigned_0
                <= (if i == 2 || i == 3 {
                0xffffint
            } else {
                0xffff_ffffint
            }),
    ensures
        ({
            let invalid = !(descriptor[6].1 is Bool) || exists|i: int|
                0 <= i < 6 && #[trigger] descriptor[i].1->Unsigned_0 == 0;
            let (capability, revision) = (descriptor[7].1, descriptor[8].1);
            &&& invalid ==> descriptor_error(descriptor) == Some(GeometryError::Invalid)
            &&& !invalid && !(capability is Unsigned) ==> descriptor_error(descriptor) == Some(
                GeometryError::NotUnsigned(7),
            )
            &&& !invalid && capability is Unsigned && capability->Unsigned_0 != 3
                ==> descriptor_error(descriptor) == Some(GeometryError::Invalid)
            &&& !invalid && capability == DescriptorValue::Unsigned(3) && !(revision is Unsigned)
                ==> descriptor_error(descriptor) == Some(GeometryError::NotUnsigned(8))
            &&& !invalid && capability == DescriptorValue::Unsigned(3) && revision
                == DescriptorValue::Unsigned(0) ==> descriptor_error(descriptor) == Some(
                GeometryError::Invalid,
            )
        }),
{
    assert(size_error(descriptor) is None);
    if exists|i: int| 0 <= i < 6 && #[trigger] descriptor[i].1->Unsigned_0 == 0 {
        let i = choose|i: int| 0 <= i < 6 && #[trigger] descriptor[i].1->Unsigned_0 == 0;
        assert(entry_unsigned(descriptor, i) == Some(0u64));
    }
}

/// A refusal of an entry names the entry.
pub proof fn law_refusal_tells_its_entry(key: u64)
    ensures
        GeometryError::NotUnsigned(key).spec_message() == "terminal target descriptor key "@
            + crate::text::decimal_text(key as nat) + " is not unsigned"@,
{
}

} // verus!
