//! The static scene drawn on the canvas: a grid of digit labels and a row of
//! bar-chart bins. Coordinates are canvas units with the origin at the
//! centre; depth is given in tenths (a depth of 13 stands for 1.3).
use vstd::prelude::*;
use crate::compose::RenderLayer;
use crate::fit::{RES_HEIGHT, RES_WIDTH};
use crate::text::{percent_string, percent_text, two_digit_string, two_digit_text, decimal_string, decimal_text};

verus! {

/// Labels per row and per column of the number grid.
pub const GRID_SIZE: u32 = 50;

/// Spacing between neighbouring numbers, on both axes.
pub const NUMBER_SPACING: u32 = 20;

/// Font size of the grid's numbers.
pub const NUMBER_FONT_SIZE: u32 = 12;

/// Number of bins in the bar chart.
pub const BIN_COUNT: u32 = 5;

/// Size of a bin's body.
pub const BIN_WIDTH: u32 = 80;
pub const BIN_HEIGHT: u32 = 40;

/// Gap between neighbouring bins.
pub const BIN_SPACING: u32 = 10;

/// Height of a bin's percentage bar, and its gap below the body.
pub const BAR_HEIGHT: u32 = 20;
pub const BAR_SPACING: u32 = 5;

/// Distance of the first bin's centre from the canvas's left edge, and of
/// the bins' bottom edge from the canvas's bottom edge.
pub const BIN_LEFT_MARGIN: u32 = 60;
pub const BIN_BOTTOM_MARGIN: u32 = 40;

/// Font sizes of a bin's number and of its percentage.
pub const BIN_LABEL_FONT_SIZE: u32 = 14;
pub const PERCENT_FONT_SIZE: u32 = 10;

/// The fill colours of the chart's rectangles.
#[derive(Clone, Copy, Debug, PartialEq, Eq, Structural)]
pub enum Paint {
    /// The bin body: cyan-teal.
    BinBody,
    /// The unfilled bar: dark cyan.
    BarBackground,
    /// The filled part of the bar: bright cyan.
    BarFill,
}

/// Where an element stands.
#[derive(Clone, Copy, Debug, PartialEq, Eq, Structural)]
pub struct Placement {
    pub x: i32,
    pub y: i32,
    /// Drawing depth in tenths; greater is drawn on top.
    pub depth_tenths: u32,
}

/// What an element shows.
#[derive(Clone, Debug)]
pub enum Look {
    /// A solid rectangle centred on the element's position.
    Block { width: u32, height: u32, paint: Paint },
    /// White text centred on the element's position.
    Caption { text: String, font_size: u32 },
}

/// One drawable element of the scene.
#[derive(Clone, Debug)]
pub struct Element {
    pub look: Look,
    pub at: Placement,
    pub layer: RenderLayer,
}

/// A label of the number grid, tagged with its column.
#[derive(Clone, Debug)]
pub struct NumberLabel {
    pub column: u32,
    pub label: Element,
}

/// A bin of the chart: its body, and four elements stacked on it: its
/// number, the bar's background, the bar's fill and the percentage.
#[derive(Clone, Debug)]
pub struct Bin {
    pub index: u32,
    pub body: Element,
    pub parts: Vec<Element>,
}

/// `e` is a pixel-perfect rectangle of the given size and paint at `(x, y)`
/// and depth `d`.
pub open spec fn is_block(e: Element, width: int, height: int, paint: Paint, x: int, y: int, d: int) -> bool {
    &&& e.look matches Look::Block { width: w, height: h, paint: p }
    &&& w == width && h == height && p == paint
    &&& e.at.x == x && e.at.y == y && e.at.depth_tenths == d
    &&& e.layer == RenderLayer::PixelPerfect
}

/// `e` is a pixel-perfect caption with the given text and font size at
/// `(x, y)` and depth `d`.
pub open spec fn is_caption(e: Element, text: Seq<char>, font_size: int, x: int, y: int, d: int) -> bool {
    &&& e.look matches Look::Caption { text: t, font_size: f }
    &&& t@ == text && f == font_size
    &&& e.at.x == x && e.at.y == y && e.at.depth_tenths == d
    &&& e.layer == RenderLayer::PixelPerfect
}

/// The label in row `row` and column `col` of the grid: the digit
/// `col % 10`, starting at the canvas's bottom-left corner and stepping by
/// `NUMBER_SPACING`.
pub open spec fn is_number_at(n: NumberLabel, row: int, col: int) -> bool {
    &&& n.column == col
    &&& is_caption(
        n.label,
        decimal_text((col % 10) as nat),
        NUMBER_FONT_SIZE as int,
        -(RES_WIDTH as int / 2) + col * NUMBER_SPACING,
        -(RES_HEIGHT as int / 2) + row * NUMBER_SPACING,
        0,
    )
}

/// The label of the grid at row `row`, column `col`.
pub fn number_label(row: u32, col: u32) -> (n: NumberLabel)
    requires
        row < GRID_SIZE,
        col < GRID_SIZE,
    ensures
        is_number_at(n, row as int, col as int),
{
    let x: i32 = -((RES_WIDTH / 2) as i32) + (col * NUMBER_SPACING) as i32;
    let y: i32 = -((RES_HEIGHT / 2) as i32) + (row * NUMBER_SPACING) as i32;
    NumberLabel {
        column: col,
        label: Element {
            look: Look::Caption { text: decimal_string(col % 10), font_size: NUMBER_FONT_SIZE },
            at: Placement { x, y, depth_tenths: 0 },
            layer: RenderLayer::PixelPerfect,
        },
    }
}

/// The whole grid, row after row from the bottom, each row from the left:
/// the label at index `k` is in row `k / GRID_SIZE` and column
/// `k % GRID_SIZE`.
pub fn setup_numbers() -> (r: Vec<NumberLabel>)
    ensures
        r@.len() == GRID_SIZE * GRID_SIZE,
        forall|k: int|
            0 <= k < r@.len() ==> #[trigger] is_number_at(r@[k], k / GRID_SIZE as int, k % GRID_SIZE as int),
{
    let mut r: Vec<NumberLabel> = Vec::new();
    let mut row: u32 = 0;
    while row < GRID_SIZE
        invariant
            row <= GRID_SIZE,
            r@.len() == row * GRID_SIZE,
            forall|k: int|
                0 <= k < r@.len() ==> #[trigger] is_number_at(r@[k], k / GRID_SIZE as int, k % GRID_SIZE as int),
        decreases GRID_SIZE - row,
    {
        let mut col: u32 = 0;
        while col < GRID_SIZE
            invariant
                row < GRID_SIZE,
                col <= GRID_SIZE,
                r@.len() == row * GRID_SIZE + col,
                forall|k: int|
                    0 <= k < r@.len() ==> #[trigger] is_number_at(r@[k], k / GRID_SIZE as int, k % GRID_SIZE as int),
            decreases GRID_SIZE - col,
        {
            let n = number_label(row, col);
            let ghost k = r@.len() as int;
            assert(k / 50 == row as int && k % 50 == col as int) by (nonlinear_arith)
                requires
                    k == row * 50 + col,
                    0 <= col < 50,
            ;
            r.push(n);
            col = col + 1;
        }
        row = row + 1;
    }
    r
}

/// The sample share of bin `i`, in percent.
pub open spec fn percent_of(i: int) -> int {
    if i == 0 { 75 }
    else if i == 1 { 45 }
    else if i == 2 { 90 }
    else if i == 3 { 30 }
    else { 60 }
}

/// Width of bin `i`'s bar fill: the bin's width scaled by its share.
pub open spec fn fill_width_of(i: int) -> int {
    BIN_WIDTH * percent_of(i) / 100
}

/// Horizontal centre of bin `i`.
pub open spec fn bin_x(i: int) -> int {
    -(RES_WIDTH as int / 2) + BIN_LEFT_MARGIN + i * (BIN_WIDTH + BIN_SPACING)
}

/// Vertical centre of every bin body.
pub open spec fn bin_y() -> int {
    -(RES_HEIGHT as int / 2) + BIN_HEIGHT / 2 + BIN_BOTTOM_MARGIN
}

/// Vertical centre of every percentage bar, just below its bin.
pub open spec fn bar_y() -> int {
    bin_y() - BIN_HEIGHT / 2 - BAR_SPACING - BAR_HEIGHT / 2
}

/// `b` is bin `i` of the chart: the body, then the two-digit number `i + 1`
/// on it, the bar's background below it, the fill drawn over the background
/// from its left edge, and the percentage over both.
pub open spec fn is_bin(b: Bin, i: int) -> bool {
    &&& b.index == i
    &&& is_block(b.body, BIN_WIDTH as int, BIN_HEIGHT as int, Paint::BinBody, bin_x(i), bin_y(), 10)
    &&& b.parts@.len() == 4
    &&& is_caption(b.parts@[0], two_digit_text((i + 1) as nat), BIN_LABEL_FONT_SIZE as int, bin_x(i), bin_y(), 13)
    &&& is_block(b.parts@[1], BIN_WIDTH as int, BAR_HEIGHT as int, Paint::BarBackground, bin_x(i), bar_y(), 10)
    &&& is_block(
        b.parts@[2],
        fill_width_of(i),
        BAR_HEIGHT as int,
        Paint::BarFill,
        bin_x(i) - (BIN_WIDTH - fill_width_of(i)) / 2,
        bar_y(),
        11,
    )
    &&& is_caption(b.parts@[3], percent_text(percent_of(i) as nat), PERCENT_FONT_SIZE as int, bin_x(i), bar_y(), 12)
}

/// The sample share of bin `i`, in percent.
pub fn bin_percent(i: u32) -> (p: u32)
    requires
        i < BIN_COUNT,
    ensures
        p == percent_of(i as int),
{
    match i {
        0 => 75,
        1 => 45,
        2 => 90,
        3 => 30,
        _ => 60,
    }
}

/// Width of bin `i`'s bar fill.
pub fn fill_width(i: u32) -> (w: u32)
    requires
        i < BIN_COUNT,
    ensures
        w == fill_width_of(i as int),
        w <= BIN_WIDTH,
{
    BIN_WIDTH * bin_percent(i) / 100
}

/// Bin `i` of the chart with the four elements stacked on it.
pub fn bin(i: u32) -> (b: Bin)
    requires
        i < BIN_COUNT,
    ensures
        is_bin(b, i as int),
{
    assert(i * (BIN_WIDTH + BIN_SPACING) <= 360) by (nonlinear_arith)
        requires
            i < 5,
    ;
    let x: i32 = -((RES_WIDTH / 2) as i32) + BIN_LEFT_MARGIN as i32 + (i * (BIN_WIDTH + BIN_SPACING)) as i32;
    let y: i32 = -((RES_HEIGHT / 2) as i32) + (BIN_HEIGHT / 2) as i32 + BIN_BOTTOM_MARGIN as i32;
    let bar: i32 = y - (BIN_HEIGHT / 2) as i32 - BAR_SPACING as i32 - (BAR_HEIGHT / 2) as i32;
    let fill = fill_width(i);
    let body = Element {
        look: Look::Block { width: BIN_WIDTH, height: BIN_HEIGHT, paint: Paint::BinBody },
        at: Placement { x, y, depth_tenths: 10 },
        layer: RenderLayer::PixelPerfect,
    };
    let label = Element {
        look: Look::Caption { text: two_digit_string(i + 1), font_size: BIN_LABEL_FONT_SIZE },
        at: Placement { x, y, depth_tenths: 13 },
        layer: RenderLayer::PixelPerfect,
    };
    let bar_back = Element {
        look: Look::Block { width: BIN_WIDTH, height: BAR_HEIGHT, paint: Paint::BarBackground },
        at: Placement { x, y: bar, depth_tenths: 10 },
        layer: RenderLayer::PixelPerfect,
    };
    let bar_fill = Element {
        look: Look::Block { width: fill, height: BAR_HEIGHT, paint: Paint::BarFill },
        at: Placement { x: x - ((BIN_WIDTH - fill) / 2) as i32, y: bar, depth_tenths: 11 },
        layer: RenderLayer::PixelPerfect,
    };
    let percent = Element {
        look: Look::Caption { text: percent_string(bin_percent(i)), font_size: PERCENT_FONT_SIZE },
        at: Placement { x, y: bar, depth_tenths: 12 },
        layer: RenderLayer::PixelPerfect,
    };
    let parts = vec![label, bar_back, bar_fill, percent];
    Bin { index: i, body, parts }
}

/// The chart's bins, from left to right.
pub fn setup_bins() -> (r: Vec<Bin>)
    ensures
        r@.len() == BIN_COUNT,
        forall|i: int| 0 <= i < r@.len() ==> #[trigger] is_bin(r@[i], i),
{
    let mut r: Vec<Bin> = Vec::new();
    let mut i: u32 = 0;
    while i < BIN_COUNT
        invariant
            i <= BIN_COUNT,
            r@.len() == i,
            forall|k: int| 0 <= k < r@.len() ==> #[trigger] is_bin(r@[k], k),
        decreases BIN_COUNT - i,
    {
        r.push(bin(i));
        i = i + 1;
    }
    r
}

/// Every bar fill is a whole number of units wide, lies within its bar's
/// background and starts at the background's left edge, so the unfilled
/// part of the bar shows on the right.
pub proof fn lemma_fill_starts_at_bar_left_edge(i: int)
    requires
        0 <= i < BIN_COUNT,
    ensures
        0 <= fill_width_of(i) <= BIN_WIDTH,
        fill_width_of(i) * 100 == BIN_WIDTH * percent_of(i),
        (BIN_WIDTH - fill_width_of(i)) % 2 == 0,
        2 * (bin_x(i) - (BIN_WIDTH - fill_width_of(i)) / 2) - fill_width_of(i) == 2 * bin_x(i) - BIN_WIDTH,
{
}

} // verus!
