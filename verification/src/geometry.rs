//! Grid geometry: which cards an atlas holds and where each one lies.
//!
//! Cards are laid out row-major at a fixed pitch. The geometry of an atlas
//! is derived from the atlas size and the card size alone; it never looks at
//! pixel data.

use vstd::prelude::*;

verus! {

/// Pixel dimensions of an atlas bitmap. Any pair is a valid size; an atlas
/// that was never loaded has size 0 x 0.
#[derive(Clone, Copy, Debug, PartialEq, Eq, Structural)]
pub struct AtlasSize {
    pub width: u32,
    pub height: u32,
}

/// Pixel dimensions of one card. Both are positive.
#[derive(Clone, Copy, Debug, PartialEq, Eq, Structural)]
pub struct CardSize {
    width: usize,
    height: usize,
}

/// An axis-aligned rectangle in pixels: `x`, `y` is its top-left corner.
#[derive(Clone, Copy, Debug, PartialEq, Eq, Structural)]
pub struct Rect {
    pub x: usize,
    pub y: usize,
    pub width: usize,
    pub height: usize,
}

/// The grid that an atlas of one size holds for cards of one size.
#[derive(Clone, Copy, Debug, PartialEq, Eq, Structural)]
pub struct Geometry {
    atlas: AtlasSize,
    card: CardSize,
    columns: u32,
    rows: u32,
    max_index: u64,
}

impl CardSize {
    pub closed spec fn spec_width(&self) -> usize {
        self.width
    }

    pub closed spec fn spec_height(&self) -> usize {
        self.height
    }

    /// A card size is valid when neither dimension is zero.
    pub open spec fn wf(&self) -> bool {
        self.spec_width() > 0 && self.spec_height() > 0
    }

    /// The card size of the given dimensions, a zero dimension raised to one
    /// pixel.
    pub closed spec fn spec_new(width: usize, height: usize) -> CardSize {
        CardSize {
            width: if width == 0 { 1usize } else { width },
            height: if height == 0 { 1usize } else { height },
        }
    }

    /// `spec_new` gives a valid card size with the dimensions asked for.
    pub proof fn lemma_spec_new(width: usize, height: usize)
        ensures
            CardSize::spec_new(width, height).wf(),
            CardSize::spec_new(width, height).spec_width() == (if width == 0 { 1usize } else { width }),
            CardSize::spec_new(width, height).spec_height() == (if height == 0 { 1usize } else { height }),
    {
    }

    /// A card size is the one that `spec_new` gives for its own dimensions.
    pub proof fn lemma_same_dimensions(self)
        requires
            self.wf(),
        ensures
            self == CardSize::spec_new(self.spec_width(), self.spec_height()),
    {
    }

    /// Builds a card size, raising a zero dimension to one pixel.
    #[verifier::when_used_as_spec(spec_new)]
    pub fn new(width: usize, height: usize) -> (card: CardSize)
        ensures
            card == CardSize::spec_new(width, height),
            card.wf(),
            card.spec_width() == (if width == 0 { 1usize } else { width }),
            card.spec_height() == (if height == 0 { 1usize } else { height }),
    {
        CardSize {
            width: if width == 0 { 1 } else { width },
            height: if height == 0 { 1 } else { height },
        }
    }

    #[verifier::when_used_as_spec(spec_width)]
    pub fn width(&self) -> (w: usize)
        ensures
            w == self.spec_width(),
    {
        self.width
    }

    #[verifier::when_used_as_spec(spec_height)]
    pub fn height(&self) -> (h: usize)
        ensures
            h == self.spec_height(),
    {
        self.height
    }
}

impl Rect {
    /// Whether the point `(px, py)` lies inside: the left and top edges belong
    /// to the rectangle, the right and bottom edges do not.
    pub open spec fn spec_contains(&self, px: usize, py: usize) -> bool {
        &&& self.x <= px < self.x + self.width
        &&& self.y <= py < self.y + self.height
    }

    /// Whether the rectangle lies wholly inside an atlas of the given size.
    pub open spec fn within(&self, atlas: AtlasSize) -> bool {
        &&& self.x + self.width <= atlas.width
        &&& self.y + self.height <= atlas.height
    }

    #[verifier::when_used_as_spec(spec_contains)]
    pub fn contains(&self, px: usize, py: usize) -> (inside: bool)
        ensures
            inside == self.spec_contains(px, py),
    {
        px >= self.x && px - self.x < self.width && py >= self.y && py - self.y < self.height
    }
}

/// Number of whole cards that fit side by side.
pub open spec fn grid_columns(atlas: AtlasSize, card: CardSize) -> int {
    atlas.width as int / card.width() as int
}

/// Number of whole cards that fit one above the other.
pub open spec fn grid_rows(atlas: AtlasSize, card: CardSize) -> int {
    atlas.height as int / card.height() as int
}

/// The largest card index of the grid; a grid without cards has the single
/// index 0.
pub open spec fn grid_max_index(atlas: AtlasSize, card: CardSize) -> int {
    if grid_columns(atlas, card) > 0 && grid_rows(atlas, card) > 0 {
        grid_columns(atlas, card) * grid_rows(atlas, card) - 1
    } else {
        0
    }
}

impl Geometry {
    pub closed spec fn spec_atlas(&self) -> AtlasSize {
        self.atlas
    }

    pub closed spec fn spec_card(&self) -> CardSize {
        self.card
    }

    pub closed spec fn spec_columns(&self) -> u32 {
        self.columns
    }

    pub closed spec fn spec_rows(&self) -> u32 {
        self.rows
    }

    pub closed spec fn spec_max_index(&self) -> u64 {
        self.max_index
    }

    /// A geometry is valid when its counts are those of its atlas and card size.
    pub open spec fn wf(&self) -> bool {
        &&& self.spec_card().wf()
        &&& self.spec_columns() == grid_columns(self.spec_atlas(), self.spec_card())
        &&& self.spec_rows() == grid_rows(self.spec_atlas(), self.spec_card())
        &&& self.spec_max_index() == grid_max_index(self.spec_atlas(), self.spec_card())
    }

    /// Where the card with the given index lies, if it lies wholly inside the
    /// atlas. The index is not compared with `max_index`.
    pub open spec fn spec_card_rect(&self, index: u64) -> Option<Rect> {
        let columns = self.spec_columns() as int;
        let card = self.spec_card();
        if columns == 0 {
            None
        } else {
            let x = (index as int % columns) * card.width();
            let y = (index as int / columns) * card.height();
            if x + card.width() <= self.spec_atlas().width && y + card.height()
                <= self.spec_atlas().height {
                Some(
                    Rect {
                        x: x as usize,
                        y: y as usize,
                        width: card.width(),
                        height: card.height(),
                    },
                )
            } else {
                None
            }
        }
    }

    #[verifier::when_used_as_spec(spec_atlas)]
    pub fn atlas(&self) -> (atlas: AtlasSize)
        ensures
            atlas == self.spec_atlas(),
    {
        self.atlas
    }

    #[verifier::when_used_as_spec(spec_card)]
    pub fn card(&self) -> (card: CardSize)
        ensures
            card == self.spec_card(),
    {
        self.card
    }

    #[verifier::when_used_as_spec(spec_columns)]
    pub fn columns(&self) -> (columns: u32)
        ensures
            columns == self.spec_columns(),
    {
        self.columns
    }

    #[verifier::when_used_as_spec(spec_rows)]
    pub fn rows(&self) -> (rows: u32)
        ensures
            rows == self.spec_rows(),
    {
        self.rows
    }

    #[verifier::when_used_as_spec(spec_max_index)]
    pub fn max_index(&self) -> (max_index: u64)
        ensures
            max_index == self.spec_max_index(),
    {
        self.max_index
    }

    /// Where the card with the given index lies in the atlas, or `None` when
    /// the grid has no column or the card would reach beyond the atlas.
    #[verifier::when_used_as_spec(spec_card_rect)]
    pub fn card_rect(&self, index: u64) -> (rect: Option<Rect>)
        requires
            self.wf(),
        ensures
            rect == self.spec_card_rect(index),
    {
        if self.columns == 0 {
            return None;
        }
        let columns: u64 = self.columns as u64;
        let col: u64 = index % columns;
        let row: u64 = index / columns;
        let width: u64 = self.card.width as u64;
        let height: u64 = self.card.height as u64;
        proof {
            lemma_cell_fits(self.atlas.width as int, width as int, col as int);
            lemma_cell_fits(self.atlas.height as int, height as int, row as int);
        }
        if row >= self.rows as u64 {
            return None;
        }
        let x: u64 = col * width;
        let y: u64 = row * height;
        Some(Rect { x: x as usize, y: y as usize, width: width as usize, height: height as usize })
    }
}

/// A cell of pitch `pitch` at position `cell` ends inside an extent exactly
/// when `cell` is below the number of whole cells that fit.
proof fn lemma_cell_fits(extent: int, pitch: int, cell: int)
    requires
        extent >= 0,
        pitch > 0,
        cell >= 0,
    ensures
        cell < extent / pitch <==> cell * pitch + pitch <= extent,
        cell * pitch >= 0,
{
    let count = extent / pitch;
    assert(extent == pitch * count + extent % pitch && 0 <= extent % pitch < pitch) by {
        vstd::arithmetic::div_mod::lemma_fundamental_div_mod(extent, pitch);
        vstd::arithmetic::div_mod::lemma_mod_pos_bound(extent, pitch);
    }
    assert(cell * pitch >= 0) by (nonlinear_arith)
        requires
            cell >= 0,
            pitch > 0,
    ;
    if cell < count {
        assert(cell * pitch + pitch <= pitch * count) by (nonlinear_arith)
            requires
                cell + 1 <= count,
                pitch > 0,
        ;
    } else {
        assert(cell * pitch + pitch >= pitch * count + pitch) by (nonlinear_arith)
            requires
                cell >= count,
                pitch > 0,
        ;
    }
}

/// The grid of an atlas for a card size.
pub closed spec fn spec_configure(atlas: AtlasSize, card: CardSize) -> Geometry {
    Geometry {
        atlas,
        card,
        columns: grid_columns(atlas, card) as u32,
        rows: grid_rows(atlas, card) as u32,
        max_index: grid_max_index(atlas, card) as u64,
    }
}

/// The grid of an atlas for a valid card size is valid, and it is the only
/// valid geometry of that atlas and card size.
pub proof fn lemma_spec_configure(atlas: AtlasSize, card: CardSize)
    requires
        card.wf(),
    ensures
        spec_configure(atlas, card).wf(),
        spec_configure(atlas, card).atlas() == atlas,
        spec_configure(atlas, card).card() == card,
        forall|g: Geometry|
            g.wf() && g.atlas() == atlas && g.card() == card ==> g == spec_configure(atlas, card),
{
    let columns = grid_columns(atlas, card);
    let rows = grid_rows(atlas, card);
    assert(0 <= columns <= atlas.width && 0 <= rows <= atlas.height) by (nonlinear_arith)
        requires
            columns == atlas.width as int / card.width as int,
            rows == atlas.height as int / card.height as int,
            card.width > 0,
            card.height > 0,
    ;
    assert(0 <= columns * rows <= 0xffff_ffff * 0xffff_ffff && (columns > 0 && rows > 0
        ==> columns * rows >= 1)) by (nonlinear_arith)
        requires
            0 <= columns <= 0xffff_ffff,
            0 <= rows <= 0xffff_ffff,
    ;
}

/// Derives the grid of an atlas for a card size. A grid without columns or
/// rows is a normal result, not a fault: its only index is 0 and no card
/// image exists for it.
#[verifier::when_used_as_spec(spec_configure)]
pub fn configure(atlas: AtlasSize, card: CardSize) -> (geometry: Geometry)
    requires
        card.wf(),
    ensures
        geometry == spec_configure(atlas, card),
        geometry.wf(),
        geometry.atlas() == atlas,
        geometry.card() == card,
        geometry.columns() == atlas.width as int / card.width() as int,
        geometry.rows() == atlas.height as int / card.height() as int,
        geometry.columns() > 0 && geometry.rows() > 0 ==> geometry.max_index()
            == geometry.columns() * geometry.rows() - 1,
        geometry.columns() == 0 || geometry.rows() == 0 ==> geometry.max_index() == 0,
{
    let columns: u32 = (atlas.width as usize / card.width) as u32;
    let rows: u32 = (atlas.height as usize / card.height) as u32;
    let max_index: u64 = if columns > 0 && rows > 0 {
        assert(columns * rows <= 0xffff_ffff * 0xffff_ffff && columns * rows >= 1)
            by (nonlinear_arith)
            requires
                0 < columns <= 0xffff_ffff,
                0 < rows <= 0xffff_ffff,
        ;
        (columns as u64) * (rows as u64) - 1
    } else {
        0
    };
    Geometry { atlas, card, columns, rows, max_index }
}

/// Every index up to `max_index` of a grid that has cards names a card that
/// lies wholly inside the atlas, at the column and row that the index gives
/// in row-major order.
pub proof fn lemma_card_rect_in_bounds(geometry: Geometry, index: u64)
    requires
        geometry.wf(),
        index <= geometry.max_index(),
        geometry.columns() > 0,
        geometry.rows() > 0,
    ensures
        geometry.card_rect(index) matches Some(rect) && rect.within(geometry.atlas())
            && rect.x == (index as int % geometry.columns() as int) * geometry.card().width()
            && rect.y == (index as int / geometry.columns() as int) * geometry.card().height()
            && rect.width == geometry.card().width() && rect.height == geometry.card().height(),
{
    let columns = geometry.columns() as int;
    let rows = geometry.rows() as int;
    let col = index as int % columns;
    let row = index as int / columns;
    assert(index as int == columns * row + col && 0 <= col < columns) by {
        vstd::arithmetic::div_mod::lemma_fundamental_div_mod(index as int, columns);
        vstd::arithmetic::div_mod::lemma_mod_pos_bound(index as int, columns);
    }
    assert(row < rows) by (nonlinear_arith)
        requires
            columns * row + col <= columns * rows - 1,
            0 <= col,
            columns > 0,
    ;
    assert(row >= 0) by (nonlinear_arith)
        requires
            index as int == columns * row + col,
            col < columns,
            columns > 0,
            index >= 0,
    ;
    lemma_cell_fits(geometry.atlas().width as int, geometry.card().width() as int, col);
    lemma_cell_fits(geometry.atlas().height as int, geometry.card().height() as int, row);
}

/// Whatever the index, a rectangle that `card_rect` gives lies wholly inside
/// the atlas and has the size of one card.
pub proof fn lemma_card_rect_never_exceeds(geometry: Geometry, index: u64)
    requires
        geometry.wf(),
    ensures
        geometry.card_rect(index) matches Some(rect) ==> rect.within(geometry.atlas())
            && rect.width == geometry.card().width() && rect.height == geometry.card().height(),
        geometry.card_rect(index) is Some <==> geometry.columns() > 0 && index
            < geometry.columns() * geometry.rows(),
{
    let columns = geometry.columns() as int;
    let rows = geometry.rows() as int;
    if columns > 0 {
        let col = index as int % columns;
        let row = index as int / columns;
        assert(index as int == columns * row + col && 0 <= col < columns) by {
            vstd::arithmetic::div_mod::lemma_fundamental_div_mod(index as int, columns);
            vstd::arithmetic::div_mod::lemma_mod_pos_bound(index as int, columns);
        }
        assert(row >= 0) by (nonlinear_arith)
            requires
                index as int == columns * row + col,
                col < columns,
                columns > 0,
                index >= 0,
        ;
        assert(row < rows <==> index < columns * rows) by (nonlinear_arith)
            requires
                index as int == columns * row + col,
                0 <= col < columns,
                columns > 0,
        ;
        lemma_cell_fits(geometry.atlas().width as int, geometry.card().width() as int, col);
        lemma_cell_fits(geometry.atlas().height as int, geometry.card().height() as int, row);
    }
}

} // verus!
