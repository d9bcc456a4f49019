//! The minimap: a 3×3 grid of map tiles around a character, with a
//! fallback block for tiles without a sprite, a marker on the centre tile
//! and the character's portrait over it.

use vstd::prelude::*;
use vstd::string::StringSliceAdditionalSpecFns;

use crate::color::Color;
use crate::game::{MapTile, TileView};
use crate::text::{byte_len, same_text};
use crate::ui::layout::Area;

verus! {

/// Half-width of the visible square: a (2R+1)² grid.
pub const RADIUS: i32 = 1;

/// The grid cells around `(cx, cy)` in drawing order (rows top to bottom,
/// columns left to right): offset and map position of each.
pub open spec fn grid_cells_of(cx: i32, cy: i32) -> Seq<(i32, i32, int, int)> {
    Seq::new(9, |i: int| ((i % 3 - 1) as i32, (i / 3 - 1) as i32, cx + i % 3 - 1, cy + i / 3 - 1))
}

/// Each cell of the grid shows the map position at its offset from the
/// centre (`x == cx + dx`, `y == cy + dy`); the offsets lie within one step
/// of the centre, and the cells run row by row from the top (smaller `y`
/// first), left to right within a row, so every offset occurs once.
pub proof fn grid_cells_law(cx: i32, cy: i32)
    ensures
        grid_cells_of(cx, cy).len() == 9,
        forall|i: int|
            0 <= i < 9 ==> {
                let c = #[trigger] grid_cells_of(cx, cy)[i];
                &&& c.2 == cx + c.0
                &&& c.3 == cy + c.1
                &&& -1 <= c.0 <= 1
                &&& -1 <= c.1 <= 1
            },
        forall|i: int, j: int|
            0 <= i < j < 9 ==> {
                let a = #[trigger] grid_cells_of(cx, cy)[i];
                let b = #[trigger] grid_cells_of(cx, cy)[j];
                a.1 < b.1 || (a.1 == b.1 && a.0 < b.0)
            },
{
    assert forall|i: int, j: int| 0 <= i < j < 9 implies {
        let a = #[trigger] grid_cells_of(cx, cy)[i];
        let b = #[trigger] grid_cells_of(cx, cy)[j];
        a.1 < b.1 || (a.1 == b.1 && a.0 < b.0)
    } by {
        assert(0 <= i % 3 < 3 && 0 <= j % 3 < 3) by (nonlinear_arith)
            requires 0 <= i, 0 <= j;
        assert(i == 3 * (i / 3) + i % 3 && j == 3 * (j / 3) + j % 3) by (nonlinear_arith)
            requires 0 <= i, 0 <= j;
    }
}

/// The grid cells around `(cx, cy)`: `(dx, dy, x, y)` for each.
pub fn grid_cells(cx: i32, cy: i32) -> (r: Vec<(i32, i32, i32, i32)>)
    requires
        i32::MIN < cx < i32::MAX,
        i32::MIN < cy < i32::MAX,
    ensures
        r@.len() == 9,
        forall|i: int|
            0 <= i < 9 ==> {
                let c = #[trigger] r@[i];
                (c.0, c.1, c.2 as int, c.3 as int) == grid_cells_of(cx, cy)[i]
            },
{
    let mut v: Vec<(i32, i32, i32, i32)> = Vec::new();
    let mut dy: i32 = -RADIUS;
    while dy <= RADIUS
        invariant
            -1 <= dy <= 2,
            v@.len() == 3 * (dy + 1),
            i32::MIN < cx < i32::MAX,
            i32::MIN < cy < i32::MAX,
            forall|i: int|
                0 <= i < v@.len() ==> {
                    let c = #[trigger] v@[i];
                    (c.0, c.1, c.2 as int, c.3 as int) == grid_cells_of(cx, cy)[i]
                },
        decreases 2 - dy,
    {
        let mut dx: i32 = -RADIUS;
        while dx <= RADIUS
            invariant
                -1 <= dx <= 2,
                -1 <= dy <= 1,
                v@.len() == 3 * (dy + 1) + dx + 1,
                i32::MIN < cx < i32::MAX,
                i32::MIN < cy < i32::MAX,
                forall|i: int|
                    0 <= i < v@.len() ==> {
                        let c = #[trigger] v@[i];
                        (c.0, c.1, c.2 as int, c.3 as int) == grid_cells_of(cx, cy)[i]
                    },
            decreases 2 - dx,
        {
            let ghost i = v@.len() as int;
            assert(i % 3 == dx + 1 && i / 3 == dy + 1);
            v.push((dx, dy, cx + dx, cy + dy));
            dx = dx + 1;
        }
        dy = dy + 1;
    }
    v
}

/// The fallback background of a tile by content type.
pub open spec fn tile_color_of(content_type: Seq<char>) -> Color {
    if content_type == "monster"@ {
        Color::Rgb(110, 25, 25)
    } else if content_type == "resource"@ {
        Color::Rgb(20, 80, 35)
    } else if content_type == "bank"@ {
        Color::Rgb(150, 120, 15)
    } else if content_type == "workshop"@ {
        Color::Rgb(100, 55, 20)
    } else if content_type == "tasks_master"@ {
        Color::Rgb(65, 25, 130)
    } else if content_type == "grand_exchange"@ {
        Color::Rgb(20, 90, 140)
    } else if content_type == "cooking"@ {
        Color::Rgb(130, 70, 20)
    } else {
        Color::Rgb(35, 40, 55)
    }
}

/// The fallback background of a tile.
pub fn tile_color(tile: &MapTile) -> (r: Color)
    ensures
        r == tile_color_of(tile.content_type@),
{
    let t = tile.content_type.as_str();
    if same_text(t, "monster") {
        Color::Rgb(110, 25, 25)
    } else if same_text(t, "resource") {
        Color::Rgb(20, 80, 35)
    } else if same_text(t, "bank") {
        Color::Rgb(150, 120, 15)
    } else if same_text(t, "workshop") {
        Color::Rgb(100, 55, 20)
    } else if same_text(t, "tasks_master") {
        Color::Rgb(65, 25, 130)
    } else if same_text(t, "grand_exchange") {
        Color::Rgb(20, 90, 140)
    } else if same_text(t, "cooking") {
        Color::Rgb(130, 70, 20)
    } else {
        Color::Rgb(35, 40, 55)
    }
}

/// The one-character icon of a tile content type (empty for open terrain).
pub open spec fn content_icon_of(content_type: Seq<char>) -> Seq<char> {
    if content_type == "monster"@ {
        "☠"@
    } else if content_type == "resource"@ {
        "◈"@
    } else if content_type == "bank"@ {
        "$"@
    } else if content_type == "workshop"@ {
        "⚙"@
    } else if content_type == "tasks_master"@ {
        "!"@
    } else if content_type == "grand_exchange"@ {
        "≡"@
    } else if content_type == "cooking"@ {
        "~"@
    } else {
        Seq::empty()
    }
}

/// The one-character icon of a tile content type.
pub fn content_icon(content_type: &str) -> (r: &'static str)
    ensures
        r@ == content_icon_of(content_type@),
{
    if same_text(content_type, "monster") {
        "☠"
    } else if same_text(content_type, "resource") {
        "◈"
    } else if same_text(content_type, "bank") {
        "$"
    } else if same_text(content_type, "workshop") {
        "⚙"
    } else if same_text(content_type, "tasks_master") {
        "!"
    } else if same_text(content_type, "grand_exchange") {
        "≡"
    } else if same_text(content_type, "cooking") {
        "~"
    } else {
        proof {
            reveal_strlit("");
        }
        ""
    }
}

/// The fallback block of a cell without a sprite.
pub struct TileBlock {
    pub background: Color,
    /// The content icon and the row it is drawn on, when shown.
    pub icon: Option<(&'static str, u16)>,
    /// The content code and the row it is drawn on, when shown.
    pub code: Option<(String, u16)>,
}

/// The content code shown in a cell `width` wide: the whole code when its
/// byte length fits the width, else its first `width` characters (all of
/// them when it has fewer).
pub open spec fn code_label_of(code: Seq<char>, width: u16) -> Seq<char> {
    if byte_len(code) > width && code.len() > width {
        code.take(width as int)
    } else {
        code
    }
}

/// The fallback block of `cell` for `tile` (or for no tile): background
/// by content type (near black without a tile); the icon one row above
/// the middle row when the cell has two rows; the code on the middle row
/// when it has three.
pub fn tile_block(tile: Option<&MapTile>, cell: Area) -> (r: TileBlock)
    requires
        cell.y + cell.height <= u16::MAX,
    ensures
        tile is None ==> r.background == Color::Rgb(10, 10, 20) && r.icon is None && r.code is None,
        tile matches Some(t) ==> {
            let icon = content_icon_of(t.content_type@);
            let mid = cell.y + cell.height / 2;
            &&& r.background == tile_color_of(t.content_type@)
            &&& (icon.len() > 0 && cell.height >= 2) ==> (r.icon matches Some(i) && i.0@ == icon
                && i.1 == (if mid >= 1 {
                mid - 1
            } else {
                0
            }))
            &&& !(icon.len() > 0 && cell.height >= 2) ==> r.icon is None
            &&& (icon.len() > 0 && cell.height >= 3 && t.content_code@.len() > 0) ==> (
            r.code matches Some(c) && c.0@ == code_label_of(t.content_code@, cell.width) && c.1
                == mid)
            &&& !(icon.len() > 0 && cell.height >= 3 && t.content_code@.len() > 0) ==> r.code is None
        },
{
    match tile {
        None => TileBlock { background: Color::Rgb(10, 10, 20), icon: None, code: None },
        Some(t) => {
            let bg = tile_color(t);
            let icon = content_icon(t.content_type.as_str());
            if !icon.is_empty() && cell.height >= 2 {
                let mid = cell.y + cell.height / 2;
                let code = t.content_code.as_str();
                let label = if !code.is_empty() && cell.height >= 3 {
                    let text = if code.len() > cell.width as usize && code.unicode_len()
                        > cell.width as usize {
                        String::from_str(code.substring_char(0, cell.width as usize))
                    } else {
                        String::from_str(code)
                    };
                    Some((text, mid))
                } else {
                    None
                };
                TileBlock { background: bg, icon: Some((icon, mid.saturating_sub(1))), code: label }
            } else {
                TileBlock { background: bg, icon: None, code: None }
            }
        },
    }
}

/// The cell of the position marker in `cell`: its middle.
pub fn marker_cell(cell: Area) -> (r: (u16, u16))
    requires
        cell.x + cell.width <= u16::MAX,
        cell.y + cell.height <= u16::MAX,
    ensures
        r == ((cell.x + cell.width / 2) as u16, (cell.y + cell.height / 2) as u16),
{
    (cell.x + cell.width / 2, cell.y + cell.height / 2)
}

/// The portrait overlay of the centre cell: half the cell's width and
/// height (at least one), centred horizontally, its bottom a fifth of the
/// cell height above the cell's bottom.
pub open spec fn overlay_of(cell: Area) -> Area {
    let w = if cell.width / 2 >= 1 {
        cell.width / 2
    } else {
        1
    };
    let h = if cell.height / 2 >= 1 {
        cell.height / 2
    } else {
        1
    };
    let bottom = cell.y + cell.height * 4 / 5;
    Area {
        x: (cell.x + (cell.width - w) / 2) as u16,
        y: (if bottom >= h {
            bottom - h
        } else {
            0
        }) as u16,
        width: w as u16,
        height: h as u16,
    }
}

/// The portrait overlay of a non-empty centre cell.
pub fn portrait_overlay(cell: Area) -> (r: Area)
    requires
        cell.width > 0,
        cell.height > 0,
        cell.x + cell.width <= u16::MAX,
        cell.y + cell.height * 4 <= u16::MAX,
    ensures
        r == overlay_of(cell),
{
    let w = if cell.width / 2 >= 1 {
        cell.width / 2
    } else {
        1
    };
    let h = if cell.height / 2 >= 1 {
        cell.height / 2
    } else {
        1
    };
    let x = cell.x + (cell.width - w) / 2;
    let bottom = cell.y + cell.height * 4 / 5;
    let y = bottom.saturating_sub(h);
    Area { x, y, width: w, height: h }
}

/// The pixel size of an image that exactly fills `cell` for a font of
/// `font_w` × `font_h` pixels (a zero font dimension counting as one; each
/// side at least one pixel).
pub fn pixel_size(cell: Area, font_w: u16, font_h: u16) -> (r: (u32, u32))
    ensures
        r.0 == ({
            let p = cell.width * (if font_w > 0 { font_w as int } else { 1 });
            if p >= 1 { p } else { 1 }
        }),
        r.1 == ({
            let p = cell.height * (if font_h > 0 { font_h as int } else { 1 });
            if p >= 1 { p } else { 1 }
        }),
{
    let fw: u32 = if font_w > 0 {
        font_w as u32
    } else {
        1
    };
    let fh: u32 = if font_h > 0 {
        font_h as u32
    } else {
        1
    };
    assert(cell.width as int * fw <= 65535 * 65535) by (nonlinear_arith)
        requires
            cell.width <= 65535,
            fw <= 65535,
    ;
    assert(cell.height as int * fh <= 65535 * 65535) by (nonlinear_arith)
        requires
            cell.height <= 65535,
            fh <= 65535,
    ;
    let pw = cell.width as u32 * fw;
    let ph = cell.height as u32 * fh;
    (if pw >= 1 {
        pw
    } else {
        1
    }, if ph >= 1 {
        ph
    } else {
        1
    })
}

/// Whether a cached sprite of `cached` (skin and cell) must be rebuilt to
/// draw `skin` in `cell`: when nothing is cached, or the skin or the cell
/// differs.
pub fn needs_rebuild(cached: Option<(&str, Area)>, skin: &str, cell: Area) -> (r: bool)
    ensures
        r == match cached {
            None => true,
            Some(c) => c.0@ != skin@ || c.1 != cell,
        },
{
    match cached {
        None => true,
        Some((s, a)) => !same_text(s, skin) || a != cell,
    }
}

} // verus!
