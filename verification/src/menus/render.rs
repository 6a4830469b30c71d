//! Where the lines of a menu go on the display.

use vstd::prelude::*;

use embedded_graphics::mono_font::ascii::FONT_6X13;
use embedded_graphics::mono_font::MonoTextStyle;
use embedded_graphics::pixelcolor::BinaryColor;
use embedded_graphics::text::renderer::TextRenderer;

use crate::menus::WIDTH;

verus! {

/// How an item line is drawn.
#[derive(Clone, Copy, PartialEq, Eq, Structural, Debug)]
pub enum MenuItemState {
    Unselected,
    Selecting,
    Selected,
}

/// The state of line `position` when the menu's current line is `index`.
pub open spec fn item_state(position: int, index: int, selecting: bool) -> MenuItemState {
    if position == index {
        if selecting {
            MenuItemState::Selecting
        } else {
            MenuItemState::Selected
        }
    } else {
        MenuItemState::Unselected
    }
}

/// What to draw for one line of a menu.
pub struct MenuItemRender {
    pub position: usize,
    pub title: String,
    pub value: String,
    pub state: MenuItemState,
}

/// `TextRenderer::line_height` of a `MonoTextStyle` in `FONT_6X13`: the font's character
/// height, 13 pixels.
#[verifier::external_body]
fn item_line_height() -> (h: u32)
    ensures
        h == 13,
{
    MonoTextStyle::new(&FONT_6X13, BinaryColor::On).line_height()
}

/// The character width of `FONT_6X13`, 6 pixels.
#[verifier::external_body]
fn item_char_width() -> (w: u32)
    ensures
        w == 6,
{
    FONT_6X13.character_size.width
}

/// A filled rectangle drawn behind highlighted text.
#[derive(Clone, Copy, PartialEq, Eq, Structural, Debug)]
pub struct Highlight {
    pub x: i32,
    pub y: i32,
    pub width: u32,
    pub height: u32,
}

/// Where a menu line's title and value go, which of them are drawn inverted, and the
/// rectangle behind them, if any.
#[derive(Clone, Copy, PartialEq, Eq, Structural, Debug)]
pub struct MenuItemLayout {
    pub title_x: i32,
    pub title_y: i32,
    pub value_x: i32,
    pub value_y: i32,
    pub title_inverted: bool,
    pub value_inverted: bool,
    pub highlight: Option<Highlight>,
}

/// Blank pixels around highlighted text.
pub const ITEM_PADDING: i32 = 2;

/// Top of the first line, below the heading.
pub const ITEM_OFFSET_TOP: i32 = 11;

/// Height of a line: the text height (13) with padding, less the glyphs' four empty bottom rows.
pub open spec fn section_height() -> int {
    13 + 2 * ITEM_PADDING - 4
}

/// The layout of line `position` with a title and a value of the given byte lengths.
/// The title starts at the left edge; the value follows after one blank character. While the
/// line is being chosen the whole line is drawn inverted on a full-width bar; while its item
/// is being edited only the value is, on a bar just around it.
pub open spec fn spec_item_layout(
    position: int,
    title_len: int,
    value_len: int,
    state: MenuItemState,
) -> MenuItemLayout {
    let y = 13 * position + ITEM_OFFSET_TOP;
    let value_x = ITEM_PADDING + 6 * (title_len + 1);
    MenuItemLayout {
        title_x: ITEM_PADDING,
        title_y: y as i32,
        value_x: value_x as i32,
        value_y: y as i32,
        title_inverted: state == MenuItemState::Selecting,
        value_inverted: state == MenuItemState::Selecting || state == MenuItemState::Selected,
        highlight: match state {
            MenuItemState::Selecting => Some(
                Highlight { x: 0, y: y as i32, width: WIDTH, height: section_height() as u32 },
            ),
            MenuItemState::Selected => Some(
                Highlight {
                    x: (value_x - ITEM_PADDING) as i32,
                    y: y as i32,
                    width: (6 * value_len + 2 * ITEM_PADDING - 1) as u32,
                    height: section_height() as u32,
                },
            ),
            MenuItemState::Unselected => None,
        },
    }
}

/// Length in bytes of the UTF-8 encoding of a text.
pub open spec fn utf8_len(s: Seq<char>) -> int {
    vstd::utf8::encode_utf8(s).len() as int
}

/// The line's coordinates fit in an `i32`.
pub open spec fn item_layout_fits(position: int, title_len: int, value_len: int) -> bool {
    &&& 13 * position + ITEM_OFFSET_TOP <= i32::MAX
    &&& ITEM_PADDING + 6 * (title_len + 1) <= i32::MAX
    &&& 6 * value_len + 2 * ITEM_PADDING <= i32::MAX
}

/// Whether a line at `position` with titles and values of these byte lengths fits in an `i32`.
pub fn item_layout_fits_exec(position: usize, title_len: usize, value_len: usize) -> (b: bool)
    ensures
        b == item_layout_fits(position as int, title_len as int, value_len as int),
{
    let p: u128 = position as u128;
    let t: u128 = title_len as u128;
    let v: u128 = value_len as u128;
    13 * p + 11 <= 0x7fff_ffff && 2 + 6 * (t + 1) <= 0x7fff_ffff && 6 * v + 4 <= 0x7fff_ffff
}

/// The layout of one menu line.
pub fn render_menu_item(position: usize, title: &str, value: &str, state: MenuItemState) -> (layout:
    MenuItemLayout)
    requires
        item_layout_fits(
            position as int,
            utf8_len(title@),
            utf8_len(value@),
        ),
    ensures
        layout == spec_item_layout(
            position as int,
            utf8_len(title@),
            utf8_len(value@),
            state,
        ),
{
    let padding: i32 = ITEM_PADDING;
    let offset_top: i32 = ITEM_OFFSET_TOP;
    let height = item_line_height() as i32;
    let width = item_char_width() as i32;
    let offset: i32 = -4;
    let section_height = height + padding * 2 + offset;
    let position = position as i32;
    let title_y = section_height * position + offset_top;
    let value_x = padding + width * ((title.len() + 1) as i32);
    let highlight = match state {
        MenuItemState::Selecting => Some(
            Highlight { x: 0, y: title_y, width: WIDTH, height: section_height as u32 },
        ),
        MenuItemState::Selected => Some(
            Highlight {
                x: value_x - padding,
                y: title_y,
                width: ((value.len() as i32) * width + padding * 2 - 1) as u32,
                height: section_height as u32,
            },
        ),
        MenuItemState::Unselected => None,
    };
    MenuItemLayout {
        title_x: padding,
        title_y,
        value_x,
        value_y: title_y,
        title_inverted: state == MenuItemState::Selecting,
        value_inverted: state == MenuItemState::Selecting || state == MenuItemState::Selected,
        highlight,
    }
}

impl MenuItemRender {
    /// Where this line goes.
    pub fn layout(&self) -> (layout: MenuItemLayout)
        requires
            item_layout_fits(
                self.position as int,
                utf8_len(self.title@),
                utf8_len(self.value@),
            ),
        ensures
            layout == spec_item_layout(
                self.position as int,
                utf8_len(self.title@),
                utf8_len(self.value@),
                self.state,
            ),
    {
        render_menu_item(self.position, self.title.as_str(), self.value.as_str(), self.state)
    }
}

} // verus!
