//! A model of the widget-tree nodes that the settings-item builders produce.
//!
//! The hosting toolkit owns rendering, hit-testing and event dispatch; this
//! module records only what the builders decide: which nodes a container
//! holds, in what order, and with what layout configuration.

use vstd::prelude::*;

verus! {

/// How the host layout engine resolves a widget's width.
#[derive(Clone, Copy, Debug, PartialEq, Eq)]
pub enum Length {
    /// Take all of the remaining space.
    Fill,
    /// Take only the space the content needs.
    Shrink,
}

/// Alignment of children on a container's cross axis.
#[derive(Clone, Copy, Debug, PartialEq, Eq)]
pub enum Alignment {
    Start,
    Center,
    End,
}

/// How text breaks across lines.
#[derive(Clone, Copy, Debug, PartialEq, Eq)]
pub enum Wrapping {
    /// Never break the line.
    NoWrap,
    /// Break between any two glyphs.
    Glyph,
    /// Break at word boundaries.
    Word,
    /// Break at word boundaries, or between glyphs where a word overflows.
    WordOrGlyph,
}

/// How a flex container distributes leftover space among its children.
#[derive(Clone, Copy, Debug, PartialEq, Eq)]
pub enum JustifyContent {
    Start,
    End,
    FlexStart,
    FlexEnd,
    Center,
    Stretch,
    SpaceBetween,
    SpaceEvenly,
    SpaceAround,
}

/// Space around a container's contents, in logical pixels.
#[derive(Clone, Copy, Debug, PartialEq, Eq)]
pub struct Padding {
    pub top: u16,
    pub right: u16,
    pub bottom: u16,
    pub left: u16,
}

/// One node of the widget tree.
#[derive(Debug, PartialEq, Eq)]
pub enum Element {
    /// A text label.
    Text { content: String, wrapping: Wrapping, width: Length, size: Option<u16> },
    /// Blank space that the layout engine sizes.
    Space { width: Length },
    /// Children stacked vertically, `spacing` logical pixels apart.
    Column { children: Vec<Element>, spacing: u16, width: Length },
    /// A single child wrapped in a generic container.
    Container { child: Box<Element> },
    /// A boolean toggle switch.
    Toggler { is_checked: bool },
}

/// A horizontal container: children side by side, `spacing` pixels apart.
#[derive(Debug, PartialEq, Eq)]
pub struct Row {
    pub children: Vec<Element>,
    pub spacing: u16,
    pub align_y: Alignment,
    pub padding: Padding,
}

/// A horizontal container that wraps its children across lines and
/// distributes leftover space among them.
#[derive(Debug, PartialEq, Eq)]
pub struct FlexRow {
    pub children: Vec<Element>,
    pub spacing: u16,
    pub padding: Padding,
    pub min_item_width: u16,
    pub justify_items: Alignment,
    pub justify_content: JustifyContent,
    pub width: Length,
}

/// A text label with the default configuration: word-wrapped, as wide as its
/// content, at the default font size.
pub fn text(content: String) -> (e: Element)
    ensures
        e == (Element::Text {
            content: content,
            wrapping: Wrapping::Word,
            width: Length::Shrink,
            size: None,
        }),
{
    Element::Text { content, wrapping: Wrapping::Word, width: Length::Shrink, size: None }
}

/// Blank space that soaks up all remaining width on a row.
pub fn horizontal_space() -> (e: Element)
    ensures
        e == (Element::Space { width: Length::Fill }),
{
    Element::Space { width: Length::Fill }
}

/// Zero vertical padding and `amount` logical pixels on the left and right.
pub fn horizontal_padding(amount: u16) -> (p: Padding)
    ensures
        p == (Padding { top: 0, right: amount, bottom: 0, left: amount }),
{
    Padding { top: 0, right: amount, bottom: 0, left: amount }
}

} // verus!
