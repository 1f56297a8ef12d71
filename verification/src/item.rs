//! Builders for settings items.
//!
//! A settings item is a horizontal row pairing a title — optionally with a
//! description beneath it and an icon before it — with one interactive
//! control. The row's gaps and padding come from the theme's spacing scale.

use vstd::prelude::*;

use crate::element::{Alignment, Element, JustifyContent, Length, Padding, Row, Wrapping};
use crate::element::{horizontal_padding, horizontal_space, text};
use crate::element::FlexRow;
use crate::theme::Spacing;

verus! {

/// Minimum width, in logical pixels, that a flex row grants each of its items.
pub const FLEX_MIN_ITEM_WIDTH: u16 = 200;

/// Gap, in logical pixels, between a title and the description beneath it.
pub const DESCRIPTION_SPACING: u16 = 2;

/// Font size, in logical pixels, of a description line.
pub const DESCRIPTION_SIZE: u16 = 10;

/// The title label of a plain settings row: word-wrapped, content-sized.
pub open spec fn title_node(title: String) -> Element {
    Element::Text { content: title, wrapping: Wrapping::Word, width: Length::Shrink, size: None }
}

/// The padding of a settings row: none vertically, the theme's small step
/// horizontally.
pub open spec fn settings_padding(spacing: Spacing) -> Padding {
    Padding { top: 0, right: spacing.space_s, bottom: 0, left: spacing.space_s }
}

/// A settings item aligned in a row: the word-wrapped title, a spacer that
/// fills the width between them, then the control.
pub fn item(spacing: &Spacing, title: String, widget: Element) -> (r: Row)
    ensures
        r.children@.len() == 3,
        r.children@[0] == title_node(title),
        r.children@[1] == (Element::Space { width: Length::Fill }),
        r.children@[2] == widget,
        r.spacing == spacing.space_xs,
        r.align_y == Alignment::Center,
        r.padding == settings_padding(*spacing),
{
    let mut children: Vec<Element> = Vec::new();
    children.push(text(title));
    children.push(horizontal_space());
    children.push(widget);
    item_row(spacing, children)
}

/// A settings item aligned in a row: the given children, gapped by the
/// theme's extra-small step, vertically centered, padded horizontally by the
/// theme's small step.
pub fn item_row(spacing: &Spacing, children: Vec<Element>) -> (r: Row)
    ensures
        r == (Row {
            children: children,
            spacing: spacing.space_xs,
            align_y: Alignment::Center,
            padding: settings_padding(*spacing),
        }),
{
    let padding = horizontal_padding(spacing.space_s);
    Row { children, spacing: spacing.space_xs, align_y: Alignment::Center, padding }
}

/// The title label of a flex settings row: word-wrapped and width-filling.
pub open spec fn filled_title_node(title: String) -> Element {
    Element::Text { content: title, wrapping: Wrapping::Word, width: Length::Fill, size: None }
}

/// A settings item aligned in a flex row: the word-wrapped, width-filling
/// title, then the control wrapped in a generic container.
pub fn flex_item(spacing: &Spacing, title: String, widget: Element) -> (r: FlexRow)
    ensures
        r.children@.len() == 2,
        r.children@[0] == filled_title_node(title),
        (r.children@[1] matches Element::Container { child } && child == widget),
        r.spacing == spacing.space_xs,
        r.padding == settings_padding(*spacing),
        r.min_item_width == FLEX_MIN_ITEM_WIDTH,
        r.justify_items == Alignment::Center,
        r.justify_content == JustifyContent::SpaceBetween,
        r.width == Length::Fill,
{
    let mut children: Vec<Element> = Vec::new();
    children.push(Element::Text {
        content: title,
        wrapping: Wrapping::Word,
        width: Length::Fill,
        size: None,
    });
    children.push(Element::Container { child: Box::new(widget) });
    flex_item_row(spacing, children)
}

/// A settings item aligned in a flex row: the given children, gapped by the
/// theme's extra-small step, padded horizontally by the theme's small step,
/// each child granted at least the minimum item width, leftover space
/// distributed between them, the row filling the available width.
pub fn flex_item_row(spacing: &Spacing, children: Vec<Element>) -> (r: FlexRow)
    ensures
        r == (FlexRow {
            children: children,
            spacing: spacing.space_xs,
            padding: settings_padding(*spacing),
            min_item_width: FLEX_MIN_ITEM_WIDTH,
            justify_items: Alignment::Center,
            justify_content: JustifyContent::SpaceBetween,
            width: Length::Fill,
        }),
{
    let padding = horizontal_padding(spacing.space_s);
    FlexRow {
        children,
        spacing: spacing.space_xs,
        padding,
        min_item_width: FLEX_MIN_ITEM_WIDTH,
        justify_items: Alignment::Center,
        justify_content: JustifyContent::SpaceBetween,
        width: Length::Fill,
    }
}

/// The description label beneath a title: word-wrapped, content-sized, at
/// the smaller description font size.
pub open spec fn description_node(description: String) -> Element {
    Element::Text {
        content: description,
        wrapping: Wrapping::Word,
        width: Length::Shrink,
        size: Some(DESCRIPTION_SIZE),
    }
}

/// The node that carries an item's text. With a description, the title and
/// description are stacked vertically in one width-filling column, the
/// description gap apart; without one, the title alone fills the width.
pub open spec fn is_text_block(e: Element, title: String, description: Option<String>) -> bool {
    match description {
        Some(d) => {
            &&& e matches Element::Column { children, spacing, width }
            &&& children@.len() == 2
            &&& children@[0] == title_node(title)
            &&& children@[1] == description_node(d)
            &&& spacing == DESCRIPTION_SPACING
            &&& width == Length::Fill
        },
        None => e == filled_title_node(title),
    }
}

/// The children of a finished settings item, in order: the icon if one was
/// given, the text block, and exactly one trailing control.
pub open spec fn is_item_contents(s: Seq<Element>, item: Item, widget: Element) -> bool {
    &&& s.len() == (if item.icon is Some { 3int } else { 2int })
    &&& (item.icon matches Some(ic) ==> s[0] == ic)
    &&& is_text_block(s[s.len() - 2], item.title, item.description)
    &&& s[s.len() - 1] == widget
}

/// Creates a builder for an item, beginning with the title.
pub fn builder(title: String) -> (r: Item)
    ensures
        r == (Item { title: title, description: None, icon: None }),
{
    Item { title, description: None, icon: None }
}

/// A builder for a settings item. It accumulates the title, an optional
/// description and an optional icon, and is consumed by a terminal method
/// that supplies the control and emits a row or flex row.
#[derive(Debug, PartialEq, Eq)]
pub struct Item {
    /// Describes the item being controlled.
    pub title: String,

    /// A description to display beneath the title.
    pub description: Option<String>,

    /// A custom icon to display before the text.
    pub icon: Option<Element>,
}

impl Item {
    /// Replaces the title.
    pub fn title(self, title: String) -> (r: Item)
        ensures
            r == (Item { title: title, description: self.description, icon: self.icon }),
    {
        Item { title, ..self }
    }

    /// Sets a description to display beneath the title.
    pub fn description(self, description: String) -> (r: Item)
        ensures
            r == (Item { title: self.title, description: Some(description), icon: self.icon }),
    {
        Item { description: Some(description), ..self }
    }

    /// Sets a custom icon to display before the text.
    pub fn icon(self, icon: Element) -> (r: Item)
        ensures
            r == (Item { title: self.title, description: self.description, icon: Some(icon) }),
    {
        Item { icon: Some(icon), ..self }
    }

    /// Assigns a control to the item, emitting a settings row.
    pub fn control(self, spacing: &Spacing, widget: Element) -> (r: Row)
        ensures
            is_item_contents(r.children@, self, widget),
            r.spacing == spacing.space_xs,
            r.align_y == Alignment::Center,
            r.padding == settings_padding(*spacing),
    {
        item_row(spacing, self.contents(widget))
    }

    /// Assigns a control which flexes, emitting a flex settings row.
    pub fn flex_control(self, spacing: &Spacing, widget: Element) -> (r: FlexRow)
        ensures
            is_item_contents(r.children@, self, widget),
            r.spacing == spacing.space_xs,
            r.padding == settings_padding(*spacing),
            r.min_item_width == FLEX_MIN_ITEM_WIDTH,
            r.justify_items == Alignment::Center,
            r.justify_content == JustifyContent::SpaceBetween,
            r.width == Length::Fill,
    {
        flex_item_row(spacing, self.contents(widget))
    }

    /// Assigns a toggle switch as the control, emitting a settings row.
    pub fn toggler(self, spacing: &Spacing, is_checked: bool) -> (r: Row)
        ensures
            is_item_contents(r.children@, self, Element::Toggler { is_checked }),
            r.spacing == spacing.space_xs,
            r.align_y == Alignment::Center,
            r.padding == settings_padding(*spacing),
    {
        self.control(spacing, Element::Toggler { is_checked })
    }

    /// Assembles the item's children in order: icon, text block, control.
    fn contents(self, widget: Element) -> (v: Vec<Element>)
        ensures
            is_item_contents(v@, self, widget),
    {
        let Item { title, description, icon } = self;
        let mut contents: Vec<Element> = Vec::new();

        if let Some(ic) = icon {
            contents.push(ic);
        }

        match description {
            Some(d) => {
                let mut stacked: Vec<Element> = Vec::new();
                stacked.push(text(title));
                stacked.push(Element::Text {
                    content: d,
                    wrapping: Wrapping::Word,
                    width: Length::Shrink,
                    size: Some(DESCRIPTION_SIZE),
                });
                contents.push(Element::Column {
                    children: stacked,
                    spacing: DESCRIPTION_SPACING,
                    width: Length::Fill,
                });
            },
            None => {
                contents.push(Element::Text {
                    content: title,
                    wrapping: Wrapping::Word,
                    width: Length::Fill,
                    size: None,
                });
            },
        }

        contents.push(widget);
        contents
    }
}

} // verus!
