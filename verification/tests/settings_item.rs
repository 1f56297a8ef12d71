use settings_item::element::{Alignment, Element, JustifyContent, Length, Padding, Wrapping};
use settings_item::item::{builder, flex_item, flex_item_row, item, item_row, Item};
use settings_item::theme::Spacing;

fn spacing() -> Spacing {
    Spacing {
        space_none: 0,
        space_xxxs: 4,
        space_xxs: 8,
        space_xs: 12,
        space_s: 16,
        space_m: 24,
        space_l: 32,
        space_xl: 48,
        space_xxl: 64,
        space_xxxl: 128,
    }
}

fn wide_spacing() -> Spacing {
    Spacing {
        space_none: 0,
        space_xxxs: 6,
        space_xxs: 10,
        space_xs: 14,
        space_s: 20,
        space_m: 28,
        space_l: 40,
        space_xl: 56,
        space_xxl: 72,
        space_xxxl: 144,
    }
}

fn toggle(on: bool) -> Element {
    Element::Toggler { is_checked: on }
}

#[test]
fn item_holds_title_spacer_control_in_order() {
    let sp = spacing();
    let row = item(&sp, String::from("Night Light"), toggle(true));
    assert_eq!(row.children.len(), 3);
    assert_eq!(
        row.children[0],
        Element::Text {
            content: String::from("Night Light"),
            wrapping: Wrapping::Word,
            width: Length::Shrink,
            size: None,
        }
    );
    assert_eq!(row.children[1], Element::Space { width: Length::Fill });
    assert_eq!(row.children[2], toggle(true));
}

#[test]
fn item_row_applies_theme_spacing_and_padding() {
    let sp = spacing();
    let row = item_row(&sp, vec![toggle(false)]);
    assert_eq!(row.spacing, 12);
    assert_eq!(row.align_y, Alignment::Center);
    assert_eq!(row.padding, Padding { top: 0, right: 16, bottom: 0, left: 16 });
    assert_eq!(row.children, vec![toggle(false)]);
}

#[test]
fn flex_item_fills_title_and_wraps_control() {
    let sp = spacing();
    let row = flex_item(&sp, String::from("Resolution"), toggle(true));
    assert_eq!(row.children.len(), 2);
    assert_eq!(
        row.children[0],
        Element::Text {
            content: String::from("Resolution"),
            wrapping: Wrapping::Word,
            width: Length::Fill,
            size: None,
        }
    );
    assert_eq!(row.children[1], Element::Container { child: Box::new(toggle(true)) });
    assert_eq!(row.width, Length::Fill);
    assert_eq!(row.justify_items, Alignment::Center);
}

#[test]
fn flex_row_always_grants_minimum_item_width() {
    let narrow = flex_item_row(&spacing(), vec![]);
    let wide = flex_item_row(&wide_spacing(), vec![toggle(true), toggle(false)]);
    assert_eq!(narrow.min_item_width, 200);
    assert_eq!(wide.min_item_width, 200);
    assert_eq!(narrow.justify_content, JustifyContent::SpaceBetween);
    assert_eq!(wide.justify_content, JustifyContent::SpaceBetween);
}

#[test]
fn flex_row_applies_theme_spacing_and_padding() {
    let row = flex_item_row(&wide_spacing(), vec![]);
    assert_eq!(row.spacing, 14);
    assert_eq!(row.padding, Padding { top: 0, right: 20, bottom: 0, left: 20 });
}

#[test]
fn builder_starts_with_title_only() {
    let it = builder(String::from("Bluetooth"));
    assert_eq!(
        it,
        Item { title: String::from("Bluetooth"), description: None, icon: None }
    );
}

#[test]
fn setters_fill_the_optional_fields() {
    let it = builder(String::from("Bluetooth"))
        .description(String::from("Connect to devices"))
        .icon(Element::Space { width: Length::Shrink })
        .title(String::from("Wireless"));
    assert_eq!(
        it,
        Item {
            title: String::from("Wireless"),
            description: Some(String::from("Connect to devices")),
            icon: Some(Element::Space { width: Length::Shrink }),
        }
    );
}

#[test]
fn control_without_description_fills_title() {
    let sp = spacing();
    let row = builder(String::from("Hot Corner")).control(&sp, toggle(false));
    assert_eq!(row.children.len(), 2);
    assert_eq!(
        row.children[0],
        Element::Text {
            content: String::from("Hot Corner"),
            wrapping: Wrapping::Word,
            width: Length::Fill,
            size: None,
        }
    );
    assert_eq!(row.children[1], toggle(false));
    assert_eq!(row.spacing, 12);
    assert_eq!(row.align_y, Alignment::Center);
    assert_eq!(row.padding, Padding { top: 0, right: 16, bottom: 0, left: 16 });
}

#[test]
fn description_stacks_with_title_in_one_column() {
    let sp = spacing();
    let row = builder(String::from("Auto-rotate"))
        .description(String::from("Follow the sensor"))
        .control(&sp, toggle(true));
    assert_eq!(row.children.len(), 2);
    assert_eq!(
        row.children[0],
        Element::Column {
            children: vec![
                Element::Text {
                    content: String::from("Auto-rotate"),
                    wrapping: Wrapping::Word,
                    width: Length::Shrink,
                    size: None,
                },
                Element::Text {
                    content: String::from("Follow the sensor"),
                    wrapping: Wrapping::Word,
                    width: Length::Shrink,
                    size: Some(10),
                },
            ],
            spacing: 2,
            width: Length::Fill,
        }
    );
    assert_eq!(row.children[1], toggle(true));
}

#[test]
fn icon_comes_first_when_given() {
    let sp = spacing();
    let icon = Element::Space { width: Length::Shrink };
    let row = builder(String::from("Battery"))
        .icon(Element::Space { width: Length::Shrink })
        .control(&sp, toggle(true));
    assert_eq!(row.children.len(), 3);
    assert_eq!(row.children[0], icon);
    assert_eq!(row.children[2], toggle(true));
}

#[test]
fn flex_control_keeps_contents_and_flex_configuration() {
    let sp = spacing();
    let row = builder(String::from("Scaling"))
        .description(String::from("Interface size"))
        .flex_control(&sp, toggle(false));
    assert_eq!(row.children.len(), 2);
    assert!(matches!(row.children[0], Element::Column { .. }));
    assert_eq!(row.children[1], toggle(false));
    assert_eq!(row.min_item_width, 200);
    assert_eq!(row.justify_content, JustifyContent::SpaceBetween);
    assert_eq!(row.width, Length::Fill);
}

#[test]
fn toggler_appends_a_toggle_control() {
    let sp = spacing();
    let row = builder(String::from("Tap to Click")).toggler(&sp, true);
    assert_eq!(row.children.len(), 2);
    assert_eq!(row.children[1], Element::Toggler { is_checked: true });
    let row_off = builder(String::from("Tap to Click")).toggler(&sp, false);
    assert_eq!(row_off.children[1], Element::Toggler { is_checked: false });
}
