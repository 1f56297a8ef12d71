//! Builders for settings items: horizontally laid-out rows that pair a
//! title (and optional description and icon) with one interactive control,
//! for use inside a desktop settings panel.
//!
//! The widget tree that the builders assemble is modelled by the types in
//! [`element`]; the gaps and padding they apply come from a theme's spacing
//! scale, modelled in [`theme`]. The builders themselves live in [`item`].

pub mod element;
pub mod item;
pub mod theme;
