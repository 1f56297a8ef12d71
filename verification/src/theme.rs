//! The spacing scale of a theme.
//!
//! A theme supplies a ladder of named gap sizes, in logical pixels, that
//! widget builders use for consistent spacing and padding. The settings-item
//! builders read the extra-small step for gaps between a row's children and
//! the small step for the row's horizontal padding.

use vstd::prelude::*;

verus! {

/// Named gap sizes, in logical pixels, from none to extra-extra-extra-large.
#[derive(Clone, Copy, Debug, PartialEq, Eq)]
pub struct Spacing {
    pub space_none: u16,
    pub space_xxxs: u16,
    pub space_xxs: u16,
    pub space_xs: u16,
    pub space_s: u16,
    pub space_m: u16,
    pub space_l: u16,
    pub space_xl: u16,
    pub space_xxl: u16,
    pub space_xxxl: u16,
}

} // verus!
