//! The terminal styling type the table stores for its rows and headers.
//!
//! A style is opaque to the table core: it is chosen, stored and handed back
//! to the rendering host, never inspected.

use vstd::prelude::*;

verus! {

/// tui's style value, declared so the table can carry it in its fields.
#[verifier::external_type_specification]
#[verifier::external_body]
pub struct ExStyle(tui::style::Style);

/// Relies on tui's `Style::default`: the style with no colours and no
/// modifiers set.
#[verifier::external_body]
pub fn default_style() -> tui::style::Style {
    tui::style::Style::default()
}

} // verus!
