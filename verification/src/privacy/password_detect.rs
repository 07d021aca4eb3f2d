//! Detection of a focused password field.

use vstd::prelude::*;

verus! {

/// The accessibility role of the focused UI element, as the platform's
/// accessibility interface reports it.
#[derive(Debug, Clone, Copy, PartialEq, Eq, Structural)]
pub enum AccessibleRole {
    /// macOS: an `AXSecureTextField`.
    SecureTextField,
    /// Linux (AT-SPI2): a password text.
    PasswordText,
    /// Windows (UI Automation): a password box.
    PasswordBox,
    /// Any other kind of element.
    Other,
}

/// Whether the focused element, as reported, is a password field.
pub open spec fn is_password_role(focused: Option<AccessibleRole>) -> bool {
    match focused {
        Some(role) => role is SecureTextField || role is PasswordText || role is PasswordBox,
        None => false,
    }
}

/// Detects whether the currently focused UI element is a password field.
pub struct PasswordFieldDetector;

impl PasswordFieldDetector {
    pub fn new() -> (d: Self) {
        PasswordFieldDetector
    }

    /// Whether the focused element is a password or secure text field, given
    /// the role the platform reports for it (`None` when nothing is focused or
    /// the platform could not tell).
    pub fn is_password_field_focused(&self, focused: Option<AccessibleRole>) -> (r: bool)
        ensures
            r == is_password_role(focused),
    {
        match focused {
            Some(AccessibleRole::SecureTextField) | Some(AccessibleRole::PasswordText) | Some(
                AccessibleRole::PasswordBox,
            ) => true,
            _ => false,
        }
    }
}

impl Default for PasswordFieldDetector {
    fn default() -> (d: Self) {
        Self::new()
    }
}

} // verus!
