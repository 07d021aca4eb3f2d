//! Privacy guards: the app blocklist, password-field detection, the
//! self-wiping keystroke buffer, and the guard that combines them.

pub mod blocklist;
pub mod password_detect;
pub mod secure_buffer;

pub use blocklist::Blocklist;
pub use password_detect::{AccessibleRole, PasswordFieldDetector};
pub use secure_buffer::SecureBuffer;

use vstd::prelude::*;
use blocklist::blocks;
use password_detect::is_password_role;

verus! {

/// Central privacy guard that decides whether capture should be active.
pub struct PrivacyGuard {
    password_detector: PasswordFieldDetector,
    blocklist: Blocklist,
}

impl PrivacyGuard {
    /// The blocklist entries this guard checks.
    pub closed spec fn blocked_entries(&self) -> Seq<Seq<char>> {
        self.blocklist.entries()
    }

    /// A guard over the given blocked application names.
    pub fn new(blocked_apps: Vec<String>) -> (g: Self)
        ensures
            g.blocked_entries() == blocked_apps@.map_values(|s: String| s@),
    {
        PrivacyGuard { password_detector: PasswordFieldDetector::new(), blocklist: Blocklist::new(blocked_apps) }
    }

    /// Whether capture should be paused: the focused application is
    /// blocklisted, or a password field has focus (`focused` is the role the
    /// platform reports for the focused element).
    pub fn should_pause(&self, app_name: &str, focused: Option<AccessibleRole>) -> (r: bool)
        ensures
            r == (blocks(self.blocked_entries(), app_name@) || is_password_role(focused)),
    {
        if self.blocklist.is_blocked(app_name) {
            return true;
        }
        if self.password_detector.is_password_field_focused(focused) {
            return true;
        }
        false
    }
}

} // verus!
