//! Immutable process configuration: bot identity, channel allow-list,
//! banned-role deny-list, and button-menu specifications.

use vstd::prelude::*;

verus! {

/// One role-toggle button inside a configured button menu.
pub struct ButtonMenuRole {
    pub id: u64,
    pub label: String,
    pub style: u8,
}

/// The visual style of a role-toggle button, as the platform knows it.
#[derive(PartialEq, Eq, Structural, Clone, Copy, Debug)]
pub enum ButtonStyleKind {
    Primary,
    Secondary,
    Success,
    Danger,
}

/// The style a raw configuration byte denotes; anything out of range
/// falls back to `Secondary`.
pub open spec fn spec_style_kind(style: u8) -> ButtonStyleKind {
    if style == 1 {
        ButtonStyleKind::Primary
    } else if style == 2 {
        ButtonStyleKind::Secondary
    } else if style == 3 {
        ButtonStyleKind::Success
    } else if style == 4 {
        ButtonStyleKind::Danger
    } else {
        ButtonStyleKind::Secondary
    }
}

impl ButtonMenuRole {
    /// Maps the configured small-integer style to a button style,
    /// defaulting to `Secondary` for any unknown value.
    pub fn style_kind(&self) -> (r: ButtonStyleKind)
        ensures
            r == spec_style_kind(self.style),
    {
        match self.style {
            1 => ButtonStyleKind::Primary,
            2 => ButtonStyleKind::Secondary,
            3 => ButtonStyleKind::Success,
            4 => ButtonStyleKind::Danger,
            _ => ButtonStyleKind::Secondary,
        }
    }
}

/// A configured button menu: the channel it lives in, its message text,
/// and the roles its buttons toggle.
pub struct ButtonMenu {
    pub channel_id: u64,
    pub roles: Vec<ButtonMenuRole>,
    pub message: String,
    pub comp_type: String,
}

/// Startup behaviour of the button-menu reconciler.
pub struct ButtonMenuSettings {
    pub send_on_start: bool,
    pub messages_to_check: u64,
}

/// The whole process configuration, read once at startup and immutable
/// afterwards.
pub struct Config {
    pub token: String,
    pub bot_id: u64,
    pub server_id: u64,
    pub channels: Vec<u64>,
    pub banned_roles: Vec<u64>,
    pub projects_channel: Option<u64>,
    pub settings: ButtonMenuSettings,
    pub button_menus: Vec<ButtonMenu>,
}

} // verus!
