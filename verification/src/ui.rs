use vstd::prelude::*;
use vstd::string::*;

verus! {

/// The look of a button.
#[derive(PartialEq, Eq, Structural, Clone, Copy, Debug)]
pub enum ButtonStyle {
    Primary,
    Secondary,
    Success,
    Danger,
    Link,
}

/// A button: it either reports a click under `custom_id` or opens `url`.
pub struct ButtonSpec {
    pub custom_id: Option<String>,
    pub label: String,
    pub style: ButtonStyle,
    pub url: Option<String>,
    pub emoji: Option<String>,
}

/// The row with a link to the support server.
pub fn build_support_action_row() -> (r: Vec<ButtonSpec>)
    ensures
        r@.len() == 1,
        r@[0].custom_id is None && r@[0].label@ == "Support Server"@ && r@[0].style == ButtonStyle::Link
            && r@[0].emoji is None,
        r@[0].url matches Some(u) && u@ == "https://discord.gg/fhdgshs"@,
{
    vec![ButtonSpec {
        custom_id: None,
        label: String::from_str("Support Server"),
        style: ButtonStyle::Link,
        url: Some(String::from_str("https://discord.gg/fhdgshs")),
        emoji: None,
    }]
}

/// A toggle button of the automod settings: green and "Active" when the filter
/// is on, red and "Disabled" when it is off.
pub open spec fn toggle_button_ok(b: ButtonSpec, id: Seq<char>, name: Seq<char>, on: bool) -> bool {
    &&& b.custom_id matches Some(c) && c@ == id
    &&& b.label@ == name + (if on { " (Active)"@ } else { " (Disabled)"@ })
    &&& b.style == (if on { ButtonStyle::Success } else { ButtonStyle::Danger })
    &&& b.url is None
    &&& b.emoji is None
}

fn toggle_button(id: &str, name: &str, on: bool) -> (r: ButtonSpec)
    ensures
        toggle_button_ok(r, id@, name@, on),
{
    let mut label = String::from_str(name);
    if on {
        label.append(" (Active)");
    } else {
        label.append(" (Disabled)");
    }
    ButtonSpec {
        custom_id: Some(String::from_str(id)),
        label,
        style: if on { ButtonStyle::Success } else { ButtonStyle::Danger },
        url: None,
        emoji: None,
    }
}

/// The row of automod filter toggles.
pub fn build_automod_settings_buttons(spam: bool, antilink: bool, ghostping: bool) -> (r: Vec<ButtonSpec>)
    ensures
        r@.len() == 3,
        toggle_button_ok(r@[0], "automod_toggle:spam"@, "Spam"@, spam),
        toggle_button_ok(r@[1], "automod_toggle:antilink"@, "Anti-Link"@, antilink),
        toggle_button_ok(r@[2], "automod_toggle:ghostping"@, "GhostPing"@, ghostping),
{
    let a = toggle_button("automod_toggle:spam", "Spam", spam);
    let b = toggle_button("automod_toggle:antilink", "Anti-Link", antilink);
    let c = toggle_button("automod_toggle:ghostping", "GhostPing", ghostping);
    vec![a, b, c]
}

/// The antinuke settings toggle: green and "Active" when protection is on, red
/// and "Disabled" when it is off.
pub fn build_antinuke_settings_buttons(enabled: bool) -> (r: Vec<ButtonSpec>)
    ensures
        r@.len() == 1,
        toggle_button_ok(r@[0], "antinuke_toggle"@, "AntiNuke"@, enabled),
{
    vec![toggle_button("antinuke_toggle", "AntiNuke", enabled)]
}

/// The style that a stored template button asks for by number.
pub open spec fn template_style(n: u8) -> ButtonStyle {
    if n == 1 {
        ButtonStyle::Primary
    } else if n == 2 {
        ButtonStyle::Secondary
    } else if n == 3 {
        ButtonStyle::Success
    } else if n == 4 {
        ButtonStyle::Danger
    } else {
        ButtonStyle::Secondary
    }
}

/// The style that a stored template button asks for by number; unknown numbers
/// fall back to secondary.
pub fn style_from_number(n: u8) -> (r: ButtonStyle)
    ensures
        r == template_style(n),
{
    if n == 1 {
        ButtonStyle::Primary
    } else if n == 2 {
        ButtonStyle::Secondary
    } else if n == 3 {
        ButtonStyle::Success
    } else if n == 4 {
        ButtonStyle::Danger
    } else {
        ButtonStyle::Secondary
    }
}

} // verus!
