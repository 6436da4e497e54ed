//! Application menu / start button.

use vstd::prelude::*;
use crate::action::Action;

verus! {

/// Configuration for the application menu / start button module.
#[derive(Debug)]
pub struct MenuConfig {
    /// Label text displayed on the button; empty string shows icon only.
    pub label: String,
    /// XDG icon name for the button icon.
    pub icon: String,
    /// Action triggered when the button is clicked.
    pub action: Action,
}

/// Button label when none is configured: none (icon only).
pub fn default_label() -> (r: String)
    ensures
        r@.len() == 0,
{
    String::new()
}

/// Button icon when none is configured.
pub fn default_icon() -> (r: String)
    ensures
        r@ == "start-here"@,
{
    "start-here".to_owned()
}

/// The default click action: launch `wofi --show drun`.
pub fn default_action() -> (r: Action)
    ensures
        r matches Action::Exec { command, args } && command@ == "wofi"@ && args@.len() == 2
            && args@[0]@ == "--show"@ && args@[1]@ == "drun"@,
{
    let mut args: Vec<String> = Vec::new();
    args.push("--show".to_owned());
    args.push("drun".to_owned());
    Action::Exec { command: "wofi".to_owned(), args }
}

impl Default for MenuConfig {
    fn default() -> (r: Self)
        ensures
            r.label@.len() == 0,
            r.icon@ == "start-here"@,
            r.action matches Action::Exec { command, args } && command@ == "wofi"@ && args@.len() == 2
                && args@[0]@ == "--show"@ && args@[1]@ == "drun"@,
    {
        MenuConfig { label: default_label(), icon: default_icon(), action: default_action() }
    }
}

/// Runtime state for the menu button module.
#[derive(Debug)]
pub struct MenuModule {
    pub config: MenuConfig,
    /// Whether the button is currently in a pressed visual state.
    pub pressed: bool,
}

impl MenuModule {
    /// A released menu button with the given configuration.
    pub fn new(config: MenuConfig) -> (r: Self)
        ensures
            r.config == config,
            !r.pressed,
    {
        MenuModule { config, pressed: false }
    }
}

} // verus!
