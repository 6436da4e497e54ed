//! HyprCube settings launcher configuration.

use vstd::prelude::*;
use crate::action::Action;
use crate::module::{EventResult, MouseButton, PointerEvent};

verus! {

/// Configuration of the settings launcher.
#[derive(Debug, Clone, PartialEq, Eq)]
pub struct HyprcubeConfig {
    /// Executable used to open the settings application.
    pub command: String,
    /// Freedesktop icon name used by the launcher.
    pub icon: String,
}

/// Default launcher command.
pub fn default_command() -> (r: String)
    ensures
        r@ == "hyprcube"@,
{
    "hyprcube".to_owned()
}

/// Default launcher icon.
pub fn default_icon() -> (r: String)
    ensures
        r@ == "start-here"@,
{
    "start-here".to_owned()
}

impl Default for HyprcubeConfig {
    fn default() -> (r: Self)
        ensures
            r.command@ == "hyprcube"@,
            r.icon@ == "start-here"@,
    {
        HyprcubeConfig { command: default_command(), icon: default_icon() }
    }
}

/// Runtime state of the settings launcher button (its icon pixels are the
/// drawing layer's).
#[derive(Debug)]
pub struct HyprcubeModule {
    pub config: HyprcubeConfig,
    pub hovered: bool,
    pub pressed: bool,
}

impl HyprcubeModule {
    /// A launcher button, neither hovered nor pressed.
    pub fn new(config: HyprcubeConfig) -> (r: Self)
        ensures
            r.config == config,
            !r.hovered,
            !r.pressed,
    {
        HyprcubeModule { config, hovered: false, pressed: false }
    }

    /// Stable module identifier.
    pub fn id(&self) -> (r: &'static str)
        ensures
            r@ == "hyprcube"@,
    {
        "hyprcube"
    }

    /// The launcher opens no popup.
    pub fn has_popup(&self) -> (r: bool)
        ensures
            !r,
    {
        false
    }

    /// Input on the button: motion highlights it, a left press shows it
    /// pressed, and the left release launches the configured command with
    /// no arguments.
    pub fn handle_event(&mut self, event: &PointerEvent) -> (r: EventResult)
        ensures
            final(self).config == old(self).config,
            match *event {
                PointerEvent::Move => r is Handled && final(self).hovered && final(self).pressed == old(self).pressed,
                PointerEvent::Press(MouseButton::Left) => r is Handled && final(self).pressed
                    && final(self).hovered == old(self).hovered,
                PointerEvent::Release(MouseButton::Left) => r matches EventResult::Action(Action::Exec { command, args })
                    && command == old(self).config.command && args@.len() == 0 && !final(self).pressed
                    && final(self).hovered == old(self).hovered,
                _ => r is Ignored && final(self).hovered == old(self).hovered && final(self).pressed == old(self).pressed,
            },
    {
        match event {
            PointerEvent::Move => {
                self.hovered = true;
                EventResult::Handled
            },
            PointerEvent::Press(MouseButton::Left) => {
                self.pressed = true;
                EventResult::Handled
            },
            PointerEvent::Release(MouseButton::Left) => {
                self.pressed = false;
                EventResult::Action(Action::Exec { command: self.config.command.clone(), args: Vec::new() })
            },
            _ => EventResult::Ignored,
        }
    }
}

} // verus!
