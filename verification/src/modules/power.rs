//! Power / session module: a power symbol opening a menu of five session
//! actions (lock, log out, suspend, reboot, shut down).

use vstd::prelude::*;
use crate::action::Action;
use crate::module::{EventResult, PointerEvent};
use crate::popup::PopupEventResult;
use crate::text::{words, words_of};

verus! {

/// Shell commands executed by each power action.
#[derive(Debug, Clone, PartialEq, Eq)]
pub struct PowerCommands {
    pub shutdown: String,
    pub reboot: String,
    pub logout: String,
    pub lock: String,
    pub suspend: String,
}

/// Shutdown command when none is configured.
pub fn default_shutdown() -> (r: String)
    ensures
        r@ == "systemctl poweroff"@,
{
    "systemctl poweroff".to_owned()
}

/// Reboot command when none is configured.
pub fn default_reboot() -> (r: String)
    ensures
        r@ == "systemctl reboot"@,
{
    "systemctl reboot".to_owned()
}

/// Log-out command when none is configured.
pub fn default_logout() -> (r: String)
    ensures
        r@ == "hyprctl dispatch exit"@,
{
    "hyprctl dispatch exit".to_owned()
}

/// Screen-lock command when none is configured.
pub fn default_lock() -> (r: String)
    ensures
        r@ == "hyprlock"@,
{
    "hyprlock".to_owned()
}

/// Suspend command when none is configured.
pub fn default_suspend() -> (r: String)
    ensures
        r@ == "systemctl suspend"@,
{
    "systemctl suspend".to_owned()
}

impl Default for PowerCommands {
    fn default() -> (r: Self)
        ensures
            r.shutdown@ == "systemctl poweroff"@,
            r.reboot@ == "systemctl reboot"@,
            r.logout@ == "hyprctl dispatch exit"@,
            r.lock@ == "hyprlock"@,
            r.suspend@ == "systemctl suspend"@,
    {
        PowerCommands {
            shutdown: default_shutdown(),
            reboot: default_reboot(),
            logout: default_logout(),
            lock: default_lock(),
            suspend: default_suspend(),
        }
    }
}

/// Configuration for the power module.
#[derive(Debug, Clone, PartialEq, Eq)]
pub struct PowerConfig {
    pub commands: PowerCommands,
}

impl Default for PowerConfig {
    fn default() -> (r: Self)
        ensures
            r.commands.shutdown@ == "systemctl poweroff"@,
            r.commands.reboot@ == "systemctl reboot"@,
            r.commands.logout@ == "hyprctl dispatch exit"@,
            r.commands.lock@ == "hyprlock"@,
            r.commands.suspend@ == "systemctl suspend"@,
    {
        PowerConfig { commands: PowerCommands::default() }
    }
}

/// Runtime state for the power / session module.
#[derive(Debug)]
pub struct PowerModule {
    pub config: PowerConfig,
    /// Whether the cursor is hovering over the icon.
    pub hovered: bool,
}

impl PowerModule {
    /// A power module with the given commands, not hovered.
    pub fn new(config: PowerConfig) -> (r: Self)
        ensures
            r.config == config,
            !r.hovered,
    {
        PowerModule { config, hovered: false }
    }

    /// Stable module identifier.
    pub fn id(&self) -> (r: &'static str)
        ensures
            r@ == "power"@,
    {
        "power"
    }

    /// Input on the bar icon: the first pointer motion over it starts the
    /// hover highlight; nothing else is handled (a left click opens the
    /// session menu before the event reaches the module).
    pub fn handle_event(&mut self, event: &PointerEvent) -> (r: EventResult)
        ensures
            final(self).config == old(self).config,
            final(self).hovered == (old(self).hovered || *event == PointerEvent::Move),
            (r is Handled) == (*event == PointerEvent::Move && !old(self).hovered),
            r is Handled || r is Ignored,
    {
        match event {
            PointerEvent::Move => if !self.hovered {
                self.hovered = true;
                EventResult::Handled
            } else {
                EventResult::Ignored
            },
            _ => EventResult::Ignored,
        }
    }

    /// The power module always offers its session menu.
    pub fn has_popup(&self) -> (r: bool)
        ensures
            r,
    {
        true
    }
}

/// One row of the session menu.
#[derive(Debug)]
pub struct PowerPopupItem {
    pub label: &'static str,
    pub icon: &'static str,
    pub command: String,
}

/// Popup content for the power module — a vertical list of session actions.
#[derive(Debug)]
pub struct PowerPopup {
    pub items: Vec<PowerPopupItem>,
    pub hovered_index: Option<usize>,
}

/// Row `i` of the session menu has this label and runs this command.
pub open spec fn power_item_is(items: Seq<PowerPopupItem>, i: int, label: Seq<char>, command: String) -> bool {
    items[i].label@ == label && items[i].command == command
}

impl PowerPopup {
    /// The five session actions in menu order: lock, log out, suspend,
    /// reboot, shut down; nothing hovered.
    pub fn new(commands: &PowerCommands) -> (r: Self)
        ensures
            r.items@.len() == 5,
            power_item_is(r.items@, 0, "Lock Screen"@, commands.lock),
            power_item_is(r.items@, 1, "Log Out"@, commands.logout),
            power_item_is(r.items@, 2, "Suspend"@, commands.suspend),
            power_item_is(r.items@, 3, "Reboot"@, commands.reboot),
            power_item_is(r.items@, 4, "Shut Down"@, commands.shutdown),
            r.hovered_index is None,
    {
        let mut items: Vec<PowerPopupItem> = Vec::new();
        items.push(PowerPopupItem { label: "Lock Screen", icon: "🔒", command: commands.lock.clone() });
        items.push(PowerPopupItem { label: "Log Out", icon: "🚪", command: commands.logout.clone() });
        items.push(PowerPopupItem { label: "Suspend", icon: "💤", command: commands.suspend.clone() });
        items.push(PowerPopupItem { label: "Reboot", icon: "🔄", command: commands.reboot.clone() });
        items.push(PowerPopupItem { label: "Shut Down", icon: "\u{23FB}", command: commands.shutdown.clone() });
        PowerPopup { items, hovered_index: None }
    }
}

/// The row a pointer position denotes: the given row when the menu has
/// it, else none.
pub open spec fn menu_row(row: Option<usize>, len: nat) -> Option<usize> {
    match row {
        Some(i) => if i < len {
            Some(i)
        } else {
            None
        },
        None => None,
    }
}

/// A menu command as a program to run: split at whitespace, its first
/// word is the program and the rest its arguments; nothing for a blank
/// command.
pub open spec fn command_words(command: Seq<char>) -> Option<(Seq<char>, Seq<Seq<char>>)> {
    let w = words(command);
    if w.len() == 0 {
        None
    } else {
        Some((w[0], w.drop_first()))
    }
}

impl PowerPopup {
    /// The pointer moved to row `row` of the menu (none when it is outside
    /// the rows): that row becomes the hovered one, and the popup repaints
    /// when the hovered row changed.
    pub fn hover(&mut self, row: Option<usize>) -> (r: PopupEventResult)
        ensures
            final(self).items@ == old(self).items@,
            final(self).hovered_index == menu_row(row, old(self).items@.len()),
            (r is Handled) == (menu_row(row, old(self).items@.len()) != old(self).hovered_index),
            r is Handled || r is Ignored,
    {
        let new_hover = match row {
            Some(i) => if i < self.items.len() {
                Some(i)
            } else {
                None
            },
            None => None,
        };
        let changed = match (new_hover, self.hovered_index) {
            (Some(a), Some(b)) => a != b,
            (None, None) => false,
            _ => true,
        };
        if changed {
            self.hovered_index = new_hover;
            PopupEventResult::Handled
        } else {
            PopupEventResult::Ignored
        }
    }

    /// A left click on row `row` (none when outside the rows): the row's
    /// command runs (see [`command_words`]); anything else is ignored.
    pub fn click(&self, row: Option<usize>) -> (r: PopupEventResult)
        ensures
            match menu_row(row, self.items@.len()) {
                Some(i) => match command_words(self.items@[i as int].command@) {
                    Some((program, args)) => r matches PopupEventResult::Action(Action::Exec { command, args: a })
                        && command@ == program && a@.map_values(|s: String| s@) == args,
                    None => r is Ignored,
                },
                None => r is Ignored,
            },
    {
        let i = match row {
            Some(i) => if i < self.items.len() {
                i
            } else {
                return PopupEventResult::Ignored;
            },
            None => {
                return PopupEventResult::Ignored;
            },
        };
        let mut w = words_of(self.items[i].command.as_str());
        if w.len() == 0 {
            return PopupEventResult::Ignored;
        }
        let ghost all = w@;
        let program = w.remove(0);
        assert(w@.map_values(|s: String| s@) =~= all.map_values(|s: String| s@).drop_first());
        PopupEventResult::Action(Action::Exec { command: program, args: w })
    }
}

} // verus!
