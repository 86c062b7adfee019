//! Modalities and the commands sent to the device.

use std::str::FromStr;
use vstd::pervasive::unreached;
use vstd::prelude::*;

verus! {

/// The kind of stimulation that the operator can select.
#[derive(Clone, Copy, Debug, PartialEq, Eq, Structural)]
pub enum Modality {
    Shock,
    Vibrate,
    Sound,
}

/// The kind of a command: one of the modalities, or the stop override.
#[derive(Clone, Copy, Debug, PartialEq, Eq, Structural)]
pub enum CommandKind {
    Stop,
    Shock,
    Vibrate,
    Sound,
}

/// A command for a device.
#[derive(Clone, Debug, PartialEq, Eq)]
pub struct Command {
    /// The device that the command is for.
    pub device_id: String,
    pub kind: CommandKind,
    /// Strength in percent.
    pub intensity: u8,
    /// Length in milliseconds.
    pub duration_ms: u16,
}

/// A command as mathematical values.
pub struct CommandView {
    pub device_id: Seq<char>,
    pub kind: CommandKind,
    pub intensity: int,
    pub duration_ms: int,
}

impl View for Command {
    type V = CommandView;

    open spec fn view(&self) -> CommandView {
        CommandView {
            device_id: self.device_id@,
            kind: self.kind,
            intensity: self.intensity as int,
            duration_ms: self.duration_ms as int,
        }
    }
}

/// The kind that the device API's client reads from `name`: each kind is
/// written as its own name, letter for letter, and no other text is a kind.
pub open spec fn control_type_named(name: Seq<char>) -> Option<CommandKind> {
    if name == "Stop"@ {
        Some(CommandKind::Stop)
    } else if name == "Shock"@ {
        Some(CommandKind::Shock)
    } else if name == "Vibrate"@ {
        Some(CommandKind::Vibrate)
    } else if name == "Sound"@ {
        Some(CommandKind::Sound)
    } else {
        None
    }
}

/// Reads a control type with `rzap::data_type::ControlType::from_str`, the
/// parser that the client library derives for its enum. Trusted: the parser
/// accepts exactly the four variant names, with their capital letter and
/// nothing around them, and gives an error for every other text.
#[verifier::external_body]
fn parse_control_type(name: &str) -> (kind: Option<CommandKind>)
    ensures
        kind == control_type_named(name@),
{
    match rzap::data_type::ControlType::from_str(name) {
        Ok(rzap::data_type::ControlType::Stop) => Some(CommandKind::Stop),
        Ok(rzap::data_type::ControlType::Shock) => Some(CommandKind::Shock),
        Ok(rzap::data_type::ControlType::Vibrate) => Some(CommandKind::Vibrate),
        Ok(rzap::data_type::ControlType::Sound) => Some(CommandKind::Sound),
        Err(_) => None,
    }
}

impl CommandKind {
    /// What the countdown gauge is called while a command of this kind
    /// runs.
    pub open spec fn action_text(self) -> Seq<char> {
        match self {
            CommandKind::Stop => "Stopping..."@,
            CommandKind::Shock => "Shocking..."@,
            CommandKind::Vibrate => "Vibratating..."@,
            CommandKind::Sound => "Beeping..."@,
        }
    }

    /// What the countdown gauge is called while a command of this kind
    /// runs.
    pub fn action_label(self) -> (label: &'static str)
        ensures
            label@ == self.action_text(),
    {
        match self {
            CommandKind::Stop => "Stopping...",
            CommandKind::Shock => "Shocking...",
            CommandKind::Vibrate => "Vibratating...",
            CommandKind::Sound => "Beeping...",
        }
    }
}

impl Modality {
    /// The place of the modality in the selection: 0, 1 or 2.
    pub open spec fn index(self) -> int {
        match self {
            Modality::Shock => 0,
            Modality::Vibrate => 1,
            Modality::Sound => 2,
        }
    }

    /// The modality at place `i` of the selection.
    pub open spec fn at(i: int) -> Modality {
        if i == 0 {
            Modality::Shock
        } else if i == 1 {
            Modality::Vibrate
        } else {
            Modality::Sound
        }
    }

    /// The next modality; after the last comes the first.
    pub open spec fn advanced(self) -> Modality {
        Modality::at((self.index() + 1) % 3)
    }

    /// The modality before; before the first comes the last.
    pub open spec fn retreated(self) -> Modality {
        Modality::at((self.index() + 2) % 3)
    }

    /// The kind of command that the modality stands for.
    pub open spec fn kind(self) -> CommandKind {
        match self {
            Modality::Shock => CommandKind::Shock,
            Modality::Vibrate => CommandKind::Vibrate,
            Modality::Sound => CommandKind::Sound,
        }
    }

    /// The name of the modality in the device API.
    pub open spec fn api_text(self) -> Seq<char> {
        match self {
            Modality::Shock => "Shock"@,
            Modality::Vibrate => "Vibrate"@,
            Modality::Sound => "Sound"@,
        }
    }

    /// The text under which the modality is offered to the operator.
    pub open spec fn display_text(self) -> Seq<char> {
        match self {
            Modality::Shock => "Shock ⚡"@,
            Modality::Vibrate => "Vibrate 📳"@,
            Modality::Sound => "Sound 🔊"@,
        }
    }

    /// The place of the modality in the selection.
    pub fn position(self) -> (i: usize)
        ensures
            i as int == self.index(),
    {
        match self {
            Modality::Shock => 0,
            Modality::Vibrate => 1,
            Modality::Sound => 2,
        }
    }

    /// The next modality; after the last comes the first.
    pub fn advance(self) -> (next: Modality)
        ensures
            next == self.advanced(),
    {
        match self {
            Modality::Shock => Modality::Vibrate,
            Modality::Vibrate => Modality::Sound,
            Modality::Sound => Modality::Shock,
        }
    }

    /// The modality before; before the first comes the last.
    pub fn retreat(self) -> (previous: Modality)
        ensures
            previous == self.retreated(),
    {
        match self {
            Modality::Shock => Modality::Sound,
            Modality::Vibrate => Modality::Shock,
            Modality::Sound => Modality::Vibrate,
        }
    }

    /// The text under which the modality is offered to the operator.
    pub fn display_name(self) -> (name: &'static str)
        ensures
            name@ == self.display_text(),
    {
        match self {
            Modality::Shock => "Shock ⚡",
            Modality::Vibrate => "Vibrate 📳",
            Modality::Sound => "Sound 🔊",
        }
    }

    /// The name of the modality in the device API.
    pub fn api_name(self) -> (name: &'static str)
        ensures
            name@ == self.api_text(),
    {
        match self {
            Modality::Shock => "Shock",
            Modality::Vibrate => "Vibrate",
            Modality::Sound => "Sound",
        }
    }

    /// The kind of command that the modality stands for, as the device
    /// API's client reads it from the modality's name.
    pub fn command_kind(self) -> (kind: CommandKind)
        ensures
            kind == self.kind(),
    {
        proof {
            api_names_are_read_as_kinds(self);
        }
        match parse_control_type(self.api_name()) {
            Some(kind) => kind,
            None => unreached(),
        }
    }
}

/// The device API's client reads each modality's name as the kind of
/// command that the modality stands for, and never as the stop override.
pub proof fn api_names_are_read_as_kinds(modality: Modality)
    ensures
        control_type_named(modality.api_text()) == Some(modality.kind()),
        modality.kind() != CommandKind::Stop,
{
    reveal_strlit("Stop");
    reveal_strlit("Shock");
    reveal_strlit("Vibrate");
    reveal_strlit("Sound");
    assert("Stop"@.len() == 4);
    assert("Shock"@.len() == 5);
    assert("Vibrate"@.len() == 7);
    assert("Sound"@.len() == 5);
    assert("Shock"@[1] == 'h' && "Sound"@[1] == 'o');
}

/// Advancing and retreating undo each other, and three steps either way
/// come back to where they started.
pub proof fn selection_wraps_around(modality: Modality)
    ensures
        modality.advanced().retreated() == modality,
        modality.retreated().advanced() == modality,
        modality.advanced().advanced().advanced() == modality,
        modality.retreated().retreated().retreated() == modality,
        Modality::at(modality.index()) == modality,
{
}

} // verus!
