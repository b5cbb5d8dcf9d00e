//! The executable that launches the editor.

use crate::platform::PlatformProbe;
use crate::zed_command::CommandName;
use vstd::prelude::*;

verus! {

/// The executable that launches the editor: the cases of [`CommandName`],
/// for callers that think of the executable rather than of the command.
#[derive(Copy, Clone, Debug, PartialEq, Eq, Structural)]
pub enum Exe {
    Zed,
    Zeditor,
    Zedit,
    ZedEditor,
    Flatpak,
}

impl Exe {
    /// The command that starts this executable.
    pub open spec fn spec_command_name(self) -> CommandName {
        match self {
            Exe::Zed => CommandName::Zed,
            Exe::Zeditor => CommandName::Zeditor,
            Exe::Zedit => CommandName::Zedit,
            Exe::ZedEditor => CommandName::ZedEditor,
            Exe::Flatpak => CommandName::Flatpak,
        }
    }

    /// The executable that a command starts.
    pub open spec fn spec_of(name: CommandName) -> Exe {
        match name {
            CommandName::Zed => Exe::Zed,
            CommandName::Zeditor => Exe::Zeditor,
            CommandName::Zedit => Exe::Zedit,
            CommandName::ZedEditor => Exe::ZedEditor,
            CommandName::Flatpak => Exe::Flatpak,
        }
    }

    /// The command that starts this executable.
    pub fn command_name(&self) -> (name: CommandName)
        ensures
            name == self.spec_command_name(),
    {
        match self {
            Exe::Zed => CommandName::Zed,
            Exe::Zeditor => CommandName::Zeditor,
            Exe::Zedit => CommandName::Zedit,
            Exe::ZedEditor => CommandName::ZedEditor,
            Exe::Flatpak => CommandName::Flatpak,
        }
    }

    /// The literal invocation string: that of the command.
    pub fn to_str(&self) -> (s: &'static str)
        ensures
            s@ == self.spec_command_name().spec_to_str(),
    {
        match self {
            Exe::Zed => "zed",
            Exe::Zeditor => "zeditor",
            Exe::Zedit => "zedit",
            Exe::ZedEditor => "zed-editor",
            Exe::Flatpak => "flatpak run dev.zed.Zed",
        }
    }

    /// Determines the executable that launches the editor, from a probe of
    /// the host: the one whose command [`CommandName::determine`] finds.
    pub fn determine(probe: &PlatformProbe) -> (exe: Option<Exe>)
        ensures
            exe == match CommandName::spec_determine(probe@) {
                Some(name) => Some(Exe::spec_of(name)),
                None => None,
            },
    {
        match CommandName::determine(probe) {
            Some(CommandName::Zed) => Some(Exe::Zed),
            Some(CommandName::Zeditor) => Some(Exe::Zeditor),
            Some(CommandName::Zedit) => Some(Exe::Zedit),
            Some(CommandName::ZedEditor) => Some(Exe::ZedEditor),
            Some(CommandName::Flatpak) => Some(Exe::Flatpak),
            None => None,
        }
    }
}

impl Default for Exe {
    /// The primary executable, used where detection found nothing.
    fn default() -> (exe: Self)
        ensures
            exe == Exe::Zed,
    {
        Exe::Zed
    }
}

} // verus!
