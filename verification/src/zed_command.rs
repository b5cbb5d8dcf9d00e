//! The command that launches the editor on this machine.
//!
//! The resolved name is spliced into the inverse-search callbacks that PDF
//! viewers invoke to jump back to a source line. Three kinds of installation
//! are told apart: the standard one (`zed`), the Flatpak sandbox on Linux,
//! and the executables that Linux package managers create (`zeditor`,
//! `zedit`, `zed-editor`).

use crate::platform::{Os, PlatformProbe, PlatformProbeView};
use vstd::prelude::*;

verus! {

/// How the editor is started from a shell.
#[derive(Copy, Clone, Debug, PartialEq, Eq, Structural)]
pub enum CommandName {
    Zed,
    Zeditor,
    Zedit,
    ZedEditor,
    Flatpak,
}

impl CommandName {
    /// The literal invocation, as a sequence of characters.
    pub open spec fn spec_to_str(self) -> Seq<char> {
        match self {
            CommandName::Zed => "zed"@,
            CommandName::Zeditor => "zeditor"@,
            CommandName::Zedit => "zedit"@,
            CommandName::ZedEditor => "zed-editor"@,
            CommandName::Flatpak => "flatpak run dev.zed.Zed"@,
        }
    }

    /// The command that a probe of the host points to.
    ///
    /// On Linux the variable that the Flatpak runtime sets decides at once,
    /// whatever else is on the search path: the running editor is then the
    /// sandboxed one. Otherwise the primary name wins if it resolves, and on
    /// Linux the names that package managers use are tried after it, in a
    /// fixed order.
    pub open spec fn spec_determine(probe: PlatformProbeView) -> Option<CommandName> {
        if probe.platform.os == Os::Linux && probe.has_env("ZED_FLATPAK_LIB_PATH"@) {
            Some(CommandName::Flatpak)
        } else if probe.which("zed"@) is Some {
            Some(CommandName::Zed)
        } else if probe.platform.os != Os::Linux {
            None
        } else if probe.which("zeditor"@) is Some {
            Some(CommandName::Zeditor)
        } else if probe.which("zedit"@) is Some {
            Some(CommandName::Zedit)
        } else if probe.which("zed-editor"@) is Some {
            Some(CommandName::ZedEditor)
        } else {
            None
        }
    }

    /// The literal invocation string.
    pub fn to_str(&self) -> (s: &'static str)
        ensures
            s@ == self.spec_to_str(),
    {
        match self {
            CommandName::Zed => "zed",
            CommandName::Zeditor => "zeditor",
            CommandName::Zedit => "zedit",
            CommandName::ZedEditor => "zed-editor",
            CommandName::Flatpak => "flatpak run dev.zed.Zed",
        }
    }

    /// Determines which command launches the editor, from a probe of the
    /// host. `None` means that no known name resolves; callers then fall back
    /// to the default name when they format a command.
    ///
    /// Apart from the Flatpak case the answer is a heuristic: with several
    /// installations side by side, the name found need not be the one of the
    /// running instance.
    pub fn determine(probe: &PlatformProbe) -> (name: Option<CommandName>)
        ensures
            name == Self::spec_determine(probe@),
    {
        let linux = probe.current_platform().os == Os::Linux;
        if linux && probe.has_env("ZED_FLATPAK_LIB_PATH") {
            return Some(CommandName::Flatpak);
        }
        if probe.which("zed").is_some() {
            return Some(CommandName::Zed);
        }
        if linux {
            if probe.which("zeditor").is_some() {
                return Some(CommandName::Zeditor);
            }
            if probe.which("zedit").is_some() {
                return Some(CommandName::Zedit);
            }
            if probe.which("zed-editor").is_some() {
                return Some(CommandName::ZedEditor);
            }
        }
        None
    }
}

impl Default for CommandName {
    /// The primary name, used where detection found nothing.
    fn default() -> (name: Self)
        ensures
            name == CommandName::Zed,
    {
        CommandName::Zed
    }
}

} // verus!
