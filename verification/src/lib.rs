//! Resolution and settings-merge engine for a LaTeX language-server
//! integration: how to launch the external `texlab` binary, which PDF
//! previewer to wire up for forward and inverse search, and which workspace
//! settings to hand to the language server.
//!
//! The library decides and computes; it performs no input or output. What
//! the host reports about the machine comes in as a
//! [`platform::PlatformProbe`], and work that has an effect (a download, a
//! status report, the removal of old releases) goes out as a request that
//! the caller carries out and answers.

pub mod executable_name;
pub mod json;
pub mod platform;
pub mod preview_presets;
pub mod texlab_invocation;
pub mod texlab_workspace_config;
pub mod zed_command;

use crate::json::{Value, ValueView};
use crate::platform::{PlatformProbe, PlatformProbeView};
use crate::texlab_invocation::{command, spec_command, CommandSettings, Step};
use crate::texlab_workspace_config::preview_presets::{
    spec_after_fetch, spec_determine, Preview, PreviewView,
};
use crate::texlab_workspace_config::types::MergeError;
use crate::texlab_workspace_config::{get, spec_get};
use crate::zed_command::CommandName;
use vstd::prelude::*;

verus! {

/// What one instance of the integration remembers for its lifetime.
#[derive(Clone, Debug, PartialEq, Eq)]
pub struct LatexExtension {
    /// Path of the language server that was acquired last, kept so that a
    /// later resolution can reuse it.
    pub cached_texlab_path: Option<String>,
    /// The PDF previewer that was detected, if any.
    pub previewer: Option<Preview>,
    /// The command that launches the editor, if one was detected.
    pub zed_command: Option<CommandName>,
}

/// Mathematical content of a [`LatexExtension`].
pub struct LatexExtensionView {
    pub cached_texlab_path: Option<Seq<char>>,
    pub previewer: Option<PreviewView>,
    pub zed_command: Option<CommandName>,
}

impl View for LatexExtension {
    type V = LatexExtensionView;

    open spec fn view(&self) -> LatexExtensionView {
        LatexExtensionView {
            cached_texlab_path: self.cached_texlab_path.deep_view(),
            previewer: match self.previewer {
                Some(previewer) => Some(previewer@),
                None => None,
            },
            zed_command: self.zed_command,
        }
    }
}

impl LatexExtensionView {
    /// The state of an instance that has detected and acquired nothing yet.
    pub open spec fn empty() -> Self {
        LatexExtensionView { cached_texlab_path: None, previewer: None, zed_command: None }
    }

    /// The command that launches the editor: the one that was detected, or
    /// the primary name.
    pub open spec fn command_name(self) -> CommandName {
        match self.zed_command {
            Some(name) => name,
            None => CommandName::Zed,
        }
    }

    /// The workspace configuration for the language server: the merged
    /// settings as a configuration value, or the error in the user's
    /// settings.
    pub open spec fn workspace_configuration(self, settings: ValueView) -> Result<
        Option<ValueView>,
        MergeError,
    > {
        match spec_get(self.previewer, self.command_name(), settings) {
            Ok(merged) => Ok(Some(merged.to_value())),
            Err(e) => Err(e),
        }
    }
}

impl LatexExtension {
    /// A fresh instance: nothing detected, nothing acquired.
    pub fn new() -> (extension: Self)
        ensures
            extension@ == LatexExtensionView::empty(),
    {
        LatexExtension { cached_texlab_path: None, previewer: None, zed_command: None }
    }

    /// Begins the resolution of the language server's command.
    ///
    /// This is also where the instance takes note of its surroundings: the
    /// previewer that the caller resolved is recorded, and the command that
    /// launches the editor is determined from the probe. What was acquired
    /// earlier stays remembered. The step that is returned is the first of
    /// the search for the executable.
    pub fn language_server_command(
        &mut self,
        probe: &PlatformProbe,
        previewer: Option<Preview>,
        binary: &Option<CommandSettings>,
    ) -> (step: Step)
        ensures
            final(self)@ == (LatexExtensionView {
                cached_texlab_path: old(self)@.cached_texlab_path,
                previewer: match previewer {
                    Some(previewer) => Some(previewer@),
                    None => None,
                },
                zed_command: CommandName::spec_determine(probe@),
            }),
            step@ == spec_command(
                match binary {
                    Some(binary) => Some(binary@),
                    None => None,
                },
            ),
    {
        self.previewer = previewer;
        self.zed_command = CommandName::determine(probe);
        command(binary)
    }

    /// The workspace configuration to hand to the language server, from the
    /// settings that the user gave for it (null where there are none).
    pub fn language_server_workspace_configuration(&self, settings: Value) -> (configuration:
        Result<Option<Value>, MergeError>)
        ensures
            (match configuration {
                Ok(Some(value)) => Ok(Some(value@)),
                Ok(None) => Ok(None),
                Err(e) => Err(e),
            }) == self@.workspace_configuration(settings@),
    {
        let zed_command = match self.zed_command {
            Some(name) => name,
            None => CommandName::default(),
        };
        match get(&self.previewer, zed_command, settings) {
            Ok(merged) => Ok(Some(merged.into_value())),
            Err(e) => Err(e),
        }
    }
}

impl Default for LatexExtension {
    fn default() -> (extension: Self)
        ensures
            extension@ == LatexExtensionView::empty(),
    {
        LatexExtension::new()
    }
}

/// The names that the resolvers of this library look up on the search
/// path, apart from that of the language server, which is asked for only
/// when it is needed.
pub open spec fn spec_probed_names() -> Seq<Seq<char>> {
    seq![
        "zed"@,
        "zeditor"@,
        "zedit"@,
        "zed-editor"@,
        "/Applications/Skim.app/Contents/SharedSupport/displayline"@,
        "evince"@,
        "zathura"@,
        "sioyek"@,
        "qpdfview"@,
        "okular"@,
    ]
}

/// The names that a probe of the host has to answer for: those that the
/// resolvers of this library look up on the search path.
pub fn probed_names() -> (names: Vec<&'static str>)
    ensures
        names@.len() == spec_probed_names().len(),
        forall|i: int| 0 <= i < names@.len() ==> names@[i]@ == spec_probed_names()[i],
{
    let mut names: Vec<&'static str> = Vec::new();
    names.push("zed");
    names.push("zeditor");
    names.push("zedit");
    names.push("zed-editor");
    names.push("/Applications/Skim.app/Contents/SharedSupport/displayline");
    names.push("evince");
    names.push("zathura");
    names.push("sioyek");
    names.push("qpdfview");
    names.push("okular");
    names
}

/// Two probes agree where it matters: on the platform, on the variable
/// that the Flatpak runtime sets, on the working directory and the helper
/// script, and on which of the probed names resolve.
pub open spec fn spec_probes_agree(a: PlatformProbeView, b: PlatformProbeView) -> bool {
    &&& a.platform == b.platform
    &&& a.has_env("ZED_FLATPAK_LIB_PATH"@) == b.has_env("ZED_FLATPAK_LIB_PATH"@)
    &&& a.work_dir == b.work_dir
    &&& a.helper_script == b.helper_script
    &&& forall|i: int|
        0 <= i < spec_probed_names().len() ==> (a.which(#[trigger] spec_probed_names()[i]) is Some)
            == (b.which(spec_probed_names()[i]) is Some)
}

/// A probe that answers for the probed names is all that the resolvers
/// need: on probes that agree there, they find the same command for the
/// editor and the same previewer.
pub proof fn lemma_probed_names_suffice(a: PlatformProbeView, b: PlatformProbeView, cutoff: i64)
    requires
        spec_probes_agree(a, b),
    ensures
        CommandName::spec_determine(a) == CommandName::spec_determine(b),
        spec_determine(a, cutoff) == spec_determine(b, cutoff),
        forall|path: Seq<char>, fetched: bool|
            spec_after_fetch(a, path, fetched) == spec_after_fetch(b, path, fetched),
{
    let names = spec_probed_names();
    assert(names[0] == "zed"@);
    assert(names[1] == "zeditor"@);
    assert(names[2] == "zedit"@);
    assert(names[3] == "zed-editor"@);
    assert(names[4] == "/Applications/Skim.app/Contents/SharedSupport/displayline"@);
    assert(names[5] == "evince"@);
    assert(names[6] == "zathura"@);
    assert(names[7] == "sioyek"@);
    assert(names[8] == "qpdfview"@);
    assert(names[9] == "okular"@);
}

} // verus!
