//! The workspace settings handed to the TeXLab language server.
//!
//! The user's settings are read, a build command and a hover setting are
//! filled in where the user gave none, and, where a PDF previewer was
//! detected, forward search is wired up for it. Nothing that the user has
//! set is overwritten: only members that are absent are filled in.

pub mod laws;
pub mod preview_presets;
pub mod round_trip;
pub mod types;

use crate::json::{Value, ValueView};
use crate::texlab_workspace_config::preview_presets::{Preview, PreviewView};
use crate::texlab_workspace_config::types::{
    given, spec_given, MergeError, TexlabBuildSettings, TexlabBuildSettingsView,
    TexlabHoverSettings, TexlabHoverSettingsView, TexlabSettings, TexlabSettingsView,
    WorkspaceSettings, WorkspaceSettingsView,
};
use crate::zed_command::CommandName;
use vstd::prelude::*;
use vstd::string::*;

verus! {

/// The arguments of the default build command: build a PDF unless the user's
/// own configuration of the build tool says otherwise, do nothing for log
/// and configuration files, never stop to ask, and write the index that
/// forward and inverse search need.
pub open spec fn spec_default_build_args() -> Seq<Seq<char>> {
    seq![
        "-e"@,
        "$pdf_mode = 1 unless $pdf_mode != 0; if ($ARGV[-1] =~ /\\.log$/ or $ARGV[-1] =~ /latexmkrc$/) { exit 0; };"@,
        "-interaction=nonstopmode"@,
        "-synctex=1"@,
        "%f"@,
    ]
}

/// A build section, or the empty one where there is none.
pub open spec fn spec_build_or_empty(build: Option<TexlabBuildSettingsView>) -> TexlabBuildSettingsView {
    match build {
        Some(build) => build,
        None => TexlabBuildSettingsView::empty(),
    }
}

/// The settings with the default build command, unless a build executable
/// is set. Where none is set, the default executable is filled in, and the
/// default arguments are filled in where no arguments are set; arguments
/// that are set stay, and so do the other members of the build section.
pub open spec fn spec_add_build_default(input: TexlabSettingsView) -> TexlabSettingsView {
    if input.build matches Some(build) && build.executable is Some {
        input
    } else {
        let build = spec_build_or_empty(input.build);
        TexlabSettingsView {
            build: Some(
                TexlabBuildSettingsView {
                    executable: Some("latexmk"@),
                    args: if build.args is None {
                        Some(spec_default_build_args())
                    } else {
                        build.args
                    },
                    ..build
                },
            ),
            ..input
        }
    }
}

/// The settings with symbols shown as glyphs on hover, unless a hover
/// section is there.
pub open spec fn spec_add_hover_default(input: TexlabSettingsView) -> TexlabSettingsView {
    if input.hover is Some {
        input
    } else {
        TexlabSettingsView {
            hover: Some(TexlabHoverSettingsView { symbols: "glyph"@ }),
            ..input
        }
    }
}

/// The settings wired up for a previewer, unless a forward-search section is
/// there: its presence alone leaves everything as it is. Otherwise the
/// previewer's preset becomes the forward-search section, and the two build
/// flags that show the result are switched on where they are not set.
pub open spec fn spec_add_preview(
    previewer: PreviewView,
    zed_command: CommandName,
    input: TexlabSettingsView,
) -> TexlabSettingsView {
    if input.forward_search is Some {
        input
    } else {
        TexlabSettingsView {
            forward_search: Some(previewer.create_preset(zed_command)),
            build: Some(spec_build_or_empty(input.build).switch_on_onsave_fields_if_not_set()),
            ..input
        }
    }
}

/// The settings after the defaults and, where a previewer was detected, the
/// previewer were merged in.
pub open spec fn spec_merge(
    previewer: Option<PreviewView>,
    zed_command: CommandName,
    provided: TexlabSettingsView,
) -> TexlabSettingsView {
    let with_defaults = spec_add_hover_default(spec_add_build_default(provided));
    match previewer {
        Some(previewer) => spec_add_preview(previewer, zed_command, with_defaults),
        None => with_defaults,
    }
}

/// The language-server settings that the user provides in a configuration
/// value: none at all where the value is null or has no `texlab` member.
pub open spec fn spec_provided(value: ValueView) -> Result<TexlabSettingsView, MergeError> {
    match spec_given(Some(value)) {
        None => Ok(TexlabSettingsView::empty()),
        Some(value) => match WorkspaceSettingsView::from_value(value) {
            Ok(settings) => Ok(
                match settings.texlab {
                    Some(texlab) => texlab,
                    None => TexlabSettingsView::empty(),
                },
            ),
            Err(e) => Err(e),
        },
    }
}

/// The workspace settings for the language server: the user's settings with
/// defaults and previewer merged in, or the error in the user's settings.
pub open spec fn spec_get(
    previewer: Option<PreviewView>,
    zed_command: CommandName,
    value: ValueView,
) -> Result<WorkspaceSettingsView, MergeError> {
    match spec_provided(value) {
        Ok(provided) => Ok(
            WorkspaceSettingsView { texlab: Some(spec_merge(previewer, zed_command, provided)) },
        ),
        Err(e) => Err(e),
    }
}

/// The arguments of the default build command.
pub fn default_build_args() -> (args: Vec<String>)
    ensures
        args.deep_view() == spec_default_build_args(),
{
    let mut args: Vec<String> = Vec::new();
    args.push(String::from_str("-e"));
    args.push(
        String::from_str(
            "$pdf_mode = 1 unless $pdf_mode != 0; if ($ARGV[-1] =~ /\\.log$/ or $ARGV[-1] =~ /latexmkrc$/) { exit 0; };",
        ),
    );
    args.push(String::from_str("-interaction=nonstopmode"));
    args.push(String::from_str("-synctex=1"));
    args.push(String::from_str("%f"));
    assert(args.deep_view() =~= spec_default_build_args());
    args
}

/// Fills in the default build command, unless the user has set a build
/// executable. Build arguments that the user has set are kept even then:
/// only members that are absent are filled in.
pub fn add_build_default(input_settings: TexlabSettings) -> (settings: TexlabSettings)
    ensures
        settings@ == spec_add_build_default(input_settings@),
{
    let mut settings = input_settings;
    let build = match settings.build {
        Some(build) => build,
        None => TexlabBuildSettings::default(),
    };
    if build.executable.is_some() {
        settings.build = Some(build);
        return settings;
    }
    let mut build = build;
    build.executable = Some(String::from_str("latexmk"));
    if build.args.is_none() {
        build.args = Some(default_build_args());
    }
    settings.build = Some(build);
    settings
}

/// Shows symbols as glyphs on hover, unless the user has a hover section.
pub fn add_hover_default(input_settings: TexlabSettings) -> (settings: TexlabSettings)
    ensures
        settings@ == spec_add_hover_default(input_settings@),
{
    let mut settings = input_settings;
    if settings.hover.is_none() {
        settings.hover = Some(TexlabHoverSettings { symbols: String::from_str("glyph") });
    }
    settings
}

/// Wires up forward and inverse search for a previewer, unless the user has
/// a forward-search section.
pub fn add_preview(
    previewer: &Preview,
    zed_command: CommandName,
    texlab_settings_with_defaults: TexlabSettings,
) -> (settings: TexlabSettings)
    ensures
        settings@ == spec_add_preview(previewer@, zed_command, texlab_settings_with_defaults@),
{
    let mut settings = texlab_settings_with_defaults;
    if settings.forward_search.is_some() {
        return settings;
    }
    let build = match settings.build {
        Some(build) => build,
        None => TexlabBuildSettings::default(),
    };
    settings.forward_search = Some(previewer.create_preset(zed_command));
    settings.build = Some(build.switch_on_onsave_fields_if_not_set());
    settings
}

/// Reads the language-server settings that the user provides. A value that
/// is there and does not have the expected shape is an error: the user's
/// intent is not dropped in silence.
pub fn provided(lsp_texlab_settings: Value) -> (read: Result<TexlabSettings, MergeError>)
    ensures
        (match read {
            Ok(settings) => Ok(settings@),
            Err(e) => Err(e),
        }) == spec_provided(lsp_texlab_settings@),
{
    match given(Some(lsp_texlab_settings)) {
        None => Ok(TexlabSettings::default()),
        Some(value) => match WorkspaceSettings::from_value(value) {
            Ok(settings) => Ok(
                match settings.texlab {
                    Some(texlab) => texlab,
                    None => TexlabSettings::default(),
                },
            ),
            Err(e) => Err(e),
        },
    }
}

/// The workspace settings to hand to the language server.
///
/// The user's settings are read; the build command and the hover setting
/// are filled in where they are absent; and where a previewer was detected
/// and the user has no forward-search section, the previewer's preset is
/// filled in and the two build flags that show the result are switched on
/// where they are not set. The only failure is a malformed value; nothing
/// is produced then.
pub fn get(previewer: &Option<Preview>, zed_command: CommandName, lsp_texlab_settings: Value) -> (merged:
    Result<WorkspaceSettings, MergeError>)
    ensures
        (match merged {
            Ok(settings) => Ok(settings@),
            Err(e) => Err(e),
        }) == spec_get(
            match previewer {
                Some(previewer) => Some(previewer@),
                None => None,
            },
            zed_command,
            lsp_texlab_settings@,
        ),
{
    let provided_texlab_settings = match provided(lsp_texlab_settings) {
        Ok(settings) => settings,
        Err(e) => {
            return Err(e);
        },
    };
    let texlab_settings_with_defaults = add_hover_default(
        add_build_default(provided_texlab_settings),
    );
    let settings_with_previewer = match previewer {
        Some(previewer) => add_preview(previewer, zed_command, texlab_settings_with_defaults),
        None => texlab_settings_with_defaults,
    };
    Ok(WorkspaceSettings { texlab: Some(settings_with_previewer) })
}

} // verus!
