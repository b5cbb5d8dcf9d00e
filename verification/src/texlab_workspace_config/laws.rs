//! What the merge of defaults and previewer into the user's settings keeps
//! and what it fills in.

use crate::json::ValueView;
use crate::texlab_workspace_config::preview_presets::PreviewView;
use crate::texlab_workspace_config::round_trip::{lemma_read_is_wf, lemma_workspace_round_trip};
use crate::texlab_workspace_config::types::{
    spec_given, MergeError, TexlabBuildSettingsView, TexlabSettingsView, WorkspaceSettingsView,
};
use crate::texlab_workspace_config::{
    spec_add_build_default, spec_add_hover_default, spec_add_preview, spec_get, spec_merge,
    spec_provided,
};
use crate::zed_command::CommandName;
use crate::LatexExtensionView;
use vstd::prelude::*;

verus! {

/// Whether a build section keeps every member that is set in another.
pub open spec fn spec_build_keeps(
    provided: TexlabBuildSettingsView,
    merged: TexlabBuildSettingsView,
) -> bool {
    &&& provided.executable is Some ==> merged.executable == provided.executable
    &&& provided.args is Some ==> merged.args == provided.args
    &&& provided.forward_search_after is Some ==> merged.forward_search_after
        == provided.forward_search_after
    &&& provided.on_save is Some ==> merged.on_save == provided.on_save
    &&& provided.use_file_list is Some ==> merged.use_file_list == provided.use_file_list
    &&& provided.aux_directory is Some ==> merged.aux_directory == provided.aux_directory
    &&& provided.log_directory is Some ==> merged.log_directory == provided.log_directory
    &&& provided.pdf_directory is Some ==> merged.pdf_directory == provided.pdf_directory
}

/// Whether settings keep every member that is set in others: the members
/// of the build section one by one, every other member as a whole.
pub open spec fn spec_keeps(provided: TexlabSettingsView, merged: TexlabSettingsView) -> bool {
    &&& provided.build matches Some(build) ==> (merged.build matches Some(kept)
        && spec_build_keeps(build, kept))
    &&& provided.forward_search is Some ==> merged.forward_search == provided.forward_search
    &&& provided.hover is Some ==> merged.hover == provided.hover
    &&& provided.chktex is Some ==> merged.chktex == provided.chktex
    &&& provided.diagnostics is Some ==> merged.diagnostics == provided.diagnostics
    &&& provided.diagnostics_delay is Some ==> merged.diagnostics_delay
        == provided.diagnostics_delay
    &&& provided.symbols is Some ==> merged.symbols == provided.symbols
    &&& provided.formatter_line_length is Some ==> merged.formatter_line_length
        == provided.formatter_line_length
    &&& provided.bibtex_formatter is Some ==> merged.bibtex_formatter == provided.bibtex_formatter
    &&& provided.latex_formatter is Some ==> merged.latex_formatter == provided.latex_formatter
    &&& provided.latexindent is Some ==> merged.latexindent == provided.latexindent
    &&& provided.completion is Some ==> merged.completion == provided.completion
    &&& provided.inlay_hints is Some ==> merged.inlay_hints == provided.inlay_hints
    &&& provided.experimental is Some ==> merged.experimental == provided.experimental
}

/// Nothing that the user has set is overwritten: every member that is set
/// in the user's settings comes out of the merge as it went in, whatever
/// previewer was detected. The merge only fills in members that are absent.
pub proof fn lemma_nothing_set_is_overwritten(
    previewer: Option<PreviewView>,
    zed_command: CommandName,
    provided: TexlabSettingsView,
)
    ensures
        spec_keeps(provided, spec_merge(previewer, zed_command, provided)),
        spec_keeps(provided, spec_add_build_default(provided)),
        spec_keeps(provided, spec_add_hover_default(provided)),
        previewer matches Some(previewer) ==> spec_keeps(
            provided,
            spec_add_preview(previewer, zed_command, provided),
        ),
{
}

/// Build arguments that the user has set come out of the merge as they went
/// in, with or without a build executable beside them: the default build
/// command brings its arguments only where there are none.
pub proof fn lemma_build_arguments_are_kept(
    previewer: Option<PreviewView>,
    zed_command: CommandName,
    value: ValueView,
)
    requires
        spec_provided(value) matches Ok(provided) && (provided.build matches Some(build)
            && build.args is Some),
    ensures
        spec_get(previewer, zed_command, value) matches Ok(merged) && (merged.texlab matches Some(
            texlab,
        ) && (texlab.build matches Some(build) && build.args == spec_provided(
            value,
        )->Ok_0.build->Some_0.args)),
{
}

/// A build executable that the user has set comes out of the merge as it
/// went in, and so do the build arguments beside it: the default build
/// command replaces neither.
pub proof fn lemma_build_executable_is_kept(
    previewer: Option<PreviewView>,
    zed_command: CommandName,
    value: ValueView,
)
    requires
        spec_provided(value) matches Ok(provided) && (provided.build matches Some(build)
            && build.executable is Some),
    ensures
        spec_get(previewer, zed_command, value) matches Ok(merged) && (merged.texlab matches Some(
            texlab,
        ) && (texlab.build matches Some(build) && build.executable == spec_provided(
            value,
        )->Ok_0.build->Some_0.executable && build.args == spec_provided(
            value,
        )->Ok_0.build->Some_0.args)),
{
}

/// A forward-search section that the user has set comes out of the merge as
/// it went in, whatever previewer was detected, and the build section beside
/// it is not touched by the previewer either.
pub proof fn lemma_forward_search_is_kept(
    previewer: Option<PreviewView>,
    zed_command: CommandName,
    value: ValueView,
)
    requires
        spec_provided(value) matches Ok(provided) && provided.forward_search is Some,
    ensures
        spec_get(previewer, zed_command, value) matches Ok(merged) && (merged.texlab matches Some(
            texlab,
        ) && texlab.forward_search == spec_provided(value)->Ok_0.forward_search),
        spec_get(previewer, zed_command, value) == spec_get(None, zed_command, value),
{
}

/// Where the user has no forward-search section and a previewer was
/// detected, the forward-search section of the merged settings is exactly
/// the previewer's preset for the editor's command.
pub proof fn lemma_forward_search_is_the_preset(
    previewer: PreviewView,
    zed_command: CommandName,
    value: ValueView,
)
    requires
        spec_provided(value) matches Ok(provided) && provided.forward_search is None,
    ensures
        spec_get(Some(previewer), zed_command, value) matches Ok(merged) && (
        merged.texlab matches Some(texlab) && texlab.forward_search == Some(
            previewer.create_preset(zed_command),
        )),
{
}

/// Where no previewer was detected, the merged settings have a
/// forward-search section only if the user has one.
pub proof fn lemma_no_previewer_no_forward_search(zed_command: CommandName, value: ValueView)
    requires
        spec_provided(value) is Ok,
    ensures
        spec_get(None, zed_command, value) matches Ok(merged) && (merged.texlab matches Some(
            texlab,
        ) && texlab.forward_search == spec_provided(value)->Ok_0.forward_search),
{
}

/// A build flag that the user has set, to either value, comes out of the
/// merge as it went in: the previewer switches a flag on only where it is
/// not set. A build after each save that the user has switched off stays
/// off.
pub proof fn lemma_build_flags_are_kept(
    previewer: Option<PreviewView>,
    zed_command: CommandName,
    value: ValueView,
)
    requires
        spec_provided(value) matches Ok(provided) && provided.build is Some,
    ensures
        spec_get(previewer, zed_command, value) matches Ok(merged) && (merged.texlab matches Some(
            texlab,
        ) && (texlab.build matches Some(build) && (spec_provided(
            value,
        )->Ok_0.build->Some_0.on_save is Some ==> build.on_save == spec_provided(
            value,
        )->Ok_0.build->Some_0.on_save) && (spec_provided(
            value,
        )->Ok_0.build->Some_0.forward_search_after is Some ==> build.forward_search_after
            == spec_provided(value)->Ok_0.build->Some_0.forward_search_after))),
{
}

/// The merge fills in every member that it can: merging into settings that
/// came out of the same merge changes nothing.
pub proof fn lemma_merge_is_idempotent(
    previewer: Option<PreviewView>,
    zed_command: CommandName,
    provided: TexlabSettingsView,
)
    ensures
        spec_merge(previewer, zed_command, spec_merge(previewer, zed_command, provided))
            == spec_merge(previewer, zed_command, provided),
{
}

/// The merge carries no null through where the user's settings carry none.
pub proof fn lemma_merge_keeps_wf(
    previewer: Option<PreviewView>,
    zed_command: CommandName,
    provided: TexlabSettingsView,
)
    requires
        provided.wf(),
    ensures
        spec_merge(previewer, zed_command, provided).wf(),
{
}

/// Merging twice is merging once: where the merged settings are written as
/// a configuration value and handed back in as the user's settings, the
/// second merge returns what the first returned.
pub proof fn lemma_get_is_idempotent(
    previewer: Option<PreviewView>,
    zed_command: CommandName,
    value: ValueView,
)
    requires
        spec_get(previewer, zed_command, value) is Ok,
    ensures
        spec_get(previewer, zed_command, spec_get(previewer, zed_command, value)->Ok_0.to_value())
            == spec_get(previewer, zed_command, value),
{
    let provided = spec_provided(value)->Ok_0;
    let merged = spec_get(previewer, zed_command, value)->Ok_0;
    assert(provided.wf()) by {
        if spec_given(Some(value)) is Some {
            lemma_read_is_wf(value);
        }
    }
    lemma_merge_keeps_wf(previewer, zed_command, provided);
    lemma_workspace_round_trip(merged);
    lemma_merge_is_idempotent(previewer, zed_command, provided);
    assert(spec_provided(merged.to_value()) == Ok::<_, MergeError>(merged.texlab->Some_0));
}

/// A value that does not have the shape of the settings yields the error
/// and nothing else, whatever previewer was detected.
pub proof fn lemma_malformed_is_an_error(
    previewer: Option<PreviewView>,
    zed_command: CommandName,
    value: ValueView,
)
    ensures
        spec_get(previewer, zed_command, value) is Err <==> spec_given(Some(value)) is Some
            && WorkspaceSettingsView::from_value(value) is Err,
        spec_get(previewer, zed_command, value) matches Err(e) ==> WorkspaceSettingsView::from_value(
            value,
        ) == Err::<WorkspaceSettingsView, _>(e),
{
}

/// A workspace configuration that is handed back in as the user's settings
/// comes out unchanged.
pub proof fn lemma_workspace_configuration_is_idempotent(
    extension: LatexExtensionView,
    settings: ValueView,
)
    requires
        extension.workspace_configuration(settings) is Ok,
    ensures
        extension.workspace_configuration(settings) matches Ok(Some(configuration))
            && extension.workspace_configuration(configuration) == Ok::<_, MergeError>(
            Some(configuration),
        ),
{
    lemma_get_is_idempotent(extension.previewer, extension.command_name(), settings);
}

} // verus!
