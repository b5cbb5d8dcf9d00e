//! Settings that are written as a configuration value and read back are the
//! settings that were written.

use crate::json::{spec_field, ValueView};
use crate::texlab_workspace_config::types::{
    lemma_build_keys, lemma_forward_search_keys, lemma_texlab_keys, spec_bool_member,
    spec_bool_value, spec_build_member, spec_forward_search_member, spec_given,
    spec_hover_member, spec_put, spec_string_list_member, spec_string_list_value,
    spec_string_member, spec_string_value, spec_texts, Field, MergeError, TexlabBuildSettingsView,
    TexlabForwardSearchSettingsView, TexlabHoverSettingsView, TexlabSettingsView,
    WorkspaceSettingsView,
};
use vstd::prelude::*;

verus! {

/// An object without members has no member of any name.
pub proof fn lemma_field_of_none(key: Seq<char>)
    ensures
        spec_field(Seq::empty(), key) is None,
{
    reveal(spec_field);
}

/// After a value was written under a key, that key holds the value, and
/// every other key holds what it held before. Where nothing was written,
/// nothing has changed.
pub proof fn lemma_field_of_put(
    members: Seq<(Seq<char>, ValueView)>,
    key: Seq<char>,
    value: Option<ValueView>,
)
    ensures
        forall|other: Seq<char>| #[trigger]
            spec_field(spec_put(members, key, value), other) == if other == key && value is Some {
                value
            } else {
                spec_field(members, other)
            },
{
    reveal(spec_field);
    if value is Some {
        let pushed = members.push((key, value->Some_0));
        assert(pushed.last() == (key, value->Some_0));
        assert(pushed.drop_last() =~= members);
    }
}

/// A string that was written is read back.
pub proof fn lemma_string_round_trip(text: Option<Seq<char>>, field: Field)
    ensures
        spec_string_member(spec_string_value(text), field) == Ok::<Option<Seq<char>>, MergeError>(text),
{
}

/// A boolean that was written is read back.
pub proof fn lemma_bool_round_trip(flag: Option<bool>, field: Field)
    ensures
        spec_bool_member(spec_bool_value(flag), field) == Ok::<Option<bool>, MergeError>(flag),
{
}

/// A list of strings that was written is read back.
pub proof fn lemma_string_list_round_trip(list: Option<Seq<Seq<char>>>, field: Field)
    ensures
        spec_string_list_member(spec_string_list_value(list), field) == Ok::<
            Option<Seq<Seq<char>>>,
            MergeError,
        >(list),
{
    if list is Some {
        let texts = list->Some_0;
        let items = Seq::new(texts.len(), |i: int| ValueView::String(texts[i]));
        assert(spec_texts(items) =~= texts);
    }
}

/// A forward-search section that was written is read back.
pub proof fn lemma_forward_search_round_trip(settings: TexlabForwardSearchSettingsView)
    ensures
        TexlabForwardSearchSettingsView::from_value(settings.to_value()) == Ok::<_, MergeError>(settings),
{
    lemma_forward_search_keys();
    let m0 = Seq::<(Seq<char>, ValueView)>::empty();
    let m1 = spec_put(m0, "executable"@, spec_string_value(settings.executable));
    let m2 = spec_put(m1, "args"@, spec_string_list_value(settings.args));
    lemma_field_of_put(m0, "executable"@, spec_string_value(settings.executable));
    lemma_field_of_put(m1, "args"@, spec_string_list_value(settings.args));
    lemma_field_of_none("executable"@);
    lemma_field_of_none("args"@);
    assert(spec_field(m2, "executable"@) == spec_string_value(settings.executable));
    assert(spec_field(m2, "args"@) == spec_string_list_value(settings.args));
    lemma_string_round_trip(settings.executable, Field::ForwardSearchExecutable);
    lemma_string_list_round_trip(settings.args, Field::ForwardSearchArgs);
}

/// A hover section that was written is read back.
pub proof fn lemma_hover_round_trip(settings: TexlabHoverSettingsView)
    ensures
        TexlabHoverSettingsView::from_value(settings.to_value()) == Ok::<_, MergeError>(settings),
{
    let m0 = Seq::<(Seq<char>, ValueView)>::empty();
    lemma_field_of_put(m0, "symbols"@, Some(ValueView::String(settings.symbols)));
    assert(spec_put(m0, "symbols"@, Some(ValueView::String(settings.symbols))) =~= seq![
        ("symbols"@, ValueView::String(settings.symbols)),
    ]);
}

/// A build section that was written is read back, provided that none of the
/// members it carries through holds a null.
pub proof fn lemma_build_round_trip(settings: TexlabBuildSettingsView)
    requires
        settings.wf(),
    ensures
        TexlabBuildSettingsView::from_value(settings.to_value()) == Ok::<_, MergeError>(settings),
{
    lemma_build_keys();
    let executable = spec_string_value(settings.executable);
    let args = spec_string_list_value(settings.args);
    let forward_search_after = spec_bool_value(settings.forward_search_after);
    let on_save = spec_bool_value(settings.on_save);
    let m0 = Seq::<(Seq<char>, ValueView)>::empty();
    let m1 = spec_put(m0, "executable"@, executable);
    let m2 = spec_put(m1, "args"@, args);
    let m3 = spec_put(m2, "forwardSearchAfter"@, forward_search_after);
    let m4 = spec_put(m3, "onSave"@, on_save);
    let m5 = spec_put(m4, "useFileList"@, settings.use_file_list);
    let m6 = spec_put(m5, "auxDirectory"@, settings.aux_directory);
    let m7 = spec_put(m6, "logDirectory"@, settings.log_directory);
    let m8 = spec_put(m7, "pdfDirectory"@, settings.pdf_directory);
    lemma_field_of_put(m0, "executable"@, executable);
    lemma_field_of_put(m1, "args"@, args);
    lemma_field_of_put(m2, "forwardSearchAfter"@, forward_search_after);
    lemma_field_of_put(m3, "onSave"@, on_save);
    lemma_field_of_put(m4, "useFileList"@, settings.use_file_list);
    lemma_field_of_put(m5, "auxDirectory"@, settings.aux_directory);
    lemma_field_of_put(m6, "logDirectory"@, settings.log_directory);
    lemma_field_of_put(m7, "pdfDirectory"@, settings.pdf_directory);
    lemma_field_of_none("executable"@);
    lemma_field_of_none("args"@);
    lemma_field_of_none("forwardSearchAfter"@);
    lemma_field_of_none("onSave"@);
    lemma_field_of_none("useFileList"@);
    lemma_field_of_none("auxDirectory"@);
    lemma_field_of_none("logDirectory"@);
    lemma_field_of_none("pdfDirectory"@);
    assert(settings.members() == m8);
    assert(spec_field(m8, "executable"@) == executable);
    assert(spec_field(m8, "args"@) == args);
    assert(spec_field(m8, "forwardSearchAfter"@) == forward_search_after);
    assert(spec_field(m8, "onSave"@) == on_save);
    assert(spec_field(m8, "useFileList"@) == settings.use_file_list);
    assert(spec_field(m8, "auxDirectory"@) == settings.aux_directory);
    assert(spec_field(m8, "logDirectory"@) == settings.log_directory);
    assert(spec_field(m8, "pdfDirectory"@) == settings.pdf_directory);
    lemma_string_round_trip(settings.executable, Field::BuildExecutable);
    lemma_string_list_round_trip(settings.args, Field::BuildArgs);
    lemma_bool_round_trip(settings.forward_search_after, Field::BuildForwardSearchAfter);
    lemma_bool_round_trip(settings.on_save, Field::BuildOnSave);
}

/// Settings of the language server that were written are read back,
/// provided that none of the members they carry through holds a null.
pub proof fn lemma_texlab_round_trip(settings: TexlabSettingsView)
    requires
        settings.wf(),
    ensures
        TexlabSettingsView::from_value(settings.to_value()) == Ok::<_, MergeError>(settings),
{
    lemma_texlab_keys();
    let build = match settings.build {
        Some(build) => Some(build.to_value()),
        None => None,
    };
    let forward_search = match settings.forward_search {
        Some(forward_search) => Some(forward_search.to_value()),
        None => None,
    };
    let hover = match settings.hover {
        Some(hover) => Some(hover.to_value()),
        None => None,
    };
    let m0 = Seq::<(Seq<char>, ValueView)>::empty();
    let m1 = spec_put(m0, "build"@, build);
    let m2 = spec_put(m1, "forwardSearch"@, forward_search);
    let m3 = spec_put(m2, "hover"@, hover);
    let m4 = spec_put(m3, "chktex"@, settings.chktex);
    let m5 = spec_put(m4, "diagnostics"@, settings.diagnostics);
    let m6 = spec_put(m5, "diagnosticsDelay"@, settings.diagnostics_delay);
    let m7 = spec_put(m6, "symbols"@, settings.symbols);
    let m8 = spec_put(m7, "formatterLineLength"@, settings.formatter_line_length);
    let m9 = spec_put(m8, "bibtexFormatter"@, settings.bibtex_formatter);
    let m10 = spec_put(m9, "latexFormatter"@, settings.latex_formatter);
    let m11 = spec_put(m10, "latexindent"@, settings.latexindent);
    let m12 = spec_put(m11, "completion"@, settings.completion);
    let m13 = spec_put(m12, "inlayHints"@, settings.inlay_hints);
    let m14 = spec_put(m13, "experimental"@, settings.experimental);
    lemma_field_of_put(m0, "build"@, build);
    lemma_field_of_put(m1, "forwardSearch"@, forward_search);
    lemma_field_of_put(m2, "hover"@, hover);
    lemma_field_of_put(m3, "chktex"@, settings.chktex);
    lemma_field_of_put(m4, "diagnostics"@, settings.diagnostics);
    lemma_field_of_put(m5, "diagnosticsDelay"@, settings.diagnostics_delay);
    lemma_field_of_put(m6, "symbols"@, settings.symbols);
    lemma_field_of_put(m7, "formatterLineLength"@, settings.formatter_line_length);
    lemma_field_of_put(m8, "bibtexFormatter"@, settings.bibtex_formatter);
    lemma_field_of_put(m9, "latexFormatter"@, settings.latex_formatter);
    lemma_field_of_put(m10, "latexindent"@, settings.latexindent);
    lemma_field_of_put(m11, "completion"@, settings.completion);
    lemma_field_of_put(m12, "inlayHints"@, settings.inlay_hints);
    lemma_field_of_put(m13, "experimental"@, settings.experimental);
    lemma_field_of_none("build"@);
    lemma_field_of_none("forwardSearch"@);
    lemma_field_of_none("hover"@);
    lemma_field_of_none("chktex"@);
    lemma_field_of_none("diagnostics"@);
    lemma_field_of_none("diagnosticsDelay"@);
    lemma_field_of_none("symbols"@);
    lemma_field_of_none("formatterLineLength"@);
    lemma_field_of_none("bibtexFormatter"@);
    lemma_field_of_none("latexFormatter"@);
    lemma_field_of_none("latexindent"@);
    lemma_field_of_none("completion"@);
    lemma_field_of_none("inlayHints"@);
    lemma_field_of_none("experimental"@);
    assert(settings.members() == m14);
    assert(spec_field(m14, "build"@) == build);
    assert(spec_field(m14, "forwardSearch"@) == forward_search);
    assert(spec_field(m14, "hover"@) == hover);
    assert(spec_field(m14, "chktex"@) == settings.chktex);
    assert(spec_field(m14, "diagnostics"@) == settings.diagnostics);
    assert(spec_field(m14, "diagnosticsDelay"@) == settings.diagnostics_delay);
    assert(spec_field(m14, "symbols"@) == settings.symbols);
    assert(spec_field(m14, "formatterLineLength"@) == settings.formatter_line_length);
    assert(spec_field(m14, "bibtexFormatter"@) == settings.bibtex_formatter);
    assert(spec_field(m14, "latexFormatter"@) == settings.latex_formatter);
    assert(spec_field(m14, "latexindent"@) == settings.latexindent);
    assert(spec_field(m14, "completion"@) == settings.completion);
    assert(spec_field(m14, "inlayHints"@) == settings.inlay_hints);
    assert(spec_field(m14, "experimental"@) == settings.experimental);
    assert(spec_build_member(build) == Ok::<_, MergeError>(settings.build)) by {
        if settings.build is Some {
            lemma_build_round_trip(settings.build->Some_0);
        }
    }
    assert(spec_forward_search_member(forward_search) == Ok::<_, MergeError>(
        settings.forward_search,
    )) by {
        if settings.forward_search is Some {
            lemma_forward_search_round_trip(settings.forward_search->Some_0);
        }
    }
    assert(spec_hover_member(hover) == Ok::<_, MergeError>(settings.hover)) by {
        if settings.hover is Some {
            lemma_hover_round_trip(settings.hover->Some_0);
        }
    }
}

/// Workspace settings that were written are read back, provided that none
/// of the members they carry through holds a null.
pub proof fn lemma_workspace_round_trip(settings: WorkspaceSettingsView)
    requires
        settings.wf(),
    ensures
        WorkspaceSettingsView::from_value(settings.to_value()) == Ok::<_, MergeError>(settings),
{
    let texlab = match settings.texlab {
        Some(texlab) => Some(texlab.to_value()),
        None => None,
    };
    let m0 = Seq::<(Seq<char>, ValueView)>::empty();
    lemma_field_of_put(m0, "texlab"@, texlab);
    lemma_field_of_none("texlab"@);
    if settings.texlab is Some {
        lemma_texlab_round_trip(settings.texlab->Some_0);
    }
}

/// Settings that were read carry no null through: a member that is null is
/// read as a member that is not set.
pub proof fn lemma_read_is_wf(value: ValueView)
    ensures
        TexlabBuildSettingsView::from_value(value) matches Ok(build) ==> build.wf(),
        TexlabSettingsView::from_value(value) matches Ok(texlab) ==> texlab.wf(),
        WorkspaceSettingsView::from_value(value) matches Ok(settings) ==> settings.wf(),
{
}

} // verus!
