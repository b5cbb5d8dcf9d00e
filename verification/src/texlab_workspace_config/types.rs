//! The workspace settings of the TeXLab language server, and how they are
//! read from and written to configuration values.
//!
//! Every section and every member is optional. A member that is present
//! with the wrong shape is an error; a member that the schema does not know
//! is ignored. The forward-search section matters most outside this module:
//! it is filled in from the previewer that was detected.

use crate::json::{
    items_view, lemma_array_view, lemma_object_view, members_view, spec_field, take_field, Value,
    ValueView,
};
use vstd::prelude::*;
use vstd::string::*;

verus! {

/// A place in the settings tree whose shape is prescribed.
#[derive(Copy, Clone, Debug, PartialEq, Eq, Structural)]
pub enum Field {
    /// The settings as a whole: an object.
    Settings,
    /// `texlab`: an object.
    Texlab,
    /// `texlab.build`: an object.
    Build,
    /// `texlab.build.executable`: a string.
    BuildExecutable,
    /// `texlab.build.args`: an array of strings.
    BuildArgs,
    /// `texlab.build.forwardSearchAfter`: a boolean.
    BuildForwardSearchAfter,
    /// `texlab.build.onSave`: a boolean.
    BuildOnSave,
    /// `texlab.forwardSearch`: an object.
    ForwardSearch,
    /// `texlab.forwardSearch.executable`: a string.
    ForwardSearchExecutable,
    /// `texlab.forwardSearch.args`: an array of strings.
    ForwardSearchArgs,
    /// `texlab.hover`: an object.
    Hover,
    /// `texlab.hover.symbols`: a string, which a hover section must have.
    HoverSymbols,
}

/// The user's settings do not have the expected shape at `field`.
#[derive(Copy, Clone, Debug, PartialEq, Eq, Structural)]
pub struct MergeError {
    pub field: Field,
}

impl Field {
    /// Where the field stands in the settings tree.
    pub open spec fn spec_path(self) -> Seq<char> {
        match self {
            Field::Settings => "settings"@,
            Field::Texlab => "texlab"@,
            Field::Build => "texlab.build"@,
            Field::BuildExecutable => "texlab.build.executable"@,
            Field::BuildArgs => "texlab.build.args"@,
            Field::BuildForwardSearchAfter => "texlab.build.forwardSearchAfter"@,
            Field::BuildOnSave => "texlab.build.onSave"@,
            Field::ForwardSearch => "texlab.forwardSearch"@,
            Field::ForwardSearchExecutable => "texlab.forwardSearch.executable"@,
            Field::ForwardSearchArgs => "texlab.forwardSearch.args"@,
            Field::Hover => "texlab.hover"@,
            Field::HoverSymbols => "texlab.hover.symbols"@,
        }
    }

    /// The shape that the field must have.
    pub open spec fn spec_expected(self) -> Seq<char> {
        match self {
            Field::Settings | Field::Texlab | Field::Build | Field::ForwardSearch | Field::Hover =>
                "an object"@,
            Field::BuildExecutable | Field::ForwardSearchExecutable | Field::HoverSymbols =>
                "a string"@,
            Field::BuildArgs | Field::ForwardSearchArgs => "an array of strings"@,
            Field::BuildForwardSearchAfter | Field::BuildOnSave => "a boolean"@,
        }
    }

    /// Where the field stands in the settings tree.
    pub fn path(&self) -> (path: &'static str)
        ensures
            path@ == self.spec_path(),
    {
        match self {
            Field::Settings => "settings",
            Field::Texlab => "texlab",
            Field::Build => "texlab.build",
            Field::BuildExecutable => "texlab.build.executable",
            Field::BuildArgs => "texlab.build.args",
            Field::BuildForwardSearchAfter => "texlab.build.forwardSearchAfter",
            Field::BuildOnSave => "texlab.build.onSave",
            Field::ForwardSearch => "texlab.forwardSearch",
            Field::ForwardSearchExecutable => "texlab.forwardSearch.executable",
            Field::ForwardSearchArgs => "texlab.forwardSearch.args",
            Field::Hover => "texlab.hover",
            Field::HoverSymbols => "texlab.hover.symbols",
        }
    }

    /// The shape that the field must have.
    pub fn expected(&self) -> (shape: &'static str)
        ensures
            shape@ == self.spec_expected(),
    {
        match self {
            Field::Settings | Field::Texlab | Field::Build | Field::ForwardSearch | Field::Hover =>
                "an object",
            Field::BuildExecutable | Field::ForwardSearchExecutable | Field::HoverSymbols =>
                "a string",
            Field::BuildArgs | Field::ForwardSearchArgs => "an array of strings",
            Field::BuildForwardSearchAfter | Field::BuildOnSave => "a boolean",
        }
    }
}

impl MergeError {
    /// The text of the error: the field and the shape it must have.
    pub open spec fn spec_message(self) -> Seq<char> {
        "invalid settings: "@ + self.field.spec_path() + " must be "@ + self.field.spec_expected()
    }

    /// A description of the error for the user.
    pub fn message(&self) -> (text: String)
        ensures
            text@ == self.spec_message(),
    {
        let mut text = String::from_str("invalid settings: ");
        text.append(self.field.path());
        text.append(" must be ");
        text.append(self.field.expected());
        text
    }
}

/// A member that is given: one that is there and is not null.
pub open spec fn spec_given(member: Option<ValueView>) -> Option<ValueView> {
    match member {
        Some(ValueView::Null) | None => None,
        Some(value) => Some(value),
    }
}

/// An optional string member.
pub open spec fn spec_string_member(member: Option<ValueView>, field: Field) -> Result<
    Option<Seq<char>>,
    MergeError,
> {
    match spec_given(member) {
        None => Ok(None),
        Some(ValueView::String(text)) => Ok(Some(text)),
        Some(_) => Err(MergeError { field }),
    }
}

/// An optional boolean member.
pub open spec fn spec_bool_member(member: Option<ValueView>, field: Field) -> Result<
    Option<bool>,
    MergeError,
> {
    match spec_given(member) {
        None => Ok(None),
        Some(ValueView::Bool(flag)) => Ok(Some(flag)),
        Some(_) => Err(MergeError { field }),
    }
}

/// Whether every item is a string.
pub open spec fn spec_all_strings(items: Seq<ValueView>) -> bool {
    forall|i: int| 0 <= i < items.len() ==> items[i] is String
}

/// The texts of items that are strings.
pub open spec fn spec_texts(items: Seq<ValueView>) -> Seq<Seq<char>> {
    Seq::new(items.len(), |i: int| items[i]->String_0)
}

/// An optional member that is an array of strings.
pub open spec fn spec_string_list_member(member: Option<ValueView>, field: Field) -> Result<
    Option<Seq<Seq<char>>>,
    MergeError,
> {
    match spec_given(member) {
        None => Ok(None),
        Some(ValueView::Array(items)) => if spec_all_strings(items) {
            Ok(Some(spec_texts(items)))
        } else {
            Err(MergeError { field })
        },
        Some(_) => Err(MergeError { field }),
    }
}

/// The members of an object after `value`, where there is one, was written
/// under `key`.
pub open spec fn spec_put(
    members: Seq<(Seq<char>, ValueView)>,
    key: Seq<char>,
    value: Option<ValueView>,
) -> Seq<(Seq<char>, ValueView)> {
    match value {
        Some(value) => members.push((key, value)),
        None => members,
    }
}

/// A string as a configuration value.
pub open spec fn spec_string_value(text: Option<Seq<char>>) -> Option<ValueView> {
    match text {
        Some(text) => Some(ValueView::String(text)),
        None => None,
    }
}

/// A boolean as a configuration value.
pub open spec fn spec_bool_value(flag: Option<bool>) -> Option<ValueView> {
    match flag {
        Some(flag) => Some(ValueView::Bool(flag)),
        None => None,
    }
}

/// A list of strings as a configuration value.
pub open spec fn spec_string_list_value(list: Option<Seq<Seq<char>>>) -> Option<ValueView> {
    match list {
        Some(list) => Some(
            ValueView::Array(Seq::new(list.len(), |i: int| ValueView::String(list[i]))),
        ),
        None => None,
    }
}

/// Mathematical content of a value that may be absent.
pub open spec fn opt_view<T: View>(value: Option<T>) -> Option<T::V> {
    match value {
        Some(value) => Some(value@),
        None => None,
    }
}

/// What tells two member names of a section apart: their length and their
/// first character.
pub open spec fn spec_mark(key: Seq<char>) -> (nat, char) {
    (key.len(), key[0])
}

/// A member that is given: one that is there and is not null.
pub fn given(member: Option<Value>) -> (value: Option<Value>)
    ensures
        opt_view(value) == spec_given(opt_view(member)),
{
    match member {
        Some(Value::Null) => None,
        other => other,
    }
}

/// Reads an optional string member.
pub fn string_member(member: Option<Value>, field: Field) -> (read: Result<
    Option<String>,
    MergeError,
>)
    ensures
        (match read {
            Ok(text) => Ok(text.deep_view()),
            Err(e) => Err(e),
        }) == spec_string_member(opt_view(member), field),
{
    match given(member) {
        None => Ok(None),
        Some(Value::String(text)) => Ok(Some(text)),
        Some(_) => Err(MergeError { field }),
    }
}

/// Reads an optional boolean member.
pub fn bool_member(member: Option<Value>, field: Field) -> (read: Result<Option<bool>, MergeError>)
    ensures
        read == spec_bool_member(opt_view(member), field),
{
    match given(member) {
        None => Ok(None),
        Some(Value::Bool(flag)) => Ok(Some(flag)),
        Some(_) => Err(MergeError { field }),
    }
}

/// Reads an optional member that is an array of strings.
pub fn string_list_member(member: Option<Value>, field: Field) -> (read: Result<
    Option<Vec<String>>,
    MergeError,
>)
    ensures
        (match read {
            Ok(list) => Ok(list.deep_view()),
            Err(e) => Err(e),
        }) == spec_string_list_member(opt_view(member), field),
{
    let ghost expected = spec_string_list_member(opt_view(member), field);
    match given(member) {
        None => Ok(None),
        Some(Value::Array(items)) => {
            proof {
                lemma_array_view(items);
            }
            let ghost all = items_view(items@);
            let mut list: Vec<String> = Vec::new();
            let mut i: usize = 0;
            while i < items.len()
                invariant
                    i <= items.len(),
                    all == items_view(items@),
                    expected == spec_string_list_member(opt_view(member), field),
                    expected == if spec_all_strings(all) {
                        Ok::<Option<Seq<Seq<char>>>, MergeError>(Some(spec_texts(all)))
                    } else {
                        Err(MergeError { field })
                    },
                    list.len() == i,
                    forall|j: int| 0 <= j < i ==> all[j] is String,
                    forall|j: int| 0 <= j < i ==> list[j]@ == all[j]->String_0,
                decreases items.len() - i,
            {
                match &items[i] {
                    Value::String(text) => {
                        list.push(text.clone());
                    },
                    _ => {
                        assert(!(all[i as int] is String));
                        return Err(MergeError { field });
                    },
                }
                i += 1;
            }
            assert(list.deep_view() =~= spec_texts(all));
            Ok(Some(list))
        },
        Some(_) => Err(MergeError { field }),
    }
}

/// Writes `value`, where there is one, under `key`.
pub fn put(members: &mut Vec<(String, Value)>, key: &str, value: Option<Value>)
    ensures
        members_view(final(members)@) == spec_put(
            members_view(old(members)@),
            key@,
            opt_view(value),
        ),
{
    match value {
        Some(value) => {
            members.push((String::from_str(key), value));
            assert(members_view(members@) =~= members_view(old(members)@).push((key@, value@)));
        },
        None => {},
    }
}

/// A string as a configuration value.
pub fn string_value(text: Option<String>) -> (value: Option<Value>)
    ensures
        opt_view(value) == spec_string_value(text.deep_view()),
{
    match text {
        Some(text) => Some(Value::String(text)),
        None => None,
    }
}

/// A boolean as a configuration value.
pub fn bool_value(flag: Option<bool>) -> (value: Option<Value>)
    ensures
        opt_view(value) == spec_bool_value(flag),
{
    match flag {
        Some(flag) => Some(Value::Bool(flag)),
        None => None,
    }
}

/// A list of strings as a configuration value.
pub fn string_list_value(list: Option<Vec<String>>) -> (value: Option<Value>)
    ensures
        opt_view(value) == spec_string_list_value(list.deep_view()),
{
    match list {
        Some(list) => {
            let ghost texts = list.deep_view();
            let mut items: Vec<Value> = Vec::new();
            let mut i: usize = 0;
            while i < list.len()
                invariant
                    i <= list.len(),
                    texts == list.deep_view(),
                    items.len() == i,
                    forall|j: int| 0 <= j < i ==> items[j]@ == ValueView::String(texts[j]),
                decreases list.len() - i,
            {
                items.push(Value::String(list[i].clone()));
                i += 1;
            }
            proof {
                lemma_array_view(items);
                assert(items_view(items@) =~= Seq::new(
                    texts.len(),
                    |i: int| ValueView::String(texts[i]),
                ));
            }
            Some(Value::Array(items))
        },
        None => None,
    }
}

/// How a PDF viewer is invoked to show the place that belongs to a source
/// line.
#[derive(Clone, Debug, PartialEq, Eq)]
pub struct TexlabForwardSearchSettings {
    pub executable: Option<String>,
    pub args: Option<Vec<String>>,
}

/// Mathematical content of [`TexlabForwardSearchSettings`].
pub struct TexlabForwardSearchSettingsView {
    pub executable: Option<Seq<char>>,
    pub args: Option<Seq<Seq<char>>>,
}

impl View for TexlabForwardSearchSettings {
    type V = TexlabForwardSearchSettingsView;

    open spec fn view(&self) -> TexlabForwardSearchSettingsView {
        TexlabForwardSearchSettingsView {
            executable: self.executable.deep_view(),
            args: self.args.deep_view(),
        }
    }
}

impl TexlabForwardSearchSettingsView {
    /// The section with nothing set.
    pub open spec fn empty() -> Self {
        TexlabForwardSearchSettingsView { executable: None, args: None }
    }

    /// The section that a configuration value holds.
    pub open spec fn from_value(value: ValueView) -> Result<Self, MergeError> {
        match value {
            ValueView::Object(members) => {
                let executable = spec_string_member(
                    spec_field(members, "executable"@),
                    Field::ForwardSearchExecutable,
                );
                let args = spec_string_list_member(
                    spec_field(members, "args"@),
                    Field::ForwardSearchArgs,
                );
                if executable is Err {
                    Err(executable->Err_0)
                } else if args is Err {
                    Err(args->Err_0)
                } else {
                    Ok(
                        TexlabForwardSearchSettingsView {
                            executable: executable->Ok_0,
                            args: args->Ok_0,
                        },
                    )
                }
            },
            _ => Err(MergeError { field: Field::ForwardSearch }),
        }
    }

    /// The members that are set, in the order of the schema.
    pub open spec fn members(self) -> Seq<(Seq<char>, ValueView)> {
        let members = Seq::empty();
        let members = spec_put(members, "executable"@, spec_string_value(self.executable));
        let members = spec_put(members, "args"@, spec_string_list_value(self.args));
        members
    }

    /// The section as a configuration value: an object of the members that
    /// are set.
    pub open spec fn to_value(self) -> ValueView {
        ValueView::Object(self.members())
    }
}

/// The member names of the forward-search section differ from one another.
pub proof fn lemma_forward_search_keys()
    ensures
        spec_mark("executable"@) == (10nat, 'e'),
        spec_mark("args"@) == (4nat, 'a'),
{
    reveal_strlit("executable");
    reveal_strlit("args");
}

impl Default for TexlabForwardSearchSettings {
    fn default() -> (settings: Self)
        ensures
            settings@ == TexlabForwardSearchSettingsView::empty(),
    {
        TexlabForwardSearchSettings { executable: None, args: None }
    }
}

impl TexlabForwardSearchSettings {
    /// Reads the section from a configuration value.
    pub fn from_value(value: Value) -> (read: Result<Self, MergeError>)
        ensures
            (match read {
                Ok(settings) => Ok(settings@),
                Err(e) => Err(e),
            }) == TexlabForwardSearchSettingsView::from_value(value@),
    {
        match value {
            Value::Object(members) => {
                let mut members = members;
                proof {
                    lemma_object_view(members);
                    lemma_forward_search_keys();
                }
                let executable = string_member(
                    take_field(&mut members, "executable"),
                    Field::ForwardSearchExecutable,
                );
                let args = string_list_member(
                    take_field(&mut members, "args"),
                    Field::ForwardSearchArgs,
                );
                match executable {
                    Err(e) => Err(e),
                    Ok(executable) => match args {
                        Err(e) => Err(e),
                        Ok(args) => Ok(TexlabForwardSearchSettings { executable, args }),
                    },
                }
            },
            _ => Err(MergeError { field: Field::ForwardSearch }),
        }
    }

    /// Writes the section as a configuration value. Members that are not set
    /// are left out.
    pub fn into_value(self) -> (value: Value)
        ensures
            value@ == self@.to_value(),
    {
        let mut members: Vec<(String, Value)> = Vec::new();
        assert(members_view(members@) =~= Seq::empty());
        put(&mut members, "executable", string_value(self.executable));
        put(&mut members, "args", string_list_value(self.args));
        proof {
            lemma_object_view(members);
        }
        Value::Object(members)
    }
}

/// How symbols are shown when the pointer hovers over a command.
#[derive(Clone, Debug, PartialEq, Eq)]
pub struct TexlabHoverSettings {
    pub symbols: String,
}

/// Mathematical content of [`TexlabHoverSettings`].
pub struct TexlabHoverSettingsView {
    pub symbols: Seq<char>,
}

impl View for TexlabHoverSettings {
    type V = TexlabHoverSettingsView;

    open spec fn view(&self) -> TexlabHoverSettingsView {
        TexlabHoverSettingsView { symbols: self.symbols@ }
    }
}

impl TexlabHoverSettingsView {
    /// The section that a configuration value holds.
    pub open spec fn from_value(value: ValueView) -> Result<Self, MergeError> {
        match value {
            ValueView::Object(members) => match spec_field(members, "symbols"@) {
                Some(ValueView::String(symbols)) => Ok(TexlabHoverSettingsView { symbols }),
                _ => Err(MergeError { field: Field::HoverSymbols }),
            },
            _ => Err(MergeError { field: Field::Hover }),
        }
    }

    /// The section as a configuration value.
    pub open spec fn to_value(self) -> ValueView {
        ValueView::Object(seq![("symbols"@, ValueView::String(self.symbols))])
    }
}

impl TexlabHoverSettings {
    /// Reads the section from a configuration value.
    pub fn from_value(value: Value) -> (read: Result<Self, MergeError>)
        ensures
            (match read {
                Ok(settings) => Ok(settings@),
                Err(e) => Err(e),
            }) == TexlabHoverSettingsView::from_value(value@),
    {
        match value {
            Value::Object(members) => {
                let mut members = members;
                proof {
                    lemma_object_view(members);
                }
                match take_field(&mut members, "symbols") {
                    Some(Value::String(symbols)) => Ok(TexlabHoverSettings { symbols }),
                    _ => Err(MergeError { field: Field::HoverSymbols }),
                }
            },
            _ => Err(MergeError { field: Field::Hover }),
        }
    }

    /// Writes the section as a configuration value.
    pub fn into_value(self) -> (value: Value)
        ensures
            value@ == self@.to_value(),
    {
        let mut members: Vec<(String, Value)> = Vec::new();
        members.push((String::from_str("symbols"), Value::String(self.symbols)));
        proof {
            lemma_object_view(members);
            assert(members_view(members@) =~= seq![
                ("symbols"@, ValueView::String(self.symbols@)),
            ]);
        }
        Value::Object(members)
    }
}

/// How the document is built.
#[derive(Clone, Debug, PartialEq, Eq)]
pub struct TexlabBuildSettings {
    pub executable: Option<String>,
    pub args: Option<Vec<String>>,
    pub forward_search_after: Option<bool>,
    pub on_save: Option<bool>,
    pub use_file_list: Option<Value>,
    pub aux_directory: Option<Value>,
    pub log_directory: Option<Value>,
    pub pdf_directory: Option<Value>,
}

/// Mathematical content of [`TexlabBuildSettings`].
pub struct TexlabBuildSettingsView {
    pub executable: Option<Seq<char>>,
    pub args: Option<Seq<Seq<char>>>,
    pub forward_search_after: Option<bool>,
    pub on_save: Option<bool>,
    pub use_file_list: Option<ValueView>,
    pub aux_directory: Option<ValueView>,
    pub log_directory: Option<ValueView>,
    pub pdf_directory: Option<ValueView>,
}

impl View for TexlabBuildSettings {
    type V = TexlabBuildSettingsView;

    open spec fn view(&self) -> TexlabBuildSettingsView {
        TexlabBuildSettingsView {
            executable: self.executable.deep_view(),
            args: self.args.deep_view(),
            forward_search_after: self.forward_search_after,
            on_save: self.on_save,
            use_file_list: opt_view(self.use_file_list),
            aux_directory: opt_view(self.aux_directory),
            log_directory: opt_view(self.log_directory),
            pdf_directory: opt_view(self.pdf_directory),
        }
    }
}

impl TexlabBuildSettingsView {
    /// The section with nothing set.
    pub open spec fn empty() -> Self {
        TexlabBuildSettingsView {
            executable: None,
            args: None,
            forward_search_after: None,
            on_save: None,
            use_file_list: None,
            aux_directory: None,
            log_directory: None,
            pdf_directory: None,
        }
    }

    /// No member that is carried through holds a null: a null stands for a
    /// member that is not set.
    pub open spec fn wf(self) -> bool {
        &&& self.use_file_list != Some(ValueView::Null)
        &&& self.aux_directory != Some(ValueView::Null)
        &&& self.log_directory != Some(ValueView::Null)
        &&& self.pdf_directory != Some(ValueView::Null)
    }

    /// The section with the two flags that show a build and its result
    /// switched on, each only where it is not set.
    pub open spec fn switch_on_onsave_fields_if_not_set(self) -> Self {
        TexlabBuildSettingsView {
            forward_search_after: if self.forward_search_after is None {
                Some(true)
            } else {
                self.forward_search_after
            },
            on_save: if self.on_save is None {
                Some(true)
            } else {
                self.on_save
            },
            ..self
        }
    }

    /// The section that a configuration value holds.
    pub open spec fn from_value(value: ValueView) -> Result<Self, MergeError> {
        match value {
            ValueView::Object(members) => {
                let executable = spec_string_member(
                    spec_field(members, "executable"@),
                    Field::BuildExecutable,
                );
                let args = spec_string_list_member(spec_field(members, "args"@), Field::BuildArgs);
                let forward_search_after = spec_bool_member(
                    spec_field(members, "forwardSearchAfter"@),
                    Field::BuildForwardSearchAfter,
                );
                let on_save = spec_bool_member(spec_field(members, "onSave"@), Field::BuildOnSave);
                if executable is Err {
                    Err(executable->Err_0)
                } else if args is Err {
                    Err(args->Err_0)
                } else if forward_search_after is Err {
                    Err(forward_search_after->Err_0)
                } else if on_save is Err {
                    Err(on_save->Err_0)
                } else {
                    Ok(
                        TexlabBuildSettingsView {
                            executable: executable->Ok_0,
                            args: args->Ok_0,
                            forward_search_after: forward_search_after->Ok_0,
                            on_save: on_save->Ok_0,
                            use_file_list: spec_given(spec_field(members, "useFileList"@)),
                            aux_directory: spec_given(spec_field(members, "auxDirectory"@)),
                            log_directory: spec_given(spec_field(members, "logDirectory"@)),
                            pdf_directory: spec_given(spec_field(members, "pdfDirectory"@)),
                        },
                    )
                }
            },
            _ => Err(MergeError { field: Field::Build }),
        }
    }

    /// The members that are set, in the order of the schema.
    pub open spec fn members(self) -> Seq<(Seq<char>, ValueView)> {
        let members = Seq::empty();
        let members = spec_put(members, "executable"@, spec_string_value(self.executable));
        let members = spec_put(members, "args"@, spec_string_list_value(self.args));
        let members = spec_put(
            members,
            "forwardSearchAfter"@,
            spec_bool_value(self.forward_search_after),
        );
        let members = spec_put(members, "onSave"@, spec_bool_value(self.on_save));
        let members = spec_put(members, "useFileList"@, self.use_file_list);
        let members = spec_put(members, "auxDirectory"@, self.aux_directory);
        let members = spec_put(members, "logDirectory"@, self.log_directory);
        let members = spec_put(members, "pdfDirectory"@, self.pdf_directory);
        members
    }

    /// The section as a configuration value: an object of the members that
    /// are set.
    pub open spec fn to_value(self) -> ValueView {
        ValueView::Object(self.members())
    }
}

/// The member names of the build section differ from one another.
pub proof fn lemma_build_keys()
    ensures
        spec_mark("executable"@) == (10nat, 'e'),
        spec_mark("args"@) == (4nat, 'a'),
        spec_mark("forwardSearchAfter"@) == (18nat, 'f'),
        spec_mark("onSave"@) == (6nat, 'o'),
        spec_mark("useFileList"@) == (11nat, 'u'),
        spec_mark("auxDirectory"@) == (12nat, 'a'),
        spec_mark("logDirectory"@) == (12nat, 'l'),
        spec_mark("pdfDirectory"@) == (12nat, 'p'),
{
    reveal_strlit("executable");
    reveal_strlit("args");
    reveal_strlit("forwardSearchAfter");
    reveal_strlit("onSave");
    reveal_strlit("useFileList");
    reveal_strlit("auxDirectory");
    reveal_strlit("logDirectory");
    reveal_strlit("pdfDirectory");
}

impl Default for TexlabBuildSettings {
    fn default() -> (settings: Self)
        ensures
            settings@ == TexlabBuildSettingsView::empty(),
    {
        TexlabBuildSettings {
            executable: None,
            args: None,
            forward_search_after: None,
            on_save: None,
            use_file_list: None,
            aux_directory: None,
            log_directory: None,
            pdf_directory: None,
        }
    }
}

impl TexlabBuildSettings {
    /// Switches on the build after a save and the forward search after a
    /// build, each only where the flag is not set: where previewing is
    /// configured automatically, the user should see its effect, and a flag
    /// that the user has set, to either value, stays.
    pub fn switch_on_onsave_fields_if_not_set(self) -> (settings: Self)
        ensures
            settings@ == self@.switch_on_onsave_fields_if_not_set(),
    {
        let mut settings = self;
        if settings.forward_search_after.is_none() {
            settings.forward_search_after = Some(true);
        }
        if settings.on_save.is_none() {
            settings.on_save = Some(true);
        }
        settings
    }

    /// Reads the section from a configuration value.
    pub fn from_value(value: Value) -> (read: Result<Self, MergeError>)
        ensures
            (match read {
                Ok(settings) => Ok(settings@),
                Err(e) => Err(e),
            }) == TexlabBuildSettingsView::from_value(value@),
    {
        match value {
            Value::Object(members) => {
                let mut members = members;
                proof {
                    lemma_object_view(members);
                    lemma_build_keys();
                }
                let executable = string_member(
                    take_field(&mut members, "executable"),
                    Field::BuildExecutable,
                );
                let args = string_list_member(take_field(&mut members, "args"), Field::BuildArgs);
                let forward_search_after = bool_member(
                    take_field(&mut members, "forwardSearchAfter"),
                    Field::BuildForwardSearchAfter,
                );
                let on_save = bool_member(take_field(&mut members, "onSave"), Field::BuildOnSave);
                let use_file_list = given(take_field(&mut members, "useFileList"));
                let aux_directory = given(take_field(&mut members, "auxDirectory"));
                let log_directory = given(take_field(&mut members, "logDirectory"));
                let pdf_directory = given(take_field(&mut members, "pdfDirectory"));
                let executable = match executable {
                    Ok(executable) => executable,
                    Err(e) => {
                        return Err(e);
                    },
                };
                let args = match args {
                    Ok(args) => args,
                    Err(e) => {
                        return Err(e);
                    },
                };
                let forward_search_after = match forward_search_after {
                    Ok(flag) => flag,
                    Err(e) => {
                        return Err(e);
                    },
                };
                let on_save = match on_save {
                    Ok(flag) => flag,
                    Err(e) => {
                        return Err(e);
                    },
                };
                Ok(
                    TexlabBuildSettings {
                        executable,
                        args,
                        forward_search_after,
                        on_save,
                        use_file_list,
                        aux_directory,
                        log_directory,
                        pdf_directory,
                    },
                )
            },
            _ => Err(MergeError { field: Field::Build }),
        }
    }

    /// Writes the section as a configuration value. Members that are not set
    /// are left out.
    pub fn into_value(self) -> (value: Value)
        ensures
            value@ == self@.to_value(),
    {
        let mut members: Vec<(String, Value)> = Vec::new();
        assert(members_view(members@) =~= Seq::empty());
        put(&mut members, "executable", string_value(self.executable));
        put(&mut members, "args", string_list_value(self.args));
        put(&mut members, "forwardSearchAfter", bool_value(self.forward_search_after));
        put(&mut members, "onSave", bool_value(self.on_save));
        put(&mut members, "useFileList", self.use_file_list);
        put(&mut members, "auxDirectory", self.aux_directory);
        put(&mut members, "logDirectory", self.log_directory);
        put(&mut members, "pdfDirectory", self.pdf_directory);
        proof {
            lemma_object_view(members);
        }
        Value::Object(members)
    }
}

/// The settings of the language server.
#[derive(Clone, Debug, PartialEq, Eq)]
pub struct TexlabSettings {
    pub build: Option<TexlabBuildSettings>,
    pub forward_search: Option<TexlabForwardSearchSettings>,
    pub hover: Option<TexlabHoverSettings>,
    pub chktex: Option<Value>,
    pub diagnostics: Option<Value>,
    pub diagnostics_delay: Option<Value>,
    pub symbols: Option<Value>,
    pub formatter_line_length: Option<Value>,
    pub bibtex_formatter: Option<Value>,
    pub latex_formatter: Option<Value>,
    pub latexindent: Option<Value>,
    pub completion: Option<Value>,
    pub inlay_hints: Option<Value>,
    pub experimental: Option<Value>,
}

/// Mathematical content of [`TexlabSettings`].
pub struct TexlabSettingsView {
    pub build: Option<TexlabBuildSettingsView>,
    pub forward_search: Option<TexlabForwardSearchSettingsView>,
    pub hover: Option<TexlabHoverSettingsView>,
    pub chktex: Option<ValueView>,
    pub diagnostics: Option<ValueView>,
    pub diagnostics_delay: Option<ValueView>,
    pub symbols: Option<ValueView>,
    pub formatter_line_length: Option<ValueView>,
    pub bibtex_formatter: Option<ValueView>,
    pub latex_formatter: Option<ValueView>,
    pub latexindent: Option<ValueView>,
    pub completion: Option<ValueView>,
    pub inlay_hints: Option<ValueView>,
    pub experimental: Option<ValueView>,
}

impl View for TexlabSettings {
    type V = TexlabSettingsView;

    open spec fn view(&self) -> TexlabSettingsView {
        TexlabSettingsView {
            build: opt_view(self.build),
            forward_search: opt_view(self.forward_search),
            hover: opt_view(self.hover),
            chktex: opt_view(self.chktex),
            diagnostics: opt_view(self.diagnostics),
            diagnostics_delay: opt_view(self.diagnostics_delay),
            symbols: opt_view(self.symbols),
            formatter_line_length: opt_view(self.formatter_line_length),
            bibtex_formatter: opt_view(self.bibtex_formatter),
            latex_formatter: opt_view(self.latex_formatter),
            latexindent: opt_view(self.latexindent),
            completion: opt_view(self.completion),
            inlay_hints: opt_view(self.inlay_hints),
            experimental: opt_view(self.experimental),
        }
    }
}

/// The build section that a member holds, if it is given.
pub open spec fn spec_build_member(member: Option<ValueView>) -> Result<
    Option<TexlabBuildSettingsView>,
    MergeError,
> {
    match spec_given(member) {
        None => Ok(None),
        Some(value) => match TexlabBuildSettingsView::from_value(value) {
            Ok(build) => Ok(Some(build)),
            Err(e) => Err(e),
        },
    }
}

/// The forward-search section that a member holds, if it is given.
pub open spec fn spec_forward_search_member(member: Option<ValueView>) -> Result<
    Option<TexlabForwardSearchSettingsView>,
    MergeError,
> {
    match spec_given(member) {
        None => Ok(None),
        Some(value) => match TexlabForwardSearchSettingsView::from_value(value) {
            Ok(forward_search) => Ok(Some(forward_search)),
            Err(e) => Err(e),
        },
    }
}

/// The hover section that a member holds, if it is given.
pub open spec fn spec_hover_member(member: Option<ValueView>) -> Result<
    Option<TexlabHoverSettingsView>,
    MergeError,
> {
    match spec_given(member) {
        None => Ok(None),
        Some(value) => match TexlabHoverSettingsView::from_value(value) {
            Ok(hover) => Ok(Some(hover)),
            Err(e) => Err(e),
        },
    }
}

/// Reads the build section that a member holds, if it is given.
pub fn build_member(member: Option<Value>) -> (read: Result<Option<TexlabBuildSettings>, MergeError>)
    ensures
        (match read {
            Ok(build) => Ok(opt_view(build)),
            Err(e) => Err(e),
        }) == spec_build_member(opt_view(member)),
{
    match given(member) {
        None => Ok(None),
        Some(value) => match TexlabBuildSettings::from_value(value) {
            Ok(build) => Ok(Some(build)),
            Err(e) => Err(e),
        },
    }
}

/// Reads the forward-search section that a member holds, if it is given.
pub fn forward_search_member(member: Option<Value>) -> (read: Result<
    Option<TexlabForwardSearchSettings>,
    MergeError,
>)
    ensures
        (match read {
            Ok(forward_search) => Ok(opt_view(forward_search)),
            Err(e) => Err(e),
        }) == spec_forward_search_member(opt_view(member)),
{
    match given(member) {
        None => Ok(None),
        Some(value) => match TexlabForwardSearchSettings::from_value(value) {
            Ok(forward_search) => Ok(Some(forward_search)),
            Err(e) => Err(e),
        },
    }
}

/// Reads the hover section that a member holds, if it is given.
pub fn hover_member(member: Option<Value>) -> (read: Result<Option<TexlabHoverSettings>, MergeError>)
    ensures
        (match read {
            Ok(hover) => Ok(opt_view(hover)),
            Err(e) => Err(e),
        }) == spec_hover_member(opt_view(member)),
{
    match given(member) {
        None => Ok(None),
        Some(value) => match TexlabHoverSettings::from_value(value) {
            Ok(hover) => Ok(Some(hover)),
            Err(e) => Err(e),
        },
    }
}

impl TexlabSettingsView {
    /// The settings with nothing set.
    pub open spec fn empty() -> Self {
        TexlabSettingsView {
            build: None,
            forward_search: None,
            hover: None,
            chktex: None,
            diagnostics: None,
            diagnostics_delay: None,
            symbols: None,
            formatter_line_length: None,
            bibtex_formatter: None,
            latex_formatter: None,
            latexindent: None,
            completion: None,
            inlay_hints: None,
            experimental: None,
        }
    }

    /// No member that is carried through holds a null, here or in the build
    /// section.
    pub open spec fn wf(self) -> bool {
        &&& self.build matches Some(build) ==> build.wf()
        &&& self.chktex != Some(ValueView::Null)
        &&& self.diagnostics != Some(ValueView::Null)
        &&& self.diagnostics_delay != Some(ValueView::Null)
        &&& self.symbols != Some(ValueView::Null)
        &&& self.formatter_line_length != Some(ValueView::Null)
        &&& self.bibtex_formatter != Some(ValueView::Null)
        &&& self.latex_formatter != Some(ValueView::Null)
        &&& self.latexindent != Some(ValueView::Null)
        &&& self.completion != Some(ValueView::Null)
        &&& self.inlay_hints != Some(ValueView::Null)
        &&& self.experimental != Some(ValueView::Null)
    }

    /// The settings that a configuration value holds.
    pub open spec fn from_value(value: ValueView) -> Result<Self, MergeError> {
        match value {
            ValueView::Object(members) => {
                let build = spec_build_member(spec_field(members, "build"@));
                let forward_search = spec_forward_search_member(
                    spec_field(members, "forwardSearch"@),
                );
                let hover = spec_hover_member(spec_field(members, "hover"@));
                if build is Err {
                    Err(build->Err_0)
                } else if forward_search is Err {
                    Err(forward_search->Err_0)
                } else if hover is Err {
                    Err(hover->Err_0)
                } else {
                    Ok(
                        TexlabSettingsView {
                            build: build->Ok_0,
                            forward_search: forward_search->Ok_0,
                            hover: hover->Ok_0,
                            chktex: spec_given(spec_field(members, "chktex"@)),
                            diagnostics: spec_given(spec_field(members, "diagnostics"@)),
                            diagnostics_delay: spec_given(spec_field(members, "diagnosticsDelay"@)),
                            symbols: spec_given(spec_field(members, "symbols"@)),
                            formatter_line_length: spec_given(spec_field(members, "formatterLineLength"@)),
                            bibtex_formatter: spec_given(spec_field(members, "bibtexFormatter"@)),
                            latex_formatter: spec_given(spec_field(members, "latexFormatter"@)),
                            latexindent: spec_given(spec_field(members, "latexindent"@)),
                            completion: spec_given(spec_field(members, "completion"@)),
                            inlay_hints: spec_given(spec_field(members, "inlayHints"@)),
                            experimental: spec_given(spec_field(members, "experimental"@)),
                        },
                    )
                }
            },
            _ => Err(MergeError { field: Field::Texlab }),
        }
    }

    /// The members that are set, in the order of the schema.
    pub open spec fn members(self) -> Seq<(Seq<char>, ValueView)> {
        let members = Seq::empty();
        let members = spec_put(
            members,
            "build"@,
            match self.build {
                Some(build) => Some(build.to_value()),
                None => None,
            },
        );
        let members = spec_put(
            members,
            "forwardSearch"@,
            match self.forward_search {
                Some(forward_search) => Some(forward_search.to_value()),
                None => None,
            },
        );
        let members = spec_put(
            members,
            "hover"@,
            match self.hover {
                Some(hover) => Some(hover.to_value()),
                None => None,
            },
        );
        let members = spec_put(members, "chktex"@, self.chktex);
        let members = spec_put(members, "diagnostics"@, self.diagnostics);
        let members = spec_put(members, "diagnosticsDelay"@, self.diagnostics_delay);
        let members = spec_put(members, "symbols"@, self.symbols);
        let members = spec_put(members, "formatterLineLength"@, self.formatter_line_length);
        let members = spec_put(members, "bibtexFormatter"@, self.bibtex_formatter);
        let members = spec_put(members, "latexFormatter"@, self.latex_formatter);
        let members = spec_put(members, "latexindent"@, self.latexindent);
        let members = spec_put(members, "completion"@, self.completion);
        let members = spec_put(members, "inlayHints"@, self.inlay_hints);
        let members = spec_put(members, "experimental"@, self.experimental);
        members
    }

    /// The settings as a configuration value: an object of the members that
    /// are set.
    pub open spec fn to_value(self) -> ValueView {
        ValueView::Object(self.members())
    }
}

/// The member names of the settings differ from one another.
pub proof fn lemma_texlab_keys()
    ensures
        spec_mark("build"@) == (5nat, 'b'),
        spec_mark("forwardSearch"@) == (13nat, 'f'),
        spec_mark("hover"@) == (5nat, 'h'),
        spec_mark("chktex"@) == (6nat, 'c'),
        spec_mark("diagnostics"@) == (11nat, 'd'),
        spec_mark("diagnosticsDelay"@) == (16nat, 'd'),
        spec_mark("symbols"@) == (7nat, 's'),
        spec_mark("formatterLineLength"@) == (19nat, 'f'),
        spec_mark("bibtexFormatter"@) == (15nat, 'b'),
        spec_mark("latexFormatter"@) == (14nat, 'l'),
        spec_mark("latexindent"@) == (11nat, 'l'),
        spec_mark("completion"@) == (10nat, 'c'),
        spec_mark("inlayHints"@) == (10nat, 'i'),
        spec_mark("experimental"@) == (12nat, 'e'),
{
    reveal_strlit("build");
    reveal_strlit("forwardSearch");
    reveal_strlit("hover");
    reveal_strlit("chktex");
    reveal_strlit("diagnostics");
    reveal_strlit("diagnosticsDelay");
    reveal_strlit("symbols");
    reveal_strlit("formatterLineLength");
    reveal_strlit("bibtexFormatter");
    reveal_strlit("latexFormatter");
    reveal_strlit("latexindent");
    reveal_strlit("completion");
    reveal_strlit("inlayHints");
    reveal_strlit("experimental");
}

impl Default for TexlabSettings {
    fn default() -> (settings: Self)
        ensures
            settings@ == TexlabSettingsView::empty(),
    {
        TexlabSettings {
            build: None,
            forward_search: None,
            hover: None,
            chktex: None,
            diagnostics: None,
            diagnostics_delay: None,
            symbols: None,
            formatter_line_length: None,
            bibtex_formatter: None,
            latex_formatter: None,
            latexindent: None,
            completion: None,
            inlay_hints: None,
            experimental: None,
        }
    }
}

impl TexlabSettings {
    /// Reads the settings from a configuration value.
    pub fn from_value(value: Value) -> (read: Result<Self, MergeError>)
        ensures
            (match read {
                Ok(settings) => Ok(settings@),
                Err(e) => Err(e),
            }) == TexlabSettingsView::from_value(value@),
    {
        match value {
            Value::Object(members) => {
                let mut members = members;
                proof {
                    lemma_object_view(members);
                    lemma_texlab_keys();
                }
                let ghost all = members_view(members@);
                let build = build_member(take_field(&mut members, "build"));
                let forward_search = forward_search_member(
                    take_field(&mut members, "forwardSearch"),
                );
                let hover = hover_member(take_field(&mut members, "hover"));
                assert((match forward_search {
                    Ok(forward_search) => Ok(opt_view(forward_search)),
                    Err(e) => Err(e),
                }) == spec_forward_search_member(spec_field(all, "forwardSearch"@)));
                assert((match hover {
                    Ok(hover) => Ok(opt_view(hover)),
                    Err(e) => Err(e),
                }) == spec_hover_member(spec_field(all, "hover"@)));
                let chktex = given(take_field(&mut members, "chktex"));
                assert(opt_view(chktex) == spec_given(spec_field(all, "chktex"@)));
                let diagnostics = given(take_field(&mut members, "diagnostics"));
                assert(opt_view(diagnostics) == spec_given(spec_field(all, "diagnostics"@)));
                let diagnostics_delay = given(take_field(&mut members, "diagnosticsDelay"));
                assert(opt_view(diagnostics_delay) == spec_given(spec_field(all, "diagnosticsDelay"@)));
                let symbols = given(take_field(&mut members, "symbols"));
                assert(opt_view(symbols) == spec_given(spec_field(all, "symbols"@)));
                let formatter_line_length = given(take_field(&mut members, "formatterLineLength"));
                assert(opt_view(formatter_line_length) == spec_given(spec_field(all, "formatterLineLength"@)));
                let bibtex_formatter = given(take_field(&mut members, "bibtexFormatter"));
                assert(opt_view(bibtex_formatter) == spec_given(spec_field(all, "bibtexFormatter"@)));
                let latex_formatter = given(take_field(&mut members, "latexFormatter"));
                assert(opt_view(latex_formatter) == spec_given(spec_field(all, "latexFormatter"@)));
                let latexindent = given(take_field(&mut members, "latexindent"));
                assert(opt_view(latexindent) == spec_given(spec_field(all, "latexindent"@)));
                let completion = given(take_field(&mut members, "completion"));
                assert(opt_view(completion) == spec_given(spec_field(all, "completion"@)));
                let inlay_hints = given(take_field(&mut members, "inlayHints"));
                assert(opt_view(inlay_hints) == spec_given(spec_field(all, "inlayHints"@)));
                let experimental = given(take_field(&mut members, "experimental"));
                assert(opt_view(experimental) == spec_given(spec_field(all, "experimental"@)));
                let build = match build {
                    Ok(build) => build,
                    Err(e) => {
                        return Err(e);
                    },
                };
                let forward_search = match forward_search {
                    Ok(forward_search) => forward_search,
                    Err(e) => {
                        return Err(e);
                    },
                };
                let hover = match hover {
                    Ok(hover) => hover,
                    Err(e) => {
                        return Err(e);
                    },
                };
                Ok(
                    TexlabSettings {
                        build,
                        forward_search,
                        hover,
                        chktex,
                        diagnostics,
                        diagnostics_delay,
                        symbols,
                        formatter_line_length,
                        bibtex_formatter,
                        latex_formatter,
                        latexindent,
                        completion,
                        inlay_hints,
                        experimental,
                    },
                )
            },
            _ => Err(MergeError { field: Field::Texlab }),
        }
    }

    /// Writes the settings as a configuration value. Members that are not
    /// set are left out.
    pub fn into_value(self) -> (value: Value)
        ensures
            value@ == self@.to_value(),
    {
        let mut members: Vec<(String, Value)> = Vec::new();
        assert(members_view(members@) =~= Seq::empty());
        let build = match self.build {
            Some(build) => Some(build.into_value()),
            None => None,
        };
        put(&mut members, "build", build);
        let forward_search = match self.forward_search {
            Some(forward_search) => Some(forward_search.into_value()),
            None => None,
        };
        put(&mut members, "forwardSearch", forward_search);
        let hover = match self.hover {
            Some(hover) => Some(hover.into_value()),
            None => None,
        };
        put(&mut members, "hover", hover);
        put(&mut members, "chktex", self.chktex);
        put(&mut members, "diagnostics", self.diagnostics);
        put(&mut members, "diagnosticsDelay", self.diagnostics_delay);
        put(&mut members, "symbols", self.symbols);
        put(&mut members, "formatterLineLength", self.formatter_line_length);
        put(&mut members, "bibtexFormatter", self.bibtex_formatter);
        put(&mut members, "latexFormatter", self.latex_formatter);
        put(&mut members, "latexindent", self.latexindent);
        put(&mut members, "completion", self.completion);
        put(&mut members, "inlayHints", self.inlay_hints);
        put(&mut members, "experimental", self.experimental);
        proof {
            lemma_object_view(members);
        }
        Value::Object(members)
    }
}

/// The settings of a workspace: those of the language server, under the
/// name `texlab`.
#[derive(Clone, Debug, PartialEq, Eq)]
pub struct WorkspaceSettings {
    pub texlab: Option<TexlabSettings>,
}

/// Mathematical content of [`WorkspaceSettings`].
pub struct WorkspaceSettingsView {
    pub texlab: Option<TexlabSettingsView>,
}

impl View for WorkspaceSettings {
    type V = WorkspaceSettingsView;

    open spec fn view(&self) -> WorkspaceSettingsView {
        WorkspaceSettingsView { texlab: opt_view(self.texlab) }
    }
}

impl WorkspaceSettingsView {
    /// The settings with nothing set.
    pub open spec fn empty() -> Self {
        WorkspaceSettingsView { texlab: None }
    }

    /// No member that is carried through holds a null.
    pub open spec fn wf(self) -> bool {
        self.texlab matches Some(texlab) ==> texlab.wf()
    }

    /// The settings that a configuration value holds.
    pub open spec fn from_value(value: ValueView) -> Result<Self, MergeError> {
        match value {
            ValueView::Object(members) => match spec_given(spec_field(members, "texlab"@)) {
                None => Ok(WorkspaceSettingsView { texlab: None }),
                Some(value) => match TexlabSettingsView::from_value(value) {
                    Ok(texlab) => Ok(WorkspaceSettingsView { texlab: Some(texlab) }),
                    Err(e) => Err(e),
                },
            },
            _ => Err(MergeError { field: Field::Settings }),
        }
    }

    /// The settings as a configuration value.
    pub open spec fn to_value(self) -> ValueView {
        ValueView::Object(
            spec_put(
                Seq::empty(),
                "texlab"@,
                match self.texlab {
                    Some(texlab) => Some(texlab.to_value()),
                    None => None,
                },
            ),
        )
    }
}

impl Default for WorkspaceSettings {
    fn default() -> (settings: Self)
        ensures
            settings@ == WorkspaceSettingsView::empty(),
    {
        WorkspaceSettings { texlab: None }
    }
}

impl WorkspaceSettings {
    /// Reads the settings from a configuration value.
    pub fn from_value(value: Value) -> (read: Result<Self, MergeError>)
        ensures
            (match read {
                Ok(settings) => Ok(settings@),
                Err(e) => Err(e),
            }) == WorkspaceSettingsView::from_value(value@),
    {
        match value {
            Value::Object(members) => {
                let mut members = members;
                proof {
                    lemma_object_view(members);
                }
                match given(take_field(&mut members, "texlab")) {
                    None => Ok(WorkspaceSettings { texlab: None }),
                    Some(value) => match TexlabSettings::from_value(value) {
                        Ok(texlab) => Ok(WorkspaceSettings { texlab: Some(texlab) }),
                        Err(e) => Err(e),
                    },
                }
            },
            _ => Err(MergeError { field: Field::Settings }),
        }
    }

    /// Writes the settings as a configuration value.
    pub fn into_value(self) -> (value: Value)
        ensures
            value@ == self@.to_value(),
    {
        let mut members: Vec<(String, Value)> = Vec::new();
        assert(members_view(members@) =~= Seq::empty());
        let texlab = match self.texlab {
            Some(texlab) => Some(texlab.into_value()),
            None => None,
        };
        put(&mut members, "texlab", texlab);
        proof {
            lemma_object_view(members);
        }
        Value::Object(members)
    }
}

} // verus!
