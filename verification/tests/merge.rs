use zed_latex::json::Value;
use zed_latex::texlab_workspace_config::preview_presets::Preview;
use zed_latex::texlab_workspace_config::types::{
    Field, MergeError, TexlabBuildSettings, TexlabForwardSearchSettings, TexlabHoverSettings,
    TexlabSettings, WorkspaceSettings,
};
use zed_latex::texlab_workspace_config::{
    add_build_default, add_hover_default, add_preview, default_build_args, get, provided,
};
use zed_latex::zed_command::CommandName;
use zed_latex::LatexExtension;

fn txt(s: &str) -> Value {
    Value::String(s.to_string())
}

fn obj(members: Vec<(&str, Value)>) -> Value {
    Value::Object(members.into_iter().map(|(k, v)| (k.to_string(), v)).collect())
}

fn list(items: &[&str]) -> Vec<String> {
    items.iter().map(|s| s.to_string()).collect()
}

fn latexmk_args() -> Vec<String> {
    list(&[
        "-e",
        "$pdf_mode = 1 unless $pdf_mode != 0; if ($ARGV[-1] =~ /\\.log$/ or $ARGV[-1] =~ /latexmkrc$/) { exit 0; };",
        "-interaction=nonstopmode",
        "-synctex=1",
        "%f",
    ])
}

fn default_build() -> TexlabBuildSettings {
    TexlabBuildSettings {
        executable: Some("latexmk".to_string()),
        args: Some(latexmk_args()),
        ..TexlabBuildSettings::default()
    }
}

fn glyph() -> TexlabHoverSettings {
    TexlabHoverSettings { symbols: "glyph".to_string() }
}

fn zathura_preset() -> TexlabForwardSearchSettings {
    TexlabForwardSearchSettings {
        executable: Some("zathura".to_string()),
        args: Some(list(&["--synctex-forward", "%l:1:%f", "-x", "zeditor %%{input}:%%{line}", "%p"])),
    }
}

#[test]
fn default_build_command_is_latexmk_with_synctex() {
    assert_eq!(default_build_args(), latexmk_args());
    let settings = add_build_default(TexlabSettings::default());
    assert_eq!(settings, TexlabSettings { build: Some(default_build()), ..TexlabSettings::default() });
}

#[test]
fn user_build_arguments_are_kept_without_an_executable() {
    let input = TexlabSettings {
        build: Some(TexlabBuildSettings {
            args: Some(list(&["-pdf"])),
            on_save: Some(false),
            aux_directory: Some(txt("aux")),
            ..TexlabBuildSettings::default()
        }),
        ..TexlabSettings::default()
    };
    let settings = add_build_default(input);
    assert_eq!(
        settings.build,
        Some(TexlabBuildSettings {
            executable: Some("latexmk".to_string()),
            args: Some(list(&["-pdf"])),
            on_save: Some(false),
            aux_directory: Some(txt("aux")),
            ..TexlabBuildSettings::default()
        })
    );

    let value = obj(vec![(
        "texlab",
        obj(vec![("build", obj(vec![("args", Value::Array(vec![txt("-pdf")]))]))]),
    )]);
    for previewer in [None, Some(Preview::Zathura)] {
        let merged = get(&previewer, CommandName::Zed, value.duplicate()).unwrap();
        let build = merged.texlab.unwrap().build.unwrap();
        assert_eq!(build.executable, Some("latexmk".to_string()));
        assert_eq!(build.args, Some(list(&["-pdf"])));
    }
}

#[test]
fn default_arguments_come_with_the_default_executable_where_none_are_set() {
    let input = TexlabSettings {
        build: Some(TexlabBuildSettings { on_save: Some(true), ..TexlabBuildSettings::default() }),
        ..TexlabSettings::default()
    };
    assert_eq!(
        add_build_default(input).build,
        Some(TexlabBuildSettings { on_save: Some(true), ..default_build() })
    );
    let input = TexlabSettings {
        build: Some(TexlabBuildSettings { args: Some(list(&[])), ..TexlabBuildSettings::default() }),
        ..TexlabSettings::default()
    };
    assert_eq!(
        add_build_default(input).build,
        Some(TexlabBuildSettings {
            executable: Some("latexmk".to_string()),
            args: Some(list(&[])),
            ..TexlabBuildSettings::default()
        })
    );
}

#[test]
fn user_build_executable_is_never_replaced() {
    let user_build = || TexlabBuildSettings {
        executable: Some("tectonic".to_string()),
        ..TexlabBuildSettings::default()
    };
    let input = TexlabSettings { build: Some(user_build()), ..TexlabSettings::default() };
    assert_eq!(add_build_default(input).build, Some(user_build()));

    let value = obj(vec![("texlab", obj(vec![("build", obj(vec![("executable", txt("tectonic"))]))]))]);
    let merged = get(&Some(Preview::Okular), CommandName::Zed, value).unwrap();
    let build = merged.texlab.unwrap().build.unwrap();
    assert_eq!(build.executable, Some("tectonic".to_string()));
    assert_eq!(build.args, None);
}

#[test]
fn hover_default_applies_only_if_wholly_absent() {
    assert_eq!(add_hover_default(TexlabSettings::default()).hover, Some(glyph()));
    let input = TexlabSettings {
        hover: Some(TexlabHoverSettings { symbols: "none".to_string() }),
        ..TexlabSettings::default()
    };
    assert_eq!(
        add_hover_default(input).hover,
        Some(TexlabHoverSettings { symbols: "none".to_string() })
    );
}

#[test]
fn user_forward_search_is_left_untouched() {
    let user = || TexlabForwardSearchSettings { executable: Some("mupdf".to_string()), args: None };
    let input = TexlabSettings {
        forward_search: Some(user()),
        build: Some(default_build()),
        ..TexlabSettings::default()
    };
    let settings = add_preview(&Preview::Zathura, CommandName::Zed, input);
    assert_eq!(settings.forward_search, Some(user()));
    assert_eq!(settings.build, Some(default_build()));

    let value = obj(vec![("texlab", obj(vec![("forwardSearch", obj(vec![]))]))]);
    let merged = get(&Some(Preview::Zathura), CommandName::Zed, value).unwrap().texlab.unwrap();
    assert_eq!(merged.forward_search, Some(TexlabForwardSearchSettings::default()));
    assert_eq!(merged.build, Some(default_build()));
}

#[test]
fn absent_forward_search_becomes_the_preset() {
    let value = obj(vec![("texlab", obj(vec![("chktex", obj(vec![("onEdit", Value::Bool(true))]))]))]);
    let merged = get(&Some(Preview::Zathura), CommandName::Zeditor, value).unwrap().texlab.unwrap();
    assert_eq!(merged.forward_search, Some(Preview::Zathura.create_preset(CommandName::Zeditor)));
    assert_eq!(merged.forward_search, Some(zathura_preset()));
    assert_eq!(merged.chktex, Some(obj(vec![("onEdit", Value::Bool(true))])));
}

#[test]
fn explicit_false_flags_are_preserved() {
    let value = obj(vec![("texlab", obj(vec![("build", obj(vec![("onSave", Value::Bool(false))]))]))]);
    let merged = get(&Some(Preview::Sioyek), CommandName::Zed, value).unwrap().texlab.unwrap();
    let build = merged.build.unwrap();
    assert_eq!(build.on_save, Some(false));
    assert_eq!(build.forward_search_after, Some(true));

    let value = obj(vec![(
        "texlab",
        obj(vec![("build", obj(vec![("forwardSearchAfter", Value::Bool(false))]))]),
    )]);
    let merged = get(&Some(Preview::Sioyek), CommandName::Zed, value).unwrap().texlab.unwrap();
    let build = merged.build.unwrap();
    assert_eq!(build.on_save, Some(true));
    assert_eq!(build.forward_search_after, Some(false));
}

#[test]
fn flags_are_switched_on_only_where_not_set() {
    let build = TexlabBuildSettings::default().switch_on_onsave_fields_if_not_set();
    assert_eq!(build.on_save, Some(true));
    assert_eq!(build.forward_search_after, Some(true));
    let build = TexlabBuildSettings {
        on_save: Some(false),
        forward_search_after: Some(false),
        executable: Some("x".to_string()),
        ..TexlabBuildSettings::default()
    }
    .switch_on_onsave_fields_if_not_set();
    assert_eq!(build.on_save, Some(false));
    assert_eq!(build.forward_search_after, Some(false));
    assert_eq!(build.executable, Some("x".to_string()));
}

#[test]
fn no_previewer_and_no_settings_gives_the_defaults_only() {
    let expected = WorkspaceSettings {
        texlab: Some(TexlabSettings {
            build: Some(default_build()),
            hover: Some(glyph()),
            ..TexlabSettings::default()
        }),
    };
    assert_eq!(get(&None, CommandName::Zed, Value::Null), Ok(expected));
    let merged = get(&None, CommandName::Zed, obj(vec![])).unwrap();
    assert_eq!(merged.texlab.as_ref().unwrap().forward_search, None);
    assert_eq!(merged.texlab.as_ref().unwrap().build, Some(default_build()));
    assert_eq!(merged.texlab.as_ref().unwrap().hover, Some(glyph()));
}

#[test]
fn previewer_and_empty_settings_wire_up_forward_search() {
    let merged = get(&Some(Preview::Zathura), CommandName::Zeditor, obj(vec![])).unwrap();
    let expected = WorkspaceSettings {
        texlab: Some(TexlabSettings {
            build: Some(TexlabBuildSettings {
                forward_search_after: Some(true),
                on_save: Some(true),
                ..default_build()
            }),
            forward_search: Some(zathura_preset()),
            hover: Some(glyph()),
            ..TexlabSettings::default()
        }),
    };
    assert_eq!(merged, expected);
}

#[test]
fn malformed_settings_are_a_configuration_error() {
    assert_eq!(
        get(&Some(Preview::Zathura), CommandName::Zed, txt("texlab")),
        Err(MergeError { field: Field::Settings })
    );
    assert_eq!(
        get(&None, CommandName::Zed, obj(vec![("texlab", Value::Array(vec![]))])),
        Err(MergeError { field: Field::Texlab })
    );
    let value = obj(vec![(
        "texlab",
        obj(vec![("build", obj(vec![("args", Value::Array(vec![Value::Bool(true)]))]))]),
    )]);
    assert_eq!(
        get(&None, CommandName::Zed, value),
        Err(MergeError { field: Field::BuildArgs })
    );
    assert_eq!(provided(Value::Number("3".to_string())), Err(MergeError { field: Field::Settings }));
}

#[test]
fn user_settings_without_texlab_member_count_as_none() {
    assert_eq!(provided(Value::Null), Ok(TexlabSettings::default()));
    assert_eq!(provided(obj(vec![("other", Value::Bool(true))])), Ok(TexlabSettings::default()));
    assert_eq!(provided(obj(vec![("texlab", Value::Null)])), Ok(TexlabSettings::default()));
}

#[test]
fn merging_twice_is_merging_once() {
    let inputs = || {
        vec![
            Value::Null,
            obj(vec![]),
            obj(vec![(
                "texlab",
                obj(vec![
                    ("build", obj(vec![("onSave", Value::Bool(false)), ("args", Value::Array(vec![txt("-pdf")]))])),
                    ("diagnosticsDelay", Value::Number("300".to_string())),
                ]),
            )]),
            obj(vec![("texlab", obj(vec![("forwardSearch", obj(vec![("executable", txt("mupdf"))]))]))]),
        ]
    };
    let previewers = || {
        vec![
            None,
            Some(Preview::Zathura),
            Some(Preview::SumatraPDF),
            Some(Preview::Evince { evince_synctex_path: "/w/evince_synctex.py".to_string() }),
        ]
    };
    for previewer in previewers() {
        for input in inputs() {
            let once = get(&previewer, CommandName::Flatpak, input.duplicate()).unwrap();
            let expected = get(&previewer, CommandName::Flatpak, input).unwrap();
            let again = get(&previewer, CommandName::Flatpak, once.into_value()).unwrap();
            assert_eq!(again, expected);
        }
    }
}

#[test]
fn session_hands_out_the_merged_configuration() {
    let mut session = LatexExtension::new();
    assert_eq!(session, LatexExtension::default());
    assert_eq!(session.cached_texlab_path, None);
    assert_eq!(session.previewer, None);
    assert_eq!(session.zed_command, None);

    let configuration = session.language_server_workspace_configuration(Value::Null).unwrap().unwrap();
    let expected = obj(vec![(
        "texlab",
        obj(vec![
            (
                "build",
                obj(vec![
                    ("executable", txt("latexmk")),
                    ("args", Value::Array(latexmk_args().iter().map(|a| txt(a)).collect())),
                ]),
            ),
            ("hover", obj(vec![("symbols", txt("glyph"))])),
        ]),
    )]);
    assert_eq!(configuration, expected);

    session.previewer = Some(Preview::QPDFView);
    session.zed_command = Some(CommandName::Zedit);
    let configuration = session.language_server_workspace_configuration(obj(vec![])).unwrap().unwrap();
    let again = session.language_server_workspace_configuration(configuration.duplicate()).unwrap().unwrap();
    assert_eq!(configuration, again);
    let texlab = WorkspaceSettings::from_value(configuration).unwrap().texlab.unwrap();
    assert_eq!(texlab.forward_search, Some(Preview::QPDFView.create_preset(CommandName::Zedit)));
    assert_eq!(texlab.build.as_ref().unwrap().on_save, Some(true));
    assert_eq!(texlab.build.as_ref().unwrap().forward_search_after, Some(true));

    assert_eq!(
        session.language_server_workspace_configuration(Value::Bool(true)),
        Err(MergeError { field: Field::Settings })
    );
}
