use zed_latex::executable_name::Exe;
use zed_latex::platform::{Architecture, FileStat, Os, PlatformInfo, PlatformProbe};
use zed_latex::zed_command::CommandName;

fn probe_of(os: Os, env: &[(&str, &str)], on_path: &[&str]) -> PlatformProbe {
    PlatformProbe {
        platform: PlatformInfo { os, arch: Architecture::X8664 },
        shell_env: env.iter().map(|(k, v)| (k.to_string(), v.to_string())).collect(),
        on_path: on_path.iter().map(|n| (n.to_string(), format!("/usr/bin/{n}"))).collect(),
        work_dir: None,
        helper_script: None,
    }
}

#[test]
fn command_names_are_the_literal_invocations() {
    assert_eq!(CommandName::Zed.to_str(), "zed");
    assert_eq!(CommandName::Zeditor.to_str(), "zeditor");
    assert_eq!(CommandName::Zedit.to_str(), "zedit");
    assert_eq!(CommandName::ZedEditor.to_str(), "zed-editor");
    assert_eq!(CommandName::Flatpak.to_str(), "flatpak run dev.zed.Zed");
    assert_eq!(CommandName::default(), CommandName::Zed);
}

#[test]
fn executables_have_the_names_of_their_commands() {
    for (exe, name) in [
        (Exe::Zed, CommandName::Zed),
        (Exe::Zeditor, CommandName::Zeditor),
        (Exe::Zedit, CommandName::Zedit),
        (Exe::ZedEditor, CommandName::ZedEditor),
        (Exe::Flatpak, CommandName::Flatpak),
    ] {
        assert_eq!(exe.command_name(), name);
        assert_eq!(exe.to_str(), name.to_str());
    }
    assert_eq!(Exe::default(), Exe::Zed);
}

#[test]
fn flatpak_variable_decides_on_linux_whatever_is_on_the_path() {
    let probe = probe_of(Os::Linux, &[("HOME", "/home/u"), ("ZED_FLATPAK_LIB_PATH", "/app/lib")], &["zed", "zeditor"]);
    assert_eq!(CommandName::determine(&probe), Some(CommandName::Flatpak));
    assert_eq!(Exe::determine(&probe), Some(Exe::Flatpak));
    let probe = probe_of(Os::Linux, &[("ZED_FLATPAK_LIB_PATH", "")], &[]);
    assert_eq!(CommandName::determine(&probe), Some(CommandName::Flatpak));
}

#[test]
fn flatpak_variable_is_ignored_off_linux() {
    let probe = probe_of(Os::Mac, &[("ZED_FLATPAK_LIB_PATH", "/app/lib")], &["zed"]);
    assert_eq!(CommandName::determine(&probe), Some(CommandName::Zed));
    let probe = probe_of(Os::Windows, &[("ZED_FLATPAK_LIB_PATH", "/app/lib")], &[]);
    assert_eq!(CommandName::determine(&probe), None);
}

#[test]
fn primary_name_wins_over_package_manager_names() {
    let probe = probe_of(Os::Linux, &[], &["zed-editor", "zedit", "zeditor", "zed"]);
    assert_eq!(CommandName::determine(&probe), Some(CommandName::Zed));
    assert_eq!(Exe::determine(&probe), Some(Exe::Zed));
}

#[test]
fn package_manager_names_are_tried_in_order_on_linux_only() {
    let probe = probe_of(Os::Linux, &[], &["zed-editor", "zedit", "zeditor"]);
    assert_eq!(CommandName::determine(&probe), Some(CommandName::Zeditor));
    let probe = probe_of(Os::Linux, &[], &["zed-editor", "zedit"]);
    assert_eq!(CommandName::determine(&probe), Some(CommandName::Zedit));
    let probe = probe_of(Os::Linux, &[], &["zed-editor"]);
    assert_eq!(CommandName::determine(&probe), Some(CommandName::ZedEditor));
    assert_eq!(Exe::determine(&probe), Some(Exe::ZedEditor));
    let probe = probe_of(Os::Mac, &[], &["zed-editor", "zedit", "zeditor"]);
    assert_eq!(CommandName::determine(&probe), None);
    assert_eq!(Exe::determine(&probe), None);
}

#[test]
fn nothing_found_means_no_command() {
    let probe = probe_of(Os::Linux, &[("PATH", "/usr/bin")], &["vim"]);
    assert_eq!(CommandName::determine(&probe), None);
}

#[test]
fn probe_answers_from_its_snapshot() {
    let mut probe = probe_of(Os::Windows, &[("A", "1"), ("B", "2"), ("A", "3")], &["texlab"]);
    probe.helper_script = Some(FileStat { is_file: true, modified: Some(5) });
    assert_eq!(probe.current_platform(), PlatformInfo { os: Os::Windows, arch: Architecture::X8664 });
    assert_eq!(probe.which("texlab"), Some("/usr/bin/texlab".to_string()));
    assert_eq!(probe.which("texla"), None);
    assert!(probe.has_env("A"));
    assert!(probe.has_env("B"));
    assert!(!probe.has_env("C"));
    assert_eq!(zed_latex::platform::lookup(&probe.shell_env, "A"), Some("1".to_string()));
}

#[test]
fn probed_names_cover_editor_and_viewers() {
    assert_eq!(
        zed_latex::probed_names(),
        vec![
            "zed",
            "zeditor",
            "zedit",
            "zed-editor",
            "/Applications/Skim.app/Contents/SharedSupport/displayline",
            "evince",
            "zathura",
            "sioyek",
            "qpdfview",
            "okular",
        ]
    );
}
