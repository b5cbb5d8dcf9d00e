use zed_latex::platform::{Architecture, Os, PlatformInfo, PlatformProbe};
use zed_latex::texlab_invocation::{
    acquire_latest_texlab, arch_name, archive_extension, archive_type, arguments, asset_name,
    binary_in, binary_name, binary_path, check_for_update, clone_strings, command, download,
    download_url, find_previously_downloaded_texlab_release, found, lex_le, located, os_name,
    others,
    pending, resume, starts_with, version_dir, AcquisitionError, Answer, ArchiveType,
    BinaryLocation, CommandSettings, DirEntry, InstallationStatus, Next, Request, State, Step,
};
use zed_latex::texlab_workspace_config::preview_presets::Preview;
use zed_latex::zed_command::CommandName;
use zed_latex::LatexExtension;

const LINUX: PlatformInfo = PlatformInfo { os: Os::Linux, arch: Architecture::X8664 };
const MAC: PlatformInfo = PlatformInfo { os: Os::Mac, arch: Architecture::Aarch64 };
const WINDOWS: PlatformInfo = PlatformInfo { os: Os::Windows, arch: Architecture::X86 };

fn names(items: &[&str]) -> Vec<String> {
    items.iter().map(|s| s.to_string()).collect()
}

fn entry(name: &str, has_binary: bool) -> DirEntry {
    DirEntry { name: name.to_string(), has_binary }
}

fn launch(command: &str, args: &[&str]) -> BinaryLocation {
    BinaryLocation { command: command.to_string(), args: names(args), env: vec![] }
}

fn ask(request: Request, state: State) -> Step {
    Step { status: None, next: Next::Ask { request, state } }
}

fn done(result: Result<BinaryLocation, AcquisitionError>) -> Step {
    Step { status: None, next: Next::Done(result) }
}

fn user_arguments() -> Option<CommandSettings> {
    Some(CommandSettings { path: None, arguments: Some(names(&["-vvv", "--log-file", "/tmp/t.log"])) })
}

fn latest_release() -> Request {
    Request::LatestRelease {
        repo: "latex-lsp/texlab".to_string(),
        require_assets: true,
        pre_release: false,
    }
}

/// Runs a search to its end, answering each request from `answers` in turn,
/// and returns every step on the way.
fn run(
    session: &mut LatexExtension,
    binary: &Option<CommandSettings>,
    platform: PlatformInfo,
    answers: Vec<Answer>,
) -> Vec<Step> {
    let mut steps = vec![];
    let mut step = command(binary);
    let mut answers = answers.into_iter();
    loop {
        let Step { status, next } = step;
        match next {
            Next::Ask { request, state } => {
                let answer = answers.next().unwrap();
                assert_eq!(pending(platform, &state), request);
                steps.push(Step { status, next: Next::Ask { request, state: state.clone() } });
                step = resume(session, platform, state, answer);
            }
            Next::Done(result) => {
                steps.push(Step { status, next: Next::Done(result) });
                assert!(answers.next().is_none());
                return steps;
            }
        }
    }
}

fn statuses(steps: &[Step]) -> Vec<&InstallationStatus> {
    steps.iter().filter_map(|s| s.status.as_ref()).collect()
}

fn requests(steps: &[Step]) -> Vec<&Request> {
    steps
        .iter()
        .filter_map(|s| match &s.next {
            Next::Ask { request, .. } => Some(request),
            Next::Done(_) => None,
        })
        .collect()
}

fn result(steps: &[Step]) -> &Result<BinaryLocation, AcquisitionError> {
    match &steps.last().unwrap().next {
        Next::Done(result) => result,
        Next::Ask { .. } => panic!("the search has not ended"),
    }
}

#[test]
fn release_names_follow_the_platform() {
    assert_eq!(arch_name(Architecture::Aarch64), "aarch64");
    assert_eq!(arch_name(Architecture::X86), "i686");
    assert_eq!(arch_name(Architecture::X8664), "x86_64");
    assert_eq!(os_name(Os::Mac), "macos");
    assert_eq!(os_name(Os::Linux), "linux");
    assert_eq!(os_name(Os::Windows), "windows");
    assert_eq!(archive_extension(Os::Mac), "tar.gz");
    assert_eq!(archive_extension(Os::Linux), "tar.gz");
    assert_eq!(archive_extension(Os::Windows), "zip");
    assert_eq!(archive_type(Os::Mac), ArchiveType::GzipTar);
    assert_eq!(archive_type(Os::Linux), ArchiveType::GzipTar);
    assert_eq!(archive_type(Os::Windows), ArchiveType::Zip);
    assert_eq!(asset_name(LINUX), "texlab-x86_64-linux.tar.gz");
    assert_eq!(asset_name(MAC), "texlab-aarch64-macos.tar.gz");
    assert_eq!(asset_name(WINDOWS), "texlab-i686-windows.zip");
    assert_eq!(
        download_url("v5.21.0", LINUX),
        "https://github.com/latex-lsp/texlab/releases/download/v5.21.0/texlab-x86_64-linux.tar.gz"
    );
    assert_eq!(
        download_url("v5.21.0", WINDOWS),
        "https://github.com/latex-lsp/texlab/releases/download/v5.21.0/texlab-i686-windows.zip"
    );
    assert_eq!(version_dir("v5.21.0"), "texlab-v5.21.0");
    assert_eq!(binary_name(Os::Linux), "texlab");
    assert_eq!(binary_name(Os::Windows), "texlab.exe");
    assert_eq!(binary_in("texlab-v1", Os::Mac), "texlab-v1/texlab");
    assert_eq!(binary_path("v5.21.0", Os::Linux), "texlab-v5.21.0/texlab");
    assert_eq!(binary_path("v5.21.0", Os::Windows), "texlab-v5.21.0/texlab.exe");
}

#[test]
fn user_path_is_used_verbatim_and_nothing_is_asked() {
    let binary = Some(CommandSettings {
        path: Some("/does/not/exist/texlab".to_string()),
        arguments: Some(names(&["-v"])),
    });
    assert_eq!(command(&binary), done(Ok(launch("/does/not/exist/texlab", &["-v"]))));
    let binary = Some(CommandSettings { path: Some("texlab-nightly".to_string()), arguments: None });
    assert_eq!(command(&binary), done(Ok(launch("texlab-nightly", &[]))));

    let mut session = LatexExtension::new();
    session.cached_texlab_path = Some("texlab-v1/texlab".to_string());
    let steps = run(&mut session, &binary, LINUX, vec![]);
    assert_eq!(steps.len(), 1);
    assert!(requests(&steps).is_empty());
    assert!(statuses(&steps).is_empty());
    assert_eq!(session.cached_texlab_path, Some("texlab-v1/texlab".to_string()));
}

#[test]
fn search_path_is_asked_first_without_a_user_path() {
    let lookup = ask(Request::Which { name: "texlab".to_string() }, State::Lookup);
    assert_eq!(command(&None), lookup);
    assert_eq!(command(&user_arguments()), lookup);
}

#[test]
fn executable_on_the_search_path_is_started_without_arguments() {
    let mut session = LatexExtension::new();
    let steps = run(
        &mut session,
        &user_arguments(),
        LINUX,
        vec![Answer::Found(Some("/usr/bin/texlab".to_string()))],
    );
    assert_eq!(result(&steps), &Ok(launch("/usr/bin/texlab", &[])));
    assert!(statuses(&steps).is_empty());
    assert_eq!(session.cached_texlab_path, None);
}

#[test]
fn remembered_path_is_reused_if_it_still_exists() {
    let mut session = LatexExtension::new();
    session.cached_texlab_path = Some("texlab-v5.20.0/texlab".to_string());
    let steps =
        run(&mut session, &None, LINUX, vec![Answer::Found(None), Answer::Exists(true)]);
    assert_eq!(
        requests(&steps),
        vec![
            &Request::Which { name: "texlab".to_string() },
            &Request::Exists { path: "texlab-v5.20.0/texlab".to_string() }
        ]
    );
    assert_eq!(result(&steps), &Ok(launch("texlab-v5.20.0/texlab", &[])));
    assert!(statuses(&steps).is_empty());
}

#[test]
fn remembered_path_that_is_gone_leads_to_an_acquisition() {
    let mut session = LatexExtension::new();
    session.cached_texlab_path = Some("texlab-v5.20.0/texlab".to_string());
    let steps = run(
        &mut session,
        &None,
        LINUX,
        vec![
            Answer::Found(None),
            Answer::Exists(false),
            Answer::Release(Ok("v5.21.0".to_string())),
            Answer::Exists(true),
        ],
    );
    assert_eq!(statuses(&steps), vec![&InstallationStatus::CheckingForUpdate]);
    assert_eq!(result(&steps), &Ok(launch("texlab-v5.21.0/texlab", &[])));
    assert_eq!(session.cached_texlab_path, Some("texlab-v5.21.0/texlab".to_string()));
}

#[test]
fn latest_release_is_downloaded_and_older_ones_are_pruned() {
    let mut session = LatexExtension::new();
    let steps = run(
        &mut session,
        &user_arguments(),
        LINUX,
        vec![
            Answer::Found(None),
            Answer::Release(Ok("v5.21.0".to_string())),
            Answer::Exists(false),
            Answer::Finished(Ok(())),
            Answer::Finished(Ok(())),
            Answer::Listed(Ok(names(&["texlab-v5.20.0", "texlab-v5.21.0", "evince_synctex.py"]))),
            Answer::Finished(Err("permission denied".to_string())),
        ],
    );
    assert_eq!(
        requests(&steps),
        vec![
            &Request::Which { name: "texlab".to_string() },
            &latest_release(),
            &Request::IsFile { path: "texlab-v5.21.0/texlab".to_string() },
            &Request::Download {
                url: "https://github.com/latex-lsp/texlab/releases/download/v5.21.0/texlab-x86_64-linux.tar.gz".to_string(),
                path: "texlab-v5.21.0".to_string(),
                file_type: ArchiveType::GzipTar,
            },
            &Request::MakeExecutable { path: "texlab-v5.21.0/texlab".to_string() },
            &Request::ListWorkDir,
            &Request::Remove { names: names(&["texlab-v5.20.0", "evince_synctex.py"]) },
        ]
    );
    assert_eq!(
        statuses(&steps),
        vec![&InstallationStatus::CheckingForUpdate, &InstallationStatus::Downloading]
    );
    assert_eq!(result(&steps), &Ok(launch("texlab-v5.21.0/texlab", &[])));
    assert_eq!(session.cached_texlab_path, Some("texlab-v5.21.0/texlab".to_string()));
}

#[test]
fn windows_release_is_a_zip_with_an_exe() {
    let mut session = LatexExtension::new();
    let steps = run(
        &mut session,
        &None,
        WINDOWS,
        vec![
            Answer::Found(None),
            Answer::Release(Ok("v5.21.0".to_string())),
            Answer::Exists(false),
            Answer::Finished(Ok(())),
            Answer::Finished(Ok(())),
            Answer::Listed(Err("access denied".to_string())),
        ],
    );
    assert_eq!(
        requests(&steps)[3],
        &Request::Download {
            url: "https://github.com/latex-lsp/texlab/releases/download/v5.21.0/texlab-i686-windows.zip".to_string(),
            path: "texlab-v5.21.0".to_string(),
            file_type: ArchiveType::Zip,
        }
    );
    assert_eq!(requests(&steps)[4], &Request::MakeExecutable { path: "texlab-v5.21.0/texlab.exe".to_string() });
    assert_eq!(result(&steps), &Ok(launch("texlab-v5.21.0/texlab.exe", &[])));
    assert_eq!(session.cached_texlab_path, Some("texlab-v5.21.0/texlab.exe".to_string()));
}

#[test]
fn release_that_is_in_place_is_not_downloaded_again() {
    let mut session = LatexExtension::new();
    let steps = run(
        &mut session,
        &None,
        MAC,
        vec![Answer::Found(None), Answer::Release(Ok("v5.21.0".to_string())), Answer::Exists(true)],
    );
    assert_eq!(statuses(&steps), vec![&InstallationStatus::CheckingForUpdate]);
    assert_eq!(result(&steps), &Ok(launch("texlab-v5.21.0/texlab", &[])));
}

#[test]
fn failed_release_query_falls_back_to_an_earlier_download() {
    let mut session = LatexExtension::new();
    let steps = run(
        &mut session,
        &None,
        LINUX,
        vec![
            Answer::Found(None),
            Answer::Release(Err("network unreachable".to_string())),
            Answer::Scanned(Ok(vec![entry("texlab-v5.19.0", true)])),
        ],
    );
    assert_eq!(
        requests(&steps),
        vec![
            &Request::Which { name: "texlab".to_string() },
            &latest_release(),
            &Request::ScanWorkDir { binary_name: "texlab".to_string() },
        ]
    );
    assert_eq!(
        statuses(&steps),
        vec![
            &InstallationStatus::CheckingForUpdate,
            &InstallationStatus::Failed(
                "Error finding latest GitHub release for texlab: network unreachable".to_string()
            ),
        ]
    );
    assert!(!statuses(&steps).contains(&&InstallationStatus::Downloading));
    assert_eq!(result(&steps), &Ok(launch("texlab-v5.19.0/texlab", &[])));
    assert_eq!(session.cached_texlab_path, Some("texlab-v5.19.0/texlab".to_string()));
}

#[test]
fn failed_release_query_without_earlier_download_is_an_error() {
    let mut session = LatexExtension::new();
    let steps = run(
        &mut session,
        &None,
        LINUX,
        vec![
            Answer::Found(None),
            Answer::Release(Err("timeout".to_string())),
            Answer::Scanned(Ok(vec![entry("texlab-v5.19.0", false), entry("notes", true)])),
        ],
    );
    assert_eq!(result(&steps), &Err(AcquisitionError::NoCachedRelease));
    assert_eq!(session.cached_texlab_path, None);

    let steps = run(
        &mut session,
        &None,
        LINUX,
        vec![
            Answer::Found(None),
            Answer::Release(Err("timeout".to_string())),
            Answer::Scanned(Err("not a directory".to_string())),
        ],
    );
    assert_eq!(result(&steps), &Err(AcquisitionError::ListWorkDir("not a directory".to_string())));
    assert_eq!(session.cached_texlab_path, None);
}

#[test]
fn failed_download_ends_the_search_and_nothing_is_remembered() {
    let mut session = LatexExtension::new();
    let steps = run(
        &mut session,
        &None,
        LINUX,
        vec![
            Answer::Found(None),
            Answer::Release(Ok("v5.21.0".to_string())),
            Answer::Exists(false),
            Answer::Finished(Err("connection reset".to_string())),
        ],
    );
    assert_eq!(result(&steps), &Err(AcquisitionError::Download("connection reset".to_string())));
    assert_eq!(session.cached_texlab_path, None);

    let steps = run(
        &mut session,
        &None,
        LINUX,
        vec![
            Answer::Found(None),
            Answer::Release(Ok("v5.21.0".to_string())),
            Answer::Exists(false),
            Answer::Finished(Ok(())),
            Answer::Finished(Err("chmod failed".to_string())),
        ],
    );
    assert_eq!(result(&steps), &Err(AcquisitionError::MakeExecutable("chmod failed".to_string())));
    assert_eq!(session.cached_texlab_path, None);
}

#[test]
fn acquisition_errors_have_readable_messages() {
    assert_eq!(
        AcquisitionError::Download("connection reset".to_string()).message(),
        "failed to download file: connection reset"
    );
    assert_eq!(AcquisitionError::MakeExecutable("chmod failed".to_string()).message(), "chmod failed");
    assert_eq!(
        AcquisitionError::ListWorkDir("denied".to_string()).message(),
        "failed to list working directory denied"
    );
    assert_eq!(
        AcquisitionError::NoCachedRelease.message(),
        "Failed to acquire latest texlab release and no cached version found"
    );
}

#[test]
fn latest_earlier_download_is_the_greatest_name() {
    let entries = vec![
        entry("texlab-v5.19.0", true),
        entry("texlab-v5.21.0", true),
        entry("texlab-v5.20.0", true),
        entry("texlab-v5.22.0", false),
        entry("texlab", true),
        entry("zzz", true),
        entry("Texlab-v9", true),
    ];
    assert_eq!(
        find_previously_downloaded_texlab_release(Os::Linux, &entries),
        Ok("texlab-v5.21.0/texlab".to_string())
    );
    assert_eq!(
        find_previously_downloaded_texlab_release(Os::Windows, &entries),
        Ok("texlab-v5.21.0/texlab.exe".to_string())
    );
    assert_eq!(
        find_previously_downloaded_texlab_release(Os::Mac, &vec![]),
        Err(AcquisitionError::NoCachedRelease)
    );
    assert_eq!(
        find_previously_downloaded_texlab_release(Os::Mac, &vec![entry("texlab-", true)]),
        Ok("texlab-/texlab".to_string())
    );
}

#[test]
fn versions_are_ordered_as_strings_not_as_numbers() {
    let entries = vec![entry("texlab-v5.9.0", true), entry("texlab-v5.10.0", true)];
    assert_eq!(
        find_previously_downloaded_texlab_release(Os::Linux, &entries),
        Ok("texlab-v5.9.0/texlab".to_string())
    );
    let entries = vec![entry("texlab-v5.1", true), entry("texlab-v5.1.1", true), entry("texlab-v5", true)];
    assert_eq!(
        find_previously_downloaded_texlab_release(Os::Linux, &entries),
        Ok("texlab-v5.1.1/texlab".to_string())
    );
    let entries = vec![entry("texlab-é", true), entry("texlab-z", true), entry("texlab-日", true)];
    assert_eq!(
        find_previously_downloaded_texlab_release(Os::Linux, &entries),
        Ok("texlab-日/texlab".to_string())
    );
}

#[test]
fn everything_but_the_release_is_pruned() {
    assert_eq!(
        others(&names(&["a", "texlab-v2", "b", "texlab-v2", "texlab-v1"]), "texlab-v2"),
        names(&["a", "b", "texlab-v1"])
    );
    assert_eq!(others(&names(&["texlab-v2"]), "texlab-v2"), names(&[]));
    assert_eq!(others(&names(&[]), "texlab-v2"), names(&[]));
}

#[test]
fn answer_of_another_kind_repeats_the_request() {
    let mut session = LatexExtension::new();
    let states = || {
        vec![
            State::Lookup,
            State::Cached { path: "p".to_string() },
            State::Release,
            State::Fallback,
            State::Installed { version: "v1".to_string() },
            State::Download { version: "v1".to_string() },
            State::Executable { version: "v1".to_string() },
            State::Listing { version: "v1".to_string() },
        ]
    };
    let expected = vec![
        Request::Which { name: "texlab".to_string() },
        Request::Exists { path: "p".to_string() },
        latest_release(),
        Request::ScanWorkDir { binary_name: "texlab".to_string() },
        Request::IsFile { path: "texlab-v1/texlab".to_string() },
        Request::Download {
            url: "https://github.com/latex-lsp/texlab/releases/download/v1/texlab-x86_64-linux.tar.gz".to_string(),
            path: "texlab-v1".to_string(),
            file_type: ArchiveType::GzipTar,
        },
        Request::MakeExecutable { path: "texlab-v1/texlab".to_string() },
        Request::ListWorkDir,
    ];
    for (state, request) in states().into_iter().zip(expected) {
        let answer = match state {
            State::Listing { .. } => Answer::Exists(true),
            _ => Answer::Listed(Ok(vec![])),
        };
        assert_eq!(pending(LINUX, &state), request);
        let step = resume(&mut session, LINUX, state.clone(), answer);
        assert_eq!(step, ask(request, state));
    }
    assert_eq!(session, LatexExtension::new());
}

#[test]
fn single_steps_say_what_they_are() {
    assert_eq!(
        check_for_update(),
        Step {
            status: Some(InstallationStatus::CheckingForUpdate),
            next: Next::Ask { request: latest_release(), state: State::Release },
        }
    );
    assert_eq!(
        acquire_latest_texlab(MAC, Ok("v2".to_string())),
        ask(
            Request::IsFile { path: "texlab-v2/texlab".to_string() },
            State::Installed { version: "v2".to_string() }
        )
    );
    assert_eq!(
        acquire_latest_texlab(WINDOWS, Err("rate limited".to_string())),
        Step {
            status: Some(InstallationStatus::Failed(
                "Error finding latest GitHub release for texlab: rate limited".to_string()
            )),
            next: Next::Ask {
                request: Request::ScanWorkDir { binary_name: "texlab.exe".to_string() },
                state: State::Fallback,
            },
        }
    );
    assert_eq!(
        download(MAC, "v2".to_string()),
        Step {
            status: Some(InstallationStatus::Downloading),
            next: Next::Ask {
                request: Request::Download {
                    url: "https://github.com/latex-lsp/texlab/releases/download/v2/texlab-aarch64-macos.tar.gz".to_string(),
                    path: "texlab-v2".to_string(),
                    file_type: ArchiveType::GzipTar,
                },
                state: State::Download { version: "v2".to_string() },
            },
        }
    );
    assert_eq!(
        pending(LINUX, &State::Prune { version: "v2".to_string(), names: names(&["a", "b"]) }),
        Request::Remove { names: names(&["a", "b"]) }
    );
    assert_eq!(arguments(&None), names(&[]));
    assert_eq!(arguments(&user_arguments()), names(&["-vvv", "--log-file", "/tmp/t.log"]));
    assert_eq!(clone_strings(&names(&["a", "b"])), names(&["a", "b"]));
    assert_eq!(located("texlab".to_string(), names(&["-v"])), launch("texlab", &["-v"]));
    assert_eq!(found("texlab".to_string()), launch("texlab", &[]));
}

#[test]
fn session_takes_note_of_its_surroundings_when_a_command_is_resolved() {
    let probe = PlatformProbe {
        platform: LINUX,
        shell_env: vec![],
        on_path: vec![("zeditor".to_string(), "/usr/bin/zeditor".to_string())],
        work_dir: None,
        helper_script: None,
    };
    let mut session = LatexExtension::new();
    session.cached_texlab_path = Some("texlab-v1/texlab".to_string());
    let step = session.language_server_command(&probe, Some(Preview::Okular), &None);
    assert_eq!(step, ask(Request::Which { name: "texlab".to_string() }, State::Lookup));
    assert_eq!(session.previewer, Some(Preview::Okular));
    assert_eq!(session.zed_command, Some(CommandName::Zeditor));
    assert_eq!(session.cached_texlab_path, Some("texlab-v1/texlab".to_string()));

    let binary = Some(CommandSettings { path: Some("/opt/texlab".to_string()), arguments: None });
    let step = session.language_server_command(
        &PlatformProbe { on_path: vec![], ..probe },
        None,
        &binary,
    );
    assert_eq!(step, done(Ok(launch("/opt/texlab", &[]))));
    assert_eq!(session.previewer, None);
    assert_eq!(session.zed_command, None);
}

#[test]
fn strings_are_ordered_as_in_a_dictionary_of_code_points() {
    let ordered = ["", "a", "a ", "a-", "a.", "a/", "a0", "aa", "b", "é", "日", "𝔸"];
    for (i, a) in ordered.iter().enumerate() {
        for (j, b) in ordered.iter().enumerate() {
            assert_eq!(lex_le(a, b), i <= j, "{a:?} <= {b:?}");
            assert_eq!(lex_le(a, b), a <= b);
        }
    }
}

#[test]
fn prefixes_are_recognised() {
    assert!(starts_with("texlab-v1", "texlab-"));
    assert!(starts_with("texlab-", "texlab-"));
    assert!(starts_with("anything", ""));
    assert!(starts_with("", ""));
    assert!(!starts_with("texlab", "texlab-"));
    assert!(!starts_with("Texlab-v1", "texlab-"));
    assert!(!starts_with("texlab_v1", "texlab-"));
    assert!(starts_with("日本語", "日本"));
    assert!(!starts_with("日本語", "本"));
}

#[test]
fn user_arguments_go_with_the_user_path_only() {
    let arguments = Some(names(&["--log-file", "/tmp/t.log"]));
    let with_path =
        Some(CommandSettings { path: Some("/opt/texlab".to_string()), arguments: arguments.clone() });
    let mut session = LatexExtension::new();
    let steps = run(&mut session, &with_path, LINUX, vec![]);
    assert_eq!(result(&steps), &Ok(launch("/opt/texlab", &["--log-file", "/tmp/t.log"])));

    let without_path = Some(CommandSettings { path: None, arguments });
    session.cached_texlab_path = Some("texlab-v1/texlab".to_string());
    let steps =
        run(&mut session, &without_path, LINUX, vec![Answer::Found(None), Answer::Exists(true)]);
    assert_eq!(result(&steps), &Ok(launch("texlab-v1/texlab", &[])));
    let steps = run(
        &mut session,
        &without_path,
        LINUX,
        vec![
            Answer::Found(None),
            Answer::Exists(false),
            Answer::Release(Err("offline".to_string())),
            Answer::Scanned(Ok(vec![entry("texlab-v1", true)])),
        ],
    );
    assert_eq!(result(&steps), &Ok(launch("texlab-v1/texlab", &[])));
}
