//! The PDF viewers that can be wired up for forward and inverse search: how
//! one is found on the machine, and what settings it takes.

use crate::platform::{FileStat, Os, PlatformProbe, PlatformProbeView};
use crate::texlab_workspace_config::types::{
    TexlabForwardSearchSettings, TexlabForwardSearchSettingsView,
};
use crate::zed_command::CommandName;
use chrono::{TimeZone, Utc};
use vstd::prelude::*;
use vstd::string::*;

verus! {

/// A known PDF viewer.
#[derive(Clone, Debug, PartialEq, Eq)]
pub enum Preview {
    Zathura,
    Skim,
    Sioyek,
    QPDFView,
    Okular,
    SumatraPDF,
    /// Evince needs a helper script for inverse search; the variant holds
    /// the path of the local copy.
    Evince { evince_synctex_path: String },
}

/// Mathematical content of a [`Preview`].
pub enum PreviewView {
    Zathura,
    Skim,
    Sioyek,
    QPDFView,
    Okular,
    SumatraPDF,
    Evince { evince_synctex_path: Seq<char> },
}

impl View for Preview {
    type V = PreviewView;

    open spec fn view(&self) -> PreviewView {
        match self {
            Preview::Zathura => PreviewView::Zathura,
            Preview::Skim => PreviewView::Skim,
            Preview::Sioyek => PreviewView::Sioyek,
            Preview::QPDFView => PreviewView::QPDFView,
            Preview::Okular => PreviewView::Okular,
            Preview::SumatraPDF => PreviewView::SumatraPDF,
            Preview::Evince { evince_synctex_path } => PreviewView::Evince {
                evince_synctex_path: evince_synctex_path@,
            },
        }
    }
}

/// What a search for a previewer comes to.
#[derive(Clone, Debug, PartialEq, Eq)]
pub enum Resolution {
    /// The search is over: this previewer, or none.
    Resolved(Option<Preview>),
    /// Evince is installed, and no current copy of its helper script is at
    /// hand. The file at `url` is to be stored, as it is, under `file_name`
    /// in the working directory; [`Preview::after_fetch`] then ends the
    /// search.
    Fetch { url: String, file_name: String, evince_synctex_path: String },
}

/// Mathematical content of a [`Resolution`].
pub enum ResolutionView {
    Resolved(Option<PreviewView>),
    Fetch { url: Seq<char>, file_name: Seq<char>, evince_synctex_path: Seq<char> },
}

impl View for Resolution {
    type V = ResolutionView;

    open spec fn view(&self) -> ResolutionView {
        match self {
            Resolution::Resolved(preview) => ResolutionView::Resolved(
                match preview {
                    Some(preview) => Some(preview@),
                    None => None,
                },
            ),
            Resolution::Fetch { url, file_name, evince_synctex_path } => ResolutionView::Fetch {
                url: url@,
                file_name: file_name@,
                evince_synctex_path: evince_synctex_path@,
            },
        }
    }
}

/// Seconds from the Unix epoch to midnight, UTC, at the start of the given
/// day of the proleptic Gregorian calendar; `None` where the calendar has no
/// such day, or the year lies outside the years that chrono holds.
pub uninterp spec fn spec_utc_midnight(year: i32, month: u32, day: u32) -> Option<i64>;

/// Calls chrono's `Utc.with_ymd_and_hms(year, month, day, 0, 0, 0)`, keeps
/// the single date and time that it stands for, if there is one, and reads
/// its `timestamp()`. Nothing is proved of the number: the contract only
/// gives it a name.
#[verifier::external_body]
fn utc_midnight(year: i32, month: u32, day: u32) -> (seconds: Option<i64>)
    ensures
        seconds == spec_utc_midnight(year, month, day),
{
    match Utc.with_ymd_and_hms(year, month, day, 0, 0, 0).single() {
        Some(midnight) => Some(midnight.timestamp()),
        None => None,
    }
}

/// The moment from which on a stored helper script counts as current, for a
/// given start of the day on which the pinned revision was last changed: that
/// start, or the epoch where the calendar has no such day.
pub open spec fn spec_cutoff(midnight: Option<i64>) -> i64 {
    match midnight {
        Some(seconds) => seconds,
        None => 0,
    }
}

/// The moment from which on a stored helper script counts as current.
pub open spec fn spec_last_update() -> i64 {
    spec_cutoff(spec_utc_midnight(2025, 3, 20))
}

/// Whether a stored helper script is current: it is a regular file, and it
/// was written at or after `cutoff`.
pub open spec fn spec_is_current(script: Option<FileStat>, cutoff: i64) -> bool {
    script matches Some(stat) && stat.is_file && (stat.modified matches Some(modified) && modified
        >= cutoff)
}

/// Where the helper script lies, seen from outside the working directory.
pub open spec fn spec_script_path(work_dir: Seq<char>) -> Seq<char> {
    work_dir + "/"@ + "evince_synctex.py"@
}

/// The viewers that are found by their executable alone, in their order of
/// preference.
pub open spec fn spec_fallback(probe: PlatformProbeView) -> Option<PreviewView> {
    if probe.which("zathura"@) is Some {
        Some(PreviewView::Zathura)
    } else if probe.which("sioyek"@) is Some {
        Some(PreviewView::Sioyek)
    } else if probe.which("qpdfview"@) is Some {
        Some(PreviewView::QPDFView)
    } else if probe.which("okular"@) is Some {
        Some(PreviewView::Okular)
    } else {
        None
    }
}

/// What a search for a previewer comes to, when a stored helper script
/// counts as current from `cutoff` on.
///
/// The first match wins: on macOS the display-line tool that Skim bundles;
/// then Evince, which needs its helper script and, without a current copy,
/// a fetch; then the viewers that are found by their executable alone.
/// Evince is passed over where the working directory cannot be named.
pub open spec fn spec_determine(probe: PlatformProbeView, cutoff: i64) -> ResolutionView {
    if probe.platform.os == Os::Mac && probe.which(
        "/Applications/Skim.app/Contents/SharedSupport/displayline"@,
    ) is Some {
        ResolutionView::Resolved(Some(PreviewView::Skim))
    } else if probe.which("evince"@) is Some && probe.work_dir is Some {
        let evince_synctex_path = spec_script_path(probe.work_dir->Some_0);
        if spec_is_current(probe.helper_script, cutoff) {
            ResolutionView::Resolved(Some(PreviewView::Evince { evince_synctex_path }))
        } else {
            ResolutionView::Fetch {
                url: "https://raw.githubusercontent.com/lnay/evince-synctex/635f7863408a44f3aaa0dbad512f2ba6ac1ad6ff/evince_synctex.py"@,
                file_name: "evince_synctex.py"@,
                evince_synctex_path,
            }
        }
    } else {
        ResolutionView::Resolved(spec_fallback(probe))
    }
}

/// How the search ends once the fetch of the helper script was tried: with
/// Evince if the script arrived, else with the viewers that come after it.
pub open spec fn spec_after_fetch(
    probe: PlatformProbeView,
    evince_synctex_path: Seq<char>,
    fetched: bool,
) -> Option<PreviewView> {
    if fetched {
        Some(PreviewView::Evince { evince_synctex_path })
    } else {
        spec_fallback(probe)
    }
}

impl PreviewView {
    /// The forward-search settings for this viewer, with `zed_command` in
    /// the place of the editor in the inverse-search callback.
    ///
    /// The placeholders (`%f`, `%l`, `%p` and the like) are filled in later,
    /// by the language server and by the viewer.
    pub open spec fn create_preset(
        self,
        zed_command: CommandName,
    ) -> TexlabForwardSearchSettingsView {
        match self {
            PreviewView::Zathura => TexlabForwardSearchSettingsView {
                executable: Some("zathura"@),
                args: Some(
                    seq![
                        "--synctex-forward"@,
                        "%l:1:%f"@,
                        "-x"@,
                        zed_command.spec_to_str() + " %%{input}:%%{line}"@,
                        "%p"@,
                    ],
                ),
            },
            PreviewView::Skim => TexlabForwardSearchSettingsView {
                executable: Some("/Applications/Skim.app/Contents/SharedSupport/displayline"@),
                args: Some(seq!["-r"@, "%l"@, "%p"@, "%f"@]),
            },
            PreviewView::Sioyek => TexlabForwardSearchSettingsView {
                executable: Some("sioyek"@),
                args: Some(
                    seq![
                        "--reuse-window"@,
                        "--inverse-search"@,
                        zed_command.spec_to_str() + " \"%%1\":%%2"@,
                        "--forward-search-file"@,
                        "%f"@,
                        "--forward-search-line"@,
                        "%l"@,
                        "%p"@,
                    ],
                ),
            },
            PreviewView::Okular => TexlabForwardSearchSettingsView {
                executable: Some("sh"@),
                args: Some(
                    seq![
                        "-c"@,
                        "okular --unique --noraise --editor-cmd \""@ + zed_command.spec_to_str()
                            + " '%%f':%%l:%%c\" \"%p#src:%l %f\" || okular --unique --noraise \"%p#src:%l %f\""@,
                    ],
                ),
            },
            PreviewView::QPDFView => TexlabForwardSearchSettingsView {
                executable: Some("qpdfview"@),
                args: Some(seq!["--unique"@, "%p#src:%f:%l:1"@]),
            },
            PreviewView::Evince { evince_synctex_path } => TexlabForwardSearchSettingsView {
                executable: Some("python"@),
                args: Some(
                    seq![
                        evince_synctex_path,
                        "-f"@,
                        "%l"@,
                        "-t"@,
                        "%f"@,
                        "%p"@,
                        zed_command.spec_to_str() + " %%f:%%l"@,
                    ],
                ),
            },
            PreviewView::SumatraPDF => TexlabForwardSearchSettingsView::empty(),
        }
    }
}

/// The text of `prefix` followed by that of `suffix`.
fn joined(prefix: &str, suffix: &str) -> (text: String)
    ensures
        text@ == prefix@ + suffix@,
{
    let mut text = String::from_str(prefix);
    text.append(suffix);
    text
}

impl Preview {
    /// The forward-search settings for this viewer, with `zed_command` in
    /// the place of the editor in the inverse-search callback. A viewer
    /// without a template gets the empty settings.
    pub fn create_preset(&self, zed_command: CommandName) -> (preset: TexlabForwardSearchSettings)
        ensures
            preset@ == self@.create_preset(zed_command),
    {
        let zed = zed_command.to_str();
        let mut args: Vec<String> = Vec::new();
        let executable = match self {
            Preview::Zathura => {
                args.push(String::from_str("--synctex-forward"));
                args.push(String::from_str("%l:1:%f"));
                args.push(String::from_str("-x"));
                args.push(joined(zed, " %%{input}:%%{line}"));
                args.push(String::from_str("%p"));
                "zathura"
            },
            Preview::Skim => {
                args.push(String::from_str("-r"));
                args.push(String::from_str("%l"));
                args.push(String::from_str("%p"));
                args.push(String::from_str("%f"));
                "/Applications/Skim.app/Contents/SharedSupport/displayline"
            },
            Preview::Sioyek => {
                args.push(String::from_str("--reuse-window"));
                args.push(String::from_str("--inverse-search"));
                args.push(joined(zed, " \"%%1\":%%2"));
                args.push(String::from_str("--forward-search-file"));
                args.push(String::from_str("%f"));
                args.push(String::from_str("--forward-search-line"));
                args.push(String::from_str("%l"));
                args.push(String::from_str("%p"));
                "sioyek"
            },
            Preview::Okular => {
                // No single okular command both searches forward and sets
                // the editor command, so a shell runs two. `--unique` and
                // `--editor-cmd` are at odds once okular is open; the first
                // command then fails and the second, without the editor
                // command, which is set by then, takes over.
                let mut script = joined("okular --unique --noraise --editor-cmd \"", zed);
                script.append(
                    " '%%f':%%l:%%c\" \"%p#src:%l %f\" || okular --unique --noraise \"%p#src:%l %f\"",
                );
                args.push(String::from_str("-c"));
                args.push(script);
                "sh"
            },
            Preview::QPDFView => {
                args.push(String::from_str("--unique"));
                args.push(String::from_str("%p#src:%f:%l:1"));
                "qpdfview"
            },
            Preview::Evince { evince_synctex_path } => {
                args.push(evince_synctex_path.clone());
                args.push(String::from_str("-f"));
                args.push(String::from_str("%l"));
                args.push(String::from_str("-t"));
                args.push(String::from_str("%f"));
                args.push(String::from_str("%p"));
                args.push(joined(zed, " %%f:%%l"));
                "python"
            },
            Preview::SumatraPDF => {
                return TexlabForwardSearchSettings::default();
            },
        };
        let preset = TexlabForwardSearchSettings {
            executable: Some(String::from_str(executable)),
            args: Some(args),
        };
        assert(preset@.args->Some_0 =~= self@.create_preset(zed_command).args->Some_0);
        preset
    }

    /// The viewers that are found by their executable alone, in their order
    /// of preference.
    pub fn fallback(probe: &PlatformProbe) -> (preview: Option<Preview>)
        ensures
            (match preview {
                Some(preview) => Some(preview@),
                None => None,
            }) == spec_fallback(probe@),
    {
        if probe.which("zathura").is_some() {
            Some(Preview::Zathura)
        } else if probe.which("sioyek").is_some() {
            Some(Preview::Sioyek)
        } else if probe.which("qpdfview").is_some() {
            Some(Preview::QPDFView)
        } else if probe.which("okular").is_some() {
            Some(Preview::Okular)
        } else {
            None
        }
    }

    /// The moment from which on a stored helper script counts as current,
    /// for a given start of the day on which the pinned revision was last
    /// changed.
    pub fn cutoff(midnight: Option<i64>) -> (seconds: i64)
        ensures
            seconds == spec_cutoff(midnight),
    {
        match midnight {
            Some(seconds) => seconds,
            None => 0,
        }
    }

    /// The moment from which on a stored helper script counts as current:
    /// the start, in UTC, of the day on which the pinned revision of the
    /// script was last changed.
    pub fn last_update() -> (seconds: i64)
        ensures
            seconds == spec_last_update(),
    {
        Self::cutoff(utc_midnight(2025, 3, 20))
    }

    /// Whether a stored helper script is current: it is a regular file, and
    /// it was written at or after `cutoff`.
    pub fn is_current(script: &Option<FileStat>, cutoff: i64) -> (current: bool)
        ensures
            current == spec_is_current(*script, cutoff),
    {
        match script {
            Some(stat) => stat.is_file && match stat.modified {
                Some(modified) => modified >= cutoff,
                None => false,
            },
            None => false,
        }
    }

    /// Searches for a previewer, when a stored helper script counts as
    /// current from `cutoff` on.
    pub fn determine_at(probe: &PlatformProbe, cutoff: i64) -> (resolution: Resolution)
        ensures
            resolution@ == spec_determine(probe@, cutoff),
    {
        if probe.current_platform().os == Os::Mac && probe.which(
            "/Applications/Skim.app/Contents/SharedSupport/displayline",
        ).is_some() {
            return Resolution::Resolved(Some(Preview::Skim));
        }
        if probe.which("evince").is_some() {
            match &probe.work_dir {
                Some(work_dir) => {
                    let mut evince_synctex_path = work_dir.clone();
                    evince_synctex_path.append("/");
                    evince_synctex_path.append("evince_synctex.py");
                    if Self::is_current(&probe.helper_script, cutoff) {
                        return Resolution::Resolved(Some(Preview::Evince { evince_synctex_path }));
                    }
                    return Resolution::Fetch {
                        url: String::from_str(
                            "https://raw.githubusercontent.com/lnay/evince-synctex/635f7863408a44f3aaa0dbad512f2ba6ac1ad6ff/evince_synctex.py",
                        ),
                        file_name: String::from_str("evince_synctex.py"),
                        evince_synctex_path,
                    };
                },
                None => {},
            }
        }
        Resolution::Resolved(Self::fallback(probe))
    }

    /// Searches for a previewer.
    ///
    /// The probe is read in a fixed order and the first match wins. Where
    /// Evince is installed and its helper script is missing or older than
    /// the revision that this library pins, the answer is a request to fetch
    /// the script, and [`Preview::after_fetch`] ends the search. `None` in
    /// the answer means that no previewer was found; forward and inverse
    /// search are then left as the user has them.
    pub fn determine(probe: &PlatformProbe) -> (resolution: Resolution)
        ensures
            resolution@ == spec_determine(probe@, spec_last_update()),
    {
        Self::determine_at(probe, Self::last_update())
    }

    /// Ends the search after the fetch of the helper script was tried.
    /// Evince is chosen only if the script arrived; a failed fetch falls
    /// through to the viewers that come after Evince.
    pub fn after_fetch(probe: &PlatformProbe, evince_synctex_path: String, fetched: bool) -> (preview:
        Option<Preview>)
        ensures
            (match preview {
                Some(preview) => Some(preview@),
                None => None,
            }) == spec_after_fetch(probe@, evince_synctex_path@, fetched),
    {
        if fetched {
            Some(Preview::Evince { evince_synctex_path })
        } else {
            Self::fallback(probe)
        }
    }
}

} // verus!
