//! How the `texlab` language server is started.
//!
//! The executable is looked for in this order, and the first match wins:
//! 1. the path that the user's settings give;
//! 2. an executable on the search path;
//! 3. the path that an earlier acquisition left behind, if it still exists;
//! 4. the latest release, downloaded unless it is already there, with the
//!    releases that were downloaded before as a fallback when the release
//!    cannot be looked up.
//!
//! The arguments of the user's settings go with the path of the user's
//! settings and with nothing else: an executable that was found in another
//! way is started without arguments.
//!
//! Looking, downloading and reporting are the caller's work. The search is
//! therefore a sequence of steps: each names the request to carry out, and
//! the answer is handed to [`resume`], until a step is the result.

pub mod laws;

use crate::platform::{Architecture, Os, PlatformInfo};
use crate::LatexExtension;
use crate::LatexExtensionView;
use vstd::prelude::*;
use vstd::string::*;

verus! {

/// Whether `a` comes before `b`, or is `b`, in the order of a dictionary
/// whose alphabet is the code points in their numbering.
pub open spec fn spec_lex_le(a: Seq<char>, b: Seq<char>) -> bool
    decreases a.len(),
{
    if a.len() == 0 {
        true
    } else if b.len() == 0 {
        false
    } else if a[0] != b[0] {
        a[0] < b[0]
    } else {
        spec_lex_le(a.drop_first(), b.drop_first())
    }
}

/// Compares two strings in the order of the dictionary, code point by
/// code point. Each step looks its code points up from the start of the
/// strings, which is fast enough for the names of directories.
pub fn lex_le(a: &str, b: &str) -> (le: bool)
    ensures
        le == spec_lex_le(a@, b@),
{
    let n = a.unicode_len();
    let m = b.unicode_len();
    let mut i: usize = 0;
    assert(a@.subrange(0, n as int) =~= a@);
    assert(b@.subrange(0, m as int) =~= b@);
    while i < n && i < m
        invariant
            i <= n,
            i <= m,
            n == a@.len(),
            m == b@.len(),
            spec_lex_le(a@, b@) == spec_lex_le(
                a@.subrange(i as int, n as int),
                b@.subrange(i as int, m as int),
            ),
        decreases n - i,
    {
        let ghost rest_a = a@.subrange(i as int, n as int);
        let ghost rest_b = b@.subrange(i as int, m as int);
        let x = a.get_char(i);
        let y = b.get_char(i);
        assert(rest_a[0] == x && rest_b[0] == y);
        if x != y {
            return x < y;
        }
        assert(rest_a.drop_first() =~= a@.subrange(i + 1, n as int));
        assert(rest_b.drop_first() =~= b@.subrange(i + 1, m as int));
        i += 1;
    }
    i == n
}

/// Whether `text` begins with `prefix`.
pub fn starts_with(text: &str, prefix: &str) -> (begins: bool)
    ensures
        begins == prefix@.is_prefix_of(text@),
{
    let n = prefix.unicode_len();
    if text.unicode_len() < n {
        return false;
    }
    let mut i: usize = 0;
    while i < n
        invariant
            i <= n,
            n == prefix@.len(),
            n <= text@.len(),
            forall|j: int| 0 <= j < i ==> text@[j] == prefix@[j],
        decreases n - i,
    {
        if text.get_char(i) != prefix.get_char(i) {
            assert(text@.subrange(0, n as int)[i as int] != prefix@[i as int]);
            return false;
        }
        i += 1;
    }
    assert(prefix@ =~= text@.subrange(0, n as int));
    true
}

/// A copy of a list of strings.
pub fn clone_strings(list: &Vec<String>) -> (copy: Vec<String>)
    ensures
        copy.deep_view() == list.deep_view(),
{
    let mut copy: Vec<String> = Vec::new();
    let mut i: usize = 0;
    while i < list.len()
        invariant
            i <= list.len(),
            copy.len() == i,
            forall|j: int| 0 <= j < i ==> copy[j]@ == list[j]@,
        decreases list.len() - i,
    {
        copy.push(list[i].clone());
        i += 1;
    }
    assert(copy.deep_view() =~= list.deep_view());
    copy
}

/// The name of the architecture in the names of release archives.
pub open spec fn spec_arch_name(arch: Architecture) -> Seq<char> {
    match arch {
        Architecture::Aarch64 => "aarch64"@,
        Architecture::X86 => "i686"@,
        Architecture::X8664 => "x86_64"@,
    }
}

/// The name of the operating system in the names of release archives.
pub open spec fn spec_os_name(os: Os) -> Seq<char> {
    match os {
        Os::Mac => "macos"@,
        Os::Linux => "linux"@,
        Os::Windows => "windows"@,
    }
}

/// The kind of archive in which a release comes.
#[derive(Copy, Clone, Debug, PartialEq, Eq, Structural)]
pub enum ArchiveType {
    /// A tar archive compressed with gzip.
    GzipTar,
    /// A zip archive.
    Zip,
}

/// The kind of archive that is released for an operating system.
pub open spec fn spec_archive_type(os: Os) -> ArchiveType {
    match os {
        Os::Mac | Os::Linux => ArchiveType::GzipTar,
        Os::Windows => ArchiveType::Zip,
    }
}

/// The file extension of the archive that is released for an operating
/// system.
pub open spec fn spec_archive_extension(os: Os) -> Seq<char> {
    match os {
        Os::Mac | Os::Linux => "tar.gz"@,
        Os::Windows => "zip"@,
    }
}

/// The name of the release archive for a platform.
pub open spec fn spec_asset_name(platform: PlatformInfo) -> Seq<char> {
    "texlab-"@ + spec_arch_name(platform.arch) + "-"@ + spec_os_name(platform.os) + "."@
        + spec_archive_extension(platform.os)
}

/// Where the archive of a release is downloaded from.
pub open spec fn spec_download_url(version: Seq<char>, platform: PlatformInfo) -> Seq<char> {
    "https://github.com/latex-lsp/texlab/releases/download/"@ + version + "/"@ + spec_asset_name(
        platform,
    )
}

/// The directory, in the working directory, that holds a release.
pub open spec fn spec_version_dir(version: Seq<char>) -> Seq<char> {
    "texlab-"@ + version
}

/// The name of the executable in a release.
pub open spec fn spec_binary_name(os: Os) -> Seq<char> {
    match os {
        Os::Mac | Os::Linux => "texlab"@,
        Os::Windows => "texlab.exe"@,
    }
}

/// The path of the executable in a directory of the working directory.
pub open spec fn spec_binary_in(dir: Seq<char>, os: Os) -> Seq<char> {
    dir + "/"@ + spec_binary_name(os)
}

/// The path of the executable of a release.
pub open spec fn spec_binary_path(version: Seq<char>, os: Os) -> Seq<char> {
    spec_binary_in(spec_version_dir(version), os)
}

/// The name of the architecture in the names of release archives.
pub fn arch_name(arch: Architecture) -> (name: &'static str)
    ensures
        name@ == spec_arch_name(arch),
{
    match arch {
        Architecture::Aarch64 => "aarch64",
        Architecture::X86 => "i686",
        Architecture::X8664 => "x86_64",
    }
}

/// The name of the operating system in the names of release archives.
pub fn os_name(os: Os) -> (name: &'static str)
    ensures
        name@ == spec_os_name(os),
{
    match os {
        Os::Mac => "macos",
        Os::Linux => "linux",
        Os::Windows => "windows",
    }
}

/// The kind of archive that is released for an operating system.
pub fn archive_type(os: Os) -> (kind: ArchiveType)
    ensures
        kind == spec_archive_type(os),
{
    match os {
        Os::Mac | Os::Linux => ArchiveType::GzipTar,
        Os::Windows => ArchiveType::Zip,
    }
}

/// The file extension of the archive that is released for an operating
/// system.
pub fn archive_extension(os: Os) -> (extension: &'static str)
    ensures
        extension@ == spec_archive_extension(os),
{
    match os {
        Os::Mac | Os::Linux => "tar.gz",
        Os::Windows => "zip",
    }
}

/// The name of the release archive for a platform.
pub fn asset_name(platform: PlatformInfo) -> (name: String)
    ensures
        name@ == spec_asset_name(platform),
{
    let mut name = String::from_str("texlab-");
    name.append(arch_name(platform.arch));
    name.append("-");
    name.append(os_name(platform.os));
    name.append(".");
    name.append(archive_extension(platform.os));
    name
}

/// Where the archive of a release is downloaded from.
pub fn download_url(version: &str, platform: PlatformInfo) -> (url: String)
    ensures
        url@ == spec_download_url(version@, platform),
{
    let mut url = String::from_str("https://github.com/latex-lsp/texlab/releases/download/");
    url.append(version);
    url.append("/");
    let asset = asset_name(platform);
    url.append(asset.as_str());
    assert(url@ =~= spec_download_url(version@, platform));
    url
}

/// The directory, in the working directory, that holds a release.
pub fn version_dir(version: &str) -> (dir: String)
    ensures
        dir@ == spec_version_dir(version@),
{
    let mut dir = String::from_str("texlab-");
    dir.append(version);
    dir
}

/// The name of the executable in a release.
pub fn binary_name(os: Os) -> (name: &'static str)
    ensures
        name@ == spec_binary_name(os),
{
    match os {
        Os::Mac | Os::Linux => "texlab",
        Os::Windows => "texlab.exe",
    }
}

/// The path of the executable in a directory of the working directory.
pub fn binary_in(dir: &str, os: Os) -> (path: String)
    ensures
        path@ == spec_binary_in(dir@, os),
{
    let mut path = String::from_str(dir);
    path.append("/");
    path.append(binary_name(os));
    path
}

/// The path of the executable of a release.
pub fn binary_path(version: &str, os: Os) -> (path: String)
    ensures
        path@ == spec_binary_path(version@, os),
{
    let dir = version_dir(version);
    binary_in(dir.as_str(), os)
}

/// Why no language server could be acquired.
#[derive(Clone, Debug, PartialEq, Eq)]
pub enum AcquisitionError {
    /// The archive of the release could not be fetched or unpacked.
    Download(String),
    /// The executable of the release could not be marked as executable.
    MakeExecutable(String),
    /// The release could not be looked up, and the working directory could
    /// not be searched for earlier ones.
    ListWorkDir(String),
    /// The release could not be looked up, and the working directory holds
    /// no earlier one.
    NoCachedRelease,
}

/// Mathematical content of an [`AcquisitionError`].
pub enum AcquisitionErrorView {
    Download(Seq<char>),
    MakeExecutable(Seq<char>),
    ListWorkDir(Seq<char>),
    NoCachedRelease,
}

impl View for AcquisitionError {
    type V = AcquisitionErrorView;

    open spec fn view(&self) -> AcquisitionErrorView {
        match self {
            AcquisitionError::Download(cause) => AcquisitionErrorView::Download(cause@),
            AcquisitionError::MakeExecutable(cause) => AcquisitionErrorView::MakeExecutable(
                cause@,
            ),
            AcquisitionError::ListWorkDir(cause) => AcquisitionErrorView::ListWorkDir(cause@),
            AcquisitionError::NoCachedRelease => AcquisitionErrorView::NoCachedRelease,
        }
    }
}

impl AcquisitionErrorView {
    /// The text of the error.
    pub open spec fn message(self) -> Seq<char> {
        match self {
            AcquisitionErrorView::Download(cause) => "failed to download file: "@ + cause,
            AcquisitionErrorView::MakeExecutable(cause) => cause,
            AcquisitionErrorView::ListWorkDir(cause) => "failed to list working directory "@
                + cause,
            AcquisitionErrorView::NoCachedRelease =>
                "Failed to acquire latest texlab release and no cached version found"@,
        }
    }
}

impl AcquisitionError {
    /// A description of the error for the user.
    pub fn message(&self) -> (text: String)
        ensures
            text@ == self@.message(),
    {
        match self {
            AcquisitionError::Download(cause) => {
                let mut text = String::from_str("failed to download file: ");
                text.append(cause.as_str());
                text
            },
            AcquisitionError::MakeExecutable(cause) => cause.clone(),
            AcquisitionError::ListWorkDir(cause) => {
                let mut text = String::from_str("failed to list working directory ");
                text.append(cause.as_str());
                text
            },
            AcquisitionError::NoCachedRelease => String::from_str(
                "Failed to acquire latest texlab release and no cached version found",
            ),
        }
    }
}

/// An entry of the working directory.
#[derive(Clone, Debug, PartialEq, Eq)]
pub struct DirEntry {
    /// The name of the entry.
    pub name: String,
    /// Whether the entry is a directory that holds a regular file of the
    /// name that was asked for.
    pub has_binary: bool,
}

/// Mathematical content of a [`DirEntry`].
pub struct DirEntryView {
    pub name: Seq<char>,
    pub has_binary: bool,
}

impl View for DirEntry {
    type V = DirEntryView;

    open spec fn view(&self) -> DirEntryView {
        DirEntryView { name: self.name@, has_binary: self.has_binary }
    }
}

impl DirEntryView {
    /// Whether the entry is a release that was downloaded before: its name
    /// is that of a release directory, and the executable is in it.
    pub open spec fn is_release(self) -> bool {
        "texlab-"@.is_prefix_of(self.name) && self.has_binary
    }
}

/// Mathematical content of the entries of a directory.
pub open spec fn entries_view(entries: Seq<DirEntry>) -> Seq<DirEntryView> {
    Seq::new(entries.len(), |i: int| entries[i]@)
}

/// The directory of the latest release among the entries: of those that are
/// releases, the one whose name is greatest in the order of the dictionary.
///
/// That order agrees with the order of the versions only where the numbers
/// in them have equally many digits.
pub open spec fn spec_latest_release(entries: Seq<DirEntryView>) -> Option<Seq<char>>
    decreases entries.len(),
{
    if entries.len() == 0 {
        None
    } else {
        let earlier = spec_latest_release(entries.drop_last());
        let entry = entries.last();
        if entry.is_release() && (earlier matches Some(best) ==> spec_lex_le(best, entry.name)) {
            Some(entry.name)
        } else {
            earlier
        }
    }
}

/// The executable of the latest release that was downloaded before, or the
/// error that there is none.
pub open spec fn spec_find_previously_downloaded_texlab_release(
    platform: Os,
    entries: Seq<DirEntryView>,
) -> Result<Seq<char>, AcquisitionErrorView> {
    match spec_latest_release(entries) {
        Some(dir) => Ok(spec_binary_in(dir, platform)),
        None => Err(AcquisitionErrorView::NoCachedRelease),
    }
}

/// Looks among the entries of the working directory for releases that were
/// downloaded before, and returns the executable of the latest one.
pub fn find_previously_downloaded_texlab_release(platform: Os, entries: &Vec<DirEntry>) -> (found:
    Result<String, AcquisitionError>)
    ensures
        (match found {
            Ok(path) => Ok(path@),
            Err(e) => Err(e@),
        }) == spec_find_previously_downloaded_texlab_release(platform, entries_view(entries@)),
{
    let ghost all = entries_view(entries@);
    let mut best: Option<usize> = None;
    let mut i: usize = 0;
    while i < entries.len()
        invariant
            i <= entries.len(),
            all == entries_view(entries@),
            match best {
                Some(b) => b < i && spec_latest_release(all.subrange(0, i as int)) == Some(
                    all[b as int].name,
                ),
                None => spec_latest_release(all.subrange(0, i as int)) is None,
            },
        decreases entries.len() - i,
    {
        let entry = &entries[i];
        let ghost upto = all.subrange(0, i + 1);
        assert(upto.drop_last() =~= all.subrange(0, i as int));
        assert(upto.last() == all[i as int]);
        if entry.has_binary && starts_with(entry.name.as_str(), "texlab-") {
            let later = match best {
                Some(b) => lex_le(entries[b].name.as_str(), entry.name.as_str()),
                None => true,
            };
            if later {
                best = Some(i);
            }
        }
        i += 1;
    }
    assert(all.subrange(0, i as int) =~= all);
    match best {
        Some(b) => Ok(binary_in(entries[b].name.as_str(), platform)),
        None => Err(AcquisitionError::NoCachedRelease),
    }
}

/// The names other than `keep`, in their order.
pub open spec fn spec_others(names: Seq<Seq<char>>, keep: Seq<char>) -> Seq<Seq<char>>
    decreases names.len(),
{
    if names.len() == 0 {
        Seq::empty()
    } else if names.last() != keep {
        spec_others(names.drop_last(), keep).push(names.last())
    } else {
        spec_others(names.drop_last(), keep)
    }
}

/// The entries of the working directory that are removed once a release is
/// in place: all but the directory of that release.
pub fn others(names: &Vec<String>, keep: &str) -> (rest: Vec<String>)
    ensures
        rest.deep_view() == spec_others(names.deep_view(), keep@),
{
    let kept = String::from_str(keep);
    let ghost all = names.deep_view();
    let mut rest: Vec<String> = Vec::new();
    let mut i: usize = 0;
    assert(rest.deep_view() =~= spec_others(all.subrange(0, 0), keep@));
    while i < names.len()
        invariant
            i <= names.len(),
            kept@ == keep@,
            all == names.deep_view(),
            rest.deep_view() == spec_others(all.subrange(0, i as int), keep@),
        decreases names.len() - i,
    {
        let ghost upto = all.subrange(0, i + 1);
        let ghost before = rest.deep_view();
        assert(upto.drop_last() =~= all.subrange(0, i as int));
        assert(upto.last() == names[i as int]@);
        if names[i] != kept {
            rest.push(names[i].clone());
            assert(rest.deep_view() =~= before.push(names[i as int]@));
        }
        i += 1;
    }
    assert(all.subrange(0, i as int) =~= all);
    rest
}

/// What the user's settings say about the executable of the language
/// server.
#[derive(Clone, Debug, PartialEq, Eq)]
pub struct CommandSettings {
    /// The path of the executable.
    pub path: Option<String>,
    /// The arguments to start it with.
    pub arguments: Option<Vec<String>>,
}

/// Mathematical content of [`CommandSettings`].
pub struct CommandSettingsView {
    pub path: Option<Seq<char>>,
    pub arguments: Option<Seq<Seq<char>>>,
}

impl View for CommandSettings {
    type V = CommandSettingsView;

    open spec fn view(&self) -> CommandSettingsView {
        CommandSettingsView {
            path: self.path.deep_view(),
            arguments: self.arguments.deep_view(),
        }
    }
}

/// How the language server is started: the executable, its arguments, and
/// the variables to set in its environment.
#[derive(Clone, Debug, PartialEq, Eq)]
pub struct BinaryLocation {
    pub command: String,
    pub args: Vec<String>,
    pub env: Vec<(String, String)>,
}

/// Mathematical content of a [`BinaryLocation`].
pub struct BinaryLocationView {
    pub command: Seq<char>,
    pub args: Seq<Seq<char>>,
    pub env: Seq<(Seq<char>, Seq<char>)>,
}

impl View for BinaryLocation {
    type V = BinaryLocationView;

    open spec fn view(&self) -> BinaryLocationView {
        BinaryLocationView {
            command: self.command@,
            args: self.args.deep_view(),
            env: self.env.deep_view(),
        }
    }
}

/// What is reported about the installation of the language server while it
/// is acquired. Success is reported by the result alone.
#[derive(Clone, Debug, PartialEq, Eq)]
pub enum InstallationStatus {
    CheckingForUpdate,
    Downloading,
    Failed(String),
}

/// Mathematical content of an [`InstallationStatus`].
pub enum InstallationStatusView {
    CheckingForUpdate,
    Downloading,
    Failed(Seq<char>),
}

impl View for InstallationStatus {
    type V = InstallationStatusView;

    open spec fn view(&self) -> InstallationStatusView {
        match self {
            InstallationStatus::CheckingForUpdate => InstallationStatusView::CheckingForUpdate,
            InstallationStatus::Downloading => InstallationStatusView::Downloading,
            InstallationStatus::Failed(cause) => InstallationStatusView::Failed(cause@),
        }
    }
}

/// Work for the caller to carry out. Each request is answered by the
/// [`Answer`] that is named with it.
#[derive(Clone, Debug, PartialEq, Eq)]
pub enum Request {
    /// Look `name` up on the search path. Answer: [`Answer::Found`].
    Which { name: String },
    /// Tell whether anything exists at `path`. Answer: [`Answer::Exists`].
    Exists { path: String },
    /// Look up the latest release of the project `repo`. Answer:
    /// [`Answer::Release`], with the version of the release.
    LatestRelease { repo: String, require_assets: bool, pre_release: bool },
    /// List the working directory, and tell of each entry whether it is a
    /// directory with a regular file `binary_name` in it. Answer:
    /// [`Answer::Scanned`].
    ScanWorkDir { binary_name: String },
    /// Tell whether `path` is a regular file. Answer: [`Answer::Exists`].
    IsFile { path: String },
    /// Fetch the archive at `url` and unpack it into the directory `path`.
    /// Answer: [`Answer::Finished`].
    Download { url: String, path: String, file_type: ArchiveType },
    /// Mark the file at `path` as executable. Answer: [`Answer::Finished`].
    MakeExecutable { path: String },
    /// List the names of the entries of the working directory. Answer:
    /// [`Answer::Listed`].
    ListWorkDir,
    /// Remove the entries `names` of the working directory, with all that is
    /// in them, as far as that succeeds. Answer: [`Answer::Finished`].
    Remove { names: Vec<String> },
}

/// Mathematical content of a [`Request`].
pub enum RequestView {
    Which { name: Seq<char> },
    Exists { path: Seq<char> },
    LatestRelease { repo: Seq<char>, require_assets: bool, pre_release: bool },
    ScanWorkDir { binary_name: Seq<char> },
    IsFile { path: Seq<char> },
    Download { url: Seq<char>, path: Seq<char>, file_type: ArchiveType },
    MakeExecutable { path: Seq<char> },
    ListWorkDir,
    Remove { names: Seq<Seq<char>> },
}

impl View for Request {
    type V = RequestView;

    open spec fn view(&self) -> RequestView {
        match self {
            Request::Which { name } => RequestView::Which { name: name@ },
            Request::Exists { path } => RequestView::Exists { path: path@ },
            Request::LatestRelease { repo, require_assets, pre_release } =>
                RequestView::LatestRelease {
                    repo: repo@,
                    require_assets: *require_assets,
                    pre_release: *pre_release,
                },
            Request::ScanWorkDir { binary_name } => RequestView::ScanWorkDir {
                binary_name: binary_name@,
            },
            Request::IsFile { path } => RequestView::IsFile { path: path@ },
            Request::Download { url, path, file_type } => RequestView::Download {
                url: url@,
                path: path@,
                file_type: *file_type,
            },
            Request::MakeExecutable { path } => RequestView::MakeExecutable { path: path@ },
            Request::ListWorkDir => RequestView::ListWorkDir,
            Request::Remove { names } => RequestView::Remove { names: names.deep_view() },
        }
    }
}

/// What the caller found when it carried out a request.
#[derive(Debug, PartialEq, Eq)]
pub enum Answer {
    /// Where the name resolves, if it does.
    Found(Option<String>),
    /// Whether the path exists, or is a regular file.
    Exists(bool),
    /// The version of the latest release, or why it could not be looked up.
    Release(Result<String, String>),
    /// The entries of the working directory, or why it could not be listed.
    /// An entry that cannot be read is left out.
    Scanned(Result<Vec<DirEntry>, String>),
    /// The names of the entries of the working directory, or why it could
    /// not be listed.
    Listed(Result<Vec<String>, String>),
    /// That the work was done, or why it failed.
    Finished(Result<(), String>),
}

/// Mathematical content of an [`Answer`].
pub enum AnswerView {
    Found(Option<Seq<char>>),
    Exists(bool),
    Release(Result<Seq<char>, Seq<char>>),
    Scanned(Result<Seq<DirEntryView>, Seq<char>>),
    Listed(Result<Seq<Seq<char>>, Seq<char>>),
    Finished(Result<(), Seq<char>>),
}

impl View for Answer {
    type V = AnswerView;

    open spec fn view(&self) -> AnswerView {
        match self {
            Answer::Found(path) => AnswerView::Found(path.deep_view()),
            Answer::Exists(exists) => AnswerView::Exists(*exists),
            Answer::Release(release) => AnswerView::Release(
                match release {
                    Ok(version) => Ok(version@),
                    Err(cause) => Err(cause@),
                },
            ),
            Answer::Scanned(scanned) => AnswerView::Scanned(
                match scanned {
                    Ok(entries) => Ok(entries_view(entries@)),
                    Err(cause) => Err(cause@),
                },
            ),
            Answer::Listed(listed) => AnswerView::Listed(
                match listed {
                    Ok(names) => Ok(names.deep_view()),
                    Err(cause) => Err(cause@),
                },
            ),
            Answer::Finished(finished) => AnswerView::Finished(
                match finished {
                    Ok(_) => Ok(()),
                    Err(cause) => Err(cause@),
                },
            ),
        }
    }
}

/// Where a search for the language server stands: which answer it waits
/// for.
#[derive(Clone, Debug, PartialEq, Eq)]
pub enum State {
    /// Waiting for the lookup on the search path.
    Lookup,
    /// Waiting to hear whether the path that was acquired earlier exists.
    Cached { path: String },
    /// Waiting for the latest release.
    Release,
    /// The release could not be looked up; waiting for the entries of the
    /// working directory.
    Fallback,
    /// Waiting to hear whether the release `version` is in place already.
    Installed { version: String },
    /// Waiting for the download of the release.
    Download { version: String },
    /// Waiting for the executable to be marked.
    Executable { version: String },
    /// The release is in place; waiting for the names in the working
    /// directory.
    Listing { version: String },
    /// Waiting for the entries `names` to be removed.
    Prune { version: String, names: Vec<String> },
}

/// Mathematical content of a [`State`].
pub enum StateView {
    Lookup,
    Cached { path: Seq<char> },
    Release,
    Fallback,
    Installed { version: Seq<char> },
    Download { version: Seq<char> },
    Executable { version: Seq<char> },
    Listing { version: Seq<char> },
    Prune { version: Seq<char>, names: Seq<Seq<char>> },
}

impl View for State {
    type V = StateView;

    open spec fn view(&self) -> StateView {
        match self {
            State::Lookup => StateView::Lookup,
            State::Cached { path } => StateView::Cached { path: path@ },
            State::Release => StateView::Release,
            State::Fallback => StateView::Fallback,
            State::Installed { version } => StateView::Installed { version: version@ },
            State::Download { version } => StateView::Download { version: version@ },
            State::Executable { version } => StateView::Executable { version: version@ },
            State::Listing { version } => StateView::Listing { version: version@ },
            State::Prune { version, names } => StateView::Prune {
                version: version@,
                names: names.deep_view(),
            },
        }
    }
}

/// How a search goes on.
#[derive(Debug, PartialEq, Eq)]
pub enum Next {
    /// Carry out `request` and hand the answer, with `state`, to
    /// [`resume`].
    Ask { request: Request, state: State },
    /// The search is over.
    Done(Result<BinaryLocation, AcquisitionError>),
}

/// Mathematical content of a [`Next`].
pub enum NextView {
    Ask { request: RequestView, state: StateView },
    Done(Result<BinaryLocationView, AcquisitionErrorView>),
}

impl View for Next {
    type V = NextView;

    open spec fn view(&self) -> NextView {
        match self {
            Next::Ask { request, state } => NextView::Ask { request: request@, state: state@ },
            Next::Done(result) => NextView::Done(
                match result {
                    Ok(location) => Ok(location@),
                    Err(e) => Err(e@),
                },
            ),
        }
    }
}

/// One step of a search: a status to report first, if there is one, and how
/// the search goes on.
#[derive(Debug, PartialEq, Eq)]
pub struct Step {
    pub status: Option<InstallationStatus>,
    pub next: Next,
}

/// Mathematical content of a [`Step`].
pub struct StepView {
    pub status: Option<InstallationStatusView>,
    pub next: NextView,
}

impl View for Step {
    type V = StepView;

    open spec fn view(&self) -> StepView {
        StepView {
            status: match self.status {
                Some(status) => Some(status@),
                None => None,
            },
            next: self.next@,
        }
    }
}

/// The arguments that the user's settings give, or none.
pub open spec fn spec_arguments(binary: Option<CommandSettingsView>) -> Seq<Seq<char>> {
    match binary {
        Some(CommandSettingsView { arguments: Some(arguments), .. }) => arguments,
        _ => Seq::empty(),
    }
}

/// The launch of the executable `command` with the arguments `args`: no
/// variable is added to the environment.
pub open spec fn spec_located(command: Seq<char>, args: Seq<Seq<char>>) -> BinaryLocationView {
    BinaryLocationView { command, args, env: Seq::empty() }
}

/// The launch of an executable that the search found: without arguments.
pub open spec fn spec_found(command: Seq<char>) -> BinaryLocationView {
    spec_located(command, Seq::empty())
}

/// A step that reports nothing and asks for `request`.
pub open spec fn spec_ask(request: RequestView, state: StateView) -> StepView {
    StepView { status: None, next: NextView::Ask { request, state } }
}

/// A step that reports nothing and ends the search.
pub open spec fn spec_done(result: Result<BinaryLocationView, AcquisitionErrorView>) -> StepView {
    StepView { status: None, next: NextView::Done(result) }
}

/// The first step of a search. A path in the user's settings ends it at
/// once: it is not checked, and it is started with the arguments of the
/// user's settings. Otherwise the search path is asked first.
pub open spec fn spec_command(binary: Option<CommandSettingsView>) -> StepView {
    match binary {
        Some(CommandSettingsView { path: Some(path), .. }) => spec_done(
            Ok(spec_located(path, spec_arguments(binary))),
        ),
        _ => spec_ask(RequestView::Which { name: "texlab"@ }, StateView::Lookup),
    }
}

/// The step that opens the acquisition of the latest release: the stable
/// release, with at least one file to download.
pub open spec fn spec_check_for_update() -> StepView {
    StepView {
        status: Some(InstallationStatusView::CheckingForUpdate),
        next: NextView::Ask {
            request: RequestView::LatestRelease {
                repo: "latex-lsp/texlab"@,
                require_assets: true,
                pre_release: false,
            },
            state: StateView::Release,
        },
    }
}

/// The step after the latest release was looked up. Where that failed, the
/// failure is reported and the working directory is searched for releases
/// that were downloaded before; otherwise the release is downloaded unless
/// its executable is in place.
pub open spec fn spec_acquire_latest_texlab(
    platform: PlatformInfo,
    release: Result<Seq<char>, Seq<char>>,
) -> StepView {
    match release {
        Ok(version) => spec_ask(
            RequestView::IsFile { path: spec_binary_path(version, platform.os) },
            StateView::Installed { version },
        ),
        Err(cause) => StepView {
            status: Some(
                InstallationStatusView::Failed(
                    "Error finding latest GitHub release for texlab: "@ + cause,
                ),
            ),
            next: NextView::Ask {
                request: RequestView::ScanWorkDir { binary_name: spec_binary_name(platform.os) },
                state: StateView::Fallback,
            },
        },
    }
}

/// The step that downloads a release.
pub open spec fn spec_download(platform: PlatformInfo, version: Seq<char>) -> StepView {
    StepView {
        status: Some(InstallationStatusView::Downloading),
        next: NextView::Ask {
            request: RequestView::Download {
                url: spec_download_url(version, platform),
                path: spec_version_dir(version),
                file_type: spec_archive_type(platform.os),
            },
            state: StateView::Download { version },
        },
    }
}

/// The request that a search waits on.
pub open spec fn spec_pending(platform: PlatformInfo, state: StateView) -> RequestView {
    match state {
        StateView::Lookup => RequestView::Which { name: "texlab"@ },
        StateView::Cached { path } => RequestView::Exists { path },
        StateView::Release => RequestView::LatestRelease {
            repo: "latex-lsp/texlab"@,
            require_assets: true,
            pre_release: false,
        },
        StateView::Fallback => RequestView::ScanWorkDir {
            binary_name: spec_binary_name(platform.os),
        },
        StateView::Installed { version } => RequestView::IsFile {
            path: spec_binary_path(version, platform.os),
        },
        StateView::Download { version } => RequestView::Download {
            url: spec_download_url(version, platform),
            path: spec_version_dir(version),
            file_type: spec_archive_type(platform.os),
        },
        StateView::Executable { version } => RequestView::MakeExecutable {
            path: spec_binary_path(version, platform.os),
        },
        StateView::Listing { .. } => RequestView::ListWorkDir,
        StateView::Prune { names, .. } => RequestView::Remove { names },
    }
}

/// The end of an acquisition: the path is remembered for later searches and
/// is the result.
pub open spec fn spec_acquired(extension: LatexExtensionView, path: Seq<char>) -> (
    StepView,
    LatexExtensionView,
) {
    (
        spec_done(Ok(spec_found(path))),
        LatexExtensionView { cached_texlab_path: Some(path), ..extension }
    )
}

/// The step that follows an answer, and what the instance remembers after
/// it.
///
/// An answer of another kind than the one that the search waits for changes
/// nothing: the request is made again.
pub open spec fn spec_resume(
    extension: LatexExtensionView,
    platform: PlatformInfo,
    state: StateView,
    answer: AnswerView,
) -> (StepView, LatexExtensionView) {
    match (state, answer) {
        (StateView::Lookup, AnswerView::Found(Some(path))) => (
            spec_done(Ok(spec_found(path))),
            extension,
        ),
        (StateView::Lookup, AnswerView::Found(None)) => match extension.cached_texlab_path {
            Some(path) => (
                spec_ask(RequestView::Exists { path }, StateView::Cached { path }),
                extension,
            ),
            None => (spec_check_for_update(), extension),
        },
        (StateView::Cached { path }, AnswerView::Exists(exists)) => if exists {
            (spec_done(Ok(spec_found(path))), extension)
        } else {
            (spec_check_for_update(), extension)
        },
        (StateView::Release, AnswerView::Release(release)) => (
            spec_acquire_latest_texlab(platform, release),
            extension,
        ),
        (StateView::Fallback, AnswerView::Scanned(Ok(entries))) =>
            match spec_find_previously_downloaded_texlab_release(platform.os, entries) {
                Ok(path) => spec_acquired(extension, path),
                Err(e) => (spec_done(Err(e)), extension),
            },
        (StateView::Fallback, AnswerView::Scanned(Err(cause))) => (
            spec_done(Err(AcquisitionErrorView::ListWorkDir(cause))),
            extension,
        ),
        (StateView::Installed { version }, AnswerView::Exists(exists)) => if exists {
            spec_acquired(extension, spec_binary_path(version, platform.os))
        } else {
            (spec_download(platform, version), extension)
        },
        (StateView::Download { version }, AnswerView::Finished(Ok(_))) => (
            spec_ask(
                RequestView::MakeExecutable { path: spec_binary_path(version, platform.os) },
                StateView::Executable { version },
            ),
            extension,
        ),
        (StateView::Download { .. }, AnswerView::Finished(Err(cause))) => (
            spec_done(Err(AcquisitionErrorView::Download(cause))),
            extension,
        ),
        (StateView::Executable { version }, AnswerView::Finished(Ok(_))) => (
            spec_ask(RequestView::ListWorkDir, StateView::Listing { version }),
            extension,
        ),
        (StateView::Executable { .. }, AnswerView::Finished(Err(cause))) => (
            spec_done(Err(AcquisitionErrorView::MakeExecutable(cause))),
            extension,
        ),
        (StateView::Listing { version }, AnswerView::Listed(Ok(names))) => (
            spec_ask(
                RequestView::Remove { names: spec_others(names, spec_version_dir(version)) },
                StateView::Prune {
                    version,
                    names: spec_others(names, spec_version_dir(version)),
                },
            ),
            extension,
        ),
        (StateView::Listing { version }, AnswerView::Listed(Err(_))) => spec_acquired(
            extension,
            spec_binary_path(version, platform.os),
        ),
        (StateView::Prune { version, .. }, _) => spec_acquired(
            extension,
            spec_binary_path(version, platform.os),
        ),
        (state, _) => (spec_ask(spec_pending(platform, state), state), extension),
    }
}

/// The arguments that the user's settings give, or none.
pub fn arguments(binary: &Option<CommandSettings>) -> (args: Vec<String>)
    ensures
        args.deep_view() == spec_arguments(
            match binary {
                Some(binary) => Some(binary@),
                None => None,
            },
        ),
{
    match binary {
        Some(CommandSettings { arguments: Some(arguments), .. }) => clone_strings(arguments),
        _ => {
            let args: Vec<String> = Vec::new();
            assert(args.deep_view() =~= Seq::empty());
            args
        },
    }
}

/// The launch of the executable `command` with the arguments `args`: no
/// variable is added to the environment.
pub fn located(command: String, args: Vec<String>) -> (location: BinaryLocation)
    ensures
        location@ == spec_located(command@, args.deep_view()),
{
    let env: Vec<(String, String)> = Vec::new();
    assert(env.deep_view() =~= Seq::empty());
    BinaryLocation { command, args, env }
}

/// The launch of an executable that the search found: without arguments.
pub fn found(command: String) -> (location: BinaryLocation)
    ensures
        location@ == spec_found(command@),
{
    let args: Vec<String> = Vec::new();
    assert(args.deep_view() =~= Seq::empty());
    located(command, args)
}

/// Begins the search for the language server.
///
/// A path in the user's settings is the result at once, with the user's
/// arguments: it is trusted as it stands, and neither the search path nor
/// anything else is asked. Otherwise the first request is the lookup of
/// `texlab` on the search path.
pub fn command(binary: &Option<CommandSettings>) -> (step: Step)
    ensures
        step@ == spec_command(
            match binary {
                Some(binary) => Some(binary@),
                None => None,
            },
        ),
{
    match binary {
        Some(CommandSettings { path: Some(path), .. }) => Step {
            status: None,
            next: Next::Done(Ok(located(path.clone(), arguments(binary)))),
        },
        _ => Step {
            status: None,
            next: Next::Ask {
                request: Request::Which { name: String::from_str("texlab") },
                state: State::Lookup,
            },
        },
    }
}

/// Opens the acquisition of the latest release.
pub fn check_for_update() -> (step: Step)
    ensures
        step@ == spec_check_for_update(),
{
    Step {
        status: Some(InstallationStatus::CheckingForUpdate),
        next: Next::Ask {
            request: Request::LatestRelease {
                repo: String::from_str("latex-lsp/texlab"),
                require_assets: true,
                pre_release: false,
            },
            state: State::Release,
        },
    }
}

/// Goes on after the latest release was looked up.
///
/// With a release, the next question is whether its executable is in place.
/// Without one, the failure is reported and the working directory is
/// searched for releases that were downloaded before.
pub fn acquire_latest_texlab(platform: PlatformInfo, release: Result<String, String>) -> (step:
    Step)
    ensures
        step@ == spec_acquire_latest_texlab(
            platform,
            match release {
                Ok(version) => Ok(version@),
                Err(cause) => Err(cause@),
            },
        ),
{
    match release {
        Ok(version) => Step {
            status: None,
            next: Next::Ask {
                request: Request::IsFile { path: binary_path(version.as_str(), platform.os) },
                state: State::Installed { version },
            },
        },
        Err(cause) => {
            let mut report = String::from_str("Error finding latest GitHub release for texlab: ");
            report.append(cause.as_str());
            Step {
                status: Some(InstallationStatus::Failed(report)),
                next: Next::Ask {
                    request: Request::ScanWorkDir {
                        binary_name: String::from_str(binary_name(platform.os)),
                    },
                    state: State::Fallback,
                },
            }
        },
    }
}

/// The step that downloads a release.
pub fn download(platform: PlatformInfo, version: String) -> (step: Step)
    ensures
        step@ == spec_download(platform, version@),
{
    Step {
        status: Some(InstallationStatus::Downloading),
        next: Next::Ask {
            request: Request::Download {
                url: download_url(version.as_str(), platform),
                path: version_dir(version.as_str()),
                file_type: archive_type(platform.os),
            },
            state: State::Download { version },
        },
    }
}

/// The request that a search waits on.
pub fn pending(platform: PlatformInfo, state: &State) -> (request: Request)
    ensures
        request@ == spec_pending(platform, state@),
{
    match state {
        State::Lookup => Request::Which { name: String::from_str("texlab") },
        State::Cached { path } => Request::Exists { path: path.clone() },
        State::Release => Request::LatestRelease {
            repo: String::from_str("latex-lsp/texlab"),
            require_assets: true,
            pre_release: false,
        },
        State::Fallback => Request::ScanWorkDir {
            binary_name: String::from_str(binary_name(platform.os)),
        },
        State::Installed { version } => Request::IsFile {
            path: binary_path(version.as_str(), platform.os),
        },
        State::Download { version } => Request::Download {
            url: download_url(version.as_str(), platform),
            path: version_dir(version.as_str()),
            file_type: archive_type(platform.os),
        },
        State::Executable { version } => Request::MakeExecutable {
            path: binary_path(version.as_str(), platform.os),
        },
        State::Listing { .. } => Request::ListWorkDir,
        State::Prune { names, .. } => Request::Remove { names: clone_strings(names) },
    }
}

/// Makes the pending request again.
fn repeat(platform: PlatformInfo, state: State) -> (step: Step)
    ensures
        step@ == spec_ask(spec_pending(platform, state@), state@),
{
    Step { status: None, next: Next::Ask { request: pending(platform, &state), state } }
}

/// Ends an acquisition: the path is remembered for later searches and is
/// the result.
fn acquired(latex_extension: &mut LatexExtension, path: String) -> (step: Step)
    ensures
        (step@, final(latex_extension)@) == spec_acquired(old(latex_extension)@, path@),
{
    latex_extension.cached_texlab_path = Some(path.clone());
    Step { status: None, next: Next::Done(Ok(found(path))) }
}

/// Goes on with the search after the request of the last step was carried
/// out: `state` is the state of that step, `answer` what the caller found.
///
/// The tiers are tried in their order and none twice. A failure to look
/// the release up is no failure of the search while an earlier download is
/// at hand; a failure to download or to unpack is. Old releases are removed
/// only after the new one is in place, and whatever becomes of the removal,
/// the search succeeds. The path is remembered in `latex_extension` exactly
/// when an acquisition succeeds. Whatever is found here is started without
/// arguments: those of the user's settings belong to the user's path.
pub fn resume(
    latex_extension: &mut LatexExtension,
    platform: PlatformInfo,
    state: State,
    answer: Answer,
) -> (step: Step)
    ensures
        (step@, final(latex_extension)@) == spec_resume(
            old(latex_extension)@,
            platform,
            state@,
            answer@,
        ),
{
    match state {
        State::Lookup => match answer {
            Answer::Found(Some(path)) => Step {
                status: None,
                next: Next::Done(Ok(found(path))),
            },
            Answer::Found(None) => match &latex_extension.cached_texlab_path {
                Some(path) => Step {
                    status: None,
                    next: Next::Ask {
                        request: Request::Exists { path: path.clone() },
                        state: State::Cached { path: path.clone() },
                    },
                },
                None => check_for_update(),
            },
            _ => repeat(platform, State::Lookup),
        },
        State::Cached { path } => match answer {
            Answer::Exists(true) => Step {
                status: None,
                next: Next::Done(Ok(found(path))),
            },
            Answer::Exists(false) => check_for_update(),
            _ => repeat(platform, State::Cached { path }),
        },
        State::Release => match answer {
            Answer::Release(release) => acquire_latest_texlab(platform, release),
            _ => repeat(platform, State::Release),
        },
        State::Fallback => match answer {
            Answer::Scanned(Ok(entries)) => match find_previously_downloaded_texlab_release(
                platform.os,
                &entries,
            ) {
                Ok(path) => acquired(latex_extension, path),
                Err(e) => Step { status: None, next: Next::Done(Err(e)) },
            },
            Answer::Scanned(Err(cause)) => Step {
                status: None,
                next: Next::Done(Err(AcquisitionError::ListWorkDir(cause))),
            },
            _ => repeat(platform, State::Fallback),
        },
        State::Installed { version } => match answer {
            Answer::Exists(true) => acquired(latex_extension, binary_path(version.as_str(), platform.os)),
            Answer::Exists(false) => download(platform, version),
            _ => repeat(platform, State::Installed { version }),
        },
        State::Download { version } => match answer {
            Answer::Finished(Ok(_)) => Step {
                status: None,
                next: Next::Ask {
                    request: Request::MakeExecutable {
                        path: binary_path(version.as_str(), platform.os),
                    },
                    state: State::Executable { version },
                },
            },
            Answer::Finished(Err(cause)) => Step {
                status: None,
                next: Next::Done(Err(AcquisitionError::Download(cause))),
            },
            _ => repeat(platform, State::Download { version }),
        },
        State::Executable { version } => match answer {
            Answer::Finished(Ok(_)) => Step {
                status: None,
                next: Next::Ask { request: Request::ListWorkDir, state: State::Listing { version } },
            },
            Answer::Finished(Err(cause)) => Step {
                status: None,
                next: Next::Done(Err(AcquisitionError::MakeExecutable(cause))),
            },
            _ => repeat(platform, State::Executable { version }),
        },
        State::Listing { version } => match answer {
            Answer::Listed(Ok(names)) => {
                let keep = version_dir(version.as_str());
                let rest = others(&names, keep.as_str());
                Step {
                    status: None,
                    next: Next::Ask {
                        request: Request::Remove { names: clone_strings(&rest) },
                        state: State::Prune { version, names: rest },
                    },
                }
            },
            Answer::Listed(Err(_)) => acquired(latex_extension, binary_path(version.as_str(), platform.os)),
            _ => repeat(platform, State::Listing { version }),
        },
        State::Prune { version, .. } => acquired(latex_extension, binary_path(version.as_str(), platform.os)),
    }
}

} // verus!
