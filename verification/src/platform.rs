//! The machine as the host environment reports it.
//!
//! The host answers three kinds of question: which operating system and
//! processor it runs on, where an executable is found on the search path, and
//! what the shell environment holds. None of them has a side effect, so their
//! answers are gathered once into a [`PlatformProbe`] and the resolvers read
//! that snapshot.

use vstd::prelude::*;
use vstd::string::*;

verus! {

/// Operating system of the host.
#[derive(Copy, Clone, Debug, PartialEq, Eq, Structural)]
pub enum Os {
    Mac,
    Linux,
    Windows,
}

/// Processor architecture of the host.
#[derive(Copy, Clone, Debug, PartialEq, Eq, Structural)]
pub enum Architecture {
    Aarch64,
    X86,
    X8664,
}

/// Operating system and architecture, queried once per process.
#[derive(Copy, Clone, Debug, PartialEq, Eq, Structural)]
pub struct PlatformInfo {
    pub os: Os,
    pub arch: Architecture,
}

/// What is known about a file in the working directory.
#[derive(Copy, Clone, Debug, PartialEq, Eq, Structural)]
pub struct FileStat {
    /// Whether the entry is a regular file.
    pub is_file: bool,
    /// Last modification, in whole seconds since the Unix epoch, where the
    /// file system records one.
    pub modified: Option<i64>,
}

/// The value bound to `key` by the first pair of `pairs` that has this key.
pub open spec fn spec_lookup(pairs: Seq<(Seq<char>, Seq<char>)>, key: Seq<char>) -> Option<
    Seq<char>,
>
    decreases pairs.len(),
{
    if pairs.len() == 0 {
        None
    } else if pairs[0].0 == key {
        Some(pairs[0].1)
    } else {
        spec_lookup(pairs.drop_first(), key)
    }
}

/// Skipping pairs with another key does not change what a lookup finds.
pub proof fn lemma_lookup_skip(pairs: Seq<(Seq<char>, Seq<char>)>, key: Seq<char>, n: int)
    requires
        0 <= n <= pairs.len(),
        forall|j: int| 0 <= j < n ==> pairs[j].0 != key,
    ensures
        spec_lookup(pairs, key) == spec_lookup(pairs.subrange(n, pairs.len() as int), key),
    decreases n,
{
    if n == 0 {
        assert(pairs.subrange(0, pairs.len() as int) =~= pairs);
    } else {
        let rest = pairs.drop_first();
        assert forall|j: int| 0 <= j < n - 1 implies rest[j].0 != key by {
            assert(rest[j] == pairs[j + 1]);
        }
        lemma_lookup_skip(rest, key, n - 1);
        assert(rest.subrange(n - 1, rest.len() as int) =~= pairs.subrange(n, pairs.len() as int));
    }
}

/// The value bound to `key` by the first pair of `pairs` that has this key.
pub fn lookup(pairs: &Vec<(String, String)>, key: &str) -> (found: Option<String>)
    ensures
        found.deep_view() == spec_lookup(pairs.deep_view(), key@),
{
    let wanted = String::from_str(key);
    let ghost all = pairs.deep_view();
    let mut i: usize = 0;
    while i < pairs.len()
        invariant
            i <= pairs.len(),
            wanted@ == key@,
            all == pairs.deep_view(),
            forall|j: int| 0 <= j < i ==> all[j].0 != key@,
        decreases pairs.len() - i,
    {
        if pairs[i].0 == wanted {
            let value = pairs[i].1.clone();
            proof {
                lemma_lookup_skip(all, key@, i as int);
                assert(all.subrange(i as int, all.len() as int)[0] == all[i as int]);
            }
            return Some(value);
        }
        i += 1;
    }
    proof {
        lemma_lookup_skip(all, key@, i as int);
    }
    None
}

/// A snapshot of what the host reports about the machine and the working
/// directory of the extension.
#[derive(Clone, Debug, PartialEq, Eq)]
pub struct PlatformProbe {
    /// Operating system and architecture.
    pub platform: PlatformInfo,
    /// The shell environment, as ordered pairs of variable and value.
    pub shell_env: Vec<(String, String)>,
    /// Each name that resolves on the search path, with the path it
    /// resolves to. A name that is not listed does not resolve.
    pub on_path: Vec<(String, String)>,
    /// The working directory, where it can be written as a string.
    pub work_dir: Option<String>,
    /// The inverse-search helper script in the working directory, if an
    /// entry of that name exists.
    pub helper_script: Option<FileStat>,
}

/// Mathematical content of a [`PlatformProbe`].
pub struct PlatformProbeView {
    pub platform: PlatformInfo,
    pub shell_env: Seq<(Seq<char>, Seq<char>)>,
    pub on_path: Seq<(Seq<char>, Seq<char>)>,
    pub work_dir: Option<Seq<char>>,
    pub helper_script: Option<FileStat>,
}

impl PlatformProbeView {
    /// Where `name` resolves on the search path, if it does.
    pub open spec fn which(self, name: Seq<char>) -> Option<Seq<char>> {
        spec_lookup(self.on_path, name)
    }

    /// Whether the shell environment sets the variable `name`.
    pub open spec fn has_env(self, name: Seq<char>) -> bool {
        spec_lookup(self.shell_env, name) is Some
    }
}

impl View for PlatformProbe {
    type V = PlatformProbeView;

    open spec fn view(&self) -> PlatformProbeView {
        PlatformProbeView {
            platform: self.platform,
            shell_env: self.shell_env.deep_view(),
            on_path: self.on_path.deep_view(),
            work_dir: self.work_dir.deep_view(),
            helper_script: self.helper_script,
        }
    }
}

impl PlatformProbe {
    /// Operating system and architecture of the host.
    pub fn current_platform(&self) -> (platform: PlatformInfo)
        ensures
            platform == self@.platform,
    {
        self.platform
    }

    /// Where `name` resolves on the search path, if it does.
    pub fn which(&self, name: &str) -> (path: Option<String>)
        ensures
            path.deep_view() == self@.which(name@),
    {
        lookup(&self.on_path, name)
    }

    /// Whether the shell environment sets the variable `name`.
    pub fn has_env(&self, name: &str) -> (set: bool)
        ensures
            set == self@.has_env(name@),
    {
        lookup(&self.shell_env, name).is_some()
    }
}

} // verus!
