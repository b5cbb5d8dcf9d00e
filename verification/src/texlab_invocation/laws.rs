//! What holds of every search for the language server.

use crate::platform::PlatformInfo;
use crate::texlab_invocation::{
    spec_arguments, spec_ask, spec_command, spec_done, spec_latest_release, spec_lex_le,
    spec_located, spec_others, spec_pending, spec_resume, AnswerView, CommandSettingsView, DirEntryView, InstallationStatusView, NextView,
    StateView,
};
use crate::LatexExtensionView;
use vstd::prelude::*;

verus! {

/// A path in the user's settings ends the search at its first step: the
/// result is that path, as it stands, with the user's arguments. No request
/// is made, so neither the search path nor the remembered path nor the
/// network is asked.
pub proof fn lemma_user_path_wins(binary: CommandSettingsView)
    requires
        binary.path is Some,
    ensures
        spec_command(Some(binary)) == spec_done(
            Ok(spec_located(binary.path->Some_0, spec_arguments(Some(binary)))),
        ),
        spec_command(Some(binary)).status is None,
        spec_command(Some(binary)).next matches NextView::Done(Ok(location)) && location.command
            == binary.path->Some_0,
{
}

/// The arguments of the user's settings go with the path of the user's
/// settings alone: an executable that the search finds, on the search path,
/// at the remembered path or by an acquisition, is started without
/// arguments and with nothing added to its environment.
pub proof fn lemma_arguments_only_with_a_user_path(
    extension: LatexExtensionView,
    platform: PlatformInfo,
    state: StateView,
    answer: AnswerView,
)
    ensures
        spec_resume(extension, platform, state, answer).0.next matches NextView::Done(
            Ok(location),
        ) ==> location.args == Seq::<Seq<char>>::empty() && location.env == Seq::<
            (Seq<char>, Seq<char>),
        >::empty(),
{
}

/// A download is reported only where the latest release was looked up and
/// its executable is not in place. In particular none is reported on the way
/// through the releases that were downloaded before.
pub proof fn lemma_downloading_only_for_a_missing_release(
    extension: LatexExtensionView,
    platform: PlatformInfo,
    state: StateView,
    answer: AnswerView,
)
    requires
        spec_resume(extension, platform, state, answer).0.status == Some(
            InstallationStatusView::Downloading,
        ),
    ensures
        state is Installed,
        answer == AnswerView::Exists(false),
{
}

/// Once the latest release could not be looked up, nothing is downloaded:
/// whatever the working directory holds, the search ends there, with an
/// earlier download or with an error, and reports nothing more.
pub proof fn lemma_fallback_ends_the_search(
    extension: LatexExtensionView,
    platform: PlatformInfo,
    answer: AnswerView,
)
    ensures
        ({
            let step = spec_resume(extension, platform, StateView::Fallback, answer).0;
            &&& step.status is None
            &&& answer is Scanned ==> step.next is Done
            &&& !(answer is Scanned) ==> (step.next matches NextView::Ask { state, .. } && state
                == StateView::Fallback)
        }),
{
}

/// The request of a step is the one that its state waits on: a search can
/// be picked up again from its state alone.
pub proof fn lemma_a_step_asks_what_its_state_waits_on(
    extension: LatexExtensionView,
    binary: Option<CommandSettingsView>,
    platform: PlatformInfo,
    state: StateView,
    answer: AnswerView,
)
    ensures
        spec_command(binary).next matches NextView::Ask { request, state } ==> request
            == spec_pending(platform, state),
        spec_resume(extension, platform, state, answer).0.next matches NextView::Ask {
            request,
            state,
        } ==> request == spec_pending(platform, state),
{
}

/// Whether an answer is of the kind that a state waits for.
pub open spec fn spec_fits(state: StateView, answer: AnswerView) -> bool {
    match state {
        StateView::Lookup => answer is Found,
        StateView::Cached { .. } | StateView::Installed { .. } => answer is Exists,
        StateView::Release => answer is Release,
        StateView::Fallback => answer is Scanned,
        StateView::Download { .. } | StateView::Executable { .. } => answer is Finished,
        StateView::Listing { .. } => answer is Listed,
        StateView::Prune { .. } => true,
    }
}

/// How many requests a search may still make, counting the one it waits
/// on.
pub open spec fn spec_requests_left(state: StateView) -> nat {
    match state {
        StateView::Lookup => 8,
        StateView::Cached { .. } => 7,
        StateView::Release => 6,
        StateView::Installed { .. } => 5,
        StateView::Download { .. } => 4,
        StateView::Executable { .. } => 3,
        StateView::Listing { .. } => 2,
        StateView::Prune { .. } => 1,
        StateView::Fallback => 1,
    }
}

/// Every answer of the kind that is waited for brings the search forward:
/// it ends, or it goes on in a state that is nearer to the end. No tier is
/// tried twice, and a search makes eight requests at most. An answer of
/// another kind leaves the search where it is.
pub proof fn lemma_every_answer_brings_the_search_forward(
    extension: LatexExtensionView,
    platform: PlatformInfo,
    state: StateView,
    answer: AnswerView,
)
    ensures
        ({
            let (step, after) = spec_resume(extension, platform, state, answer);
            if spec_fits(state, answer) {
                step.next matches NextView::Ask { state: next, .. } ==> spec_requests_left(next)
                    < spec_requests_left(state)
            } else {
                step == spec_ask(spec_pending(platform, state), state) && after == extension
            }
        }),
{
}

/// What an instance remembers changes only where an acquisition ends well,
/// and then it is the path of the result.
pub proof fn lemma_remembers_only_what_it_acquired(
    extension: LatexExtensionView,
    platform: PlatformInfo,
    state: StateView,
    answer: AnswerView,
)
    ensures
        ({
            let (step, after) = spec_resume(extension, platform, state, answer);
            after == extension || (step.next matches NextView::Done(Ok(location)) && after
                == LatexExtensionView { cached_texlab_path: Some(location.command), ..extension })
        }),
{
}

/// The order of the dictionary puts every string before or at itself.
pub proof fn lemma_lex_le_reflexive(a: Seq<char>)
    ensures
        spec_lex_le(a, a),
    decreases a.len(),
{
    if a.len() > 0 {
        lemma_lex_le_reflexive(a.drop_first());
    }
}

/// Of two strings, one comes before or at the other.
pub proof fn lemma_lex_le_total(a: Seq<char>, b: Seq<char>)
    ensures
        spec_lex_le(a, b) || spec_lex_le(b, a),
    decreases a.len(),
{
    if a.len() > 0 && b.len() > 0 {
        if a[0] == b[0] {
            lemma_lex_le_total(a.drop_first(), b.drop_first());
        }
    }
}

/// The order of the dictionary is transitive.
pub proof fn lemma_lex_le_transitive(a: Seq<char>, b: Seq<char>, c: Seq<char>)
    requires
        spec_lex_le(a, b),
        spec_lex_le(b, c),
    ensures
        spec_lex_le(a, c),
    decreases a.len(),
{
    if a.len() > 0 && b.len() > 0 && c.len() > 0 && a[0] == b[0] && b[0] == c[0] {
        lemma_lex_le_transitive(a.drop_first(), b.drop_first(), c.drop_first());
    }
}

/// The latest release among the entries of a directory is one of the
/// releases in it, and no release in it has a name that comes after; there
/// is none exactly where the directory holds no release.
pub proof fn lemma_latest_release_is_greatest(entries: Seq<DirEntryView>)
    ensures
        spec_latest_release(entries) is None <==> forall|i: int|
            0 <= i < entries.len() ==> !(#[trigger] entries[i]).is_release(),
        spec_latest_release(entries) matches Some(best) ==> {
            &&& exists|i: int|
                0 <= i < entries.len() && (#[trigger] entries[i]).is_release() && entries[i].name
                    == best
            &&& forall|i: int|
                0 <= i < entries.len() && (#[trigger] entries[i]).is_release() ==> spec_lex_le(
                    entries[i].name,
                    best,
                )
        },
    decreases entries.len(),
{
    if entries.len() > 0 {
        let front = entries.drop_last();
        let entry = entries.last();
        lemma_latest_release_is_greatest(front);
        assert forall|i: int| 0 <= i < front.len() implies front[i] == entries[i] by {}
        match spec_latest_release(entries) {
            None => {
                assert forall|i: int| 0 <= i < entries.len() implies !(
                #[trigger] entries[i]).is_release() by {
                    if i < front.len() {
                        assert(front[i] == entries[i]);
                    }
                }
            },
            Some(best) => {
                let earlier = spec_latest_release(front);
                if entry.is_release() && (earlier matches Some(b) ==> spec_lex_le(b, entry.name)) {
                    assert(entries[entries.len() - 1].is_release());
                    assert forall|i: int|
                        0 <= i < entries.len() && (
                        #[trigger] entries[i]).is_release() implies spec_lex_le(
                        entries[i].name,
                        best,
                    ) by {
                        if i < front.len() {
                            assert(front[i].is_release());
                            lemma_lex_le_transitive(entries[i].name, earlier->Some_0, best);
                        } else {
                            lemma_lex_le_reflexive(best);
                        }
                    }
                } else {
                    let w = choose|i: int|
                        0 <= i < front.len() && (#[trigger] front[i]).is_release() && front[i].name
                            == best;
                    assert(entries[w].is_release() && entries[w].name == best);
                    assert forall|i: int|
                        0 <= i < entries.len() && (
                        #[trigger] entries[i]).is_release() implies spec_lex_le(
                        entries[i].name,
                        best,
                    ) by {
                        if i < front.len() {
                            assert(front[i].is_release());
                        } else {
                            lemma_lex_le_total(best, entry.name);
                        }
                    }
                }
                assert(exists|i: int|
                    0 <= i < entries.len() && (#[trigger] entries[i]).is_release()
                        && entries[i].name == best);
            },
        }
    }
}

/// Once the entries that are to be removed are gone, the working directory
/// holds nothing but the release that is kept: every name in it other than
/// that of the release is removed, and nothing else is.
pub proof fn lemma_only_the_release_stays(names: Seq<Seq<char>>, keep: Seq<char>)
    ensures
        forall|name: Seq<char>| #[trigger]
            spec_others(names, keep).contains(name) <==> names.contains(name) && name != keep,
    decreases names.len(),
{
    let rest = spec_others(names, keep);
    if names.len() > 0 {
        let front = names.drop_last();
        let last = names.last();
        lemma_only_the_release_stays(front, keep);
        assert forall|name: Seq<char>| #[trigger]
            rest.contains(name) <==> names.contains(name) && name != keep by {
            let before = spec_others(front, keep);
            if rest.contains(name) {
                let i = choose|i: int| 0 <= i < rest.len() && rest[i] == name;
                if last != keep && i == rest.len() - 1 {
                    assert(names[names.len() - 1] == name);
                } else {
                    assert(before[i] == name);
                    assert(before.contains(name));
                    let j = choose|j: int| 0 <= j < front.len() && front[j] == name;
                    assert(names[j] == name);
                }
            }
            if names.contains(name) && name != keep {
                let j = choose|j: int| 0 <= j < names.len() && names[j] == name;
                if j == names.len() - 1 {
                    assert(rest[rest.len() - 1] == name);
                } else {
                    assert(front[j] == name);
                    assert(front.contains(name));
                    assert(before.contains(name));
                    let i = choose|i: int| 0 <= i < before.len() && before[i] == name;
                    assert(rest[i] == name);
                }
            }
        }
    }
}

} // verus!
