use vstd::prelude::*;
use vstd::utf8::valid_utf8;

use crate::configuration::ConfigurationView;
use crate::error::{MetaErrorView, CONFIGURATION_PATH_FIELD};
use crate::provider::AnisetteHeadersProviderType;
use crate::resolver::{
    first_step, next_step, provider_type_of, resolve, resolve_local, ActionView, BackendSupport,
    ResolutionView, Stage,
};

verus! {

/// The local backend comes up on `outcomes`: the proxy is created, its
/// provisioning path is set and the provider is built, on a state directory
/// whose path is text.
pub open spec fn local_provisions(cfg: ConfigurationView, outcomes: Seq<bool>) -> bool {
    &&& outcomes.len() >= 3
    &&& outcomes[0]
    &&& outcomes[1]
    &&& outcomes[2]
    &&& valid_utf8(cfg.configuration_path)
}

/// Resolving the local backend alone on a state directory whose path is not
/// text fails with `InvalidArgument` naming the configuration path, once the
/// proxy has been created.
pub proof fn lemma_unusable_path_is_invalid_argument(cfg: ConfigurationView, outcomes: Seq<bool>)
    requires
        !valid_utf8(cfg.configuration_path),
        outcomes.len() >= 1,
        outcomes[0],
    ensures
        resolve_local(cfg, outcomes) == ActionView::Fail(
            MetaErrorView::InvalidArgument(CONFIGURATION_PATH_FIELD@),
        ),
{
    reveal_with_fuel(crate::resolver::outcome, 3);
}

/// A full resolution whose state directory path is not text, with no remote
/// backend on offer and a native backend that is absent or fails, fails with
/// `InvalidArgument` naming the configuration path once the proxy has been
/// created.
pub proof fn lemma_unusable_path_fails_resolution(
    cfg: ConfigurationView,
    support: BackendSupport,
    outcomes: Seq<bool>,
)
    requires
        !valid_utf8(cfg.configuration_path),
        !support.remote,
        support.native ==> outcomes.len() >= 2 && !outcomes[0] && outcomes[1],
        !support.native ==> outcomes.len() >= 1 && outcomes[0],
    ensures
        resolve(cfg, support, outcomes) == ActionView::Fail(
            MetaErrorView::InvalidArgument(CONFIGURATION_PATH_FIELD@),
        ),
{
    reveal_with_fuel(crate::resolver::outcome, 4);
    assert(support.native ==> outcomes.drop_first()[0] == outcomes[1]);
}

/// With neither the native nor the remote backend on offer, a resolution on a
/// usable state directory in which the local backend does not come up fails
/// with `UnsupportedDevice`.
pub proof fn lemma_no_backend_is_unsupported(cfg: ConfigurationView, outcomes: Seq<bool>)
    requires
        valid_utf8(cfg.configuration_path),
        outcomes.len() >= 3,
        !local_provisions(cfg, outcomes),
    ensures
        resolve(cfg, BackendSupport { native: false, remote: false }, outcomes)
            == ActionView::Fail(MetaErrorView::UnsupportedDevice),
{
    reveal_with_fuel(crate::resolver::outcome, 5);
    assert(outcomes.drop_first()[0] == outcomes[1]);
    assert(outcomes.drop_first().drop_first()[0] == outcomes[2]);
}

/// With only the remote backend on offer besides a local backend that does
/// not come up, resolution hands out the remote provider on the configured
/// endpoint, whatever the state directory.
pub proof fn lemma_remote_only_is_remote(cfg: ConfigurationView, outcomes: Seq<bool>)
    requires
        outcomes.len() >= 3,
        !local_provisions(cfg, outcomes),
    ensures
        resolve(cfg, BackendSupport { native: false, remote: true }, outcomes)
            == ActionView::UseRemote(cfg.anisette_url),
        provider_type_of(resolve(cfg, BackendSupport { native: false, remote: true }, outcomes))
            == Some(AnisetteHeadersProviderType::Remote),
{
    reveal_with_fuel(crate::resolver::outcome, 5);
    assert(outcomes.drop_first()[0] == outcomes[1]);
    assert(outcomes.drop_first().drop_first()[0] == outcomes[2]);
}

/// A native backend that comes up is handed out as local before any other
/// backend is tried.
pub proof fn lemma_native_first(cfg: ConfigurationView, support: BackendSupport, outcomes: Seq<bool>)
    requires
        support.native,
        outcomes.len() >= 1,
        outcomes[0],
    ensures
        resolve(cfg, support, outcomes) == ActionView::Finish(AnisetteHeadersProviderType::Local),
{
    reveal_with_fuel(crate::resolver::outcome, 2);
}

/// Once the native backend, where offered, has failed, a local backend that
/// comes up is handed out as local: the remote backend is never reached.
pub proof fn lemma_local_before_remote(
    cfg: ConfigurationView,
    support: BackendSupport,
    outcomes: Seq<bool>,
)
    requires
        support.native ==> outcomes.len() >= 1 && !outcomes[0],
        local_provisions(cfg, if support.native { outcomes.drop_first() } else { outcomes }),
    ensures
        resolve(cfg, support, outcomes) == ActionView::Finish(AnisetteHeadersProviderType::Local),
{
    reveal_with_fuel(crate::resolver::outcome, 5);
    let rest = if support.native { outcomes.drop_first() } else { outcomes };
    assert(rest.drop_first()[0] == rest[1]);
    assert(rest.drop_first().drop_first()[0] == rest[2]);
}

/// A backend, as resolution tries them.
pub enum Backend {
    Native,
    Local,
    Remote,
}

/// The backend whose attempt an action begins, if any.
pub open spec fn started_backend(a: ActionView) -> Option<Backend> {
    match a {
        ActionView::StartNative => Some(Backend::Native),
        ActionView::CreateLocalProxy(_) => Some(Backend::Local),
        ActionView::UseRemote(_) => Some(Backend::Remote),
        _ => None,
    }
}

/// Every action that a resolution in state `s` issues, from `a` on, while
/// the outside steps report `outcomes` in turn.
pub open spec fn actions(s: ResolutionView, a: ActionView, outcomes: Seq<bool>) -> Seq<ActionView>
    decreases outcomes.len(),
{
    if s.stage == Stage::Done || outcomes.len() == 0 {
        seq![a]
    } else {
        let (s2, a2) = next_step(s, outcomes[0]);
        seq![a] + actions(s2, a2, outcomes.drop_first())
    }
}

/// The backends that `acts` begin to try, in order.
pub open spec fn attempted(acts: Seq<ActionView>) -> Seq<Backend>
    decreases acts.len(),
{
    if acts.len() == 0 {
        Seq::empty()
    } else {
        match started_backend(acts[0]) {
            Some(b) => seq![b] + attempted(acts.drop_first()),
            None => attempted(acts.drop_first()),
        }
    }
}

/// The backends on offer, highest priority first.
pub open spec fn priority(support: BackendSupport) -> Seq<Backend> {
    let native = if support.native { seq![Backend::Native] } else { Seq::empty() };
    let remote = if support.remote { seq![Backend::Remote] } else { Seq::empty() };
    native + seq![Backend::Local] + remote
}

/// The backends that a full resolution tries when the outside steps report
/// `outcomes`.
pub open spec fn resolution_attempts(
    cfg: ConfigurationView,
    support: BackendSupport,
    outcomes: Seq<bool>,
) -> Seq<Backend> {
    let (s, a) = first_step(cfg, support, false);
    attempted(actions(s, a, outcomes))
}

/// The backends a resolution tries are a prefix of those on offer in
/// priority order: each is tried at most once, none is skipped, and none is
/// tried after one has come up; a native backend that comes up is the only
/// one tried.
pub proof fn lemma_attempts_follow_priority(
    cfg: ConfigurationView,
    support: BackendSupport,
    outcomes: Seq<bool>,
)
    ensures
        resolution_attempts(cfg, support, outcomes).len() <= priority(support).len(),
        resolution_attempts(cfg, support, outcomes) =~= priority(support).subrange(
            0,
            resolution_attempts(cfg, support, outcomes).len() as int,
        ),
        support.native && outcomes.len() >= 1 && outcomes[0] ==> resolution_attempts(
            cfg,
            support,
            outcomes,
        ) =~= seq![Backend::Native],
{
    reveal_with_fuel(actions, 6);
    reveal_with_fuel(attempted, 6);
}

} // verus!
