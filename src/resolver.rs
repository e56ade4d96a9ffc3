use vstd::prelude::*;

use crate::configuration::{provisioning_path_of, AnisetteConfiguration, ConfigurationView};
use crate::error::{AnisetteMetaError, MetaErrorView};
use crate::provider::AnisetteHeadersProviderType;

verus! {

/// Entry points that pick the backend producing anisette headers.
pub struct AnisetteHeaders;

/// Which optional backends this build and host offer. The local backend is
/// always tried.
#[derive(Debug, Clone, Copy, PartialEq, Eq, Structural)]
pub struct BackendSupport {
    /// The platform-native signing service.
    pub native: bool,
    /// The network-backed remote service.
    pub remote: bool,
}

/// The outside step whose outcome a resolution waits for.
#[derive(Debug, Clone, Copy, PartialEq, Eq, Structural)]
pub enum Stage {
    /// Starting the platform-native backend.
    Native,
    /// Creating the local identity proxy on the state directory.
    LocalProxy,
    /// Setting the proxy's provisioning path.
    ProvisioningPath,
    /// Wrapping the configured proxy into a provider.
    LocalProvider,
    /// Nothing: the resolution has ended.
    Done,
}

/// What the caller does next on behalf of a resolution.
#[derive(Debug)]
pub enum ResolveAction {
    /// Try to start the platform-native backend, then report the outcome.
    StartNative,
    /// Create the local identity proxy on this directory, then report.
    CreateLocalProxy(Vec<u8>),
    /// Set the proxy's provisioning path to this text, then report.
    SetProvisioningPath(String),
    /// Wrap the proxy into a provider keeping state in this directory, then report.
    CreateLocalProvider(Vec<u8>),
    /// End: build the remote provider on this endpoint and hand it out as remote.
    UseRemote(String),
    /// End: hand out the provider built last, with this origin.
    Finish(AnisetteHeadersProviderType),
    /// End: fail with this error.
    Fail(AnisetteMetaError),
    /// End: fail with the error the backend just reported.
    Abort,
}

/// An action as plain values.
pub enum ActionView {
    StartNative,
    CreateLocalProxy(Seq<u8>),
    SetProvisioningPath(Seq<char>),
    CreateLocalProvider(Seq<u8>),
    UseRemote(Seq<char>),
    Finish(AnisetteHeadersProviderType),
    Fail(MetaErrorView),
    Abort,
}

impl View for ResolveAction {
    type V = ActionView;

    open spec fn view(&self) -> ActionView {
        match self {
            ResolveAction::StartNative => ActionView::StartNative,
            ResolveAction::CreateLocalProxy(p) => ActionView::CreateLocalProxy(p@),
            ResolveAction::SetProvisioningPath(t) => ActionView::SetProvisioningPath(t@),
            ResolveAction::CreateLocalProvider(p) => ActionView::CreateLocalProvider(p@),
            ResolveAction::UseRemote(u) => ActionView::UseRemote(u@),
            ResolveAction::Finish(t) => ActionView::Finish(*t),
            ResolveAction::Fail(e) => ActionView::Fail(e@),
            ResolveAction::Abort => ActionView::Abort,
        }
    }
}

/// The origin of the provider that an ending action hands out, if any.
pub open spec fn provider_type_of(a: ActionView) -> Option<AnisetteHeadersProviderType> {
    match a {
        ActionView::Finish(t) => Some(t),
        ActionView::UseRemote(_) => Some(AnisetteHeadersProviderType::Remote),
        _ => None,
    }
}

/// One resolution in progress: the configuration it serves, the backends on
/// offer, whether only the local backend is tried, and the step it waits on.
pub struct Resolution {
    configuration: AnisetteConfiguration,
    support: BackendSupport,
    local_only: bool,
    stage: Stage,
}

/// A resolution as plain values.
pub struct ResolutionView {
    pub configuration: ConfigurationView,
    pub support: BackendSupport,
    pub local_only: bool,
    pub stage: Stage,
}

impl View for Resolution {
    type V = ResolutionView;

    closed spec fn view(&self) -> ResolutionView {
        ResolutionView {
            configuration: self.configuration@,
            support: self.support,
            local_only: self.local_only,
            stage: self.stage,
        }
    }
}

/// The same resolution waiting on another step.
pub open spec fn with_stage(s: ResolutionView, stage: Stage) -> ResolutionView {
    ResolutionView {
        configuration: s.configuration,
        support: s.support,
        local_only: s.local_only,
        stage,
    }
}

/// Moving on to the local backend.
pub open spec fn enter_local(s: ResolutionView) -> (ResolutionView, ActionView) {
    (with_stage(s, Stage::LocalProxy), ActionView::CreateLocalProxy(s.configuration.configuration_path))
}

/// After the local backend failed, with `err` when the failure is the
/// resolver's own (a configuration it cannot use). The remote backend is used
/// where it is offered in a full resolution. Otherwise the resolver's own
/// error is reported; failing that, a resolution of the local backend alone
/// passes on the backend's error, and a full one finds the device
/// unsupported.
pub open spec fn local_failed(s: ResolutionView, err: Option<MetaErrorView>) -> (
    ResolutionView,
    ActionView,
) {
    let done = with_stage(s, Stage::Done);
    if !s.local_only && s.support.remote {
        (done, ActionView::UseRemote(s.configuration.anisette_url))
    } else {
        match err {
            Some(e) => (done, ActionView::Fail(e)),
            None => if s.local_only {
                (done, ActionView::Abort)
            } else {
                (done, ActionView::Fail(MetaErrorView::UnsupportedDevice))
            },
        }
    }
}

/// How a resolution begins: with the native backend where it is offered and
/// the whole order is tried, else with the local backend.
pub open spec fn first_step(cfg: ConfigurationView, support: BackendSupport, local_only: bool) -> (
    ResolutionView,
    ActionView,
) {
    let s = ResolutionView { configuration: cfg, support, local_only, stage: Stage::Native };
    if !local_only && support.native {
        (s, ActionView::StartNative)
    } else {
        enter_local(s)
    }
}

/// How a resolution moves on once the step it waits on has succeeded or failed.
pub open spec fn next_step(s: ResolutionView, succeeded: bool) -> (ResolutionView, ActionView) {
    match s.stage {
        Stage::Native => {
            if succeeded {
                (with_stage(s, Stage::Done), ActionView::Finish(AnisetteHeadersProviderType::Local))
            } else {
                enter_local(s)
            }
        },
        Stage::LocalProxy => {
            if !succeeded {
                local_failed(s, None)
            } else {
                match provisioning_path_of(s.configuration.configuration_path) {
                    Ok(t) => (
                        with_stage(s, Stage::ProvisioningPath),
                        ActionView::SetProvisioningPath(t),
                    ),
                    Err(e) => local_failed(s, Some(e)),
                }
            }
        },
        Stage::ProvisioningPath => {
            if succeeded {
                (
                    with_stage(s, Stage::LocalProvider),
                    ActionView::CreateLocalProvider(s.configuration.configuration_path),
                )
            } else {
                local_failed(s, None)
            }
        },
        Stage::LocalProvider => {
            if succeeded {
                (with_stage(s, Stage::Done), ActionView::Finish(AnisetteHeadersProviderType::Local))
            } else {
                local_failed(s, None)
            }
        },
        Stage::Done => (s, ActionView::Abort),
    }
}

/// The action a resolution has reached from state `s` and action `a` once
/// the outside steps report `outcomes` in turn (outcomes left after the end
/// are not looked at).
pub open spec fn outcome(s: ResolutionView, a: ActionView, outcomes: Seq<bool>) -> ActionView
    decreases outcomes.len(),
{
    if s.stage == Stage::Done || outcomes.len() == 0 {
        a
    } else {
        let (s2, a2) = next_step(s, outcomes[0]);
        outcome(s2, a2, outcomes.drop_first())
    }
}

/// Where a full resolution ends when the outside steps report `outcomes`.
pub open spec fn resolve(cfg: ConfigurationView, support: BackendSupport, outcomes: Seq<bool>) -> ActionView {
    let (s, a) = first_step(cfg, support, false);
    outcome(s, a, outcomes)
}

/// Where a resolution of the local backend alone ends.
pub open spec fn resolve_local(cfg: ConfigurationView, outcomes: Seq<bool>) -> ActionView {
    let (s, a) = first_step(cfg, BackendSupport { native: false, remote: false }, true);
    outcome(s, a, outcomes)
}

impl Resolution {
    fn begin(configuration: AnisetteConfiguration, support: BackendSupport, local_only: bool) -> (r: (
        Resolution,
        ResolveAction,
    ))
        ensures
            (r.0@, r.1@) == first_step(configuration@, support, local_only),
    {
        let mut s = Resolution { configuration, support, local_only, stage: Stage::Native };
        if !local_only && support.native {
            (s, ResolveAction::StartNative)
        } else {
            let a = s.enter_local();
            (s, a)
        }
    }

    fn enter_local(&mut self) -> (a: ResolveAction)
        ensures
            (final(self)@, a@) == enter_local(old(self)@),
    {
        self.stage = Stage::LocalProxy;
        ResolveAction::CreateLocalProxy(self.configuration.configuration_path().clone())
    }

    fn local_failed(&mut self, err: Option<AnisetteMetaError>) -> (a: ResolveAction)
        ensures
            (final(self)@, a@) == local_failed(
                old(self)@,
                match err {
                    Some(e) => Some(e@),
                    None => None,
                },
            ),
    {
        self.stage = Stage::Done;
        if !self.local_only && self.support.remote {
            ResolveAction::UseRemote(self.configuration.anisette_url().clone())
        } else {
            match err {
                Some(e) => ResolveAction::Fail(e),
                None => if self.local_only {
                    ResolveAction::Abort
                } else {
                    ResolveAction::Fail(AnisetteMetaError::UnsupportedDevice)
                },
            }
        }
    }

    /// The step this resolution waits on.
    pub fn stage(&self) -> (r: Stage)
        ensures
            r == self@.stage,
    {
        self.stage
    }

    /// Whether this resolution has ended.
    pub fn is_done(&self) -> (r: bool)
        ensures
            r == (self@.stage == Stage::Done),
    {
        self.stage == Stage::Done
    }

    /// Moves on once the awaited step has succeeded or failed, and says what
    /// to do next.
    pub fn advance(&mut self, succeeded: bool) -> (a: ResolveAction)
        requires
            old(self)@.stage != Stage::Done,
        ensures
            (final(self)@, a@) == next_step(old(self)@, succeeded),
    {
        match self.stage {
            Stage::Native => {
                if succeeded {
                    self.stage = Stage::Done;
                    ResolveAction::Finish(AnisetteHeadersProviderType::Local)
                } else {
                    self.enter_local()
                }
            },
            Stage::LocalProxy => {
                if !succeeded {
                    self.local_failed(None)
                } else {
                    match self.configuration.provisioning_path() {
                        Ok(t) => {
                            self.stage = Stage::ProvisioningPath;
                            ResolveAction::SetProvisioningPath(t)
                        },
                        Err(e) => self.local_failed(Some(e)),
                    }
                }
            },
            Stage::ProvisioningPath => {
                if succeeded {
                    self.stage = Stage::LocalProvider;
                    ResolveAction::CreateLocalProvider(self.configuration.configuration_path().clone())
                } else {
                    self.local_failed(None)
                }
            },
            Stage::LocalProvider => {
                if succeeded {
                    self.stage = Stage::Done;
                    ResolveAction::Finish(AnisetteHeadersProviderType::Local)
                } else {
                    self.local_failed(None)
                }
            },
            Stage::Done => ResolveAction::Abort,
        }
    }
}

impl AnisetteHeaders {
    /// Begins resolving a provider for `configuration`: backends are tried
    /// native first, then local, then remote, each once, and the first that
    /// comes up is handed out. Where none does, a state directory that the
    /// local backend cannot take is reported as `InvalidArgument`, and
    /// otherwise the device is unsupported. Returns the resolution and its
    /// first action.
    pub fn get_anisette_headers_provider(
        configuration: AnisetteConfiguration,
        support: BackendSupport,
    ) -> (r: (Resolution, ResolveAction))
        ensures
            (r.0@, r.1@) == first_step(configuration@, support, false),
    {
        Resolution::begin(configuration, support, false)
    }

    /// Begins resolving the local backend alone for `configuration`; its
    /// failures are reported rather than passed over.
    pub fn get_ssc_anisette_headers_provider(configuration: AnisetteConfiguration) -> (r: (
        Resolution,
        ResolveAction,
    ))
        ensures
            (r.0@, r.1@) == first_step(
                configuration@,
                BackendSupport { native: false, remote: false },
                true,
            ),
    {
        Resolution::begin(configuration, BackendSupport { native: false, remote: false }, true)
    }
}

} // verus!
