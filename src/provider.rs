use vstd::prelude::*;

verus! {

/// Where a provider's identity comes from: derived on this device, or
/// delegated to a network service.
#[derive(Debug, Clone, Copy, PartialEq, Eq, Structural)]
pub enum AnisetteHeadersProviderType {
    Local,
    Remote,
}

/// A resolved provider together with the origin of its identity.
pub struct AnisetteHeadersProviderRes<P> {
    pub provider: P,
    pub provider_type: AnisetteHeadersProviderType,
}

impl<P> AnisetteHeadersProviderRes<P> {
    /// Tags a provider whose identity is derived on this device.
    pub fn local(provider: P) -> (r: AnisetteHeadersProviderRes<P>)
        ensures
            r.provider == provider,
            r.provider_type == AnisetteHeadersProviderType::Local,
    {
        AnisetteHeadersProviderRes { provider, provider_type: AnisetteHeadersProviderType::Local }
    }

    /// Tags a provider that delegates to a network service.
    pub fn remote(provider: P) -> (r: AnisetteHeadersProviderRes<P>)
        ensures
            r.provider == provider,
            r.provider_type == AnisetteHeadersProviderType::Remote,
    {
        AnisetteHeadersProviderRes { provider, provider_type: AnisetteHeadersProviderType::Remote }
    }
}

} // verus!
