use vstd::prelude::*;

verus! {

/// Name of the configuration field reported when the state directory cannot be
/// handed to the local backend.
pub const CONFIGURATION_PATH_FIELD: &'static str = "configuration.configuration_path";

/// Why resolution produced no provider.
#[derive(Debug, Clone)]
pub enum AnisetteMetaError {
    /// No backend is usable on this host and build.
    UnsupportedDevice,
    /// A configuration field cannot be used; holds the field's name.
    InvalidArgument(String),
}

/// What an error says, as plain values.
pub enum MetaErrorView {
    UnsupportedDevice,
    InvalidArgument(Seq<char>),
}

impl View for AnisetteMetaError {
    type V = MetaErrorView;

    open spec fn view(&self) -> MetaErrorView {
        match self {
            AnisetteMetaError::UnsupportedDevice => MetaErrorView::UnsupportedDevice,
            AnisetteMetaError::InvalidArgument(field) => MetaErrorView::InvalidArgument(field@),
        }
    }
}

impl AnisetteMetaError {
    /// The error for a configuration path that the local backend cannot take.
    pub fn invalid_configuration_path() -> (r: AnisetteMetaError)
        ensures
            r@ == MetaErrorView::InvalidArgument(CONFIGURATION_PATH_FIELD@),
    {
        AnisetteMetaError::InvalidArgument(String::from_str(CONFIGURATION_PATH_FIELD))
    }
}

} // verus!
