use vstd::prelude::*;
use vstd::utf8::{decode_utf8, valid_utf8};

use crate::error::{AnisetteMetaError, MetaErrorView, CONFIGURATION_PATH_FIELD};

verus! {

/// Endpoint of the remote backend unless the caller sets another.
pub const DEFAULT_ANISETTE_URL: &'static str = "https://ani.wesbryie.com/";

/// Relies on String::from_utf8: it succeeds exactly on well-formed UTF-8, and
/// the string then holds the characters that the bytes encode.
#[verifier::external_body]
fn utf8_text(bytes: Vec<u8>) -> (r: Option<String>)
    ensures
        r is Some <==> valid_utf8(bytes@),
        r matches Some(s) ==> s@ == decode_utf8(bytes@),
{
    String::from_utf8(bytes).ok()
}

/// Where the remote backend lives and where provisioning state is kept.
///
/// The state directory is held as the bytes the operating system uses for
/// the path, which need not be text.
#[derive(Clone)]
pub struct AnisetteConfiguration {
    anisette_url: String,
    configuration_path: Vec<u8>,
}

/// A configuration as plain values.
pub struct ConfigurationView {
    pub anisette_url: Seq<char>,
    pub configuration_path: Seq<u8>,
}

impl View for AnisetteConfiguration {
    type V = ConfigurationView;

    closed spec fn view(&self) -> ConfigurationView {
        ConfigurationView {
            anisette_url: self.anisette_url@,
            configuration_path: self.configuration_path@,
        }
    }
}

/// The text handed to the local backend as its provisioning path, or the
/// error naming the field when the path is not text.
pub open spec fn provisioning_path_of(path: Seq<u8>) -> Result<Seq<char>, MetaErrorView> {
    if valid_utf8(path) {
        Ok(decode_utf8(path))
    } else {
        Err(MetaErrorView::InvalidArgument(CONFIGURATION_PATH_FIELD@))
    }
}

impl AnisetteConfiguration {
    /// The default endpoint and an empty state directory.
    pub fn new() -> (r: AnisetteConfiguration)
        ensures
            r@.anisette_url == DEFAULT_ANISETTE_URL@,
            r@.configuration_path == Seq::<u8>::empty(),
    {
        let r = AnisetteConfiguration {
            anisette_url: String::from_str(DEFAULT_ANISETTE_URL),
            configuration_path: Vec::new(),
        };
        proof {
            assert(r.configuration_path@ =~= Seq::<u8>::empty());
        }
        r
    }

    pub fn anisette_url(&self) -> (r: &String)
        ensures
            r@ == self@.anisette_url,
    {
        &self.anisette_url
    }

    pub fn configuration_path(&self) -> (r: &Vec<u8>)
        ensures
            r@ == self@.configuration_path,
    {
        &self.configuration_path
    }

    /// The same configuration with another remote endpoint.
    pub fn set_anisette_url(self, anisette_url: String) -> (r: AnisetteConfiguration)
        ensures
            r@.anisette_url == anisette_url@,
            r@.configuration_path == self@.configuration_path,
    {
        let mut r = self;
        r.anisette_url = anisette_url;
        r
    }

    /// The same configuration with another state directory.
    pub fn set_configuration_path(self, configuration_path: Vec<u8>) -> (r: AnisetteConfiguration)
        ensures
            r@.anisette_url == self@.anisette_url,
            r@.configuration_path == configuration_path@,
    {
        let mut r = self;
        r.configuration_path = configuration_path;
        r
    }

    /// The state directory as text for the local backend; fails with
    /// `InvalidArgument` naming the field when the path is not UTF-8.
    pub fn provisioning_path(&self) -> (r: Result<String, AnisetteMetaError>)
        ensures
            r matches Ok(s) ==> provisioning_path_of(self@.configuration_path) == Ok::<
                Seq<char>,
                MetaErrorView,
            >(s@),
            r matches Err(e) ==> provisioning_path_of(self@.configuration_path) == Err::<
                Seq<char>,
                MetaErrorView,
            >(e@),
    {
        match utf8_text(self.configuration_path.clone()) {
            Some(s) => Ok(s),
            None => Err(AnisetteMetaError::invalid_configuration_path()),
        }
    }
}

impl Default for AnisetteConfiguration {
    fn default() -> (r: AnisetteConfiguration)
        ensures
            r@.anisette_url == DEFAULT_ANISETTE_URL@,
            r@.configuration_path == Seq::<u8>::empty(),
    {
        AnisetteConfiguration::new()
    }
}

} // verus!
