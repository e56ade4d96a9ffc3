use omnisette::configuration::{AnisetteConfiguration, DEFAULT_ANISETTE_URL};
use omnisette::error::{AnisetteMetaError, CONFIGURATION_PATH_FIELD};
use omnisette::provider::{AnisetteHeadersProviderRes, AnisetteHeadersProviderType};
use omnisette::resolver::{AnisetteHeaders, BackendSupport, ResolveAction, Resolution, Stage};

const NO_NATIVE_NO_REMOTE: BackendSupport = BackendSupport { native: false, remote: false };

/// Runs a resolution, answering each outside step from `outcomes` in turn, and
/// returns the ending action with every action seen on the way.
fn drive(start: (Resolution, ResolveAction), outcomes: &[bool]) -> (ResolveAction, Vec<ResolveAction>) {
    let (mut resolution, mut action) = start;
    let mut seen = Vec::new();
    let mut next = outcomes.iter();
    while !resolution.is_done() {
        let succeeded = *next.next().expect("an outcome for every step");
        seen.push(action);
        action = resolution.advance(succeeded);
    }
    (action, seen)
}

fn is_invalid_path(action: &ResolveAction) -> bool {
    matches!(action, ResolveAction::Fail(AnisetteMetaError::InvalidArgument(f)) if f == "configuration.configuration_path")
}

#[test]
fn fetch_anisette_auto() {
    let configuration = AnisetteConfiguration::new().set_configuration_path(b"anisette_test".to_vec());
    let support = BackendSupport { native: false, remote: true };
    let start = AnisetteHeaders::get_anisette_headers_provider(configuration, support);
    let (end, seen) = drive(start, &[true, true, true]);
    assert!(matches!(end, ResolveAction::Finish(AnisetteHeadersProviderType::Local)));
    assert!(matches!(&seen[0], ResolveAction::CreateLocalProxy(p) if p.as_slice() == b"anisette_test"));
    assert!(matches!(&seen[1], ResolveAction::SetProvisioningPath(t) if t == "anisette_test"));
    assert!(matches!(&seen[2], ResolveAction::CreateLocalProvider(p) if p.as_slice() == b"anisette_test"));
}

#[test]
fn local_provisioning_without_native_is_local() {
    let configuration = AnisetteConfiguration::new().set_configuration_path(b"./anisette_test".to_vec());
    let support = BackendSupport { native: false, remote: true };
    let start = AnisetteHeaders::get_anisette_headers_provider(configuration, support);
    let (end, seen) = drive(start, &[true, true, true]);
    assert!(matches!(end, ResolveAction::Finish(AnisetteHeadersProviderType::Local)));
    assert_eq!(seen.len(), 3);
    assert!(matches!(&seen[1], ResolveAction::SetProvisioningPath(t) if t == "./anisette_test"));
}

#[test]
fn unusable_path_is_invalid_argument_for_local_backend() {
    let configuration = AnisetteConfiguration::new().set_configuration_path(vec![b'a', 0xff, 0xfe]);
    let start = AnisetteHeaders::get_ssc_anisette_headers_provider(configuration);
    assert!(matches!(&start.1, ResolveAction::CreateLocalProxy(p) if p.as_slice() == [b'a', 0xff, 0xfe]));
    let (end, seen) = drive(start, &[true]);
    assert!(is_invalid_path(&end));
    assert_eq!(seen.len(), 1);
}

#[test]
fn unusable_path_without_other_backends_is_invalid_argument() {
    let configuration = AnisetteConfiguration::new().set_configuration_path(vec![0xc3]);
    let start = AnisetteHeaders::get_anisette_headers_provider(configuration, NO_NATIVE_NO_REMOTE);
    let (end, _) = drive(start, &[true]);
    assert!(is_invalid_path(&end));
    let configuration = AnisetteConfiguration::new().set_configuration_path(vec![0xff]);
    let support = BackendSupport { native: true, remote: false };
    let start = AnisetteHeaders::get_anisette_headers_provider(configuration, support);
    let (end, seen) = drive(start, &[false, true]);
    assert!(is_invalid_path(&end));
    assert_eq!(seen.len(), 2);
}

#[test]
fn unusable_path_with_failing_proxy_is_unsupported() {
    let configuration = AnisetteConfiguration::new().set_configuration_path(vec![0xff]);
    let start = AnisetteHeaders::get_anisette_headers_provider(configuration, NO_NATIVE_NO_REMOTE);
    let (end, _) = drive(start, &[false]);
    assert!(matches!(end, ResolveAction::Fail(AnisetteMetaError::UnsupportedDevice)));
}

#[test]
fn no_backend_available_is_unsupported() {
    for failing in 0..3 {
        let outcomes: Vec<bool> = (0..3).map(|i| i != failing).collect();
        let configuration = AnisetteConfiguration::new().set_configuration_path(b"state".to_vec());
        let start = AnisetteHeaders::get_anisette_headers_provider(configuration, NO_NATIVE_NO_REMOTE);
        let (end, seen) = drive(start, &outcomes);
        assert!(matches!(end, ResolveAction::Fail(AnisetteMetaError::UnsupportedDevice)));
        assert_eq!(seen.len(), failing + 1);
    }
}

#[test]
fn remote_only_is_remote_whatever_the_path() {
    for path in [b"state".to_vec(), vec![0xff]] {
        let configuration = AnisetteConfiguration::new()
            .set_configuration_path(path)
            .set_anisette_url("https://example.org/".to_string());
        let support = BackendSupport { native: false, remote: true };
        let start = AnisetteHeaders::get_anisette_headers_provider(configuration, support);
        let (end, _) = drive(start, &[false]);
        assert!(matches!(&end, ResolveAction::UseRemote(u) if u == "https://example.org/"));
    }
    let configuration = AnisetteConfiguration::new().set_configuration_path(vec![0xff]);
    let start = AnisetteHeaders::get_anisette_headers_provider(configuration, BackendSupport { native: false, remote: true });
    let (end, _) = drive(start, &[true]);
    assert!(matches!(&end, ResolveAction::UseRemote(u) if u == DEFAULT_ANISETTE_URL));
}

#[test]
fn failed_native_then_local_is_never_remote() {
    let configuration = AnisetteConfiguration::new().set_configuration_path(b"state".to_vec());
    let support = BackendSupport { native: true, remote: true };
    let start = AnisetteHeaders::get_anisette_headers_provider(configuration, support);
    assert!(matches!(start.1, ResolveAction::StartNative));
    let (end, seen) = drive(start, &[false, true, true, true]);
    assert!(matches!(end, ResolveAction::Finish(AnisetteHeadersProviderType::Local)));
    assert!(matches!(&seen[1], ResolveAction::CreateLocalProxy(p) if p.as_slice() == b"state"));
}

#[test]
fn native_success_skips_other_backends() {
    let support = BackendSupport { native: true, remote: true };
    let start = AnisetteHeaders::get_anisette_headers_provider(AnisetteConfiguration::new(), support);
    let (end, seen) = drive(start, &[true]);
    assert!(matches!(end, ResolveAction::Finish(AnisetteHeadersProviderType::Local)));
    assert_eq!(seen.len(), 1);
}

#[test]
fn local_backend_failure_alone_is_passed_on() {
    for failing in 0..3 {
        let outcomes: Vec<bool> = (0..3).map(|i| i != failing).collect();
        let configuration = AnisetteConfiguration::new().set_configuration_path(b"state".to_vec());
        let start = AnisetteHeaders::get_ssc_anisette_headers_provider(configuration);
        let (end, _) = drive(start, &outcomes);
        assert!(matches!(end, ResolveAction::Abort));
    }
}

#[test]
fn resolution_stages_follow_the_order() {
    let support = BackendSupport { native: true, remote: false };
    let (mut r, _) = AnisetteHeaders::get_anisette_headers_provider(AnisetteConfiguration::new(), support);
    assert_eq!(r.stage(), Stage::Native);
    r.advance(false);
    assert_eq!(r.stage(), Stage::LocalProxy);
    r.advance(true);
    assert_eq!(r.stage(), Stage::ProvisioningPath);
    r.advance(true);
    assert_eq!(r.stage(), Stage::LocalProvider);
    let end = r.advance(true);
    assert!(r.is_done());
    assert!(matches!(end, ResolveAction::Finish(AnisetteHeadersProviderType::Local)));
}

#[test]
fn configuration_defaults_and_setters() {
    let c = AnisetteConfiguration::new();
    assert_eq!(c.anisette_url(), "https://ani.wesbryie.com/");
    assert!(c.configuration_path().is_empty());
    let d = AnisetteConfiguration::default();
    assert_eq!(d.anisette_url(), DEFAULT_ANISETTE_URL);
    let c = c.set_anisette_url("https://a.example/".to_string()).set_configuration_path(b"dir".to_vec());
    assert_eq!(c.anisette_url(), "https://a.example/");
    assert_eq!(c.configuration_path().as_slice(), b"dir");
}

#[test]
fn provisioning_path_decodes_text() {
    let c = AnisetteConfiguration::new().set_configuration_path("caf\u{e9}/dir".as_bytes().to_vec());
    assert_eq!(c.provisioning_path().unwrap(), "caf\u{e9}/dir");
    let empty = AnisetteConfiguration::new();
    assert_eq!(empty.provisioning_path().unwrap(), "");
    let bad = AnisetteConfiguration::new().set_configuration_path(vec![0xed, 0xa0, 0x80]);
    match bad.provisioning_path() {
        Err(AnisetteMetaError::InvalidArgument(f)) => assert_eq!(f, CONFIGURATION_PATH_FIELD),
        other => panic!("unexpected {:?}", other),
    }
}

#[test]
fn invalid_configuration_path_error_names_field() {
    assert!(is_invalid_path(&ResolveAction::Fail(AnisetteMetaError::invalid_configuration_path())));
}

#[test]
fn provider_handles_carry_their_origin() {
    let l = AnisetteHeadersProviderRes::local(7u32);
    assert_eq!(l.provider, 7);
    assert_eq!(l.provider_type, AnisetteHeadersProviderType::Local);
    let r = AnisetteHeadersProviderRes::remote("p");
    assert_eq!(r.provider, "p");
    assert_eq!(r.provider_type, AnisetteHeadersProviderType::Remote);
}

#[test]
fn every_backend_is_tried_once_in_priority_order() {
    let configuration = AnisetteConfiguration::new().set_configuration_path(b"state".to_vec());
    let support = BackendSupport { native: true, remote: true };
    let start = AnisetteHeaders::get_anisette_headers_provider(configuration, support);
    let (end, seen) = drive(start, &[false, false]);
    assert_eq!(seen.len(), 2);
    assert!(matches!(seen[0], ResolveAction::StartNative));
    assert!(matches!(&seen[1], ResolveAction::CreateLocalProxy(p) if p.as_slice() == b"state"));
    assert!(matches!(&end, ResolveAction::UseRemote(u) if u == DEFAULT_ANISETTE_URL));
}
