use rcgen::generate_simple_self_signed;
use std::sync::Arc;
use tls_listener::config::{build, ConfigError, CryptoConfig, Files, Material, SourceConfig};
use tls_listener::endpoint::{Certificates, Endpoint};
use tls_listener::handshake::{Action, Event, Handshake};
use tls_listener::hello::ClientHelloView;
use tls_listener::listener::{or_default, Error, TlsBindable};
use tls_listener::resolver::{Fairing, NoResolver, Resolver, SniResolver};
use tls_listener::suite::CipherSuite;

fn source_for(host: &str) -> SourceConfig {
    let made = generate_simple_self_signed(vec![host.to_string()]).unwrap();
    SourceConfig {
        certs: Material::Bytes(made.cert.pem().into_bytes()),
        key: Material::Bytes(made.key_pair.serialize_pem().into_bytes()),
        suites: vec![CipherSuite::Tls13Aes128GcmSha256],
        mutual: false,
    }
}

fn on_disk(mutual: bool) -> SourceConfig {
    SourceConfig {
        certs: Material::Path("private/cert.pem".to_string()),
        key: Material::Path("private/key.pem".to_string()),
        suites: vec![CipherSuite::Tls13Aes128GcmSha256],
        mutual,
    }
}

fn config_for(host: &str) -> CryptoConfig {
    build(&source_for(host), &Files { certs: None, key: None }).unwrap()
}

fn same(a: &CryptoConfig, b: &CryptoConfig) -> bool {
    Arc::ptr_eq(&a.server_config(), &b.server_config())
}

fn asking(name: &str) -> ClientHelloView {
    ClientHelloView::new(Some(name.to_string()), Vec::new())
}

#[test]
fn binding_wraps_what_the_transport_bound() {
    let source = source_for("www.example.com");
    let default = build(&source, &Files { certs: None, key: None });
    let kept = default.as_ref().ok().unwrap().share();
    let listener = TlsBindable::new("inner", source).bind(default, Some(7u32)).ok().unwrap();
    assert_eq!(*listener.inner(), 7);
    assert!(same(&listener.default(), &kept));
    assert!(same(&listener.select(&asking("api.example.com")), &kept));
}

#[test]
fn a_configuration_that_fails_is_the_error_of_binding() {
    let bindable = TlsBindable::new((), on_disk(false));
    let default = build(&bindable.tls, &Files { certs: None, key: None });
    assert_eq!(bindable.bind(default, Some(())).err(), Some(Error::Config(ConfigError::Io)));
    // also where the transport failed too
    let bindable = TlsBindable::new((), on_disk(false));
    assert_eq!(
        bindable.bind::<()>(Err(ConfigError::Malformed), None).err(),
        Some(Error::Config(ConfigError::Malformed))
    );
}

#[test]
fn a_transport_that_cannot_be_bound_is_the_error_of_binding() {
    let source = source_for("www.example.com");
    let default = build(&source, &Files { certs: None, key: None });
    assert_eq!(TlsBindable::new((), source).bind::<()>(default, None).err(), Some(Error::Bind));
}

#[test]
fn a_listener_without_resolver_serves_its_default() {
    let source = source_for("www.example.com");
    let default = config_for("www.example.com");
    let listener = TlsBindable::new((), source).bind(Ok(default.share()), Some(())).ok().unwrap();
    assert!(same(&listener.select(&asking("api.example.com")), &default));
    assert!(same(&listener.select(&ClientHelloView::new(None, Vec::new())), &default));
    let (state, _) = listener.connect(Handshake::new(), Event::Accepted);
    let (state, todo) = listener.connect(state, Event::Hello(asking("api.example.com")));
    assert_eq!(todo, Action::Finish);
    assert!(same(state.config().unwrap(), &default));
}

#[test]
fn an_installed_resolver_decides() {
    let default = config_for("www.example.com");
    let api = config_for("api.example.com");
    let mut table = SniResolver::new();
    table.insert("api.example.com", api.share());
    let listener = TlsBindable::new((), source_for("www.example.com"))
        .bind(Ok(default.share()), Some(()))
        .ok()
        .unwrap()
        .with_resolver(table.fairing().handle());
    assert!(same(&listener.select(&asking("API.example.com")), &api));
    assert!(same(&listener.select(&asking("www.example.com")), &default));
    assert!(same(&listener.select(&ClientHelloView::new(None, Vec::new())), &default));
    assert!(same(&listener.default(), &default));
    let silent = listener.with_resolver(Arc::new(NoResolver));
    assert!(same(&silent.select(&asking("api.example.com")), &default));
}

#[test]
fn nothing_resolved_means_the_default() {
    let default = config_for("www.example.com");
    let api = config_for("api.example.com");
    assert!(same(&or_default(None, &default), &default));
    assert!(same(&or_default(Some(api.share()), &default), &api));
}

#[test]
fn a_fairing_says_what_it_is() {
    let fairing = SniResolver::new().fairing();
    let info = fairing.info();
    assert_eq!(info.name, "TLS Resolver");
    assert!(info.ignite);
    assert!(info.singleton);
    let managed = fairing.on_ignite();
    assert!(Arc::ptr_eq(&managed.handle(), &fairing.handle()));
    let direct = Fairing::new(NoResolver);
    assert!(direct.handle().resolve(&asking("api.example.com")).is_none());
}

#[test]
fn an_endpoint_is_marked_with_tls() {
    let bindable = TlsBindable::new((), on_disk(true));
    let marked = bindable.bind_endpoint(Endpoint::plain("127.0.0.1:8000".to_string()));
    assert!(marked.is_tls());
    match &marked {
        Endpoint::Tls { address, info: Some(info) } => {
            assert_eq!(address, "127.0.0.1:8000");
            assert_eq!(info.certs, Some("private/cert.pem".to_string()));
            assert_eq!(info.key, Some("private/key.pem".to_string()));
            assert!(info.mutual);
        },
        _ => panic!("the endpoint bears no mark"),
    }
    assert!(marked.tls_info().is_some());
}

#[test]
fn material_in_memory_names_no_file() {
    let source = source_for("www.example.com");
    let listener =
        TlsBindable::new((), source_for("www.example.com")).bind(Ok(config_for("www.example.com")), Some(())).ok().unwrap();
    let _ = source;
    match listener.endpoint(Endpoint::plain("[::1]:443".to_string())) {
        Endpoint::Tls { address, info: Some(info) } => {
            assert_eq!(address, "[::1]:443");
            assert_eq!(info.certs, None);
            assert_eq!(info.key, None);
            assert!(!info.mutual);
        },
        _ => panic!("the endpoint bears no mark"),
    }
}

#[test]
fn a_mark_is_put_on_once() {
    let first = on_disk(true);
    let second = source_for("www.example.com");
    let plain = Endpoint::plain("127.0.0.1:8000".to_string());
    assert!(!plain.is_tls());
    assert!(plain.tls_info().is_none());
    let marked = plain.with_tls(&first).with_tls(&second);
    assert_eq!(marked.tls_info().unwrap().certs, Some("private/cert.pem".to_string()));
    let still = marked.assume_tls();
    assert_eq!(still.tls_info().unwrap().certs, Some("private/cert.pem".to_string()));
    let assumed = Endpoint::plain("127.0.0.1:8000".to_string()).assume_tls();
    assert!(assumed.is_tls());
    assert!(assumed.tls_info().is_none());
    let kept = assumed.with_tls(&first);
    assert!(kept.is_tls());
    assert!(kept.tls_info().is_none());
}

#[test]
fn a_peer_is_known_by_its_certificates_under_mutual_tls_only() {
    let chain = vec![vec![1u8, 2, 3], vec![4u8, 5]];
    let known = Certificates::of_peer(true, Some(chain.clone())).unwrap();
    assert_eq!(known.chain(), &chain);
    assert_eq!(known.end_entity(), Some(&vec![1u8, 2, 3]));
    assert!(Certificates::of_peer(false, Some(chain.clone())).is_none());
    assert!(Certificates::of_peer(true, None).is_none());
    assert!(Certificates::of_peer(true, Some(Vec::new())).is_none());
    assert!(Certificates::of_peer(false, None).is_none());
}
