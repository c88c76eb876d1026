use rcgen::generate_simple_self_signed;
use rustls::pki_types::{CertificateDer, ServerName};
use rustls::server::Acceptor;
use rustls::{ClientConfig, ClientConnection, RootCertStore, ServerConnection};
use std::sync::atomic::{AtomicUsize, Ordering};
use std::sync::Arc;
use tls_listener::config::{build, CryptoConfig, Files, Material, SourceConfig};
use tls_listener::handshake::{classify, Action, Event, Fault, Handshake, HandshakeError};
use tls_listener::hello::ClientHelloView;
use tls_listener::listener::{TlsBindable, TlsListener};
use tls_listener::resolver::{Resolver, SniResolver};
use tls_listener::suite::CipherSuite;

fn source_for(host: &str) -> SourceConfig {
    let made = generate_simple_self_signed(vec![host.to_string()]).unwrap();
    SourceConfig {
        certs: Material::Bytes(made.cert.pem().into_bytes()),
        key: Material::Bytes(made.key_pair.serialize_pem().into_bytes()),
        suites: vec![CipherSuite::Tls13Aes128GcmSha256, CipherSuite::EcdheEcdsaAes128GcmSha256],
        mutual: false,
    }
}

fn config_for(host: &str) -> CryptoConfig {
    build(&source_for(host), &Files { certs: None, key: None }).unwrap()
}

fn listener_with<R: Resolver>(default: CryptoConfig, resolver: R) -> TlsListener<(), R> {
    let source = source_for("default.example.com");
    TlsBindable::new((), source).bind(Ok(default), Some(())).ok().unwrap().with_resolver(Arc::new(resolver))
}

fn client_for(host: &str, trusted: &[&CryptoConfig]) -> ClientConnection {
    let mut roots = RootCertStore::empty();
    for config in trusted {
        roots.add(CertificateDer::from(config.leaf().unwrap().clone())).unwrap();
    }
    let provider = Arc::new(rustls::crypto::ring::default_provider());
    let config = ClientConfig::builder_with_provider(provider)
        .with_safe_default_protocol_versions()
        .unwrap()
        .with_root_certificates(roots)
        .with_no_client_auth();
    ClientConnection::new(Arc::new(config), ServerName::try_from(host.to_string()).unwrap()).unwrap()
}

fn view_of(hello: &rustls::server::ClientHello<'_>) -> ClientHelloView {
    let alpn = match hello.alpn() {
        Some(offered) => offered.map(|p| p.to_vec()).collect(),
        None => Vec::new(),
    };
    ClientHelloView::new(hello.server_name().map(|name| name.to_string()), alpn)
}

fn finish(client: &mut ClientConnection, server: &mut ServerConnection) -> Result<(), rustls::Error> {
    while client.is_handshaking() || server.is_handshaking() {
        let mut wire = Vec::new();
        while server.wants_write() {
            server.write_tls(&mut wire).unwrap();
        }
        let mut rest = &wire[..];
        while !rest.is_empty() {
            client.read_tls(&mut rest).unwrap();
            client.process_new_packets()?;
        }
        let mut wire = Vec::new();
        while client.wants_write() {
            client.write_tls(&mut wire).unwrap();
        }
        let mut rest = &wire[..];
        while !rest.is_empty() {
            server.read_tls(&mut rest).unwrap();
            server.process_new_packets()?;
        }
    }
    Ok(())
}

struct Counting {
    calls: Arc<AtomicUsize>,
    answer: Option<CryptoConfig>,
}

impl Resolver for Counting {
    fn resolve(&self, _: &ClientHelloView) -> Option<CryptoConfig> {
        self.calls.fetch_add(1, Ordering::SeqCst);
        self.answer.as_ref().map(|config| config.share())
    }
}

#[test]
fn a_hello_for_a_listed_host_is_served_its_certificate() {
    let default = config_for("default.example.com");
    let api = config_for("api.example.com");
    let mut table = SniResolver::new();
    table.insert("api.example.com", api.share());
    let listener = listener_with(default.share(), table);

    let mut client = client_for("api.example.com", &[&api, &default]);
    let (state, todo) = listener.connect(Handshake::new(), Event::Accepted);
    assert_eq!(todo, Action::ReadHello);

    let mut wire = Vec::new();
    client.write_tls(&mut wire).unwrap();
    let mut acceptor = Acceptor::default();
    acceptor.read_tls(&mut &wire[..]).unwrap();
    let accepted = acceptor.accept().ok().unwrap().unwrap();
    let hello = view_of(&accepted.client_hello());
    assert_eq!(hello.server_name, Some("api.example.com".to_string()));

    let (state, todo) = listener.connect(state, Event::Hello(hello));
    assert_eq!(todo, Action::Finish);
    let chosen = state.config().unwrap().share();
    assert!(Arc::ptr_eq(&chosen.server_config(), &api.server_config()));

    let mut server = accepted.into_connection(chosen.server_config()).ok().unwrap();
    finish(&mut client, &mut server).unwrap();
    let (state, todo) = listener.connect(state, Event::Completed);
    assert_eq!(todo, Action::Deliver);
    assert!(state.is_over());
    assert!(state.error().is_none());
    let served = client.peer_certificates().unwrap();
    assert_eq!(served[0].as_ref(), api.leaf().unwrap().as_slice());
    assert_eq!(state.config().unwrap().leaf(), Some(&served[0].as_ref().to_vec()));
}

#[test]
fn a_hello_for_an_unlisted_host_is_served_the_default() {
    let default = config_for("www.example.com");
    let api = config_for("api.example.com");
    let mut table = SniResolver::new();
    table.insert("api.example.com", api.share());
    let listener = listener_with(default.share(), table);

    let mut client = client_for("www.example.com", &[&api, &default]);
    let mut wire = Vec::new();
    client.write_tls(&mut wire).unwrap();
    let mut acceptor = Acceptor::default();
    acceptor.read_tls(&mut &wire[..]).unwrap();
    let accepted = acceptor.accept().ok().unwrap().unwrap();

    let (state, _) = listener.connect(Handshake::new(), Event::Accepted);
    let (state, todo) = listener.connect(state, Event::Hello(view_of(&accepted.client_hello())));
    assert_eq!(todo, Action::Finish);
    let chosen = state.config().unwrap().share();
    assert!(Arc::ptr_eq(&chosen.server_config(), &default.server_config()));
    let mut server = accepted.into_connection(chosen.server_config()).ok().unwrap();
    finish(&mut client, &mut server).unwrap();
    assert_eq!(client.peer_certificates().unwrap()[0].as_ref(), default.leaf().unwrap().as_slice());
}

#[test]
fn bytes_that_are_no_tls_fail_before_any_resolver() {
    let calls = Arc::new(AtomicUsize::new(0));
    let default = config_for("default.example.com");
    let listener =
        listener_with(default.share(), Counting { calls: calls.clone(), answer: Some(default.share()) });
    let (state, _) = listener.connect(Handshake::new(), Event::Accepted);

    let mut acceptor = Acceptor::default();
    acceptor.read_tls(&mut &b"GET / HTTP/1.1\r\nHost: api.example.com\r\n\r\n"[..]).unwrap();
    assert!(acceptor.accept().is_err());

    let (state, todo) = listener.connect(state, Event::Fault(Fault::Invalid));
    assert_eq!(todo, Action::Abort);
    assert_eq!(state.error(), Some(HandshakeError::Protocol));
    assert_eq!(calls.load(Ordering::SeqCst), 0);
    // nothing that comes later reaches the resolver either
    let hello = ClientHelloView::new(Some("api.example.com".to_string()), Vec::new());
    let (state, todo) = listener.connect(state, Event::Hello(hello));
    assert_eq!(todo, Action::Ignore);
    assert_eq!(state.error(), Some(HandshakeError::Protocol));
    assert_eq!(calls.load(Ordering::SeqCst), 0);
}

#[test]
fn the_resolver_is_asked_once_for_each_handshake() {
    let calls = Arc::new(AtomicUsize::new(0));
    let default = config_for("default.example.com");
    let other = config_for("api.example.com");
    let listener =
        listener_with(default.share(), Counting { calls: calls.clone(), answer: Some(other.share()) });
    let hello = || ClientHelloView::new(Some("api.example.com".to_string()), Vec::new());
    let (state, _) = listener.connect(Handshake::new(), Event::Hello(hello()));
    assert_eq!(calls.load(Ordering::SeqCst), 0);
    let (state, _) = listener.connect(state, Event::Accepted);
    let (state, todo) = listener.connect(state, Event::Hello(hello()));
    assert_eq!(todo, Action::Finish);
    assert_eq!(calls.load(Ordering::SeqCst), 1);
    assert!(Arc::ptr_eq(&state.config().unwrap().server_config(), &other.server_config()));
    let (state, todo) = listener.connect(state, Event::Hello(hello()));
    assert_eq!(todo, Action::Ignore);
    let (state, _) = listener.connect(state, Event::Completed);
    let (_, todo) = listener.connect(state, Event::Hello(hello()));
    assert_eq!(todo, Action::Ignore);
    assert_eq!(calls.load(Ordering::SeqCst), 1);
}

#[test]
fn a_resolver_that_gives_nothing_leaves_the_default() {
    let calls = Arc::new(AtomicUsize::new(0));
    let default = config_for("default.example.com");
    let listener = listener_with(default.share(), Counting { calls: calls.clone(), answer: None });
    let hello = ClientHelloView::new(Some("api.example.com".to_string()), Vec::new());
    let (state, _) = listener.connect(Handshake::new(), Event::Accepted);
    let (state, _) = listener.connect(state, Event::Hello(hello));
    assert_eq!(calls.load(Ordering::SeqCst), 1);
    assert!(Arc::ptr_eq(&state.config().unwrap().server_config(), &default.server_config()));
}

#[test]
fn the_phases_come_in_order() {
    let config = config_for("api.example.com");
    let hello = || ClientHelloView::new(Some("api.example.com".to_string()), Vec::new());
    let state = Handshake::new();
    assert!(!state.is_over());
    // nothing but the hand-over moves a handshake that has not begun
    let (state, todo) = state.step(Event::Completed);
    assert_eq!(todo, Action::Ignore);
    let (state, todo) = state.step(Event::Chosen(config.share()));
    assert_eq!(todo, Action::Ignore);
    assert!(state.config().is_none());
    let (state, todo) = state.step(Event::Accepted);
    assert_eq!(todo, Action::ReadHello);
    let (state, todo) = state.step(Event::Accepted);
    assert_eq!(todo, Action::Ignore);
    let (state, todo) = state.step(Event::Chosen(config.share()));
    assert_eq!(todo, Action::Ignore);
    let (state, todo) = state.step(Event::Hello(hello()));
    assert_eq!(todo, Action::Resolve);
    assert_eq!(state.hello().unwrap().server_name, Some("api.example.com".to_string()));
    let (state, todo) = state.step(Event::Completed);
    assert_eq!(todo, Action::Ignore);
    assert!(state.hello().is_some());
    let (state, todo) = state.step(Event::Chosen(config.share()));
    assert_eq!(todo, Action::Finish);
    assert!(state.hello().is_none());
    assert!(!state.is_over());
    let (state, todo) = state.step(Event::Completed);
    assert_eq!(todo, Action::Deliver);
    assert!(state.is_over());
    assert!(Arc::ptr_eq(&state.config().unwrap().server_config(), &config.server_config()));
    let (state, todo) = state.step(Event::Fault(Fault::Transport));
    assert_eq!(todo, Action::Ignore);
    assert!(state.error().is_none());
    assert!(state.config().is_some());
}

#[test]
fn each_fault_has_its_error() {
    assert_eq!(classify(true, Fault::Invalid), HandshakeError::Protocol);
    assert_eq!(classify(false, Fault::Invalid), HandshakeError::Tls);
    assert_eq!(classify(true, Fault::Transport), HandshakeError::Io);
    assert_eq!(classify(false, Fault::Transport), HandshakeError::Io);
    assert_eq!(classify(true, Fault::Timeout), HandshakeError::Timeout);
    assert_eq!(classify(false, Fault::Timeout), HandshakeError::Timeout);

    let config = config_for("api.example.com");
    let hello = || ClientHelloView::new(None, Vec::new());
    let (state, todo) = Handshake::new().step(Event::Fault(Fault::Transport));
    assert_eq!((state.error(), todo), (Some(HandshakeError::Io), Action::Abort));
    let (state, _) = Handshake::new().step(Event::Accepted);
    let (state, todo) = state.step(Event::Fault(Fault::Timeout));
    assert_eq!((state.error(), todo), (Some(HandshakeError::Timeout), Action::Abort));
    let (state, _) = Handshake::new().step(Event::Accepted);
    let (state, _) = state.step(Event::Hello(hello()));
    let (state, todo) = state.step(Event::Fault(Fault::Invalid));
    assert_eq!((state.error(), todo), (Some(HandshakeError::Tls), Action::Abort));
    let (state, _) = Handshake::new().step(Event::Accepted);
    let (state, _) = state.step(Event::Hello(hello()));
    let (state, _) = state.step(Event::Chosen(config.share()));
    let (state, todo) = state.step(Event::Fault(Fault::Invalid));
    assert_eq!((state.error(), todo), (Some(HandshakeError::Tls), Action::Abort));
    assert!(state.is_over());
    let (state, todo) = state.step(Event::Completed);
    assert_eq!((state.error(), todo), (Some(HandshakeError::Tls), Action::Ignore));
}

#[test]
fn a_client_that_does_not_trust_the_certificate_fails_the_second_phase() {
    let default = config_for("api.example.com");
    let stranger = config_for("api.example.com");
    let mut client = client_for("api.example.com", &[&stranger]);
    let mut wire = Vec::new();
    client.write_tls(&mut wire).unwrap();
    let mut acceptor = Acceptor::default();
    acceptor.read_tls(&mut &wire[..]).unwrap();
    let accepted = acceptor.accept().ok().unwrap().unwrap();
    let (state, _) = Handshake::new().step(Event::Accepted);
    let (state, _) = state.step(Event::Hello(view_of(&accepted.client_hello())));
    let (state, _) = state.step(Event::Chosen(default.share()));
    let mut server = accepted.into_connection(default.server_config()).ok().unwrap();
    assert!(finish(&mut client, &mut server).is_err());
    let (state, todo) = state.step(Event::Fault(Fault::Invalid));
    assert_eq!(todo, Action::Abort);
    assert_eq!(state.error(), Some(HandshakeError::Tls));
}
