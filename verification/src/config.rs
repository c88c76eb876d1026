//! Where a server's certificate and key come from, and the configuration
//! that is built from them.

use rustls::ServerConfig;
use std::sync::Arc;
use vstd::prelude::*;

use crate::suite::{
    consistent, goes_with_key, kind_of_code, positions, positions_are_the_named, select,
    suites_at, suites_of, CipherSuite, KeyKind,
};
use crate::tls::{
    assemble, certified, certify, pem_certificates, pem_chain, pem_key, pem_private_key, share,
    views, KeyFault,
};

verus! {

/// Where key material comes from: a file, or bytes that are already in
/// memory. Either of them holds PEM text.
#[derive(Clone, Debug, PartialEq, Eq)]
pub enum Material {
    Path(String),
    Bytes(Vec<u8>),
}

/// What a server is to present: its certificate chain, its key, the cipher
/// suites it enables, and whether clients must present certificates too.
#[derive(Clone, Debug, PartialEq, Eq)]
pub struct SourceConfig {
    pub certs: Material,
    pub key: Material,
    pub suites: Vec<CipherSuite>,
    pub mutual: bool,
}

/// What reading the files that a `SourceConfig` names has given: the
/// contents of each, or nothing where it could not be read. A field is not
/// looked at where the source holds its bytes in memory.
#[derive(Clone, Debug, PartialEq, Eq)]
pub struct Files {
    pub certs: Option<Vec<u8>>,
    pub key: Option<Vec<u8>>,
}

/// Why no configuration could be built.
#[derive(Clone, Copy, Debug, PartialEq, Eq, Structural)]
pub enum ConfigError {
    /// A file that the source names could not be read.
    Io,
    /// The certificates or the key cannot be decoded.
    Malformed,
    /// The key is not the one that the first certificate names.
    KeyMismatch,
    /// No cipher suite is enabled, or one that the key cannot negotiate.
    UnsupportedSuite,
}

/// What can be seen of a configuration.
pub struct ConfigView {
    /// The certificates in DER, the server's own first.
    pub chain: Seq<Seq<u8>>,
    /// The enabled cipher suites, in the provider's order.
    pub suites: Seq<CipherSuite>,
    /// Whether clients must present certificates.
    pub mutual: bool,
}

/// The bytes that a material stands for, given what reading its file gave.
pub open spec fn loaded(material: Material, file: Option<Vec<u8>>) -> Option<Seq<u8>> {
    match material {
        Material::Bytes(bytes) => Some(bytes@),
        Material::Path(_) => match file {
            Some(bytes) => Some(bytes@),
            None => None,
        },
    }
}

/// What building from a chain and a key in PEM gives, for a set of suites.
pub open spec fn outcome_from_pem(
    chain_pem: Seq<u8>,
    key_pem: Option<Seq<u8>>,
    suites: Seq<CipherSuite>,
    mutual: bool,
) -> Result<ConfigView, ConfigError> {
    match pem_chain(chain_pem) {
        None => Err(ConfigError::Malformed),
        Some(chain) => if chain.len() == 0 {
            Err(ConfigError::Malformed)
        } else {
            match key_pem {
                None => Err(ConfigError::Io),
                Some(key_pem) => match pem_key(key_pem) {
                    None => Err(ConfigError::Malformed),
                    Some(key) => match certified(chain, key.0, key.1) {
                        Err(KeyFault::Mismatch) => Err(ConfigError::KeyMismatch),
                        Err(KeyFault::Invalid) => Err(ConfigError::Malformed),
                        Ok(code) => if consistent(suites, kind_of_code(code)) {
                            Ok(ConfigView { chain, suites: suites_at(positions(suites)), mutual })
                        } else {
                            Err(ConfigError::UnsupportedSuite)
                        },
                    },
                },
            }
        },
    }
}

/// What `build` gives for a source and the contents of its files: the
/// certificates are read first, then the key, then the key is held against
/// the certificate, and last the cipher suites against the key.
#[verifier::opaque]
pub open spec fn build_outcome(source: SourceConfig, files: Files) -> Result<
    ConfigView,
    ConfigError,
> {
    match loaded(source.certs, files.certs) {
        None => Err(ConfigError::Io),
        Some(chain_pem) => outcome_from_pem(
            chain_pem,
            loaded(source.key, files.key),
            source.suites@,
            source.mutual,
        ),
    }
}

/// Building depends on the bytes alone: two sources that stand for the same
/// certificate and key bytes, whether in files or in memory, with the same
/// suites and the same demand on clients, build the same.
pub proof fn build_is_deterministic(a: SourceConfig, a_files: Files, b: SourceConfig, b_files: Files)
    requires
        loaded(a.certs, a_files.certs) == loaded(b.certs, b_files.certs),
        loaded(a.key, a_files.key) == loaded(b.key, b_files.key),
        a.suites@ == b.suites@,
        a.mutual == b.mutual,
    ensures
        build_outcome(a, a_files) == build_outcome(b, b_files),
{
    reveal(build_outcome);
}

/// A configuration that was built has a certificate, and its cipher suites
/// are those that the source names, each once.
pub proof fn built_configurations_are_whole(source: SourceConfig, files: Files)
    requires
        build_outcome(source, files) is Ok,
    ensures
        build_outcome(source, files)->Ok_0.chain.len() > 0,
        build_outcome(source, files)->Ok_0.suites.len() > 0,
        build_outcome(source, files)->Ok_0.mutual == source.mutual,
        forall|s: CipherSuite|
            build_outcome(source, files)->Ok_0.suites.contains(s) <==> source.suites@.contains(s),
{
    reveal(build_outcome);
    let view = build_outcome(source, files)->Ok_0;
    let places = positions(source.suites@);
    positions_are_the_named(source.suites@);
    assert(view.suites == suites_at(places));
    assert forall|s: CipherSuite| view.suites.contains(s) <==> source.suites@.contains(s) by {
        if view.suites.contains(s) {
            let i = choose|i: int| 0 <= i < view.suites.len() && view.suites[i] == s;
            assert(places.contains(places[i]));
            assert(crate::suite::suite_at(places[i] as int) == s);
            assert(s.spec_position() == places[i]);
        }
        if source.suites@.contains(s) {
            assert(places.contains(s.spec_position() as usize));
            let i = choose|i: int| 0 <= i < places.len() && places[i] == s.spec_position() as usize;
            assert(view.suites[i] == s);
        }
    }
}

/// The parts of a configuration. They are shared by every handle on it.
pub struct Bundle {
    chain: Vec<Vec<u8>>,
    suites: Vec<CipherSuite>,
    mutual: bool,
    server: Arc<ServerConfig>,
}

/// A server's certificate chain, key and cipher-suite policy, ready for
/// handshakes. It is never changed: a reload puts another in its place.
pub struct CryptoConfig {
    bundle: Arc<Bundle>,
}

impl View for CryptoConfig {
    type V = ConfigView;

    closed spec fn view(&self) -> ConfigView {
        ConfigView {
            chain: views(self.bundle.chain@),
            suites: self.bundle.suites@,
            mutual: self.bundle.mutual,
        }
    }
}

impl CryptoConfig {
    /// The rustls object that handshakes are finished with.
    pub closed spec fn server(&self) -> ServerConfig {
        *self.bundle.server
    }

    /// Another handle on the same configuration.
    pub fn share(&self) -> (r: CryptoConfig)
        ensures
            r == *self,
    {
        CryptoConfig { bundle: share(&self.bundle) }
    }

    /// The certificates in DER, the server's own first.
    pub fn chain(&self) -> (r: &Vec<Vec<u8>>)
        ensures
            views(r@) == self@.chain,
    {
        &self.bundle.chain
    }

    /// The server's own certificate, where the chain holds one.
    pub fn leaf(&self) -> (r: Option<&Vec<u8>>)
        ensures
            r is Some <==> self@.chain.len() > 0,
            r matches Some(cert) ==> cert@ == self@.chain[0],
    {
        if self.bundle.chain.len() > 0 {
            Some(&self.bundle.chain[0])
        } else {
            None
        }
    }

    /// The enabled cipher suites, in the provider's order.
    pub fn suites(&self) -> (r: &Vec<CipherSuite>)
        ensures
            r@ == self@.suites,
    {
        &self.bundle.suites
    }

    /// Whether clients must present certificates.
    pub fn mutual(&self) -> (r: bool)
        ensures
            r == self@.mutual,
    {
        self.bundle.mutual
    }

    /// The rustls object that handshakes are finished with.
    pub fn server_config(&self) -> (r: Arc<ServerConfig>)
        ensures
            *r == self.server(),
    {
        share(&self.bundle.server)
    }

    /// The same certificate, suites and demand on clients around another
    /// rustls object: the one for which the TLS layer has set up how client
    /// certificates are verified.
    pub fn with_server(&self, server: ServerConfig) -> (r: CryptoConfig)
        ensures
            r@ == self@,
            r.server() == server,
    {
        let chain = copy_chain(&self.bundle.chain);
        let suites = self.bundle.suites.clone();
        assert(suites@ =~= self.bundle.suites@);
        CryptoConfig {
            bundle: Arc::new(
                Bundle { chain, suites, mutual: self.bundle.mutual, server: Arc::new(server) },
            ),
        }
    }
}

/// A copy of each item.
fn copy_chain(chain: &Vec<Vec<u8>>) -> (r: Vec<Vec<u8>>)
    ensures
        views(r@) == views(chain@),
{
    let mut out: Vec<Vec<u8>> = Vec::new();
    let mut i: usize = 0;
    while i < chain.len()
        invariant
            i <= chain.len(),
            out@.len() == i,
            forall|j: int| 0 <= j < i ==> out@[j]@ == chain@[j]@,
        decreases chain.len() - i,
    {
        let item = chain[i].clone();
        assert(item@ =~= chain@[i as int]@);
        out.push(item);
        i += 1;
    }
    assert(views(out@) =~= views(chain@));
    out
}

/// What a result of `build` shows.
pub open spec fn shown(result: Result<CryptoConfig, ConfigError>) -> Result<
    ConfigView,
    ConfigError,
> {
    match result {
        Ok(config) => Ok(config@),
        Err(error) => Err(error),
    }
}

/// The bytes that `material` stands for, given what reading its file gave.
fn bytes_of<'a>(material: &'a Material, file: &'a Option<Vec<u8>>) -> (r: Option<&'a Vec<u8>>)
    ensures
        match r {
            Some(bytes) => loaded(*material, *file) == Some(bytes@),
            None => loaded(*material, *file) is None,
        },
{
    match material {
        Material::Bytes(bytes) => Some(bytes),
        Material::Path(_) => match file {
            Some(bytes) => Some(bytes),
            None => None,
        },
    }
}

/// Builds the configuration that `source` describes. `files` holds what
/// reading the files that it names has given.
///
/// The rustls object of the result asks no certificate of clients. Where
/// `source.mutual` is set, the TLS layer derives one that does and puts it in
/// with `CryptoConfig::with_server`.
pub fn build(source: &SourceConfig, files: &Files) -> (r: Result<CryptoConfig, ConfigError>)
    ensures
        shown(r) == build_outcome(*source, *files),
{
    proof {
        reveal(build_outcome);
    }
    let chain_pem = match bytes_of(&source.certs, &files.certs) {
        Some(bytes) => bytes,
        None => {
            return Err(ConfigError::Io);
        },
    };
    let chain = match pem_certificates(chain_pem.as_slice()) {
        Some(chain) => chain,
        None => {
            return Err(ConfigError::Malformed);
        },
    };
    if chain.len() == 0 {
        return Err(ConfigError::Malformed);
    }
    let key_pem = match bytes_of(&source.key, &files.key) {
        Some(bytes) => bytes,
        None => {
            return Err(ConfigError::Io);
        },
    };
    let key = match pem_private_key(key_pem.as_slice()) {
        Some(key) => key,
        None => {
            return Err(ConfigError::Malformed);
        },
    };
    let (code, pair) = match certify(&chain, &key) {
        Ok(joined) => joined,
        Err(KeyFault::Mismatch) => {
            return Err(ConfigError::KeyMismatch);
        },
        Err(KeyFault::Invalid) => {
            return Err(ConfigError::Malformed);
        },
    };
    if !goes_with_key(&source.suites, KeyKind::from_code(code)) {
        return Err(ConfigError::UnsupportedSuite);
    }
    let picks = select(&source.suites);
    proof {
        positions_are_the_named(source.suites@);
    }
    let server = match assemble(pair, &picks) {
        Some(server) => server,
        None => {
            return Err(ConfigError::UnsupportedSuite);
        },
    };
    let suites = suites_of(&picks);
    Ok(
        CryptoConfig {
            bundle: Arc::new(Bundle { chain, suites, mutual: source.mutual, server: Arc::new(server) }),
        },
    )
}

} // verus!
