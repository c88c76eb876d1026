//! The calls into rustls. Nothing in this file is proved: each contract says
//! what the called function does, and the rest of the library is proved from
//! these contracts.

use rustls::crypto::ring::{default_provider, ALL_CIPHER_SUITES};
use rustls::pki_types::pem::PemObject;
use rustls::pki_types::{CertificateDer, PrivateKeyDer};
use rustls::sign::{CertifiedKey, SingleCertAndKey};
use rustls::ServerConfig;
use std::sync::Arc;
use vstd::prelude::*;

use crate::suite::SUITE_COUNT;

verus! {

/// The server configuration of rustls: held and handed on, never looked into.
#[verifier::external_type_specification]
#[verifier::external_body]
pub struct ExServerConfig(ServerConfig);

/// A certificate chain of rustls with the key that signs for it: held and
/// handed on, never looked into.
#[verifier::external_type_specification]
#[verifier::external_body]
pub struct ExCertifiedKey(CertifiedKey);

/// How the bytes of a private key are laid out.
#[derive(Clone, Copy, Debug, PartialEq, Eq, Structural)]
pub enum KeyEncoding {
    Pkcs1,
    Sec1,
    Pkcs8,
}

/// A private key as it is read from a PEM section.
pub struct PrivateKey {
    pub encoding: KeyEncoding,
    pub der: Vec<u8>,
}

/// Why a key cannot stand behind a certificate chain.
#[derive(Clone, Copy, Debug, PartialEq, Eq, Structural)]
pub enum KeyFault {
    /// The key is not the one that the first certificate names.
    Mismatch,
    /// The key or the first certificate cannot be read.
    Invalid,
}

/// The bytes of each item.
pub open spec fn views(items: Seq<Vec<u8>>) -> Seq<Seq<u8>> {
    Seq::new(items.len(), |i: int| items[i]@)
}

/// The DER contents of the CERTIFICATE sections of a PEM text, in their
/// order; nothing where a section of the text cannot be decoded.
pub uninterp spec fn pem_chain(pem: Seq<u8>) -> Option<Seq<Seq<u8>>>;

/// The first private key of a PEM text, with the layout that its section
/// label gives; nothing where the text holds none or cannot be decoded
/// before one is found.
pub uninterp spec fn pem_key(pem: Seq<u8>) -> Option<(KeyEncoding, Seq<u8>)>;

/// What becomes of a chain and a key when rustls joins them: the registry
/// number of the key's signature algorithm, or why it refuses the pair.
pub uninterp spec fn certified(chain: Seq<Seq<u8>>, encoding: KeyEncoding, der: Seq<u8>) -> Result<
    u8,
    KeyFault,
>;

/// `CertificateDer::pem_slice_iter` of rustls-pki-types, run to its end: the
/// contents of every CERTIFICATE section of `pem`, or nothing as soon as the
/// iterator reports an error.
#[verifier::external_body]
pub(crate) fn pem_certificates(pem: &[u8]) -> (r: Option<Vec<Vec<u8>>>)
    ensures
        match r {
            Some(chain) => pem_chain(pem@) == Some(views(chain@)),
            None => pem_chain(pem@) is None,
        },
{
    CertificateDer::pem_slice_iter(pem).map(|item| item.ok().map(|c| c.to_vec())).collect()
}

/// `PrivateKeyDer::from_pem_slice` of rustls-pki-types: the first section of
/// `pem` that holds a private key, as its layout and its bytes.
#[verifier::external_body]
pub(crate) fn pem_private_key(pem: &[u8]) -> (r: Option<PrivateKey>)
    ensures
        match r {
            Some(key) => pem_key(pem@) == Some((key.encoding, key.der@)),
            None => pem_key(pem@) is None,
        },
{
    let (encoding, der) = match PrivateKeyDer::from_pem_slice(pem) {
        Ok(PrivateKeyDer::Pkcs1(k)) => (KeyEncoding::Pkcs1, k.secret_pkcs1_der().to_vec()),
        Ok(PrivateKeyDer::Sec1(k)) => (KeyEncoding::Sec1, k.secret_sec1_der().to_vec()),
        Ok(PrivateKeyDer::Pkcs8(k)) => (KeyEncoding::Pkcs8, k.secret_pkcs8_der().to_vec()),
        _ => return None,
    };
    Some(PrivateKey { encoding, der })
}

/// `CertifiedKey::from_der` of rustls with the ring provider: loads the key
/// and holds it against the first certificate of the chain. Before the pair
/// stands the number of the key's signature algorithm.
#[verifier::external_body]
pub(crate) fn certify(chain: &Vec<Vec<u8>>, key: &PrivateKey) -> (r: Result<
    (u8, CertifiedKey),
    KeyFault,
>)
    ensures
        match r {
            Ok(pair) => certified(views(chain@), key.encoding, key.der@) == Ok::<u8, KeyFault>(
                pair.0,
            ),
            Err(fault) => certified(views(chain@), key.encoding, key.der@) == Err::<u8, KeyFault>(
                fault,
            ),
        },
{
    let certs = chain.iter().map(|c| CertificateDer::from(c.clone())).collect();
    let der = match key.encoding {
        KeyEncoding::Pkcs1 => PrivateKeyDer::Pkcs1(key.der.clone().into()),
        KeyEncoding::Sec1 => PrivateKeyDer::Sec1(key.der.clone().into()),
        KeyEncoding::Pkcs8 => PrivateKeyDer::Pkcs8(key.der.clone().into()),
    };
    match CertifiedKey::from_der(certs, der, &default_provider()) {
        Ok(pair) => Ok((u8::from(pair.key.algorithm()), pair)),
        Err(rustls::Error::InconsistentKeys(_)) => Err(KeyFault::Mismatch),
        Err(_) => Err(KeyFault::Invalid),
    }
}

/// The server-side builder of rustls, from `builder_with_provider` to
/// `with_cert_resolver`: the ring provider with the cipher suites at `picks`
/// of `ALL_CIPHER_SUITES`, the default protocol versions, no client
/// authentication, and `pair` as the one certificate.
///
/// Of these steps only `with_safe_default_protocol_versions` can fail. It
/// refuses a provider that has no cipher suite of an enabled version, no key
/// exchange group, or a suite that none of its groups serves. With TLS 1.2
/// compiled in, as it is here, every suite of the ring provider belongs to a
/// default version and exchanges keys over ECDHE, as its three groups do. So
/// the call fails exactly when `picks` is empty.
#[verifier::external_body]
pub(crate) fn assemble(pair: CertifiedKey, picks: &Vec<usize>) -> (r: Option<ServerConfig>)
    requires
        forall|i: int| 0 <= i < picks@.len() ==> (#[trigger] picks@[i]) < SUITE_COUNT,
    ensures
        r is Some <==> picks@.len() > 0,
{
    let mut provider = default_provider();
    provider.cipher_suites = picks.iter().map(|p| ALL_CIPHER_SUITES[*p]).collect();
    let versions = ServerConfig::builder_with_provider(Arc::new(provider))
        .with_safe_default_protocol_versions();
    let resolver = Arc::new(SingleCertAndKey::from(pair));
    Some(versions.ok()?.with_no_client_auth().with_cert_resolver(resolver))
}

/// `Arc::clone`: a second handle on the same value.
#[verifier::external_body]
pub(crate) fn share<T>(handle: &Arc<T>) -> (r: Arc<T>)
    ensures
        r == *handle,
{
    Arc::clone(handle)
}

} // verus!
