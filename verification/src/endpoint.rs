//! Where a listener is bound and who the peer is: the descriptions that a
//! TLS listener and its connections give of themselves.

use vstd::prelude::*;

use crate::config::{Material, SourceConfig};

verus! {

/// What an endpoint says about the TLS that is applied on it.
#[derive(Clone, Debug, PartialEq, Eq)]
pub struct TlsInfo {
    /// The certificate file, where the certificate comes from one.
    pub certs: Option<String>,
    /// The key file, where the key comes from one.
    pub key: Option<String>,
    /// Whether clients must present certificates.
    pub mutual: bool,
}

/// The address that a listener is bound to, or that a connection came in on,
/// with a mark where TLS is applied.
#[derive(Clone, Debug, PartialEq, Eq)]
pub enum Endpoint {
    Plain { address: String },
    Tls { address: String, info: Option<TlsInfo> },
}

/// The file that a material names, if it names one.
pub open spec fn path_of(material: Material) -> Option<String> {
    match material {
        Material::Path(path) => Some(path),
        Material::Bytes(_) => None,
    }
}

/// What an endpoint says about a source.
pub open spec fn info_of(source: SourceConfig) -> TlsInfo {
    TlsInfo { certs: path_of(source.certs), key: path_of(source.key), mutual: source.mutual }
}

fn path(material: &Material) -> (r: Option<String>)
    ensures
        r == path_of(*material),
{
    match material {
        Material::Path(path) => Some(path.clone()),
        Material::Bytes(_) => None,
    }
}

impl Endpoint {
    /// The address of the transport underneath.
    pub open spec fn address(self) -> String {
        match self {
            Endpoint::Plain { address } => address,
            Endpoint::Tls { address, .. } => address,
        }
    }

    /// The endpoint with TLS applied as `source` describes it. An endpoint
    /// that bears the mark already stays as it is.
    pub open spec fn marked(self, source: SourceConfig) -> Endpoint {
        match self {
            Endpoint::Plain { address } => Endpoint::Tls { address, info: Some(info_of(source)) },
            Endpoint::Tls { .. } => self,
        }
    }

    /// The endpoint with TLS applied and nothing known of how. An endpoint
    /// that bears the mark already stays as it is.
    pub open spec fn assumed(self) -> Endpoint {
        match self {
            Endpoint::Plain { address } => Endpoint::Tls { address, info: None },
            Endpoint::Tls { .. } => self,
        }
    }

    /// The endpoint of a plain transport.
    pub fn plain(address: String) -> (r: Endpoint)
        ensures
            r == (Endpoint::Plain { address }),
    {
        Endpoint::Plain { address }
    }

    /// Whether TLS is applied.
    pub fn is_tls(&self) -> (r: bool)
        ensures
            r == (*self is Tls),
    {
        match self {
            Endpoint::Tls { .. } => true,
            Endpoint::Plain { .. } => false,
        }
    }

    /// What is known of the TLS that is applied.
    pub fn tls_info(&self) -> (r: Option<&TlsInfo>)
        ensures
            match *self {
                Endpoint::Tls { info: Some(info), .. } => r == Some(&info),
                _ => r is None,
            },
    {
        match self {
            Endpoint::Tls { info: Some(info), .. } => Some(info),
            _ => None,
        }
    }

    pub fn with_tls(self, source: &SourceConfig) -> (r: Endpoint)
        ensures
            r == self.marked(*source),
    {
        match self {
            Endpoint::Plain { address } => {
                let info = TlsInfo {
                    certs: path(&source.certs),
                    key: path(&source.key),
                    mutual: source.mutual,
                };
                Endpoint::Tls { address, info: Some(info) }
            },
            Endpoint::Tls { address, info } => Endpoint::Tls { address, info },
        }
    }

    pub fn assume_tls(self) -> (r: Endpoint)
        ensures
            r == self.assumed(),
    {
        match self {
            Endpoint::Plain { address } => Endpoint::Tls { address, info: None },
            Endpoint::Tls { address, info } => Endpoint::Tls { address, info },
        }
    }
}

/// Marking an endpoint keeps its address, and marking it twice is marking it
/// once.
pub proof fn marking_is_idempotent(endpoint: Endpoint, source: SourceConfig, other: SourceConfig)
    ensures
        endpoint.marked(source) is Tls,
        endpoint.marked(source).address() == endpoint.address(),
        endpoint.marked(source).marked(other) == endpoint.marked(source),
        endpoint.marked(source).assumed() == endpoint.marked(source),
        endpoint.assumed().address() == endpoint.address(),
        endpoint.assumed().assumed() == endpoint.assumed(),
{
}

/// The certificate chain that a peer presented and that was verified, the
/// peer's own certificate first.
#[derive(Clone, Debug, PartialEq, Eq)]
pub struct Certificates {
    chain: Vec<Vec<u8>>,
}

impl View for Certificates {
    type V = Seq<Vec<u8>>;

    closed spec fn view(&self) -> Seq<Vec<u8>> {
        self.chain@
    }
}

impl Certificates {
    /// Who the peer of a connection is. There is an answer only where the
    /// connection's configuration asks clients for certificates and the peer
    /// presented a chain; that there is none is no error.
    pub fn of_peer(mutual: bool, presented: Option<Vec<Vec<u8>>>) -> (r: Option<Certificates>)
        ensures
            r is Some <==> mutual && presented is Some && presented->Some_0@.len() > 0,
            r matches Some(certificates) ==> certificates@ == presented->Some_0@,
    {
        if !mutual {
            return None;
        }
        match presented {
            Some(chain) => {
                if chain.len() > 0 {
                    Some(Certificates { chain })
                } else {
                    None
                }
            },
            None => None,
        }
    }

    /// The certificates in DER, the peer's own first.
    pub fn chain(&self) -> (r: &Vec<Vec<u8>>)
        ensures
            r@ == self@,
    {
        &self.chain
    }

    /// The peer's own certificate.
    pub fn end_entity(&self) -> (r: Option<&Vec<u8>>)
        ensures
            r is Some <==> self@.len() > 0,
            r matches Some(cert) ==> *cert == self@[0],
    {
        if self.chain.len() > 0 {
            Some(&self.chain[0])
        } else {
            None
        }
    }
}

} // verus!
