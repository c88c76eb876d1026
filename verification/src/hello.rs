//! What a client says in its first handshake message, and the host names that
//! are looked up from it.

use vstd::prelude::*;

verus! {

/// The lower-case form of an ASCII letter; every other byte stands for itself.
pub open spec fn lower_byte(b: u8) -> u8 {
    if 0x41 <= b && b <= 0x5a {
        (b + 0x20) as u8
    } else {
        b
    }
}

/// A name with each of its bytes in lower case.
pub open spec fn folded(name: Seq<u8>) -> Seq<u8> {
    Seq::new(name.len(), |i: int| lower_byte(name[i]))
}

/// Holds of a name that folding leaves as it is.
pub open spec fn is_folded(name: Seq<u8>) -> bool {
    forall|i: int| 0 <= i < name.len() ==> lower_byte(#[trigger] name[i]) == name[i]
}

/// Two names that differ at most in the case of their ASCII letters.
pub open spec fn same_ignoring_case(a: Seq<u8>, b: Seq<u8>) -> bool {
    &&& a.len() == b.len()
    &&& forall|i: int| 0 <= i < a.len() ==> lower_byte(#[trigger] a[i]) == lower_byte(b[i])
}

/// The bytes of a piece of text, in UTF-8.
pub open spec fn text_bytes(text: Seq<char>) -> Seq<u8> {
    vstd::utf8::encode_utf8(text)
}

/// The key under which a requested server name is looked up: its folded
/// bytes, or nothing for the empty name.
pub open spec fn host_key(name: Seq<u8>) -> Option<Seq<u8>> {
    if name.len() == 0 {
        None
    } else {
        Some(folded(name))
    }
}

pub fn to_lower(b: u8) -> (r: u8)
    ensures
        r == lower_byte(b),
{
    if 0x41 <= b && b <= 0x5a {
        b + 0x20
    } else {
        b
    }
}

/// Folding twice is folding once.
pub proof fn folding_is_idempotent(name: Seq<u8>)
    ensures
        is_folded(folded(name)),
        folded(folded(name)) == folded(name),
{
    assert(folded(folded(name)) =~= folded(name));
}

/// Two names have the same folded form exactly when they differ at most in
/// the case of their ASCII letters.
pub proof fn folding_decides_case_insensitive_equality(a: Seq<u8>, b: Seq<u8>)
    ensures
        (folded(a) == folded(b)) <==> same_ignoring_case(a, b),
{
    if folded(a) == folded(b) {
        assert(folded(a).len() == folded(b).len());
        assert forall|i: int| 0 <= i < a.len() implies lower_byte(#[trigger] a[i]) == lower_byte(
            b[i],
        ) by {
            assert(folded(a)[i] == folded(b)[i]);
        }
    }
    if same_ignoring_case(a, b) {
        assert(folded(a) =~= folded(b));
    }
}

/// A host name in the form in which names are compared: not empty, and with no
/// upper-case ASCII letter.
pub struct HostName {
    bytes: Vec<u8>,
}

impl View for HostName {
    type V = Seq<u8>;

    closed spec fn view(&self) -> Seq<u8> {
        self.bytes@
    }
}

impl HostName {
    /// What every host name satisfies.
    pub open spec fn wf(&self) -> bool {
        self@.len() > 0 && is_folded(self@)
    }

    #[verifier::type_invariant]
    spec fn inv(&self) -> bool {
        self.wf()
    }

    /// Folds `name`. The empty name is no host name.
    pub fn from_bytes(name: &[u8]) -> (r: Option<HostName>)
        ensures
            r is Some <==> name@.len() > 0,
            r matches Some(h) ==> h.wf() && Some(h@) == host_key(name@),
    {
        if name.len() == 0 {
            return None;
        }
        let mut bytes: Vec<u8> = Vec::new();
        let mut i: usize = 0;
        while i < name.len()
            invariant
                i <= name.len(),
                bytes@.len() == i,
                forall|j: int| 0 <= j < i ==> bytes@[j] == lower_byte(name@[j]),
            decreases name.len() - i,
        {
            bytes.push(to_lower(name[i]));
            i += 1;
        }
        proof {
            assert(bytes@ =~= folded(name@));
            folding_is_idempotent(name@);
        }
        Some(HostName { bytes })
    }

    /// Folds the text of `name`. The empty name is no host name.
    pub fn parse(name: &str) -> (r: Option<HostName>)
        ensures
            r is Some <==> name@.len() > 0,
            r matches Some(h) ==> h.wf() && Some(h@) == host_key(text_bytes(name@)),
    {
        proof {
            text_is_empty_with_its_bytes(name@);
        }
        HostName::from_bytes(name.as_bytes())
    }

    /// Whether two host names are the same name.
    pub fn same(&self, other: &HostName) -> (r: bool)
        ensures
            r == (self@ == other@),
    {
        if self.bytes.len() != other.bytes.len() {
            return false;
        }
        let mut i: usize = 0;
        while i < self.bytes.len()
            invariant
                i <= self.bytes.len(),
                self.bytes.len() == other.bytes.len(),
                forall|j: int| 0 <= j < i ==> self.bytes@[j] == other.bytes@[j],
            decreases self.bytes.len() - i,
        {
            if self.bytes[i] != other.bytes[i] {
                return false;
            }
            i += 1;
        }
        assert(self.bytes@ =~= other.bytes@);
        true
    }

    /// The bytes of the name.
    pub fn as_bytes(&self) -> (r: &Vec<u8>)
        ensures
            r@ == self@,
    {
        &self.bytes
    }

    /// A second value for the same name.
    pub fn duplicate(&self) -> (r: HostName)
        ensures
            r@ == self@,
    {
        proof {
            use_type_invariant(self);
        }
        let bytes = self.bytes.clone();
        assert(bytes@ =~= self.bytes@);
        HostName { bytes }
    }
}

/// Text is empty exactly when its encoding is.
pub proof fn text_is_empty_with_its_bytes(text: Seq<char>)
    ensures
        text_bytes(text).len() == 0 <==> text.len() == 0,
{
    if text.len() > 0 {
        let first = vstd::utf8::encode_scalar(text[0] as u32);
        assert(first.len() > 0);
        assert(text_bytes(text) == first + text_bytes(text.drop_first()));
    }
}

/// What the client's first handshake message says that a choice of
/// configuration may depend on.
#[derive(Clone, Debug, PartialEq, Eq)]
pub struct ClientHelloView {
    /// The server name that the client asks for, where it sent one.
    pub server_name: Option<String>,
    /// The application protocols that the client offers, in its order.
    pub alpn: Vec<Vec<u8>>,
}

impl ClientHelloView {
    /// The key under which this hello's server name is looked up, if it has
    /// one.
    pub open spec fn key(&self) -> Option<Seq<u8>> {
        match self.server_name {
            Some(name) => host_key(text_bytes(name@)),
            None => None,
        }
    }

    pub fn new(server_name: Option<String>, alpn: Vec<Vec<u8>>) -> (r: ClientHelloView)
        ensures
            r.server_name == server_name,
            r.alpn == alpn,
    {
        ClientHelloView { server_name, alpn }
    }

    /// The host name that the client asks for, where it sent one that is not
    /// empty.
    pub fn host(&self) -> (r: Option<HostName>)
        ensures
            r is Some <==> self.key() is Some,
            r matches Some(h) ==> h.wf() && Some(h@) == self.key(),
    {
        match &self.server_name {
            Some(name) => {
                proof {
                    text_is_empty_with_its_bytes(name@);
                }
                HostName::parse(name.as_str())
            },
            None => None,
        }
    }

    /// Whether the client offers `protocol`.
    pub fn offers(&self, protocol: &[u8]) -> (r: bool)
        ensures
            r <==> exists|i: int| 0 <= i < self.alpn@.len() && #[trigger] self.alpn@[i]@ == protocol@,
    {
        let mut i: usize = 0;
        while i < self.alpn.len()
            invariant
                i <= self.alpn.len(),
                forall|j: int| 0 <= j < i ==> #[trigger] self.alpn@[j]@ != protocol@,
            decreases self.alpn.len() - i,
        {
            if bytes_equal(self.alpn[i].as_slice(), protocol) {
                return true;
            }
            i += 1;
        }
        false
    }
}

/// Whether two byte strings are the same.
pub fn bytes_equal(a: &[u8], b: &[u8]) -> (r: bool)
    ensures
        r == (a@ == b@),
{
    if a.len() != b.len() {
        return false;
    }
    let mut i: usize = 0;
    while i < a.len()
        invariant
            i <= a.len(),
            a.len() == b.len(),
            forall|j: int| 0 <= j < i ==> a@[j] == b@[j],
        decreases a.len() - i,
    {
        if a[i] != b[i] {
            return false;
        }
        i += 1;
    }
    assert(a@ =~= b@);
    true
}

} // verus!
