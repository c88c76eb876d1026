//! The cipher suites that a configuration can enable, and the rule by which a
//! set of them goes with a private key. The suites are those of the ring
//! provider of rustls, and they are numbered as in its table
//! `ALL_CIPHER_SUITES`.

use vstd::prelude::*;

verus! {

/// The cipher suites of the provider, in the order of its table.
#[derive(Clone, Copy, Debug, PartialEq, Eq, Structural)]
pub enum CipherSuite {
    Tls13Aes256GcmSha384,
    Tls13Aes128GcmSha256,
    Tls13Chacha20Poly1305Sha256,
    EcdheEcdsaAes256GcmSha384,
    EcdheEcdsaAes128GcmSha256,
    EcdheEcdsaChacha20Poly1305Sha256,
    EcdheRsaAes256GcmSha384,
    EcdheRsaAes128GcmSha256,
    EcdheRsaChacha20Poly1305Sha256,
}

/// The kind of key that a server proves its identity with.
#[derive(Clone, Copy, Debug, PartialEq, Eq, Structural)]
pub enum KeyKind {
    Rsa,
    Ecdsa,
    Ed25519,
    Other,
}

/// How many cipher suites the provider's table holds.
pub const SUITE_COUNT: usize = 9;

/// The suite at a position of the provider's table.
pub open spec fn suite_at(position: int) -> CipherSuite {
    if position == 0 {
        CipherSuite::Tls13Aes256GcmSha384
    } else if position == 1 {
        CipherSuite::Tls13Aes128GcmSha256
    } else if position == 2 {
        CipherSuite::Tls13Chacha20Poly1305Sha256
    } else if position == 3 {
        CipherSuite::EcdheEcdsaAes256GcmSha384
    } else if position == 4 {
        CipherSuite::EcdheEcdsaAes128GcmSha256
    } else if position == 5 {
        CipherSuite::EcdheEcdsaChacha20Poly1305Sha256
    } else if position == 6 {
        CipherSuite::EcdheRsaAes256GcmSha384
    } else if position == 7 {
        CipherSuite::EcdheRsaAes128GcmSha256
    } else {
        CipherSuite::EcdheRsaChacha20Poly1305Sha256
    }
}

/// The kind of key that signs for the signature algorithm with the given
/// number in the TLS registry.
pub open spec fn kind_of_code(code: u8) -> KeyKind {
    if code == 1 {
        KeyKind::Rsa
    } else if code == 3 {
        KeyKind::Ecdsa
    } else if code == 7 {
        KeyKind::Ed25519
    } else {
        KeyKind::Other
    }
}

impl KeyKind {
    pub fn from_code(code: u8) -> (r: KeyKind)
        ensures
            r == kind_of_code(code),
    {
        if code == 1 {
            KeyKind::Rsa
        } else if code == 3 {
            KeyKind::Ecdsa
        } else if code == 7 {
            KeyKind::Ed25519
        } else {
            KeyKind::Other
        }
    }
}

impl CipherSuite {
    /// Where the suite stands in the provider's table.
    pub open spec fn spec_position(self) -> int {
        match self {
            CipherSuite::Tls13Aes256GcmSha384 => 0,
            CipherSuite::Tls13Aes128GcmSha256 => 1,
            CipherSuite::Tls13Chacha20Poly1305Sha256 => 2,
            CipherSuite::EcdheEcdsaAes256GcmSha384 => 3,
            CipherSuite::EcdheEcdsaAes128GcmSha256 => 4,
            CipherSuite::EcdheEcdsaChacha20Poly1305Sha256 => 5,
            CipherSuite::EcdheRsaAes256GcmSha384 => 6,
            CipherSuite::EcdheRsaAes128GcmSha256 => 7,
            CipherSuite::EcdheRsaChacha20Poly1305Sha256 => 8,
        }
    }

    /// The suite's number in the TLS registry.
    pub open spec fn spec_code(self) -> u16 {
        match self {
            CipherSuite::Tls13Aes256GcmSha384 => 0x1302,
            CipherSuite::Tls13Aes128GcmSha256 => 0x1301,
            CipherSuite::Tls13Chacha20Poly1305Sha256 => 0x1303,
            CipherSuite::EcdheEcdsaAes256GcmSha384 => 0xc02c,
            CipherSuite::EcdheEcdsaAes128GcmSha256 => 0xc02b,
            CipherSuite::EcdheEcdsaChacha20Poly1305Sha256 => 0xcca9,
            CipherSuite::EcdheRsaAes256GcmSha384 => 0xc030,
            CipherSuite::EcdheRsaAes128GcmSha256 => 0xc02f,
            CipherSuite::EcdheRsaChacha20Poly1305Sha256 => 0xcca8,
        }
    }

    /// Whether the suite belongs to TLS 1.3, where any key signs.
    pub open spec fn is_tls13(self) -> bool {
        self.spec_position() < 3
    }

    /// Whether a server with a key of `kind` can negotiate the suite.
    pub open spec fn fits(self, kind: KeyKind) -> bool {
        match self {
            CipherSuite::Tls13Aes256GcmSha384
            | CipherSuite::Tls13Aes128GcmSha256
            | CipherSuite::Tls13Chacha20Poly1305Sha256 => true,
            CipherSuite::EcdheEcdsaAes256GcmSha384
            | CipherSuite::EcdheEcdsaAes128GcmSha256
            | CipherSuite::EcdheEcdsaChacha20Poly1305Sha256 => kind == KeyKind::Ecdsa || kind
                == KeyKind::Ed25519,
            CipherSuite::EcdheRsaAes256GcmSha384
            | CipherSuite::EcdheRsaAes128GcmSha256
            | CipherSuite::EcdheRsaChacha20Poly1305Sha256 => kind == KeyKind::Rsa,
        }
    }

    pub fn position(self) -> (r: usize)
        ensures
            r == self.spec_position(),
            r < SUITE_COUNT,
            suite_at(r as int) == self,
    {
        match self {
            CipherSuite::Tls13Aes256GcmSha384 => 0,
            CipherSuite::Tls13Aes128GcmSha256 => 1,
            CipherSuite::Tls13Chacha20Poly1305Sha256 => 2,
            CipherSuite::EcdheEcdsaAes256GcmSha384 => 3,
            CipherSuite::EcdheEcdsaAes128GcmSha256 => 4,
            CipherSuite::EcdheEcdsaChacha20Poly1305Sha256 => 5,
            CipherSuite::EcdheRsaAes256GcmSha384 => 6,
            CipherSuite::EcdheRsaAes128GcmSha256 => 7,
            CipherSuite::EcdheRsaChacha20Poly1305Sha256 => 8,
        }
    }

    #[verifier::when_used_as_spec(spec_code)]
    pub fn code(self) -> (r: u16)
        ensures
            r == self.spec_code(),
    {
        match self {
            CipherSuite::Tls13Aes256GcmSha384 => 0x1302,
            CipherSuite::Tls13Aes128GcmSha256 => 0x1301,
            CipherSuite::Tls13Chacha20Poly1305Sha256 => 0x1303,
            CipherSuite::EcdheEcdsaAes256GcmSha384 => 0xc02c,
            CipherSuite::EcdheEcdsaAes128GcmSha256 => 0xc02b,
            CipherSuite::EcdheEcdsaChacha20Poly1305Sha256 => 0xcca9,
            CipherSuite::EcdheRsaAes256GcmSha384 => 0xc030,
            CipherSuite::EcdheRsaAes128GcmSha256 => 0xc02f,
            CipherSuite::EcdheRsaChacha20Poly1305Sha256 => 0xcca8,
        }
    }

    /// The suite at `position` of the provider's table, if the table is that
    /// long.
    pub fn at(position: usize) -> (r: Option<CipherSuite>)
        ensures
            r is Some <==> position < SUITE_COUNT,
            r matches Some(s) ==> s == suite_at(position as int) && s.spec_position() == position,
    {
        if position == 0 {
            Some(CipherSuite::Tls13Aes256GcmSha384)
        } else if position == 1 {
            Some(CipherSuite::Tls13Aes128GcmSha256)
        } else if position == 2 {
            Some(CipherSuite::Tls13Chacha20Poly1305Sha256)
        } else if position == 3 {
            Some(CipherSuite::EcdheEcdsaAes256GcmSha384)
        } else if position == 4 {
            Some(CipherSuite::EcdheEcdsaAes128GcmSha256)
        } else if position == 5 {
            Some(CipherSuite::EcdheEcdsaChacha20Poly1305Sha256)
        } else if position == 6 {
            Some(CipherSuite::EcdheRsaAes256GcmSha384)
        } else if position == 7 {
            Some(CipherSuite::EcdheRsaAes128GcmSha256)
        } else if position == 8 {
            Some(CipherSuite::EcdheRsaChacha20Poly1305Sha256)
        } else {
            None
        }
    }

    /// Whether a server with a key of `kind` can negotiate the suite.
    pub fn goes_with(self, kind: KeyKind) -> (r: bool)
        ensures
            r == self.fits(kind),
    {
        let place: usize = self.position();
        if place < 3 {
            true
        } else if place < 6 {
            matches!(kind, KeyKind::Ecdsa) || matches!(kind, KeyKind::Ed25519)
        } else {
            matches!(kind, KeyKind::Rsa)
        }
    }
}

/// The positions below `limit` of the suites that `requested` names, in
/// increasing order.
pub open spec fn positions_below(requested: Seq<CipherSuite>, limit: int) -> Seq<usize>
    decreases limit,
{
    if limit <= 0 {
        Seq::empty()
    } else if requested.contains(suite_at(limit - 1)) {
        positions_below(requested, limit - 1).push((limit - 1) as usize)
    } else {
        positions_below(requested, limit - 1)
    }
}

/// The table positions of the suites that `requested` names: each once, in
/// the table's order, however often and in whatever order they were named.
pub open spec fn positions(requested: Seq<CipherSuite>) -> Seq<usize> {
    positions_below(requested, SUITE_COUNT as int)
}

/// The suites that stand at the given positions.
pub open spec fn suites_at(places: Seq<usize>) -> Seq<CipherSuite> {
    Seq::new(places.len(), |i: int| suite_at(places[i] as int))
}

/// A set of suites goes with a key when it is not empty and the key can
/// negotiate every suite in it.
pub open spec fn consistent(requested: Seq<CipherSuite>, kind: KeyKind) -> bool {
    &&& requested.len() > 0
    &&& forall|i: int| 0 <= i < requested.len() ==> (#[trigger] requested[i]).fits(kind)
}

/// What `positions_below` holds: exactly the positions below the limit whose
/// suite was named, in strictly increasing order.
pub proof fn positions_below_are_the_named(requested: Seq<CipherSuite>, limit: int)
    requires
        0 <= limit <= SUITE_COUNT,
    ensures
        forall|i: int|
            0 <= i < positions_below(requested, limit).len() ==> (#[trigger] positions_below(
                requested,
                limit,
            )[i]) < limit,
        forall|i: int, j: int|
            0 <= i < j < positions_below(requested, limit).len() ==> positions_below(
                requested,
                limit,
            )[i] < positions_below(requested, limit)[j],
        forall|p: int|
            0 <= p < limit ==> (positions_below(requested, limit).contains(p as usize)
                <==> requested.contains(#[trigger] suite_at(p))),
    decreases limit,
{
    if limit > 0 {
        positions_below_are_the_named(requested, limit - 1);
        let before = positions_below(requested, limit - 1);
        let now = positions_below(requested, limit);
        if requested.contains(suite_at(limit - 1)) {
            assert(now == before.push((limit - 1) as usize));
            assert forall|p: int| 0 <= p < limit implies (now.contains(p as usize)
                <==> requested.contains(#[trigger] suite_at(p))) by {
                if p == limit - 1 {
                    assert(now[now.len() - 1] == p as usize);
                } else {
                    if before.contains(p as usize) {
                        let k = choose|k: int| 0 <= k < before.len() && before[k] == p as usize;
                        assert(now[k] == p as usize);
                    }
                    if now.contains(p as usize) {
                        let k = choose|k: int| 0 <= k < now.len() && now[k] == p as usize;
                        assert(k < before.len());
                        assert(before[k] == p as usize);
                    }
                }
            }
        } else {
            assert(now == before);
        }
    }
}

/// The positions of the named suites: within the table, strictly increasing,
/// and holding a position exactly when its suite was named.
pub proof fn positions_are_the_named(requested: Seq<CipherSuite>)
    ensures
        forall|i: int|
            0 <= i < positions(requested).len() ==> (#[trigger] positions(requested)[i])
                < SUITE_COUNT,
        forall|i: int, j: int|
            0 <= i < j < positions(requested).len() ==> positions(requested)[i] < positions(
                requested,
            )[j],
        forall|s: CipherSuite|
            positions(requested).contains(#[trigger] s.spec_position() as usize)
                <==> requested.contains(s),
        requested.len() > 0 <==> positions(requested).len() > 0,
{
    positions_below_are_the_named(requested, SUITE_COUNT as int);
    assert forall|s: CipherSuite|
        positions(requested).contains(#[trigger] s.spec_position() as usize)
            <==> requested.contains(s) by {
        assert(suite_at(s.spec_position()) == s);
    }
    if requested.len() > 0 {
        let s = requested[0];
        assert(requested.contains(s));
        assert(positions(requested).contains(s.spec_position() as usize));
    }
    if positions(requested).len() > 0 {
        let p = positions(requested)[0];
        assert(positions(requested).contains(p));
        assert(requested.contains(suite_at(p as int)));
    }
}

/// Whether `requested` names `suite`.
pub fn names(requested: &Vec<CipherSuite>, suite: CipherSuite) -> (r: bool)
    ensures
        r == requested@.contains(suite),
{
    let mut i: usize = 0;
    while i < requested.len()
        invariant
            i <= requested.len(),
            forall|j: int| 0 <= j < i ==> requested@[j] != suite,
        decreases requested.len() - i,
    {
        if requested[i] == suite {
            return true;
        }
        i += 1;
    }
    false
}

/// Whether the set of suites goes with a key of `kind`.
pub fn goes_with_key(requested: &Vec<CipherSuite>, kind: KeyKind) -> (r: bool)
    ensures
        r == consistent(requested@, kind),
{
    if requested.len() == 0 {
        return false;
    }
    let mut i: usize = 0;
    while i < requested.len()
        invariant
            i <= requested.len(),
            forall|j: int| 0 <= j < i ==> (#[trigger] requested@[j]).fits(kind),
        decreases requested.len() - i,
    {
        if !requested[i].goes_with(kind) {
            return false;
        }
        i += 1;
    }
    true
}

/// The table positions of the suites that `requested` names.
pub fn select(requested: &Vec<CipherSuite>) -> (r: Vec<usize>)
    ensures
        r@ == positions(requested@),
{
    let mut places: Vec<usize> = Vec::new();
    let mut p: usize = 0;
    while p < SUITE_COUNT
        invariant
            p <= SUITE_COUNT,
            places@ == positions_below(requested@, p as int),
        decreases SUITE_COUNT - p,
    {
        match CipherSuite::at(p) {
            Some(suite) => {
                if names(requested, suite) {
                    places.push(p);
                }
            },
            None => {},
        }
        p += 1;
    }
    places
}

/// The suites that stand at the given positions of the table.
pub(crate) fn suites_of(places: &Vec<usize>) -> (r: Vec<CipherSuite>)
    requires
        forall|i: int| 0 <= i < places@.len() ==> (#[trigger] places@[i]) < SUITE_COUNT,
    ensures
        r@ == suites_at(places@),
{
    let mut suites: Vec<CipherSuite> = Vec::new();
    let mut i: usize = 0;
    while i < places.len()
        invariant
            i <= places.len(),
            suites@.len() == i,
            forall|j: int| 0 <= j < places@.len() ==> (#[trigger] places@[j]) < SUITE_COUNT,
            forall|j: int| 0 <= j < i ==> suites@[j] == suite_at(places@[j] as int),
        decreases places.len() - i,
    {
        match CipherSuite::at(places[i]) {
            Some(suite) => {
                suites.push(suite);
            },
            None => {
                assert(false);
            },
        }
        i += 1;
    }
    assert(suites@ =~= suites_at(places@));
    suites
}

} // verus!
