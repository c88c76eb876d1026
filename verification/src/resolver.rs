//! How a listener comes by the configuration for one connection: the
//! `Resolver` capability, and the resolver that looks the client's server
//! name up in a table.

use std::sync::Arc;
use vstd::prelude::*;

use crate::config::{
    build, build_outcome, ConfigError, ConfigView, CryptoConfig, Files, SourceConfig,
};
use crate::hello::{
    folding_decides_case_insensitive_equality, host_key, same_ignoring_case, text_bytes,
    ClientHelloView, HostName,
};

verus! {

/// A strategy that picks the configuration for a connection once the client's
/// hello is known. Nothing given back leaves the choice to the listener's
/// default; that is no error.
pub trait Resolver: Sized {
    /// What the resolver may give for a hello. A resolver that says nothing
    /// of its answers lets this hold of all of them.
    open spec fn answers(&self, hello: ClientHelloView, answer: Option<CryptoConfig>) -> bool {
        true
    }

    fn resolve(&self, hello: &ClientHelloView) -> (r: Option<CryptoConfig>)
        ensures
            self.answers(*hello, r),
    ;

    /// Wraps the resolver for a server that installs it at start-up.
    fn fairing(self) -> (r: Fairing<Self>)
        ensures
            r.resolver() == self,
    {
        Fairing::new(self)
    }
}

/// What a server's start-up is told about a `Fairing`.
#[derive(Clone, Copy, Debug, PartialEq, Eq)]
pub struct Info {
    pub name: &'static str,
    /// Runs while the server is being put together.
    pub ignite: bool,
    /// At most one of its kind is installed.
    pub singleton: bool,
}

/// A resolver in the form in which a server takes it in at start-up.
pub struct Fairing<R> {
    resolver: Arc<R>,
}

impl<R> Fairing<R> {
    /// The resolver inside.
    pub closed spec fn resolver(&self) -> R {
        *self.resolver
    }

    pub fn new(resolver: R) -> (r: Fairing<R>)
        ensures
            r.resolver() == resolver,
    {
        Fairing { resolver: Arc::new(resolver) }
    }

    pub fn info(&self) -> (r: Info)
        ensures
            r.name@ == "TLS Resolver"@,
            r.ignite,
            r.singleton,
    {
        Info { name: "TLS Resolver", ignite: true, singleton: true }
    }

    /// What the server keeps as managed state: a handle on the same resolver.
    pub fn on_ignite(&self) -> (r: Fairing<R>)
        ensures
            r.resolver() == self.resolver(),
    {
        Fairing { resolver: crate::tls::share(&self.resolver) }
    }

    /// A handle on the resolver, for the listener that is to use it.
    pub fn handle(&self) -> (r: Arc<R>)
        ensures
            *r == self.resolver(),
    {
        crate::tls::share(&self.resolver)
    }
}

/// The resolver of a listener that has none: it leaves every choice to the
/// default.
pub struct NoResolver;

impl Resolver for NoResolver {
    open spec fn answers(&self, hello: ClientHelloView, answer: Option<CryptoConfig>) -> bool {
        answer is None
    }

    fn resolve(&self, hello: &ClientHelloView) -> (r: Option<CryptoConfig>) {
        None
    }
}

/// One line of a server-name table.
pub struct SniEntry {
    pub host: HostName,
    pub config: CryptoConfig,
}

/// The table that a sequence of lines stands for. A later line for a host
/// replaces an earlier one.
pub open spec fn table_of(entries: Seq<SniEntry>) -> Map<Seq<u8>, CryptoConfig>
    decreases entries.len(),
{
    if entries.len() == 0 {
        Map::empty()
    } else {
        table_of(entries.drop_last()).insert(entries.last().host@, entries.last().config)
    }
}

/// The last line for a host is the one that the table holds.
pub proof fn last_line_wins(entries: Seq<SniEntry>, key: Seq<u8>, i: int)
    requires
        0 <= i < entries.len(),
        entries[i].host@ == key,
        forall|j: int| i < j < entries.len() ==> (#[trigger] entries[j]).host@ != key,
    ensures
        table_of(entries).dom().contains(key),
        table_of(entries)[key] == entries[i].config,
    decreases entries.len(),
{
    if i < entries.len() - 1 {
        assert(entries.last().host@ != key);
        let front = entries.drop_last();
        assert(front[i] == entries[i]);
        assert forall|j: int| i < j < front.len() implies (#[trigger] front[j]).host@ != key by {
            assert(front[j] == entries[j]);
        }
        last_line_wins(front, key, i);
    }
}

/// A host without a line is not in the table.
pub proof fn no_line_no_entry(entries: Seq<SniEntry>, key: Seq<u8>)
    requires
        forall|j: int| 0 <= j < entries.len() ==> (#[trigger] entries[j]).host@ != key,
    ensures
        !table_of(entries).dom().contains(key),
    decreases entries.len(),
{
    if entries.len() > 0 {
        let front = entries.drop_last();
        assert(entries.last() == entries[entries.len() - 1]);
        assert forall|j: int| 0 <= j < front.len() implies (#[trigger] front[j]).host@ != key by {
            assert(front[j] == entries[j]);
        }
        no_line_no_entry(front, key);
    }
}

/// One line of the description of a server-name table: a host and what its
/// configuration is built from.
pub struct SniSource {
    pub host: HostName,
    pub source: SourceConfig,
}

/// The description of a server-name table, as a server is configured with
/// it: for each host what its configuration is built from.
pub struct SniConfig {
    sni: Vec<SniSource>,
}

impl View for SniConfig {
    type V = Seq<SniSource>;

    closed spec fn view(&self) -> Seq<SniSource> {
        self.sni@
    }
}

/// Whether some line is for the host with the given key.
pub open spec fn describes(lines: Seq<SniSource>, key: Seq<u8>) -> bool {
    exists|i: int| 0 <= i < lines.len() && (#[trigger] lines[i]).host@ == key
}

/// The contents of the files for line `i`: what `files` holds there, or
/// nothing read where it is too short.
pub open spec fn files_at(files: Seq<Files>, i: int) -> Files {
    if 0 <= i < files.len() {
        files[i]
    } else {
        Files { certs: None, key: None }
    }
}

impl SniConfig {
    /// A description without lines.
    pub fn new() -> (r: SniConfig)
        ensures
            r@ == Seq::<SniSource>::empty(),
    {
        SniConfig { sni: Vec::new() }
    }

    /// Adds a line for `host`. The empty name is refused and changes nothing.
    pub fn insert(&mut self, host: &str, source: SourceConfig) -> (accepted: bool)
        ensures
            accepted == (host@.len() > 0),
            match host_key(text_bytes(host@)) {
                Some(key) => {
                    &&& final(self)@.len() == old(self)@.len() + 1
                    &&& final(self)@.drop_last() == old(self)@
                    &&& final(self)@.last().host@ == key
                    &&& final(self)@.last().source == source
                },
                None => final(self)@ == old(self)@,
            },
    {
        proof {
            crate::hello::text_is_empty_with_its_bytes(host@);
        }
        match HostName::parse(host) {
            Some(name) => {
                let ghost before = self.sni@;
                self.sni.push(SniSource { host: name, source });
                assert(self.sni@.drop_last() =~= before);
                true
            },
            None => false,
        }
    }

    /// How many lines there are.
    pub fn len(&self) -> (r: usize)
        ensures
            r == self@.len(),
    {
        self.sni.len()
    }

    /// Whether some line is for `host`, in whatever case it is written.
    pub fn contains_key(&self, host: &str) -> (r: bool)
        ensures
            r == match host_key(text_bytes(host@)) {
                Some(key) => describes(self@, key),
                None => false,
            },
    {
        match HostName::parse(host) {
            Some(name) => {
                let mut i: usize = 0;
                while i < self.sni.len()
                    invariant
                        i <= self.sni.len(),
                        host_key(text_bytes(host@)) == Some(name@),
                        forall|j: int| 0 <= j < i ==> (#[trigger] self.sni@[j]).host@ != name@,
                    decreases self.sni.len() - i,
                {
                    if self.sni[i].host.same(&name) {
                        assert(self@[i as int].host@ == name@);
                        return true;
                    }
                    i += 1;
                }
                false
            },
            None => false,
        }
    }
}

/// Picks the configuration by the server name that the client asks for.
/// The table is filled at start-up and only read afterwards.
pub struct SniResolver {
    entries: Vec<SniEntry>,
}

impl View for SniResolver {
    type V = Map<Seq<u8>, CryptoConfig>;

    /// The table: from folded host name to configuration.
    open spec fn view(&self) -> Map<Seq<u8>, CryptoConfig> {
        table_of(self.lines())
    }
}

/// What a table gives for a hello: the configuration under the folded server
/// name; nothing where the client sent no name, an empty one, or one that
/// the table does not hold.
pub open spec fn looked_up(table: Map<Seq<u8>, CryptoConfig>, hello: ClientHelloView) -> Option<
    CryptoConfig,
> {
    match hello.key() {
        Some(key) => if table.dom().contains(key) {
            Some(table[key])
        } else {
            None
        },
        None => None,
    }
}

impl SniResolver {
    /// The lines of the table, in the order in which they were put in.
    pub closed spec fn lines(&self) -> Seq<SniEntry> {
        self.entries@
    }

    /// A resolver with an empty table.
    pub fn new() -> (r: SniResolver)
        ensures
            r.lines() == Seq::<SniEntry>::empty(),
            r@ == Map::<Seq<u8>, CryptoConfig>::empty(),
    {
        SniResolver { entries: Vec::new() }
    }

    /// Builds the table that `config` describes: the configuration of each
    /// host from its source and from `files[i]`, the contents of the files
    /// that the source of line `i` names (nothing could be read where `files`
    /// is too short). The first source that cannot be built is the error.
    pub fn from_config(config: &SniConfig, files: &Vec<Files>) -> (r: Result<SniResolver, ConfigError>)
        ensures
            match r {
                Ok(resolver) => {
                    &&& resolver.lines().len() == config@.len()
                    &&& forall|i: int|
                        0 <= i < config@.len() ==> {
                            &&& (#[trigger] resolver.lines()[i]).host@ == config@[i].host@
                            &&& build_outcome(config@[i].source, files_at(files@, i)) == Ok::<
                                ConfigView,
                                ConfigError,
                            >(resolver.lines()[i].config@)
                        }
                },
                Err(error) => exists|i: int|
                    {
                        &&& 0 <= i < config@.len()
                        &&& #[trigger] build_outcome(config@[i].source, files_at(files@, i)) == Err::<
                            ConfigView,
                            ConfigError,
                        >(error)
                        &&& forall|j: int|
                            0 <= j < i ==> (#[trigger] build_outcome(
                                config@[j].source,
                                files_at(files@, j),
                            )) is Ok
                    },
            },
    {
        let mut entries: Vec<SniEntry> = Vec::new();
        let nothing = Files { certs: None, key: None };
        let mut i: usize = 0;
        while i < config.sni.len()
            invariant
                i <= config.sni.len(),
                config@ == config.sni@,
                nothing.certs is None,
                nothing.key is None,
                entries@.len() == i,
                forall|j: int|
                    0 <= j < i ==> {
                        &&& (#[trigger] entries@[j]).host@ == config@[j].host@
                        &&& build_outcome(config@[j].source, files_at(files@, j)) == Ok::<
                            ConfigView,
                            ConfigError,
                        >(entries@[j].config@)
                    },
            decreases config.sni.len() - i,
        {
            let at_hand = if i < files.len() {
                &files[i]
            } else {
                &nothing
            };
            assert(*at_hand == files_at(files@, i as int));
            match build(&config.sni[i].source, at_hand) {
                Ok(built) => {
                    entries.push(SniEntry { host: config.sni[i].host.duplicate(), config: built });
                },
                Err(error) => {
                    assert(build_outcome(config@[i as int].source, files_at(files@, i as int))
                        == Err::<ConfigView, ConfigError>(error));
                    assert forall|j: int| 0 <= j < i implies (#[trigger] build_outcome(
                        config@[j].source,
                        files_at(files@, j),
                    )) is Ok by {
                        assert(entries@[j].host@ == config@[j].host@);
                    }
                    return Err(error);
                },
            }
            i += 1;
        }
        Ok(SniResolver { entries })
    }

    /// Puts `config` under `host`, in place of what stood there. The empty
    /// name is refused and changes nothing.
    pub fn insert(&mut self, host: &str, config: CryptoConfig) -> (accepted: bool)
        ensures
            accepted == (host@.len() > 0),
            match host_key(text_bytes(host@)) {
                Some(key) => final(self)@ == old(self)@.insert(key, config),
                None => final(self)@ == old(self)@,
            },
    {
        proof {
            crate::hello::text_is_empty_with_its_bytes(host@);
        }
        match HostName::parse(host) {
            Some(name) => {
                let ghost before = self.entries@;
                self.entries.push(SniEntry { host: name, config });
                assert(self.entries@.drop_last() =~= before);
                true
            },
            None => false,
        }
    }

    /// Whether the table holds a configuration for `host`.
    pub fn contains_host(&self, host: &str) -> (r: bool)
        ensures
            r == match host_key(text_bytes(host@)) {
                Some(key) => self@.dom().contains(key),
                None => false,
            },
    {
        match HostName::parse(host) {
            Some(name) => self.find(&name).is_some(),
            None => false,
        }
    }

    /// The configuration under `name`, if the table holds one.
    pub fn find(&self, name: &HostName) -> (r: Option<&CryptoConfig>)
        ensures
            r is Some <==> self@.dom().contains(name@),
            r matches Some(config) ==> *config == self@[name@],
    {
        let mut i: usize = self.entries.len();
        while i > 0
            invariant
                i <= self.entries.len(),
                forall|j: int| i <= j < self.entries@.len() ==> (#[trigger] self.entries@[j]).host@ != name@,
            decreases i,
        {
            i -= 1;
            if self.entries[i].host.same(name) {
                proof {
                    last_line_wins(self.entries@, name@, i as int);
                }
                return Some(&self.entries[i].config);
            }
        }
        proof {
            no_line_no_entry(self.entries@, name@);
        }
        None
    }
}

impl Resolver for SniResolver {
    open spec fn answers(&self, hello: ClientHelloView, answer: Option<CryptoConfig>) -> bool {
        answer == looked_up(self@, hello)
    }

    fn resolve(&self, hello: &ClientHelloView) -> (r: Option<CryptoConfig>) {
        match hello.host() {
            Some(name) => match self.find(&name) {
                Some(config) => Some(config.share()),
                None => None,
            },
            None => None,
        }
    }
}

/// A client that asks for a host of the table gets the configuration of the
/// last line for that host.
pub proof fn listed_hosts_resolve(lines: Seq<SniEntry>, i: int, hello: ClientHelloView)
    requires
        0 <= i < lines.len(),
        hello.key() == Some(lines[i].host@),
        forall|j: int| i < j < lines.len() ==> (#[trigger] lines[j]).host@ != lines[i].host@,
    ensures
        looked_up(table_of(lines), hello) == Some(lines[i].config),
{
    last_line_wins(lines, lines[i].host@, i);
}

/// A client that sends no server name, an empty one, or one that no line is
/// for gets nothing, and the listener's default applies.
pub proof fn unlisted_hosts_fall_through(lines: Seq<SniEntry>, hello: ClientHelloView)
    requires
        hello.key() matches Some(key) ==> forall|j: int|
            0 <= j < lines.len() ==> (#[trigger] lines[j]).host@ != key,
    ensures
        looked_up(table_of(lines), hello) is None,
{
    if hello.key() is Some {
        no_line_no_entry(lines, hello.key()->Some_0);
    }
}

/// The case in which a name is written makes no difference: a client that
/// asks for a host in any case gets what was put under it in any other.
pub proof fn hosts_are_found_in_any_case(
    table: Map<Seq<u8>, CryptoConfig>,
    host: Seq<u8>,
    config: CryptoConfig,
    hello: ClientHelloView,
)
    requires
        host.len() > 0,
        hello.server_name matches Some(name) && same_ignoring_case(text_bytes(name@), host),
    ensures
        hello.key() == host_key(host),
        looked_up(table.insert(host_key(host)->Some_0, config), hello) == Some(config),
{
    let asked = text_bytes(hello.server_name->Some_0@);
    folding_decides_case_insensitive_equality(asked, host);
}

} // verus!
