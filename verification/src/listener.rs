//! The listener that puts TLS on a transport: it wraps what the transport
//! bound, chooses the configuration for each connection, and says which step
//! of the handshake comes next. The transport itself, and every read and
//! write on it, stay with the caller.

use std::sync::Arc;
use vstd::prelude::*;

use crate::config::{ConfigError, CryptoConfig, SourceConfig};
use crate::endpoint::Endpoint;
use crate::handshake::{action, next, Action, Event, Handshake};
use crate::hello::ClientHelloView;
use crate::resolver::{NoResolver, Resolver};

verus! {

/// Why a listener could not be bound.
#[derive(Clone, Copy, Debug, PartialEq, Eq, Structural)]
pub enum Error {
    /// The default configuration could not be built.
    Config(ConfigError),
    /// The transport underneath could not be bound.
    Bind,
}

/// A transport that can be bound, with the TLS that is to be put on it.
#[derive(Clone)]
pub struct TlsBindable<I> {
    pub inner: I,
    pub tls: SourceConfig,
}

/// A TLS listener over some listener `L`, with at most one resolver.
pub struct TlsListener<L, R> {
    listener: L,
    resolver: Option<Arc<R>>,
    default: CryptoConfig,
    config: SourceConfig,
}

/// The configuration that a resolution comes to: what the resolver gave, or
/// the default where it gave nothing.
pub open spec fn resolved_or(resolved: Option<CryptoConfig>, default: CryptoConfig) -> CryptoConfig {
    match resolved {
        Some(config) => config,
        None => default,
    }
}

/// The configuration that a resolution comes to: what the resolver gave, or
/// the default where it gave nothing.
pub fn or_default(resolved: Option<CryptoConfig>, default: &CryptoConfig) -> (r: CryptoConfig)
    ensures
        r == resolved_or(resolved, *default),
{
    match resolved {
        Some(config) => config,
        None => default.share(),
    }
}

impl<I> TlsBindable<I> {
    pub fn new(inner: I, tls: SourceConfig) -> (r: TlsBindable<I>)
        ensures
            r.inner == inner,
            r.tls == tls,
    {
        TlsBindable { inner, tls }
    }

    /// Makes the listener from the two things that binding needs: the default
    /// configuration as it was built from `self.tls`, and what the transport
    /// bound, or nothing where it could not. The configuration is looked at
    /// first: where it failed, that is the error, and the caller need not
    /// have bound the transport at all.
    pub fn bind<L>(self, default: Result<CryptoConfig, ConfigError>, bound: Option<L>) -> (r: Result<
        TlsListener<L, NoResolver>,
        Error,
    >)
        ensures
            match default {
                Err(error) => r == Err::<TlsListener<L, NoResolver>, Error>(Error::Config(error)),
                Ok(config) => match bound {
                    None => r == Err::<TlsListener<L, NoResolver>, Error>(Error::Bind),
                    Some(listener) => {
                        &&& r matches Ok(made)
                        &&& made.inner_listener() == listener
                        &&& made.default_config() == config
                        &&& made.source() == self.tls
                        &&& !made.has_resolver()
                    },
                },
            },
    {
        match default {
            Err(error) => Err(Error::Config(error)),
            Ok(config) => match bound {
                None => Err(Error::Bind),
                Some(listener) => Ok(
                    TlsListener { listener, resolver: None, default: config, config: self.tls },
                ),
            },
        }
    }

    /// The endpoint that the listener will have, from the one that the
    /// transport will have.
    pub fn bind_endpoint(&self, inner: Endpoint) -> (r: Endpoint)
        ensures
            r == inner.marked(self.tls),
    {
        inner.with_tls(&self.tls)
    }
}

impl<L, R: Resolver> TlsListener<L, R> {
    /// The listener underneath.
    pub closed spec fn inner_listener(&self) -> L {
        self.listener
    }

    /// The configuration for connections that no resolver decides.
    pub closed spec fn default_config(&self) -> CryptoConfig {
        self.default
    }

    /// What the default configuration was built from.
    pub closed spec fn source(&self) -> SourceConfig {
        self.config
    }

    /// Whether a resolver is installed.
    pub closed spec fn has_resolver(&self) -> bool {
        self.resolver is Some
    }

    /// The resolver that is installed.
    pub closed spec fn installed_resolver(&self) -> R
        recommends
            self.has_resolver(),
    {
        *self.resolver->Some_0
    }

    /// The same listener with `resolver` installed, in place of the one it
    /// had.
    pub fn with_resolver<S: Resolver>(self, resolver: Arc<S>) -> (r: TlsListener<L, S>)
        ensures
            r.inner_listener() == self.inner_listener(),
            r.default_config() == self.default_config(),
            r.source() == self.source(),
            r.has_resolver(),
            r.installed_resolver() == *resolver,
    {
        TlsListener {
            listener: self.listener,
            resolver: Some(resolver),
            default: self.default,
            config: self.config,
        }
    }

    /// The listener underneath, on which connections are accepted.
    pub fn inner(&self) -> (r: &L)
        ensures
            *r == self.inner_listener(),
    {
        &self.listener
    }

    /// The configuration for connections that no resolver decides.
    pub fn default(&self) -> (r: CryptoConfig)
        ensures
            r == self.default_config(),
    {
        self.default.share()
    }

    /// Whether `chosen` can be the configuration for a connection whose
    /// client sent `hello`: without a resolver it is the default; with one it
    /// is what becomes of one of the resolver's answers.
    pub open spec fn chooses(&self, hello: ClientHelloView, chosen: CryptoConfig) -> bool {
        if self.has_resolver() {
            exists|answer: Option<CryptoConfig>|
                #[trigger] self.installed_resolver().answers(hello, answer) && chosen
                    == resolved_or(answer, self.default_config())
        } else {
            chosen == self.default_config()
        }
    }

    /// The resolver that is installed, if there is one.
    pub fn resolver(&self) -> (r: Option<&Arc<R>>)
        ensures
            r is Some <==> self.has_resolver(),
            r matches Some(resolver) ==> **resolver == self.installed_resolver(),
    {
        match &self.resolver {
            Some(resolver) => Some(resolver),
            None => None,
        }
    }

    /// Chooses the configuration for a connection whose client sent `hello`:
    /// the resolver's choice, or the default where there is no resolver or it
    /// gives nothing.
    pub fn select(&self, hello: &ClientHelloView) -> (r: CryptoConfig)
        ensures
            self.chooses(*hello, r),
    {
        match &self.resolver {
            Some(resolver) => {
                let answer = resolver.resolve(hello);
                assert(self.installed_resolver().answers(*hello, answer));
                or_default(answer, &self.default)
            },
            None => self.default.share(),
        }
    }

    /// Takes an event of a handshake in. When a hello has been read the
    /// configuration is chosen at once, so the caller is told to finish the
    /// handshake with it; every other event goes as `Handshake::step` has it.
    pub fn connect(&self, state: Handshake, event: Event) -> (r: (Handshake, Action))
        ensures
            action(state, event) != Action::Resolve ==> r.0 == next(state, event) && r.1 == action(
                state,
                event,
            ),
            action(state, event) == Action::Resolve ==> {
                &&& r.0 matches Handshake::Finalizing { config }
                &&& self.chooses(event->Hello_0, config)
                &&& r.1 == Action::Finish
            },
    {
        let (state, todo) = state.step(event);
        match todo {
            Action::Resolve => {
                let chosen = match state.hello() {
                    Some(hello) => self.select(hello),
                    None => self.default.share(),
                };
                state.step(Event::Chosen(chosen))
            },
            _ => (state, todo),
        }
    }

    /// The listener's endpoint, from the endpoint of the listener underneath.
    pub fn endpoint(&self, inner: Endpoint) -> (r: Endpoint)
        ensures
            r == inner.marked(self.source()),
    {
        inner.with_tls(&self.config)
    }
}

} // verus!
