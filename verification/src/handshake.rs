//! The handshake in two phases. The first reads the client's hello without
//! a configuration; the second finishes the handshake with the configuration
//! that was chosen in between. Reading and writing are the caller's: it
//! reports what happened as an `Event` and is told what to do as an `Action`.

use vstd::prelude::*;

use crate::config::CryptoConfig;
use crate::hello::ClientHelloView;

verus! {

/// Why a handshake failed.
#[derive(Clone, Copy, Debug, PartialEq, Eq, Structural)]
pub enum HandshakeError {
    /// What the client sent first is no TLS hello.
    Protocol,
    /// The transport failed.
    Io,
    /// The transport's deadline passed.
    Timeout,
    /// The two sides could not agree, or the peer broke the protocol after
    /// its hello.
    Tls,
}

/// What went wrong, as the caller saw it on the connection.
#[derive(Clone, Copy, Debug, PartialEq, Eq, Structural)]
pub enum Fault {
    /// The bytes that came in are not what TLS allows at this point.
    Invalid,
    /// Reading or writing failed.
    Transport,
    /// The deadline passed.
    Timeout,
}

/// Where a handshake stands.
pub enum Handshake {
    Start,
    AwaitingHello,
    ClientHelloParsed { hello: ClientHelloView },
    Finalizing { config: CryptoConfig },
    Established { config: CryptoConfig },
    Failed { error: HandshakeError },
}

/// What happened on the connection since the last action.
pub enum Event {
    /// The transport handed over a raw connection.
    Accepted,
    /// A whole hello was read.
    Hello(ClientHelloView),
    /// The configuration for this connection was chosen.
    Chosen(CryptoConfig),
    /// The rest of the handshake went through.
    Completed,
    /// Something went wrong.
    Fault(Fault),
}

/// What the caller is to do next.
#[derive(Clone, Copy, Debug, PartialEq, Eq, Structural)]
pub enum Action {
    /// Read from the connection until the hello is whole.
    ReadHello,
    /// Choose the configuration for the hello that was read.
    Resolve,
    /// Finish the handshake with the configuration that was chosen.
    Finish,
    /// Hand the encrypted connection on.
    Deliver,
    /// Give the connection up.
    Abort,
    /// Nothing: the event has no place where the handshake stands.
    Ignore,
}

/// The error that a fault means where the handshake stands. Before the hello
/// is read, bytes that TLS does not allow are a protocol error; after it
/// they are a failure of the TLS negotiation.
pub open spec fn failure(state: Handshake, fault: Fault) -> HandshakeError {
    match fault {
        Fault::Transport => HandshakeError::Io,
        Fault::Timeout => HandshakeError::Timeout,
        Fault::Invalid => match state {
            Handshake::Start | Handshake::AwaitingHello => HandshakeError::Protocol,
            _ => HandshakeError::Tls,
        },
    }
}

/// Whether the handshake has come to its end, one way or the other.
pub open spec fn is_terminal(state: Handshake) -> bool {
    state is Established || state is Failed
}

/// Whether `event` is the one that moves the handshake on from `state`.
pub open spec fn expected(state: Handshake, event: Event) -> bool {
    match (state, event) {
        (Handshake::Start, Event::Accepted) => true,
        (Handshake::AwaitingHello, Event::Hello(_)) => true,
        (Handshake::ClientHelloParsed { .. }, Event::Chosen(_)) => true,
        (Handshake::Finalizing { .. }, Event::Completed) => true,
        _ => false,
    }
}

/// Where the handshake stands after an event.
pub open spec fn next(state: Handshake, event: Event) -> Handshake {
    if is_terminal(state) {
        state
    } else {
        match event {
            Event::Fault(fault) => Handshake::Failed { error: failure(state, fault) },
            Event::Accepted => match state {
                Handshake::Start => Handshake::AwaitingHello,
                _ => state,
            },
            Event::Hello(hello) => match state {
                Handshake::AwaitingHello => Handshake::ClientHelloParsed { hello },
                _ => state,
            },
            Event::Chosen(config) => match state {
                Handshake::ClientHelloParsed { .. } => Handshake::Finalizing { config },
                _ => state,
            },
            Event::Completed => match state {
                Handshake::Finalizing { config } => Handshake::Established { config },
                _ => state,
            },
        }
    }
}

/// What the caller is to do after an event.
pub open spec fn action(state: Handshake, event: Event) -> Action {
    if is_terminal(state) {
        Action::Ignore
    } else if event is Fault {
        Action::Abort
    } else if !expected(state, event) {
        Action::Ignore
    } else {
        match state {
            Handshake::Start => Action::ReadHello,
            Handshake::AwaitingHello => Action::Resolve,
            Handshake::ClientHelloParsed { .. } => Action::Finish,
            _ => Action::Deliver,
        }
    }
}

/// How far a handshake has come.
pub open spec fn rank(state: Handshake) -> int {
    match state {
        Handshake::Start => 0,
        Handshake::AwaitingHello => 1,
        Handshake::ClientHelloParsed { .. } => 2,
        Handshake::Finalizing { .. } => 3,
        Handshake::Established { .. } => 4,
        Handshake::Failed { .. } => 5,
    }
}

/// Where a handshake stands after a run of events.
pub open spec fn run(state: Handshake, events: Seq<Event>) -> Handshake
    decreases events.len(),
{
    if events.len() == 0 {
        state
    } else {
        next(run(state, events.drop_last()), events.last())
    }
}

/// How often a run of events asks for a configuration to be chosen.
pub open spec fn resolutions(state: Handshake, events: Seq<Event>) -> nat
    decreases events.len(),
{
    if events.len() == 0 {
        0
    } else if action(run(state, events.drop_last()), events.last()) == Action::Resolve {
        resolutions(state, events.drop_last()) + 1
    } else {
        resolutions(state, events.drop_last())
    }
}

impl Handshake {
    /// A handshake that has not begun.
    pub fn new() -> (r: Handshake)
        ensures
            r == Handshake::Start,
    {
        Handshake::Start
    }

    /// Whether the handshake has come to its end.
    pub fn is_over(&self) -> (r: bool)
        ensures
            r == is_terminal(*self),
    {
        match self {
            Handshake::Established { .. } | Handshake::Failed { .. } => true,
            _ => false,
        }
    }

    /// The error of a handshake that failed.
    pub fn error(&self) -> (r: Option<HandshakeError>)
        ensures
            r == match *self {
                Handshake::Failed { error } => Some(error),
                _ => None,
            },
    {
        match self {
            Handshake::Failed { error } => Some(*error),
            _ => None,
        }
    }

    /// The hello, between its reading and the choice of a configuration.
    pub fn hello(&self) -> (r: Option<&ClientHelloView>)
        ensures
            match *self {
                Handshake::ClientHelloParsed { hello } => r == Some(&hello),
                _ => r is None,
            },
    {
        match self {
            Handshake::ClientHelloParsed { hello } => Some(hello),
            _ => None,
        }
    }

    /// The configuration that was chosen, from the choice on.
    pub fn config(&self) -> (r: Option<&CryptoConfig>)
        ensures
            match *self {
                Handshake::Finalizing { config } => r == Some(&config),
                Handshake::Established { config } => r == Some(&config),
                _ => r is None,
            },
    {
        match self {
            Handshake::Finalizing { config } => Some(config),
            Handshake::Established { config } => Some(config),
            _ => None,
        }
    }

    /// Takes an event in: where the handshake stands afterwards, and what the
    /// caller is to do.
    pub fn step(self, event: Event) -> (r: (Handshake, Action))
        ensures
            r.0 == next(self, event),
            r.1 == action(self, event),
    {
        match self {
            Handshake::Established { config } => (Handshake::Established { config }, Action::Ignore),
            Handshake::Failed { error } => (Handshake::Failed { error }, Action::Ignore),
            Handshake::Start => match event {
                Event::Fault(fault) => (Handshake::Failed { error: classify(true, fault) }, Action::Abort),
                Event::Accepted => (Handshake::AwaitingHello, Action::ReadHello),
                _ => (Handshake::Start, Action::Ignore),
            },
            Handshake::AwaitingHello => match event {
                Event::Fault(fault) => (Handshake::Failed { error: classify(true, fault) }, Action::Abort),
                Event::Hello(hello) => (Handshake::ClientHelloParsed { hello }, Action::Resolve),
                _ => (Handshake::AwaitingHello, Action::Ignore),
            },
            Handshake::ClientHelloParsed { hello } => match event {
                Event::Fault(fault) => (Handshake::Failed { error: classify(false, fault) }, Action::Abort),
                Event::Chosen(config) => (Handshake::Finalizing { config }, Action::Finish),
                _ => (Handshake::ClientHelloParsed { hello }, Action::Ignore),
            },
            Handshake::Finalizing { config } => match event {
                Event::Fault(fault) => (Handshake::Failed { error: classify(false, fault) }, Action::Abort),
                Event::Completed => (Handshake::Established { config }, Action::Deliver),
                _ => (Handshake::Finalizing { config }, Action::Ignore),
            },
        }
    }
}

/// The error that a fault means, before or after the hello is read.
pub fn classify(before_hello: bool, fault: Fault) -> (r: HandshakeError)
    ensures
        r == match fault {
            Fault::Transport => HandshakeError::Io,
            Fault::Timeout => HandshakeError::Timeout,
            Fault::Invalid => if before_hello {
                HandshakeError::Protocol
            } else {
                HandshakeError::Tls
            },
        },
{
    match fault {
        Fault::Transport => HandshakeError::Io,
        Fault::Timeout => HandshakeError::Timeout,
        Fault::Invalid => {
            if before_hello {
                HandshakeError::Protocol
            } else {
                HandshakeError::Tls
            }
        },
    }
}

/// A handshake that is established or has failed stays as it is, and asks
/// for nothing more.
pub proof fn the_end_is_final(state: Handshake, event: Event)
    requires
        is_terminal(state),
    ensures
        next(state, event) == state,
        action(state, event) == Action::Ignore,
{
}

/// No phase is skipped and none comes twice: an event moves the handshake
/// one phase on, leaves it where it stands, or fails it.
pub proof fn phases_come_in_order(state: Handshake, event: Event)
    requires
        !is_terminal(state),
    ensures
        next(state, event) is Failed || next(state, event) == state || rank(next(state, event))
            == rank(state) + 1,
        next(state, event) is Failed <==> event is Fault,
        rank(next(state, event)) == rank(state) + 1 <==> expected(state, event),
{
}

/// A configuration is asked for at one point only: when the hello has just
/// been read.
pub proof fn resolution_follows_the_hello(state: Handshake, event: Event)
    ensures
        action(state, event) == Action::Resolve <==> state is AwaitingHello && event is Hello,
{
}

/// A run with one more event at its end is the run before it, then that
/// event.
pub proof fn run_one_more(state: Handshake, events: Seq<Event>, event: Event)
    ensures
        run(state, Seq::<Event>::empty()) == state,
        resolutions(state, Seq::<Event>::empty()) == 0,
        run(state, events.push(event)) == next(run(state, events), event),
        resolutions(state, events.push(event)) == resolutions(state, events) + (if action(
            run(state, events),
            event,
        ) == Action::Resolve {
            1nat
        } else {
            0nat
        }),
{
    assert(events.push(event).drop_last() =~= events);
    assert(events.push(event).last() == event);
}

/// Bytes that are no TLS hello fail the handshake in its first phase with a
/// protocol error, whatever comes after, and no configuration is ever asked
/// for.
pub proof fn a_broken_hello_reaches_no_resolver(rest: Seq<Event>)
    ensures
        run(Handshake::Start, seq![Event::Accepted, Event::Fault(Fault::Invalid)] + rest)
            == (Handshake::Failed { error: HandshakeError::Protocol }),
        resolutions(Handshake::Start, seq![Event::Accepted, Event::Fault(Fault::Invalid)] + rest)
            == 0,
    decreases rest.len(),
{
    let none = Seq::<Event>::empty();
    let head = seq![Event::Accepted, Event::Fault(Fault::Invalid)];
    if rest.len() == 0 {
        run_one_more(Handshake::Start, none, Event::Accepted);
        run_one_more(Handshake::Start, none.push(Event::Accepted), Event::Fault(Fault::Invalid));
        assert(head + rest =~= none.push(Event::Accepted).push(Event::Fault(Fault::Invalid)));
    } else {
        a_broken_hello_reaches_no_resolver(rest.drop_last());
        run_one_more(Handshake::Start, head + rest.drop_last(), rest.last());
        assert(head + rest =~= (head + rest.drop_last()).push(rest.last()));
    }
}

/// A hello, the choice of a configuration and a finished key exchange, in
/// this order, establish the connection with the configuration that was
/// chosen.
pub proof fn a_full_run_is_established(hello: ClientHelloView, config: CryptoConfig)
    ensures
        run(
            Handshake::Start,
            seq![Event::Accepted, Event::Hello(hello), Event::Chosen(config), Event::Completed],
        ) == (Handshake::Established { config }),
        resolutions(
            Handshake::Start,
            seq![Event::Accepted, Event::Hello(hello), Event::Chosen(config), Event::Completed],
        ) == 1,
{
    let e0 = Seq::<Event>::empty();
    let e1 = e0.push(Event::Accepted);
    let e2 = e1.push(Event::Hello(hello));
    let e3 = e2.push(Event::Chosen(config));
    let e4 = e3.push(Event::Completed);
    run_one_more(Handshake::Start, e0, Event::Accepted);
    run_one_more(Handshake::Start, e1, Event::Hello(hello));
    run_one_more(Handshake::Start, e2, Event::Chosen(config));
    run_one_more(Handshake::Start, e3, Event::Completed);
    assert(e4 =~= seq![
        Event::Accepted,
        Event::Hello(hello),
        Event::Chosen(config),
        Event::Completed,
    ]);
}

/// Whatever comes after, a handshake that failed is never established, and
/// one that is established keeps its configuration.
pub proof fn nothing_follows_the_end(state: Handshake, events: Seq<Event>)
    requires
        is_terminal(state),
    ensures
        run(state, events) == state,
        resolutions(state, events) == 0,
    decreases events.len(),
{
    if events.len() > 0 {
        nothing_follows_the_end(state, events.drop_last());
    }
}

/// However the events fall, a handshake asks for a configuration at most
/// once, and one that is established or about to be has asked exactly once.
pub proof fn one_resolution_for_each_handshake(events: Seq<Event>)
    ensures
        resolutions(Handshake::Start, events) <= 1,
        rank(run(Handshake::Start, events)) <= 1 ==> resolutions(Handshake::Start, events) == 0,
        2 <= rank(run(Handshake::Start, events)) <= 4 ==> resolutions(Handshake::Start, events)
            == 1,
    decreases events.len(),
{
    if events.len() > 0 {
        one_resolution_for_each_handshake(events.drop_last());
    }
}

} // verus!
