//! The resolver that serves one certificate and takes up a newer one when the
//! certificate file changes, without ever being left with nothing to serve.
//!
//! Looking at the file and reading it are the caller's: it tells the
//! resolver what it saw and the resolver says what follows. A resolution is
//! `plan`, then where a rebuild is due `build` and `install`, then
//! `resolve`. Resolutions that run side by side each do their own `plan` and
//! `build`; only `install` changes anything, and it is one step.

use vstd::prelude::*;

use crate::config::{
    build, build_outcome, ConfigError, ConfigView, CryptoConfig, Files, Material, SourceConfig,
};
use crate::handshake::{action, next, Action, Event, Handshake};
use crate::hello::ClientHelloView;
use crate::resolver::Resolver;

verus! {

/// What a resolution is to do after a look at the certificate file.
#[derive(Clone, Copy, Debug, PartialEq, Eq, Structural)]
pub enum Plan {
    /// Serve what is there.
    Serve,
    /// Build anew, and install the result under `stamp`.
    Rebuild { stamp: u64 },
}

/// What a refresh did.
#[derive(Clone, Copy, Debug, PartialEq, Eq, Structural)]
pub enum Refresh {
    /// Nothing was due.
    Kept,
    /// A newer configuration was put in place.
    Swapped,
    /// A rebuild was due and failed; the last good configuration stays.
    Failed(ConfigError),
}

/// The state of an `UpdatingResolver`.
pub struct Slot {
    /// Whether the certificate comes from a file, which can change.
    pub watching: bool,
    /// The newest modification time that a configuration was installed for.
    pub observed: u64,
    /// The configuration that is served.
    pub current: CryptoConfig,
}

/// What follows from a look at the file. `stat` is the file's modification
/// time in seconds, or nothing where it could not be had.
pub open spec fn planned(slot: Slot, stat: Option<u64>) -> Plan {
    match stat {
        Some(stamp) => if slot.watching && stamp > slot.observed {
            Plan::Rebuild { stamp }
        } else {
            Plan::Serve
        },
        None => Plan::Serve,
    }
}

/// The state after the result of a rebuild came in. Only a configuration that
/// was built, for a time later than the one on record, is put in place; the
/// time on record then moves up to it.
pub open spec fn installed(slot: Slot, stamp: u64, rebuilt: Option<CryptoConfig>) -> Slot {
    match rebuilt {
        Some(config) => if stamp > slot.observed {
            Slot { watching: slot.watching, observed: stamp, current: config }
        } else {
            slot
        },
        None => slot,
    }
}

/// Whether the result of a rebuild is put in place.
pub open spec fn swaps(slot: Slot, stamp: u64, rebuilt: Option<CryptoConfig>) -> bool {
    rebuilt is Some && stamp > slot.observed
}

/// The result of a rebuild as `installed` takes it.
pub open spec fn built(rebuilt: Result<CryptoConfig, ConfigError>) -> Option<CryptoConfig> {
    match rebuilt {
        Ok(config) => Some(config),
        Err(_) => None,
    }
}

/// The state after a run of installs, in the order in which they took
/// effect.
pub open spec fn after(slot: Slot, installs: Seq<(u64, Option<CryptoConfig>)>) -> Slot
    decreases installs.len(),
{
    if installs.len() == 0 {
        slot
    } else {
        installed(after(slot, installs.drop_last()), installs.last().0, installs.last().1)
    }
}

/// Serves one configuration and replaces it when the certificate file is
/// newer than the last time on record.
pub struct UpdatingResolver {
    source: SourceConfig,
    observed: u64,
    current: CryptoConfig,
}

impl View for UpdatingResolver {
    type V = Slot;

    closed spec fn view(&self) -> Slot {
        Slot {
            watching: self.source.certs is Path,
            observed: self.observed,
            current: self.current,
        }
    }
}

impl UpdatingResolver {
    /// What the configurations are built from.
    pub closed spec fn spec_source(&self) -> SourceConfig {
        self.source
    }

    /// Builds the first configuration. No modification time is on record yet.
    pub fn new(source: SourceConfig, files: &Files) -> (r: Result<UpdatingResolver, ConfigError>)
        ensures
            match r {
                Ok(resolver) => {
                    &&& build_outcome(source, *files) == Ok::<ConfigView, ConfigError>(resolver@.current@)
                    &&& resolver@.observed == 0
                    &&& resolver@.watching == (source.certs is Path)
                    &&& resolver.spec_source() == source
                },
                Err(error) => build_outcome(source, *files) == Err::<ConfigView, ConfigError>(error),
            },
    {
        match build(&source, files) {
            Ok(current) => Ok(UpdatingResolver { source, observed: 0, current }),
            Err(error) => Err(error),
        }
    }

    /// A resolver that serves `first` until the certificate file of `source`
    /// shows a modification time. No modification time is on record yet.
    pub fn serving(source: SourceConfig, first: CryptoConfig) -> (r: UpdatingResolver)
        ensures
            r@.current == first,
            r@.observed == 0,
            r@.watching == (source.certs is Path),
            r.spec_source() == source,
    {
        UpdatingResolver { source, observed: 0, current: first }
    }

    /// What the configurations are built from.
    pub fn source(&self) -> (r: &SourceConfig)
        ensures
            *r == self.spec_source(),
    {
        &self.source
    }

    /// The file whose modification time decides on a rebuild, if the
    /// certificate comes from a file.
    pub fn watched(&self) -> (r: Option<&String>)
        ensures
            r is Some <==> self@.watching,
            r matches Some(path) ==> self.spec_source().certs == Material::Path(*path),
    {
        match &self.source.certs {
            Material::Path(path) => Some(path),
            Material::Bytes(_) => None,
        }
    }

    /// The newest modification time that a configuration was installed for.
    pub fn observed(&self) -> (r: u64)
        ensures
            r == self@.observed,
    {
        self.observed
    }

    /// The configuration that is served.
    pub fn current(&self) -> (r: CryptoConfig)
        ensures
            r == self@.current,
    {
        self.current.share()
    }

    /// What follows from a look at the certificate file: a rebuild where the
    /// file is newer than the time on record. Where the look failed, what is
    /// there is served.
    pub fn plan(&self, stat: Option<u64>) -> (r: Plan)
        ensures
            r == planned(self@, stat),
    {
        match stat {
            Some(stamp) => {
                if self.watched().is_some() && stamp > self.observed {
                    Plan::Rebuild { stamp }
                } else {
                    Plan::Serve
                }
            },
            None => Plan::Serve,
        }
    }

    /// Takes in the result of a rebuild that was made for the modification
    /// time `stamp`. A failed rebuild changes nothing, and neither does one
    /// that another resolution has overtaken. Says whether the configuration
    /// was put in place.
    pub fn install(&mut self, stamp: u64, rebuilt: Result<CryptoConfig, ConfigError>) -> (swapped:
        bool)
        ensures
            final(self)@ == installed(old(self)@, stamp, built(rebuilt)),
            final(self).spec_source() == old(self).spec_source(),
            swapped == swaps(old(self)@, stamp, built(rebuilt)),
    {
        match rebuilt {
            Ok(config) => {
                if stamp > self.observed {
                    self.current = config;
                    self.observed = stamp;
                    true
                } else {
                    false
                }
            },
            Err(_) => false,
        }
    }

    /// A whole refresh for a caller that has the files' contents at hand:
    /// plans, and where a rebuild is due builds from `files` and installs.
    pub fn refresh(&mut self, stat: Option<u64>, files: &Files) -> (r: Refresh)
        ensures
            final(self).spec_source() == old(self).spec_source(),
            final(self)@.watching == old(self)@.watching,
            match planned(old(self)@, stat) {
                Plan::Serve => r == Refresh::Kept && final(self)@ == old(self)@,
                Plan::Rebuild { stamp } => match build_outcome(old(self).spec_source(), *files) {
                    Ok(view) => {
                        &&& r == Refresh::Swapped
                        &&& final(self)@.observed == stamp
                        &&& final(self)@.current@ == view
                    },
                    Err(error) => r == Refresh::Failed(error) && final(self)@ == old(self)@,
                },
            },
    {
        match self.plan(stat) {
            Plan::Serve => Refresh::Kept,
            Plan::Rebuild { stamp } => match build(&self.source, files) {
                Ok(config) => {
                    self.install(stamp, Ok(config));
                    Refresh::Swapped
                },
                Err(error) => Refresh::Failed(error),
            },
        }
    }
}

impl UpdatingResolver {
    /// One resolution from the look at the file to the answer: refreshes,
    /// then gives the configuration that is served. Where the look or the
    /// rebuild failed, that is the last good one.
    pub fn resolve_fresh(&mut self, stat: Option<u64>, files: &Files) -> (r: CryptoConfig)
        ensures
            r == final(self)@.current,
            final(self).spec_source() == old(self).spec_source(),
            final(self)@.watching == old(self)@.watching,
            final(self)@.observed >= old(self)@.observed,
            match planned(old(self)@, stat) {
                Plan::Serve => final(self)@ == old(self)@,
                Plan::Rebuild { stamp } => match build_outcome(old(self).spec_source(), *files) {
                    Ok(view) => final(self)@.observed == stamp && r@ == view,
                    Err(_) => final(self)@ == old(self)@,
                },
            },
    {
        self.refresh(stat, files);
        self.current.share()
    }

    /// Takes in an event of a handshake on a connection that this resolver
    /// serves. `stat` and `files` are looked at only when the event is the
    /// hello that a resolution follows; any other event, a fault among them,
    /// leaves the resolver as it was.
    pub fn drive(&mut self, state: Handshake, event: Event, stat: Option<u64>, files: &Files) -> (r: (
        Handshake,
        Action,
    ))
        ensures
            final(self).spec_source() == old(self).spec_source(),
            action(state, event) != Action::Resolve ==> {
                &&& final(self)@ == old(self)@
                &&& r.0 == next(state, event)
                &&& r.1 == action(state, event)
            },
            action(state, event) == Action::Resolve ==> {
                &&& r.0 == (Handshake::Finalizing { config: final(self)@.current })
                &&& r.1 == Action::Finish
                &&& final(self)@.observed >= old(self)@.observed
                &&& match planned(old(self)@, stat) {
                    Plan::Serve => final(self)@ == old(self)@,
                    Plan::Rebuild { stamp } => match build_outcome(
                        old(self).spec_source(),
                        *files,
                    ) {
                        Ok(view) => final(self)@.observed == stamp && final(self)@.current@
                            == view,
                        Err(_) => final(self)@ == old(self)@,
                    },
                }
            },
    {
        let (state, todo) = state.step(event);
        match todo {
            Action::Resolve => {
                let chosen = self.resolve_fresh(stat, files);
                state.step(Event::Chosen(chosen))
            },
            _ => (state, todo),
        }
    }
}

impl Resolver for UpdatingResolver {
    open spec fn answers(&self, hello: ClientHelloView, answer: Option<CryptoConfig>) -> bool {
        answer == Some(self@.current)
    }

    /// The configuration that is served now, whatever the client asks for.
    fn resolve(&self, hello: &ClientHelloView) -> (r: Option<CryptoConfig>) {
        Some(self.current.share())
    }
}

/// Once a rebuild for a modification time is installed, a second look at the
/// unchanged file asks for no other.
pub proof fn unchanged_file_is_built_once(slot: Slot, stamp: u64, config: CryptoConfig)
    requires
        planned(slot, Some(stamp)) == (Plan::Rebuild { stamp }),
    ensures
        planned(installed(slot, stamp, Some(config)), Some(stamp)) == Plan::Serve,
{
}

/// A file that is newer than the time on record is taken up: a rebuild is
/// due, and once it is installed its configuration is served.
pub proof fn newer_file_is_taken_up(slot: Slot, stamp: u64, config: CryptoConfig)
    requires
        slot.watching,
        stamp > slot.observed,
    ensures
        planned(slot, Some(stamp)) == (Plan::Rebuild { stamp }),
        installed(slot, stamp, Some(config)).current == config,
        installed(slot, stamp, Some(config)).observed == stamp,
{
}

/// Whatever comes in, the time on record does not go back, and a
/// configuration stays in place: the one before, or the one that came in.
pub proof fn install_keeps_time_and_service(slot: Slot, stamp: u64, rebuilt: Option<CryptoConfig>)
    ensures
        installed(slot, stamp, rebuilt).observed >= slot.observed,
        installed(slot, stamp, rebuilt).watching == slot.watching,
        installed(slot, stamp, rebuilt).current == slot.current || rebuilt == Some(
            installed(slot, stamp, rebuilt).current,
        ),
        !swaps(slot, stamp, rebuilt) ==> installed(slot, stamp, rebuilt) == slot,
{
}

/// Over any run of installs, in any order and with any results, the time on
/// record never goes back, and what is served is the first configuration or
/// one that a rebuild brought: never nothing, never a part of one.
pub proof fn time_on_record_never_goes_back(slot: Slot, installs: Seq<(u64, Option<CryptoConfig>)>)
    ensures
        after(slot, installs).observed >= slot.observed,
        after(slot, installs).current == slot.current || exists|i: int|
            0 <= i < installs.len() && (#[trigger] installs[i]).1 == Some(
                after(slot, installs).current,
            ),
    decreases installs.len(),
{
    if installs.len() > 0 {
        let front = installs.drop_last();
        time_on_record_never_goes_back(slot, front);
        let before = after(slot, front);
        let now = after(slot, installs);
        assert(now == installed(before, installs.last().0, installs.last().1));
        if now.current != slot.current {
            if now.current == before.current {
                let i = choose|i: int|
                    0 <= i < front.len() && (#[trigger] front[i]).1 == Some(before.current);
                assert(installs[i] == front[i]);
            } else {
                assert(installs[installs.len() - 1].1 == Some(now.current));
            }
        }
    }
}

/// A failed look at the file and a failed rebuild leave the resolver as it
/// was: it goes on serving the last good configuration.
pub proof fn failures_leave_the_last_good(slot: Slot, stamp: u64)
    ensures
        planned(slot, None) == Plan::Serve,
        installed(slot, stamp, None) == slot,
{
}

/// Two resolutions that both saw the same newer file and both rebuilt from
/// it: whichever install comes first is the one swap, the other changes
/// nothing, and both resolutions then serve a configuration that shows what
/// the newer file holds.
pub proof fn racing_rebuilds_swap_once(
    slot: Slot,
    stamp: u64,
    newer: ConfigView,
    one: CryptoConfig,
    other: CryptoConfig,
)
    requires
        planned(slot, Some(stamp)) == (Plan::Rebuild { stamp }),
        one@ == newer,
        other@ == newer,
    ensures
        swaps(slot, stamp, Some(one)),
        !swaps(installed(slot, stamp, Some(one)), stamp, Some(other)),
        after(slot, seq![(stamp, Some(one)), (stamp, Some(other))]) == installed(
            slot,
            stamp,
            Some(one),
        ),
        after(slot, seq![(stamp, Some(one)), (stamp, Some(other))]).observed == stamp,
        after(slot, seq![(stamp, Some(one)), (stamp, Some(other))]).current@ == newer,
        after(slot, seq![(stamp, Some(other)), (stamp, Some(one))]).observed == stamp,
        after(slot, seq![(stamp, Some(other)), (stamp, Some(one))]).current@ == newer,
{
    let none = Seq::<(u64, Option<CryptoConfig>)>::empty();
    let a = (stamp, Some(one));
    let b = (stamp, Some(other));
    after_one_more(slot, none, a);
    after_one_more(slot, none.push(a), b);
    after_one_more(slot, none, b);
    after_one_more(slot, none.push(b), a);
    assert(seq![a, b] =~= none.push(a).push(b));
    assert(seq![b, a] =~= none.push(b).push(a));
}

/// A run of installs with one more at its end is the run before it, then
/// that install.
pub proof fn after_one_more(
    slot: Slot,
    installs: Seq<(u64, Option<CryptoConfig>)>,
    last: (u64, Option<CryptoConfig>),
)
    ensures
        after(slot, Seq::<(u64, Option<CryptoConfig>)>::empty()) == slot,
        after(slot, installs.push(last)) == installed(after(slot, installs), last.0, last.1),
{
    assert(installs.push(last).drop_last() =~= installs);
    assert(installs.push(last).last() == last);
}

} // verus!
