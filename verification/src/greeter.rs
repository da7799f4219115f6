//! The greeter: the one value that the three entry points share.

use crate::argument::{bears_magic, read_argument};
use crate::error::GreeterError;
use crate::greeting::{format_greeting, greeted, greeted_or_default, greeting};
use crate::policy::{
    default_greeter, initial_greeter, initial_text, upgrade_text, upgrade_write, upgraded_greeter,
    UpgradePolicy,
};
use crate::store::{cell_text, Store, TextCell};
use vstd::prelude::*;

verus! {

/// Where a greeter stands in its life.
#[derive(Debug, Clone, Copy, PartialEq, Eq, Structural)]
pub enum Phase {
    /// The process has opened the cell, and the call that starts the greeter
    /// has not yet come through.
    Uninitialized,
    /// An initialization call has come through: the cell holds what that
    /// call settled.
    Ready,
}

/// A greeter that outlives the code that runs it: its name is kept in a cell
/// in stable memory.
///
/// The host calls `initialize` once on a new instance and `reinitialize` once
/// after each upgrade of the code, and `hello` as often as it likes after
/// that. It never runs two of these at once, so the greeter takes no
/// precautions of its own.
pub struct Greeter {
    cell: TextCell,
    policy: UpgradePolicy,
    phase: Phase,
}

/// Where a greeter stands after an initialization call: ready where the
/// call came through, and where it stood where the call failed.
pub open spec fn next_phase(phase: Phase, came_through: bool) -> Phase {
    if came_through {
        Phase::Ready
    } else {
        phase
    }
}

impl Greeter {
    /// The name that the cell holds.
    pub closed spec fn value(&self) -> Seq<char> {
        cell_text(self.cell)
    }

    /// What an upgrade does where the caller names no greeter.
    pub closed spec fn policy(&self) -> UpgradePolicy {
        self.policy
    }

    /// Where the greeter stands in its life.
    pub closed spec fn phase(&self) -> Phase {
        self.phase
    }

    /// What a query answers: the greeting that the cell's name sends to the
    /// name that the caller gives, or to the default.
    pub open spec fn reply(&self, named: Option<Seq<char>>) -> Seq<char> {
        greeting(self.value(), greeted(named))
    }

    /// Opens the greeter whose cell lies in the default memory: the
    /// canister's stable memory on the host.
    ///
    /// See `open_in` for what is known of the greeter.
    pub fn open(policy: UpgradePolicy) -> (opened: Result<Greeter, GreeterError>)
        ensures
            match opened {
                Ok(greeter) => greeter.policy() == policy && greeter.phase() == Phase::Uninitialized,
                Err(error) => error == GreeterError::Storage,
            },
    {
        Greeter::open_in(Store::default_memory(), policy)
    }

    /// Opens the greeter whose cell lies in `store`. A store that holds no
    /// cell yet gets one with the default name.
    ///
    /// What the greeter holds is what the store held; the result says only
    /// which policy it follows, and that it has yet to be started.
    pub fn open_in(store: Store, policy: UpgradePolicy) -> (opened: Result<Greeter, GreeterError>)
        ensures
            match opened {
                Ok(greeter) => greeter.policy() == policy && greeter.phase() == Phase::Uninitialized,
                Err(error) => error == GreeterError::Storage,
            },
    {
        match TextCell::open(store, initial_text(None)) {
            Ok(cell) => Ok(Greeter { cell, policy, phase: Phase::Uninitialized }),
            Err(_) => Err(GreeterError::Storage),
        }
    }

    /// Gives the greeter up, as the end of the code that runs it does, and
    /// hands back the store in which its cell lies. A greeter that is opened
    /// in that store finds the cell there.
    pub fn close(self) -> (store: Store) {
        self.cell.into_store()
    }

    /// The name that the cell holds, as a string.
    pub fn greeter(&self) -> (name: String)
        ensures
            name@ == self.value(),
    {
        self.cell.get().clone()
    }

    /// Where the greeter stands in its life, as a value.
    pub fn current_phase(&self) -> (phase: Phase)
        ensures
            phase == self.phase(),
    {
        self.phase
    }

    /// Writes `name` to the cell. Where the memory refuses it, the cell holds
    /// what it held.
    fn store(&mut self, name: String) -> (stored: Result<(), GreeterError>)
        ensures
            final(self).policy() == old(self).policy(),
            final(self).phase() == old(self).phase(),
            match stored {
                Ok(()) => final(self).value() == name@,
                Err(error) => {
                    &&& error == GreeterError::Storage
                    &&& final(self).value() == old(self).value()
                },
            },
    {
        match self.cell.set(name) {
            Ok(_) => Ok(()),
            Err(_) => Err(GreeterError::Storage),
        }
    }

    /// First creation with a decoded argument: the cell takes the name that
    /// the caller gives, or the default, and the greeter is ready.
    pub fn install(&mut self, named: Option<String>) -> (done: Result<(), GreeterError>)
        ensures
            final(self).policy() == old(self).policy(),
            match done {
                Ok(()) => final(self).value() == initial_greeter(named.deep_view()),
                Err(error) => {
                    &&& error == GreeterError::Storage
                    &&& final(self).value() == old(self).value()
                },
            },
            final(self).phase() == next_phase(old(self).phase(), done is Ok),
    {
        let stored = self.store(initial_text(named));
        self.settle(stored)
    }

    /// Upgrade with a decoded argument: the cell takes what the policy tells
    /// it to, and the greeter is ready. An upgrade that writes nothing cannot
    /// fail.
    pub fn upgrade(&mut self, named: Option<String>) -> (done: Result<(), GreeterError>)
        ensures
            final(self).policy() == old(self).policy(),
            match done {
                Ok(()) => final(self).value() == upgraded_greeter(
                    old(self).policy(),
                    old(self).value(),
                    named.deep_view(),
                ),
                Err(error) => {
                    &&& error == GreeterError::Storage
                    &&& final(self).value() == old(self).value()
                },
            },
            final(self).phase() == next_phase(old(self).phase(), done is Ok),
            upgrade_write(old(self).policy(), named.deep_view()) is None ==> done is Ok,
    {
        let stored = match upgrade_text(self.policy, named) {
            Some(name) => self.store(name),
            None => Ok(()),
        };
        self.settle(stored)
    }

    /// Ends an initialization call: one that has come through leaves the
    /// greeter ready, one that has failed leaves it where it stood.
    fn settle(&mut self, outcome: Result<(), GreeterError>) -> (done: Result<(), GreeterError>)
        ensures
            done == outcome,
            final(self).policy() == old(self).policy(),
            final(self).value() == old(self).value(),
            final(self).phase() == next_phase(old(self).phase(), outcome is Ok),
    {
        if outcome.is_ok() {
            self.phase = Phase::Ready;
        }
        outcome
    }

    /// The entry point of a first creation. An empty `raw` asks for the
    /// default name; any other is decoded as one optional text and then
    /// treated as `install` treats it.
    ///
    /// A call that fails has written nothing. A buffer that is not empty and
    /// lacks the magic bytes always fails; which other buffers the decoder
    /// turns down, and what it reads from those it takes, is its own affair.
    pub fn initialize(&mut self, raw: &[u8]) -> (done: Result<(), GreeterError>)
        ensures
            final(self).policy() == old(self).policy(),
            match done {
                Ok(()) => raw@.len() == 0 ==> final(self).value() == default_greeter(),
                Err(_) => final(self).value() == old(self).value(),
            },
            final(self).phase() == next_phase(old(self).phase(), done is Ok),
            done == Err::<(), GreeterError>(GreeterError::Decode) ==> raw@.len() > 0,
            raw@.len() > 0 && !bears_magic(raw@) ==> done == Err::<(), GreeterError>(
                GreeterError::Decode,
            ),
    {
        match read_argument(raw) {
            Ok(named) => self.install(named),
            Err(error) => Err(error),
        }
    }

    /// The entry point of an upgrade. An empty `raw` names no greeter; any
    /// other is decoded as one optional text and then treated as `upgrade`
    /// treats it.
    ///
    /// A call that fails has written nothing. A buffer that is not empty and
    /// lacks the magic bytes always fails, and an empty one never fails where
    /// the policy is to preserve.
    pub fn reinitialize(&mut self, raw: &[u8]) -> (done: Result<(), GreeterError>)
        ensures
            final(self).policy() == old(self).policy(),
            match done {
                Ok(()) => raw@.len() == 0 ==> final(self).value() == upgraded_greeter(
                    old(self).policy(),
                    old(self).value(),
                    None,
                ),
                Err(_) => final(self).value() == old(self).value(),
            },
            final(self).phase() == next_phase(old(self).phase(), done is Ok),
            done == Err::<(), GreeterError>(GreeterError::Decode) ==> raw@.len() > 0,
            raw@.len() > 0 && !bears_magic(raw@) ==> done == Err::<(), GreeterError>(
                GreeterError::Decode,
            ),
            raw@.len() == 0 && old(self).policy() == UpgradePolicy::Preserve ==> done is Ok,
    {
        match read_argument(raw) {
            Ok(named) => self.upgrade(named),
            Err(error) => Err(error),
        }
    }

    /// The query: greets the name that the caller gives, or the default, in
    /// the name that the cell holds. The greeter stays as it is.
    pub fn hello(&self, named: Option<String>) -> (text: String)
        ensures
            text@ == self.reply(named.deep_view()),
    {
        let name = greeted_or_default(named);
        format_greeting(self.cell.get().as_str(), name.as_str())
    }
}

/// A greeter whose cell took the name that a caller gave greets the world in
/// that name: the answer is the name, then `, World!`.
pub proof fn lemma_named_greeter_greets_world(greeter: Greeter, name: Seq<char>)
    requires
        greeter.value() == initial_greeter(Some(name)),
    ensures
        greeter.reply(None) == name + seq![',', ' ', 'W', 'o', 'r', 'l', 'd', '!'],
{
    assert(greeter.reply(None) =~= name + seq![',', ' ', 'W', 'o', 'r', 'l', 'd', '!']);
}

/// A query that names somebody answers with the cell's name, a comma, a
/// space, the name given and an exclamation mark, and with nothing else.
pub proof fn lemma_query_composition(greeter: Greeter, named: Seq<char>)
    ensures
        greeter.reply(Some(named)) == greeter.value() + seq![',', ' '] + named + seq!['!'],
        greeter.reply(Some(named)).len() == greeter.value().len() + named.len() + 3,
{
}

/// What a query answers is settled by the cell's name and the name given:
/// as long as no initialization call comes between them, queries with the
/// same argument have the same answer.
pub proof fn lemma_queries_agree(first: Greeter, second: Greeter, named: Option<Seq<char>>)
    requires
        first.value() == second.value(),
    ensures
        first.reply(named) == second.reply(named),
{
}

/// A greeter that is ready stays ready, whatever becomes of the calls that
/// follow; one that is not becomes ready with the first call that comes
/// through.
pub proof fn lemma_ready_is_kept(phase: Phase, came_through: bool)
    ensures
        phase == Phase::Ready ==> next_phase(phase, came_through) == Phase::Ready,
        came_through ==> next_phase(phase, came_through) == Phase::Ready,
        !came_through ==> next_phase(phase, came_through) == phase,
{
}

} // verus!
