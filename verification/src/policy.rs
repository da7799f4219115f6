//! Which name the cell is to hold after an initialization call.

use vstd::prelude::*;

verus! {

/// What an upgrade does to the cell where the caller names no greeter.
#[derive(Debug, Clone, Copy, PartialEq, Eq, Structural)]
pub enum UpgradePolicy {
    /// The upgrade is a first creation over again: the cell goes back to the
    /// default.
    Reset,
    /// The upgrade leaves the cell untouched.
    Preserve,
}

/// The name that a new greeter bears: `Hello`.
pub open spec fn default_greeter() -> Seq<char> {
    seq!['H', 'e', 'l', 'l', 'o']
}

/// The name that the cell holds after a first creation: the one that the
/// caller names, as it stands and be it empty, or the default where the
/// caller names none.
pub open spec fn initial_greeter(named: Option<Seq<char>>) -> Seq<char> {
    match named {
        Some(name) => name,
        None => default_greeter(),
    }
}

/// What an upgrade writes to the cell, or `None` where it leaves the cell
/// untouched. A name that the caller gives is written under either policy.
pub open spec fn upgrade_write(policy: UpgradePolicy, named: Option<Seq<char>>) -> Option<
    Seq<char>,
> {
    match policy {
        UpgradePolicy::Reset => Some(initial_greeter(named)),
        UpgradePolicy::Preserve => named,
    }
}

/// The name that the cell holds after an upgrade, where it held `current`
/// before: what the upgrade writes, or `current` where it writes nothing.
pub open spec fn upgraded_greeter(
    policy: UpgradePolicy,
    current: Seq<char>,
    named: Option<Seq<char>>,
) -> Seq<char> {
    match upgrade_write(policy, named) {
        Some(name) => name,
        None => current,
    }
}

/// The default name, as a string.
pub fn default_greeter_text() -> (name: String)
    ensures
        name@ == default_greeter(),
{
    proof {
        reveal_strlit("Hello");
    }
    let name = String::from_str("Hello");
    assert(name@ =~= default_greeter());
    name
}

/// The name to write at a first creation.
pub fn initial_text(named: Option<String>) -> (name: String)
    ensures
        name@ == initial_greeter(named.deep_view()),
{
    match named {
        Some(name) => name,
        None => default_greeter_text(),
    }
}

/// The name to write at an upgrade, or `None` where the cell is to be left
/// untouched.
pub fn upgrade_text(policy: UpgradePolicy, named: Option<String>) -> (write: Option<String>)
    ensures
        write.deep_view() == upgrade_write(policy, named.deep_view()),
{
    match policy {
        UpgradePolicy::Reset => Some(initial_text(named)),
        UpgradePolicy::Preserve => named,
    }
}

/// Under the reset policy an upgrade ends where a first creation with the
/// same argument ends, whatever the cell held before.
pub proof fn lemma_reset_upgrade_is_creation(current: Seq<char>, named: Option<Seq<char>>)
    ensures
        upgraded_greeter(UpgradePolicy::Reset, current, named) == initial_greeter(named),
{
}

/// Under the preserve policy an upgrade without a name keeps what the cell
/// held, and writes nothing.
pub proof fn lemma_preserve_keeps_value(current: Seq<char>)
    ensures
        upgrade_write(UpgradePolicy::Preserve, None) is None,
        upgraded_greeter(UpgradePolicy::Preserve, current, None) == current,
{
}

/// A name that the caller gives is the name that the cell then holds, at a
/// first creation and at an upgrade under either policy.
pub proof fn lemma_named_greeter_is_taken(
    policy: UpgradePolicy,
    current: Seq<char>,
    name: Seq<char>,
)
    ensures
        initial_greeter(Some(name)) == name,
        upgraded_greeter(policy, current, Some(name)) == name,
{
}

/// The cell is never left empty by default: a first creation leaves an empty
/// name only where the caller gave the empty name, and an upgrade only where
/// the caller gave it or where it kept an empty name that the cell held.
pub proof fn lemma_empty_only_by_request(
    policy: UpgradePolicy,
    current: Seq<char>,
    named: Option<Seq<char>>,
)
    ensures
        initial_greeter(named).len() == 0 ==> named == Some(Seq::<char>::empty()),
        upgraded_greeter(policy, current, named).len() == 0 ==> {
            ||| named == Some(Seq::<char>::empty())
            ||| (upgrade_write(policy, named) is None && current.len() == 0)
        },
{
    if let Some(name) = named {
        if name.len() == 0 {
            assert(name =~= Seq::<char>::empty());
        }
    }
}

} // verus!
