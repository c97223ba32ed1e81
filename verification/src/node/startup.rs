//! Decisions on the way from the command line to a running node.

use vstd::prelude::*;

verus! {

/// What a node is in the network.
#[derive(Clone, Copy, Debug, PartialEq, Eq, Structural)]
pub enum Role {
    /// It follows the chain.
    Full,
    /// It takes part in the consensus.
    Authority,
}

/// Which external addresses a node announces.
#[derive(Clone, Copy, Debug, PartialEq, Eq, Structural)]
pub enum Addressing {
    /// Those that it was configured with.
    Configured,
    /// A dummy that is not routable.
    Dummy,
    /// None: a node that is not a validator cannot be run with external
    /// addresses.
    Refused,
}

/// Which external addresses a node of the role announces that was configured
/// with `configured` of them.
pub fn addressing(role: Role, configured: usize) -> (addressing: Addressing)
    ensures
        addressing == match role {
            Role::Authority => Addressing::Configured,
            Role::Full => if configured == 0 {
                Addressing::Dummy
            } else {
                Addressing::Refused
            },
        },
{
    match role {
        Role::Authority => Addressing::Configured,
        Role::Full => if configured == 0 {
            Addressing::Dummy
        } else {
            Addressing::Refused
        },
    }
}

/// A validator announces what it was configured with; any other node announces a
/// dummy, and is refused where it was configured with an address.
pub proof fn only_validators_announce_their_addresses(
    role: Role,
    configured: usize,
    announced: Addressing,
)
    requires
        call_ensures(addressing, (role, configured), announced),
    ensures
        announced == Addressing::Configured <==> role == Role::Authority,
        announced == Addressing::Refused <==> role == Role::Full && configured > 0,
        announced == Addressing::Dummy <==> role == Role::Full && configured == 0,
{
}

} // verus!
