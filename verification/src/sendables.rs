use vstd::prelude::*;

verus! {

/// The envelope in which synchronized components travel between clients.
/// It is generic in the payload, which the game fills with the shared state
/// of a player.
#[derive(Clone, Copy, Debug, PartialEq, Eq)]
pub enum Sendables<P> {
    PlayerSync(P),
}

pub open spec fn spec_to_sendable<P>(sync: P) -> Sendables<P> {
    Sendables::PlayerSync(sync)
}

pub open spec fn spec_from_sendable<P>(sendable: Sendables<P>) -> Option<P> {
    match sendable {
        Sendables::PlayerSync(p) => Some(p),
    }
}

/// Puts a player's shared state into the envelope.
pub fn to_sendable<P>(sync: P) -> (s: Sendables<P>)
    ensures
        s == spec_to_sendable(sync),
        s == Sendables::PlayerSync(sync),
{
    Sendables::PlayerSync(sync)
}

/// Takes a player's shared state out of the envelope; every envelope holds one.
pub fn from_sendable<P>(sendable: Sendables<P>) -> (r: Option<P>)
    ensures
        r == spec_from_sendable(sendable),
        r is Some,
        match sendable {
            Sendables::PlayerSync(p) => r == Some(p),
        },
{
    match sendable {
        Sendables::PlayerSync(p) => Some(p),
    }
}

/// What was put into the envelope comes out unchanged, and every envelope
/// is the wrapping of what it holds.
pub proof fn lemma_sendable_round_trip<P>(sync: P, sendable: Sendables<P>)
    ensures
        spec_from_sendable(spec_to_sendable(sync)) == Some(sync),
        spec_to_sendable(spec_from_sendable(sendable)->0) == sendable,
{
}

} // verus!
