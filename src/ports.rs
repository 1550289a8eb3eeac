//! Choice of a loopback port from a fixed list of candidates.
use vstd::prelude::*;

verus! {

pub const FIRST_PORT: u16 = 8888;

pub const PORT_COUNT: usize = 10;

/// The candidate ports, in the order they are tried: 8888 up to 8897.
pub open spec fn candidate_ports_spec() -> Seq<u16> {
    Seq::new(PORT_COUNT as nat, |i: int| (FIRST_PORT + i) as u16)
}

/// Why a flow could not be started.
#[derive(Debug, Clone, Copy, PartialEq, Eq)]
pub enum StartError {
    /// No candidate port could be bound.
    PortExhausted,
    /// The session registry could not be locked.
    LockFailure,
    /// Every state drawn for a new session was already in use.
    StateCollision,
}

impl StartError {
    pub fn message(&self) -> (r: String)
        ensures
            *self == StartError::PortExhausted ==> r@ == "No available ports found in range 8888-8897"@,
            *self == StartError::LockFailure ==> r@ == "Failed to lock state"@,
            *self == StartError::StateCollision ==> r@ == "Failed to draw an unused state"@,
    {
        match self {
            StartError::PortExhausted => String::from_str("No available ports found in range 8888-8897"),
            StartError::LockFailure => String::from_str("Failed to lock state"),
            StartError::StateCollision => String::from_str("Failed to draw an unused state"),
        }
    }
}

pub fn candidate_ports() -> (r: Vec<u16>)
    ensures
        r@ == candidate_ports_spec(),
{
    let mut ports: Vec<u16> = Vec::new();
    let mut i: usize = 0;
    while i < PORT_COUNT
        invariant
            i <= PORT_COUNT,
            ports@ == candidate_ports_spec().take(i as int),
        decreases PORT_COUNT - i,
    {
        ports.push(FIRST_PORT + i as u16);
        i = i + 1;
        assert(ports@ =~= candidate_ports_spec().take(i as int));
    }
    assert(ports@ =~= candidate_ports_spec());
    ports
}

/// Whether some probe succeeded.
pub open spec fn any_bindable(bindable: Seq<bool>) -> bool {
    exists|i: int| 0 <= i < bindable.len() && bindable[i]
}

/// Given, for each candidate in order, whether a listener could be bound on it,
/// the first candidate that could; `PortExhausted` when none could.
pub fn select_port(candidates: &Vec<u16>, bindable: &Vec<bool>) -> (r: Result<u16, StartError>)
    requires
        candidates@.len() == bindable@.len(),
    ensures
        r is Err <==> !any_bindable(bindable@),
        r is Err ==> r == Err::<u16, StartError>(StartError::PortExhausted),
        r is Ok ==> exists|i: int|
            0 <= i < candidates@.len() && bindable@[i] && r == Ok::<u16, StartError>(candidates@[i])
                && forall|j: int| 0 <= j < i ==> !bindable@[j],
{
    let mut i: usize = 0;
    while i < candidates.len()
        invariant
            i <= candidates@.len(),
            candidates@.len() == bindable@.len(),
            forall|j: int| 0 <= j < i ==> !bindable@[j],
        decreases candidates@.len() - i,
    {
        if bindable[i] {
            return Ok(candidates[i]);
        }
        i = i + 1;
    }
    Err(StartError::PortExhausted)
}

} // verus!
