use vstd::prelude::*;
use vstd::string::StringExecFns;

use crate::errors::{MemError, ValidationReason};

verus! {

/// The lifecycle state shared by modules, features and tasks.
#[derive(Clone, Copy, Debug, PartialEq, Eq, Structural)]
pub enum State {
    Draft,
    Planning,
    Building,
    Complete,
    Amending,
}

/// The five state names, as they are stored and displayed.
pub open spec fn spec_state_name(s: State) -> Seq<char> {
    match s {
        State::Draft => "Draft"@,
        State::Planning => "Planning"@,
        State::Building => "Building"@,
        State::Complete => "Complete"@,
        State::Amending => "Amending"@,
    }
}

/// The directed edges of the lifecycle graph, same-state requests excluded:
/// forward progress is strictly sequential, and every state past Draft may
/// reset to Draft, except that nothing but Draft is reachable from Amending.
pub open spec fn spec_transition_allowed(from: State, to: State) -> bool {
    match (from, to) {
        (State::Draft, State::Planning) => true,
        (State::Planning, State::Building) => true,
        (State::Planning, State::Draft) => true,
        (State::Building, State::Complete) => true,
        (State::Building, State::Draft) => true,
        (State::Complete, State::Amending) => true,
        (State::Complete, State::Draft) => true,
        (State::Amending, State::Draft) => true,
        _ => false,
    }
}

impl State {
    /// The display and storage name of this state.
    pub fn name(&self) -> (r: &'static str)
        ensures
            r@ == spec_state_name(*self),
    {
        match self {
            State::Draft => "Draft",
            State::Planning => "Planning",
            State::Building => "Building",
            State::Complete => "Complete",
            State::Amending => "Amending",
        }
    }

    /// The name as an owned string, for rows and messages.
    pub fn name_string(&self) -> (r: String)
        ensures
            r@ == spec_state_name(*self),
    {
        self.name().to_owned()
    }

    /// Parses a state name; `None` for anything that is not exactly one of
    /// the five names.
    pub fn parse(s: &str) -> (r: Option<State>)
        ensures
            match r {
                Some(st) => s@ == spec_state_name(st),
                None => forall|st: State| s@ != spec_state_name(st),
            },
    {
        let t = s.to_owned();
        if t == String::from_str("Draft") {
            Some(State::Draft)
        } else if t == String::from_str("Planning") {
            Some(State::Planning)
        } else if t == String::from_str("Building") {
            Some(State::Building)
        } else if t == String::from_str("Complete") {
            Some(State::Complete)
        } else if t == String::from_str("Amending") {
            Some(State::Amending)
        } else {
            assert(forall|st: State| s@ != spec_state_name(st)) by {
                assert forall|st: State| s@ != spec_state_name(st) by {
                    match st {
                        State::Draft => {},
                        State::Planning => {},
                        State::Building => {},
                        State::Complete => {},
                        State::Amending => {},
                    }
                }
            }
            None
        }
    }
}

/// Validates a requested lifecycle transition without performing it.
///
/// `Ok(true)` means the move is an edge of the graph and should be written;
/// `Ok(false)` means the entity is already in the requested state, a no-op
/// that writes nothing. A `from` string that is not a state name is a
/// validation error, and a pair outside the graph is `InvalidTransition`.
pub fn validate_transition(from: &str, to: &State) -> (r: Result<bool, MemError>)
    ensures
        match r {
            Ok(true) => exists|f: State|
                from@ == spec_state_name(f) && f != *to && spec_transition_allowed(f, *to),
            Ok(false) => from@ == spec_state_name(*to),
            Err(e) => match e {
                MemError::Validation(ValidationReason::InvalidStateName(m)) => m@ == from@
                    && forall|f: State| from@ != spec_state_name(f),
                MemError::InvalidTransition(f, t) => t == *to && from@ == spec_state_name(f)
                    && f != *to && !spec_transition_allowed(f, *to),
                _ => false,
            },
        },
{
    let from_state = match State::parse(from) {
        Some(f) => f,
        None => {
            return Err(MemError::Validation(ValidationReason::InvalidStateName(from.to_owned())));
        },
    };
    if from_state == *to {
        return Ok(false);
    }
    let allowed = match (from_state, to) {
        (State::Draft, State::Planning) => true,
        (State::Planning, State::Building) => true,
        (State::Planning, State::Draft) => true,
        (State::Building, State::Complete) => true,
        (State::Building, State::Draft) => true,
        (State::Complete, State::Amending) => true,
        (State::Complete, State::Draft) => true,
        (State::Amending, State::Draft) => true,
        _ => false,
    };
    if allowed {
        Ok(true)
    } else {
        Err(MemError::InvalidTransition(from_state, *to))
    }
}

} // verus!
