//! Who is asking: roles, caller identity, and what a role may change.

use crate::response::{
    bad_request, bad_request_of, forbidden, forbidden_of, outcome_of, Failure, FailureView,
};
use crate::text::{replace, replaced, reported};
use vstd::prelude::*;

verus! {

/// The role under which a signed-in agent acts.
#[derive(Clone, Copy, Debug, PartialEq, Eq, Structural)]
pub enum AgentRole {
    Admin,
    Agent,
}

/// A signed-in caller. Requests without one are anonymous.
#[derive(Clone, Copy, Debug, PartialEq, Eq, Structural)]
pub struct Caller {
    pub user_id: u128,
    pub role: AgentRole,
}

/// The display name of an agent as it is read from a path segment: every
/// hyphen stands for a space.
pub open spec fn agent_name_of(segment: Seq<char>) -> Seq<char> {
    replaced(segment, '-', ' ')
}

/// Reads the display name of an agent from a path segment.
pub fn agent_name(segment: &str) -> (name: String)
    ensures
        name@ == agent_name_of(segment@),
{
    proof {
        reveal_strlit(" ");
    }
    replace(segment, '-', " ")
}

/// Whether a request may go on to change banks or developers: only an
/// admin may. An agent is refused without a message, and a caller whose
/// role the store cannot tell is refused with the store's words.
pub open spec fn admin_gate_of(lookup: Result<AgentRole, Seq<char>>) -> Result<(), FailureView> {
    match lookup {
        Ok(AgentRole::Admin) => Ok(()),
        Ok(AgentRole::Agent) => Err(forbidden_of(None)),
        Err(message) => Err(forbidden_of(Some(message))),
    }
}

/// Whether a request needs the caller's role before it goes on: reading
/// needs none, every change does.
pub fn needs_admin(is_read: bool) -> (needed: bool)
    ensures
        needed == !is_read,
{
    !is_read
}

/// Lets a changing request pass or refuses it, by the role that the store
/// gave for the caller.
pub fn admin_gate(lookup: Result<AgentRole, String>) -> (verdict: Result<(), Failure>)
    ensures
        outcome_of(verdict) == admin_gate_of(reported(lookup)),
{
    match lookup {
        Ok(AgentRole::Admin) => Ok(()),
        Ok(AgentRole::Agent) => Err(forbidden(None)),
        Err(message) => Err(forbidden(Some(message))),
    }
}

/// Whether a caller may change a listing: its owner may, and an admin.
pub open spec fn may_modify(caller: Caller, owner: u128) -> bool {
    caller.user_id == owner || caller.role == AgentRole::Admin
}

/// The caller of an update, where the store can tell their role; a bad
/// request with the store's words where it cannot.
pub open spec fn updater_of(user_id: u128, lookup: Result<AgentRole, Seq<char>>) -> Result<
    Caller,
    FailureView,
> {
    match lookup {
        Ok(role) => Ok(Caller { user_id, role }),
        Err(message) => Err(bad_request_of(message)),
    }
}

/// Settles who asks for an update, by the role that the store gave.
pub fn resolve_updater(user_id: u128, lookup: Result<AgentRole, String>) -> (caller: Result<
    Caller,
    Failure,
>)
    ensures
        outcome_of(caller) == updater_of(user_id, reported(lookup)),
{
    match lookup {
        Ok(role) => Ok(Caller { user_id, role }),
        Err(message) => Err(bad_request(message)),
    }
}

/// Whether an update may go on: a bad request with the store's words where
/// the listing was not found; a refusal that says "Forbidden" where the
/// caller is neither its owner nor an admin.
pub open spec fn update_verdict(caller: Caller, owner: Result<u128, Seq<char>>) -> Result<
    (),
    FailureView,
> {
    match owner {
        Err(message) => Err(bad_request_of(message)),
        Ok(id) => if may_modify(caller, id) {
            Ok(())
        } else {
            Err(forbidden_of(Some("Forbidden"@)))
        },
    }
}

/// Lets an update pass or refuses it, by the owner that the store gave for
/// the listing.
pub fn authorize_update(caller: Caller, owner: Result<u128, String>) -> (verdict: Result<
    (),
    Failure,
>)
    ensures
        outcome_of(verdict) == update_verdict(caller, reported(owner)),
{
    match owner {
        Err(message) => Err(bad_request(message)),
        Ok(id) => {
            let is_admin = match caller.role {
                AgentRole::Admin => true,
                AgentRole::Agent => false,
            };
            if id != caller.user_id && !is_admin {
                Err(forbidden(Some(String::from_str("Forbidden"))))
            } else {
                Ok(())
            }
        },
    }
}

impl AgentRole {
    /// The name under which a role is sent and received.
    pub open spec fn name_of(self) -> Seq<char> {
        match self {
            AgentRole::Admin => "Admin"@,
            AgentRole::Agent => "Agent"@,
        }
    }

    /// What a name stands for, where it is the name of a role.
    pub open spec fn named(name: Seq<char>) -> Option<AgentRole> {
        if name == "Admin"@ {
            Some(AgentRole::Admin)
        } else if name == "Agent"@ {
            Some(AgentRole::Agent)
        } else {
            None
        }
    }

    /// The name under which this value is sent.
    pub fn name(&self) -> (name: String)
        ensures
            name@ == self.name_of(),
    {
        match self {
            AgentRole::Admin => String::from_str("Admin"),
            AgentRole::Agent => String::from_str("Agent"),
        }
    }

    /// Reads a value from its name; a text that is no name gives none.
    pub fn from_name(name: &str) -> (value: Option<AgentRole>)
        ensures
            value == AgentRole::named(name@),
    {
        let wanted = String::from_str(name);
        if wanted == String::from_str("Admin") {
            Some(AgentRole::Admin)
        } else if wanted == String::from_str("Agent") {
            Some(AgentRole::Agent)
        } else {
            None
        }
    }

    /// Every value is read back from its own name.
    pub proof fn name_round_trip(self)
        ensures
            AgentRole::named(self.name_of()) == Some(self),
    {
        reveal_strlit("Admin");
        reveal_strlit("Agent");
        assert("Admin"@[1] != "Agent"@[1]);
    }
}

} // verus!
