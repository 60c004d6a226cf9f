use vstd::prelude::*;

use crate::text::str_eq;

verus! {

/// The domain operations that a request can be routed to.
#[derive(PartialEq, Eq, Structural, Clone, Copy, Debug)]
pub enum Operation {
    Register,
    JoinChannel,
    LeaveChannel,
    ListChannel,
}

impl Operation {
    /// The request path that selects this operation.
    pub open spec fn spec_path(self) -> Seq<char> {
        match self {
            Operation::Register => "/user/reg"@,
            Operation::JoinChannel => "/channel/join"@,
            Operation::LeaveChannel => "/channel/leave"@,
            Operation::ListChannel => "/channel/list"@,
        }
    }

    pub fn path(self) -> (r: &'static str)
        ensures
            r@ == self.spec_path(),
    {
        match self {
            Operation::Register => "/user/reg",
            Operation::JoinChannel => "/channel/join",
            Operation::LeaveChannel => "/channel/leave",
            Operation::ListChannel => "/channel/list",
        }
    }
}

/// The routing table: exact, case-sensitive equality with a known path.
pub open spec fn spec_route(path: Seq<char>) -> Option<Operation> {
    if path == Operation::Register.spec_path() {
        Some(Operation::Register)
    } else if path == Operation::JoinChannel.spec_path() {
        Some(Operation::JoinChannel)
    } else if path == Operation::LeaveChannel.spec_path() {
        Some(Operation::LeaveChannel)
    } else if path == Operation::ListChannel.spec_path() {
        Some(Operation::ListChannel)
    } else {
        None
    }
}

/// Looks a request path up in the routing table.
pub fn route(path: &str) -> (r: Option<Operation>)
    ensures
        r == spec_route(path@),
{
    if str_eq(path, Operation::Register.path()) {
        Some(Operation::Register)
    } else if str_eq(path, Operation::JoinChannel.path()) {
        Some(Operation::JoinChannel)
    } else if str_eq(path, Operation::LeaveChannel.path()) {
        Some(Operation::LeaveChannel)
    } else if str_eq(path, Operation::ListChannel.path()) {
        Some(Operation::ListChannel)
    } else {
        None
    }
}

/// Every operation is reached through its own path, and through no other.
pub proof fn lemma_route_of_path(op: Operation)
    ensures
        spec_route(op.spec_path()) == Some(op),
{
    reveal_strlit("/user/reg");
    reveal_strlit("/channel/join");
    reveal_strlit("/channel/leave");
    reveal_strlit("/channel/list");
    assert(Operation::Register.spec_path()[1] != Operation::JoinChannel.spec_path()[1]);
    assert(Operation::Register.spec_path()[1] != Operation::LeaveChannel.spec_path()[1]);
    assert(Operation::Register.spec_path()[1] != Operation::ListChannel.spec_path()[1]);
    assert(Operation::JoinChannel.spec_path()[9] != Operation::LeaveChannel.spec_path()[9]);
    assert(Operation::JoinChannel.spec_path()[9] != Operation::ListChannel.spec_path()[9]);
    assert(Operation::LeaveChannel.spec_path().len() != Operation::ListChannel.spec_path().len());
}

} // verus!
