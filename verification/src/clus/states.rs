//! Node, group and resource states, from the cluster API's state codes.

use vstd::prelude::*;
use crate::text::{decimal_seq, push_decimal};
use crate::wide::{decode_utf16_lossy_seq, from_wide, nul_position};

verus! {

/// Node state.
#[derive(Debug, Clone, Copy, PartialEq, Eq, Structural)]
pub enum NodeState {
    Up,
    Down,
    Paused,
    Joining,
    Unknown(u32),
}

/// The node state for a `CLUSTER_NODE_STATE` code: 0 up, 1 down, 2 paused,
/// 3 joining; any other code is unknown and kept (as unsigned).
pub open spec fn node_state_of(code: i32) -> NodeState {
    if code == 0 {
        NodeState::Up
    } else if code == 1 {
        NodeState::Down
    } else if code == 2 {
        NodeState::Paused
    } else if code == 3 {
        NodeState::Joining
    } else {
        NodeState::Unknown(code as u32)
    }
}

impl NodeState {
    /// The state for a `CLUSTER_NODE_STATE` code.
    pub fn from_code(code: i32) -> (r: NodeState)
        ensures
            r == node_state_of(code),
            (r == NodeState::Up) <==> code == 0,
            (r == NodeState::Down) <==> code == 1,
            (r == NodeState::Paused) <==> code == 2,
            (r == NodeState::Joining) <==> code == 3,
            !(0 <= code <= 3) ==> r == NodeState::Unknown(code as u32),
    {
        if code == 0 {
            NodeState::Up
        } else if code == 1 {
            NodeState::Down
        } else if code == 2 {
            NodeState::Paused
        } else if code == 3 {
            NodeState::Joining
        } else {
            NodeState::Unknown(code as u32)
        }
    }
}

/// Group (role) state.
#[derive(Debug, Clone, Copy, PartialEq, Eq, Structural)]
pub enum GroupState {
    Online,
    Offline,
    Failed,
    PartialOnline,
    Pending,
    Unknown(u32),
}

/// The group state for a `CLUSTER_GROUP_STATE` code: 0 online, 1 offline,
/// 2 failed, 3 partially online, 4 pending; any other code is unknown.
pub open spec fn group_state_of(code: i32) -> GroupState {
    if code == 0 {
        GroupState::Online
    } else if code == 1 {
        GroupState::Offline
    } else if code == 2 {
        GroupState::Failed
    } else if code == 3 {
        GroupState::PartialOnline
    } else if code == 4 {
        GroupState::Pending
    } else {
        GroupState::Unknown(code as u32)
    }
}

impl GroupState {
    /// The state for a `CLUSTER_GROUP_STATE` code.
    pub fn from_code(code: i32) -> (r: GroupState)
        ensures
            r == group_state_of(code),
            (r == GroupState::Online) <==> code == 0,
            (r == GroupState::Offline) <==> code == 1,
            (r == GroupState::Failed) <==> code == 2,
            (r == GroupState::PartialOnline) <==> code == 3,
            (r == GroupState::Pending) <==> code == 4,
            !(0 <= code <= 4) ==> r == GroupState::Unknown(code as u32),
    {
        if code == 0 {
            GroupState::Online
        } else if code == 1 {
            GroupState::Offline
        } else if code == 2 {
            GroupState::Failed
        } else if code == 3 {
            GroupState::PartialOnline
        } else if code == 4 {
            GroupState::Pending
        } else {
            GroupState::Unknown(code as u32)
        }
    }
}

/// Resource state.
#[derive(Debug, Clone, Copy, PartialEq, Eq, Structural)]
pub enum ResourceState {
    Online,
    Offline,
    Failed,
    OnlinePending,
    OfflinePending,
    Unknown(u32),
}

/// The resource state for a `CLUSTER_RESOURCE_STATE` code: 2 online,
/// 3 offline, 4 failed, 129 online pending, 130 offline pending; any other
/// code is unknown.
pub open spec fn resource_state_of(code: i32) -> ResourceState {
    if code == 2 {
        ResourceState::Online
    } else if code == 3 {
        ResourceState::Offline
    } else if code == 4 {
        ResourceState::Failed
    } else if code == 129 {
        ResourceState::OnlinePending
    } else if code == 130 {
        ResourceState::OfflinePending
    } else {
        ResourceState::Unknown(code as u32)
    }
}

impl ResourceState {
    /// The state for a `CLUSTER_RESOURCE_STATE` code.
    pub fn from_code(code: i32) -> (r: ResourceState)
        ensures
            r == resource_state_of(code),
            (r == ResourceState::Online) <==> code == 2,
            (r == ResourceState::Offline) <==> code == 3,
            (r == ResourceState::Failed) <==> code == 4,
            (r == ResourceState::OnlinePending) <==> code == 129,
            (r == ResourceState::OfflinePending) <==> code == 130,
            !(2 <= code <= 4 || code == 129 || code == 130) ==> r == ResourceState::Unknown(
                code as u32,
            ),
    {
        if code == 2 {
            ResourceState::Online
        } else if code == 3 {
            ResourceState::Offline
        } else if code == 4 {
            ResourceState::Failed
        } else if code == 129 {
            ResourceState::OnlinePending
        } else if code == 130 {
            ResourceState::OfflinePending
        } else {
            ResourceState::Unknown(code as u32)
        }
    }
}

/// The owner node named in a state query's buffer: the NUL-terminated
/// UTF-16 text, or `None` when it is empty.
pub fn owner_from_buffer(buffer: &[u16]) -> (r: Option<String>)
    ensures
        ({
            let name = decode_utf16_lossy_seq(buffer@.take(nul_position(buffer@)));
            match r {
                Some(s) => s@ == name && name.len() > 0,
                None => name.len() == 0,
            }
        }),
{
    let owner = from_wide(buffer);
    let cs = crate::text::chars_of(owner.as_str());
    if cs.len() == 0 {
        None
    } else {
        Some(owner)
    }
}

/// Whether a state change call succeeded: 0, or 997 (`ERROR_IO_PENDING`:
/// the change is under way).
pub fn state_change_accepted(result: u32) -> (r: bool)
    ensures
        r == (result == 0 || result == 997),
{
    result == 0 || result == 997
}

/// How `{:?}` prints an unknown state holding `code`: "Unknown(code)".
pub open spec fn unknown_name(code: u32) -> Seq<char> {
    "Unknown("@ + decimal_seq(code as nat) + ")"@
}

fn unknown_text(code: u32) -> (r: String)
    ensures
        r@ == unknown_name(code),
{
    let mut s = String::from_str("Unknown(");
    push_decimal(&mut s, code as u64);
    s.concat(")")
}

/// The name of a node state as `{:?}` prints it.
pub open spec fn node_state_name(s: NodeState) -> Seq<char> {
    match s {
        NodeState::Up => "Up"@,
        NodeState::Down => "Down"@,
        NodeState::Paused => "Paused"@,
        NodeState::Joining => "Joining"@,
        NodeState::Unknown(c) => unknown_name(c),
    }
}

/// The name of a group state as `{:?}` prints it.
pub open spec fn group_state_name(s: GroupState) -> Seq<char> {
    match s {
        GroupState::Online => "Online"@,
        GroupState::Offline => "Offline"@,
        GroupState::Failed => "Failed"@,
        GroupState::PartialOnline => "PartialOnline"@,
        GroupState::Pending => "Pending"@,
        GroupState::Unknown(c) => unknown_name(c),
    }
}

/// The name of a resource state as `{:?}` prints it.
pub open spec fn resource_state_name(s: ResourceState) -> Seq<char> {
    match s {
        ResourceState::Online => "Online"@,
        ResourceState::Offline => "Offline"@,
        ResourceState::Failed => "Failed"@,
        ResourceState::OnlinePending => "OnlinePending"@,
        ResourceState::OfflinePending => "OfflinePending"@,
        ResourceState::Unknown(c) => unknown_name(c),
    }
}

impl NodeState {
    /// The state's name, as `{:?}` prints it.
    pub fn name(&self) -> (r: String)
        ensures
            r@ == node_state_name(*self),
    {
        match self {
            NodeState::Up => String::from_str("Up"),
            NodeState::Down => String::from_str("Down"),
            NodeState::Paused => String::from_str("Paused"),
            NodeState::Joining => String::from_str("Joining"),
            NodeState::Unknown(c) => unknown_text(*c),
        }
    }
}

impl GroupState {
    /// The state's name, as `{:?}` prints it.
    pub fn name(&self) -> (r: String)
        ensures
            r@ == group_state_name(*self),
    {
        match self {
            GroupState::Online => String::from_str("Online"),
            GroupState::Offline => String::from_str("Offline"),
            GroupState::Failed => String::from_str("Failed"),
            GroupState::PartialOnline => String::from_str("PartialOnline"),
            GroupState::Pending => String::from_str("Pending"),
            GroupState::Unknown(c) => unknown_text(*c),
        }
    }
}

impl ResourceState {
    /// The state's name, as `{:?}` prints it.
    pub fn name(&self) -> (r: String)
        ensures
            r@ == resource_state_name(*self),
    {
        match self {
            ResourceState::Online => String::from_str("Online"),
            ResourceState::Offline => String::from_str("Offline"),
            ResourceState::Failed => String::from_str("Failed"),
            ResourceState::OnlinePending => String::from_str("OnlinePending"),
            ResourceState::OfflinePending => String::from_str("OfflinePending"),
            ResourceState::Unknown(c) => unknown_text(*c),
        }
    }
}

/// Distinct 32-bit codes stay distinct when kept as unsigned.
proof fn lemma_code_as_unsigned_injective(a: i32, b: i32)
    ensures
        a != b ==> a as u32 != b as u32,
{
    assert(a != b ==> a as u32 != b as u32) by (bit_vector);
}

/// The `CLUSTER_NODE_STATE` codes name the node states one to one: 0 is
/// up, 1 down, 2 paused and 3 joining, exactly; every other code is an
/// unknown state; and distinct codes give distinct states.
pub proof fn lemma_node_state_codes(a: i32, b: i32)
    ensures
        (node_state_of(a) == NodeState::Up) <==> a == 0,
        (node_state_of(a) == NodeState::Down) <==> a == 1,
        (node_state_of(a) == NodeState::Paused) <==> a == 2,
        (node_state_of(a) == NodeState::Joining) <==> a == 3,
        (node_state_of(a) is Unknown) <==> !(0 <= a <= 3),
        a != b ==> node_state_of(a) != node_state_of(b),
{
    lemma_code_as_unsigned_injective(a, b);
}

/// The `CLUSTER_GROUP_STATE` codes name the group states one to one: 0 is
/// online, 1 offline, 2 failed, 3 partially online and 4 pending, exactly;
/// every other code is an unknown state; and distinct codes give distinct
/// states.
pub proof fn lemma_group_state_codes(a: i32, b: i32)
    ensures
        (group_state_of(a) == GroupState::Online) <==> a == 0,
        (group_state_of(a) == GroupState::Offline) <==> a == 1,
        (group_state_of(a) == GroupState::Failed) <==> a == 2,
        (group_state_of(a) == GroupState::PartialOnline) <==> a == 3,
        (group_state_of(a) == GroupState::Pending) <==> a == 4,
        (group_state_of(a) is Unknown) <==> !(0 <= a <= 4),
        a != b ==> group_state_of(a) != group_state_of(b),
{
    lemma_code_as_unsigned_injective(a, b);
}

/// The `CLUSTER_RESOURCE_STATE` codes name the resource states one to one:
/// 2 is online, 3 offline, 4 failed, 129 online pending and 130 offline
/// pending, exactly; every other code is an unknown state; and distinct
/// codes give distinct states.
pub proof fn lemma_resource_state_codes(a: i32, b: i32)
    ensures
        (resource_state_of(a) == ResourceState::Online) <==> a == 2,
        (resource_state_of(a) == ResourceState::Offline) <==> a == 3,
        (resource_state_of(a) == ResourceState::Failed) <==> a == 4,
        (resource_state_of(a) == ResourceState::OnlinePending) <==> a == 129,
        (resource_state_of(a) == ResourceState::OfflinePending) <==> a == 130,
        (resource_state_of(a) is Unknown) <==> !(2 <= a <= 4 || a == 129 || a == 130),
        a != b ==> resource_state_of(a) != resource_state_of(b),
{
    lemma_code_as_unsigned_injective(a, b);
}

} // verus!
