//! Typed requests to the host process.
//!
//! Nothing here calls into the host. A [`HostCall`] names a host operation
//! and carries its arguments in the order the host expects them; whoever owns
//! the unsafe boundary resolves the symbol and performs the call. Handles
//! ([`Actor`], [`Player`], [`GameServerConnection`]) are addresses of objects
//! the host owns: they are never dereferenced, created, or freed here.

use crate::symbol::Symbol;
use crate::text::{copy_bytes, nul_terminated};
use vstd::prelude::*;

verus! {

/// Three binary32 numbers, each held as its IEEE-754 bit pattern.
#[derive(Clone, Copy, Debug, PartialEq, Eq)]
pub struct Vector3 {
    pub x: u32,
    pub y: u32,
    pub z: u32,
}

/// Pitch, yaw and roll, each a binary32 number held as its IEEE-754 bit
/// pattern. Yaw runs from -180 to 180.
#[derive(Clone, Copy, Debug, PartialEq, Eq)]
pub struct Rotation {
    pub pitch: u32,
    pub yaw: u32,
    pub roll: u32,
}

/// A call into the host, with the receiver first where there is one.
#[derive(Debug, PartialEq, Eq)]
pub enum HostCall {
    GetPosition { actor: usize },
    GetVelocity { actor: usize },
    GetRotation { actor: usize },
    SetPosition { actor: usize, position: Vector3 },
    SetVelocity { actor: usize, velocity: Vector3 },
    Jump { connection: usize, state: bool },
    GetItemByName { game: usize, name: Vec<u8> },
    AddItem { player: usize, item: usize, count: u32, allow_partial: bool },
    FastTravel { player: usize, from: Vec<u8>, to: Vec<u8> },
}

/// What a host function returns.
#[derive(Clone, Copy, Debug, PartialEq, Eq)]
pub enum Reply {
    /// Nothing.
    Nothing,
    /// A [`Vector3`], by value.
    Vector,
    /// A [`Rotation`], by value.
    Rotation,
    /// The address of a host object.
    Address,
    /// A boolean.
    Flag,
}

impl HostCall {
    /// What the host function that the call goes to returns.
    pub open spec fn spec_reply(&self) -> Reply {
        match self {
            HostCall::GetPosition { .. } | HostCall::GetVelocity { .. } => Reply::Vector,
            HostCall::GetRotation { .. } => Reply::Rotation,
            HostCall::GetItemByName { .. } => Reply::Address,
            HostCall::AddItem { .. } => Reply::Flag,
            _ => Reply::Nothing,
        }
    }

    /// What the host function that the call goes to returns.
    pub fn reply(&self) -> (reply: Reply)
        ensures
            reply == self.spec_reply(),
    {
        match self {
            HostCall::GetPosition { .. } | HostCall::GetVelocity { .. } => Reply::Vector,
            HostCall::GetRotation { .. } => Reply::Rotation,
            HostCall::GetItemByName { .. } => Reply::Address,
            HostCall::AddItem { .. } => Reply::Flag,
            _ => Reply::Nothing,
        }
    }

    /// The host symbol that the call goes to.
    pub open spec fn spec_symbol(&self) -> Symbol {
        match self {
            HostCall::GetPosition { .. } => Symbol::ActorGetPosition,
            HostCall::GetVelocity { .. } => Symbol::ActorGetVelocity,
            HostCall::GetRotation { .. } => Symbol::ActorGetRotation,
            HostCall::SetPosition { .. } => Symbol::ActorSetPosition,
            HostCall::SetVelocity { .. } => Symbol::ActorSetVelocity,
            HostCall::Jump { .. } => Symbol::ConnectionJump,
            HostCall::GetItemByName { .. } => Symbol::GetItemByName,
            HostCall::AddItem { .. } => Symbol::PlayerAddItem,
            HostCall::FastTravel { .. } => Symbol::PlayerFastTravel,
        }
    }

    /// The host symbol that the call goes to.
    pub fn symbol(&self) -> (symbol: Symbol)
        ensures
            symbol == self.spec_symbol(),
    {
        match self {
            HostCall::GetPosition { .. } => Symbol::ActorGetPosition,
            HostCall::GetVelocity { .. } => Symbol::ActorGetVelocity,
            HostCall::GetRotation { .. } => Symbol::ActorGetRotation,
            HostCall::SetPosition { .. } => Symbol::ActorSetPosition,
            HostCall::SetVelocity { .. } => Symbol::ActorSetVelocity,
            HostCall::Jump { .. } => Symbol::ConnectionJump,
            HostCall::GetItemByName { .. } => Symbol::GetItemByName,
            HostCall::AddItem { .. } => Symbol::PlayerAddItem,
            HostCall::FastTravel { .. } => Symbol::PlayerFastTravel,
        }
    }
}

/// The address of a host actor.
#[derive(Clone, Copy, Debug, PartialEq, Eq)]
pub struct Actor {
    pub address: usize,
}

impl Actor {
    /// Asks the host for the actor's position.
    pub fn get_position(&self) -> (call: HostCall)
        ensures
            call == (HostCall::GetPosition { actor: self.address }),
    {
        HostCall::GetPosition { actor: self.address }
    }

    /// Asks the host for the actor's velocity.
    pub fn get_velocity(&self) -> (call: HostCall)
        ensures
            call == (HostCall::GetVelocity { actor: self.address }),
    {
        HostCall::GetVelocity { actor: self.address }
    }

    /// Asks the host for the actor's rotation.
    pub fn get_rotation(&self) -> (call: HostCall)
        ensures
            call == (HostCall::GetRotation { actor: self.address }),
    {
        HostCall::GetRotation { actor: self.address }
    }

    /// Has the host move the actor to `pos`. The value is passed through
    /// unchanged and nothing is written locally.
    pub fn set_position(&self, pos: &Vector3) -> (call: HostCall)
        ensures
            call == (HostCall::SetPosition { actor: self.address, position: *pos }),
    {
        HostCall::SetPosition { actor: self.address, position: *pos }
    }

    /// Has the host set the actor's velocity to `pos`. The value is passed
    /// through unchanged and nothing is written locally.
    pub fn set_velocity(&self, pos: &Vector3) -> (call: HostCall)
        ensures
            call == (HostCall::SetVelocity { actor: self.address, velocity: *pos }),
    {
        HostCall::SetVelocity { actor: self.address, velocity: *pos }
    }
}

/// The address of a host player. A player object begins with an actor.
#[derive(Clone, Copy, Debug, PartialEq, Eq)]
pub struct Player {
    pub address: usize,
}

impl Player {
    /// The actor that the player object begins with: the same address.
    pub fn super_actor(&self) -> (actor: Actor)
        ensures
            actor.address == self.address,
    {
        Actor { address: self.address }
    }
}

/// The address of the host's connection to the game server.
#[derive(Clone, Copy, Debug, PartialEq, Eq)]
pub struct GameServerConnection {
    pub address: usize,
}

impl GameServerConnection {
    /// Has the host tell the server whether the player is jumping.
    pub fn jump(&self, state: bool) -> (call: HostCall)
        ensures
            call == (HostCall::Jump { connection: self.address, state }),
    {
        HostCall::Jump { connection: self.address, state }
    }
}

/// Looks an item up by its NUL-terminated name. `game` is the address that
/// the symbol [`Symbol::Game`] resolves to.
pub fn get_item_by_name(game: usize, name: &[u8]) -> (call: HostCall)
    requires
        nul_terminated(name@),
    ensures
        call matches HostCall::GetItemByName { game: receiver, name: text }
            && receiver == game && text@ == name@,
{
    HostCall::GetItemByName { game, name: copy_bytes(name) }
}

/// Adds `count` of `item` to the player's inventory.
pub fn player_add_item(player: Player, item: usize, count: u32, allow_partial: bool) -> (call:
    HostCall)
    ensures
        call == (HostCall::AddItem { player: player.address, item, count, allow_partial }),
{
    HostCall::AddItem { player: player.address, item, count, allow_partial }
}

/// Moves the player between two zones, each given by its NUL-terminated
/// name.
pub fn player_fast_travel(player: Player, from: &[u8], to: &[u8]) -> (call: HostCall)
    requires
        nul_terminated(from@),
        nul_terminated(to@),
    ensures
        call matches HostCall::FastTravel { player: receiver, from: origin, to: destination }
            && receiver == player.address && origin@ == from@ && destination@ == to@,
{
    HostCall::FastTravel { player: player.address, from: copy_bytes(from), to: copy_bytes(to) }
}

} // verus!
