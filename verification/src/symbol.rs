//! The host symbols this layer depends on.
//!
//! Each symbol is known by its exact exported (mangled) name. Names are kept
//! NUL-terminated so that they can be handed to the dynamic loader as they
//! are.

use vstd::prelude::*;

verus! {

/// How a substitute relates to the host implementation it pre-empts.
#[derive(Clone, Copy, Debug, PartialEq, Eq)]
pub enum Substitution {
    /// The host implementation is never run; a fixed value is returned.
    PureOverride,
    /// Custom logic runs first, then the host implementation is invoked with
    /// the arguments the host passed.
    WrapAndDelegate,
    /// The arguments decide whether the call is replaced or passed through.
    ConditionalPassThrough,
}

/// A symbol exported by the host process.
#[derive(Clone, Copy, Debug, PartialEq, Eq)]
pub enum Symbol {
    Game,
    GetItemByName,
    PlayerAddItem,
    PlayerFastTravel,
    ActorGetPosition,
    ActorGetVelocity,
    ActorGetRotation,
    ActorSetPosition,
    ActorSetVelocity,
    ConnectionJump,
    PlayerGetJumpSpeed,
    PlayerGetWalkingSpeed,
    PlayerGetJumpHoldTime,
    PlayerCanJump,
    EggCanUse,
    CubeCanStealItem,
    ConnectionMoveAndGetEvents,
    PlayerTick,
    WorldChat,
}

/// The number of host symbols.
pub const SYMBOL_COUNT: usize = 19;

impl Symbol {
    /// The exported name, with its terminating NUL.
    pub open spec fn spec_name(self) -> Seq<char> {
        match self {
            Symbol::Game => "Game\0"@,
            Symbol::GetItemByName => "_ZN7GameAPI13GetItemByNameEPKc\0"@,
            Symbol::PlayerAddItem => "_ZN6Player7AddItemEP5IItemjb\0"@,
            Symbol::PlayerFastTravel => "_ZN6Player10FastTravelEPKcS1_\0"@,
            Symbol::ActorGetPosition => "_ZN5Actor11GetPositionEv\0"@,
            Symbol::ActorGetVelocity => "_ZN5Actor11GetVelocityEv\0"@,
            Symbol::ActorGetRotation => "_ZN5Actor11GetRotationEv\0"@,
            Symbol::ActorSetPosition => "_ZN5Actor11SetPositionERK7Vector3\0"@,
            Symbol::ActorSetVelocity => "_ZN5Actor11SetVelocityERK7Vector3\0"@,
            Symbol::ConnectionJump => "_ZN20GameServerConnection4JumpEb\0"@,
            Symbol::PlayerGetJumpSpeed => "_ZN6Player12GetJumpSpeedEv\0"@,
            Symbol::PlayerGetWalkingSpeed => "_ZN6Player15GetWalkingSpeedEv\0"@,
            Symbol::PlayerGetJumpHoldTime => "_ZN6Player15GetJumpHoldTimeEv\0"@,
            Symbol::PlayerCanJump => "_ZN6Player7CanJumpEv\0"@,
            Symbol::EggCanUse => "_ZN14BallmerPeakEgg6CanUseEP7IPlayer\0"@,
            Symbol::CubeCanStealItem => "_ZN11RubicksCube12CanStealItemEP6PlayerP5IItem\0"@,
            Symbol::ConnectionMoveAndGetEvents => "_ZN20GameServerConnection16MoveAndGetEventsEP6Player\0"@,
            Symbol::PlayerTick => "_ZN6Player4TickEf\0"@,
            Symbol::WorldChat => "_ZN11ClientWorld4ChatEP6PlayerRKSs\0"@,
        }
    }

    /// The position of the symbol in the table, from 0.
    pub open spec fn spec_index(self) -> nat {
        match self {
            Symbol::Game => 0,
            Symbol::GetItemByName => 1,
            Symbol::PlayerAddItem => 2,
            Symbol::PlayerFastTravel => 3,
            Symbol::ActorGetPosition => 4,
            Symbol::ActorGetVelocity => 5,
            Symbol::ActorGetRotation => 6,
            Symbol::ActorSetPosition => 7,
            Symbol::ActorSetVelocity => 8,
            Symbol::ConnectionJump => 9,
            Symbol::PlayerGetJumpSpeed => 10,
            Symbol::PlayerGetWalkingSpeed => 11,
            Symbol::PlayerGetJumpHoldTime => 12,
            Symbol::PlayerCanJump => 13,
            Symbol::EggCanUse => 14,
            Symbol::CubeCanStealItem => 15,
            Symbol::ConnectionMoveAndGetEvents => 16,
            Symbol::PlayerTick => 17,
            Symbol::WorldChat => 18,
        }
    }

    /// The substitution installed for the symbol, if the host's calls to it
    /// are intercepted.
    pub open spec fn spec_substitution(self) -> Option<Substitution> {
        match self {
            Symbol::PlayerGetJumpSpeed
            | Symbol::PlayerGetWalkingSpeed
            | Symbol::PlayerGetJumpHoldTime
            | Symbol::PlayerCanJump
            | Symbol::CubeCanStealItem => Some(Substitution::PureOverride),
            Symbol::EggCanUse | Symbol::ConnectionMoveAndGetEvents | Symbol::PlayerTick => Some(
                Substitution::WrapAndDelegate,
            ),
            Symbol::WorldChat => Some(Substitution::ConditionalPassThrough),
            _ => None,
        }
    }

    /// The exported name, with its terminating NUL.
    pub fn name(self) -> (name: &'static str)
        ensures
            name@ == self.spec_name(),
    {
        match self {
            Symbol::Game => "Game\0",
            Symbol::GetItemByName => "_ZN7GameAPI13GetItemByNameEPKc\0",
            Symbol::PlayerAddItem => "_ZN6Player7AddItemEP5IItemjb\0",
            Symbol::PlayerFastTravel => "_ZN6Player10FastTravelEPKcS1_\0",
            Symbol::ActorGetPosition => "_ZN5Actor11GetPositionEv\0",
            Symbol::ActorGetVelocity => "_ZN5Actor11GetVelocityEv\0",
            Symbol::ActorGetRotation => "_ZN5Actor11GetRotationEv\0",
            Symbol::ActorSetPosition => "_ZN5Actor11SetPositionERK7Vector3\0",
            Symbol::ActorSetVelocity => "_ZN5Actor11SetVelocityERK7Vector3\0",
            Symbol::ConnectionJump => "_ZN20GameServerConnection4JumpEb\0",
            Symbol::PlayerGetJumpSpeed => "_ZN6Player12GetJumpSpeedEv\0",
            Symbol::PlayerGetWalkingSpeed => "_ZN6Player15GetWalkingSpeedEv\0",
            Symbol::PlayerGetJumpHoldTime => "_ZN6Player15GetJumpHoldTimeEv\0",
            Symbol::PlayerCanJump => "_ZN6Player7CanJumpEv\0",
            Symbol::EggCanUse => "_ZN14BallmerPeakEgg6CanUseEP7IPlayer\0",
            Symbol::CubeCanStealItem => "_ZN11RubicksCube12CanStealItemEP6PlayerP5IItem\0",
            Symbol::ConnectionMoveAndGetEvents => "_ZN20GameServerConnection16MoveAndGetEventsEP6Player\0",
            Symbol::PlayerTick => "_ZN6Player4TickEf\0",
            Symbol::WorldChat => "_ZN11ClientWorld4ChatEP6PlayerRKSs\0",
        }
    }

    /// The position of the symbol in the table, from 0.
    pub fn index(self) -> (index: usize)
        ensures
            index == self.spec_index(),
            index < SYMBOL_COUNT,
    {
        match self {
            Symbol::Game => 0,
            Symbol::GetItemByName => 1,
            Symbol::PlayerAddItem => 2,
            Symbol::PlayerFastTravel => 3,
            Symbol::ActorGetPosition => 4,
            Symbol::ActorGetVelocity => 5,
            Symbol::ActorGetRotation => 6,
            Symbol::ActorSetPosition => 7,
            Symbol::ActorSetVelocity => 8,
            Symbol::ConnectionJump => 9,
            Symbol::PlayerGetJumpSpeed => 10,
            Symbol::PlayerGetWalkingSpeed => 11,
            Symbol::PlayerGetJumpHoldTime => 12,
            Symbol::PlayerCanJump => 13,
            Symbol::EggCanUse => 14,
            Symbol::CubeCanStealItem => 15,
            Symbol::ConnectionMoveAndGetEvents => 16,
            Symbol::PlayerTick => 17,
            Symbol::WorldChat => 18,
        }
    }

    /// The substitution installed for the symbol, if the host's calls to it
    /// are intercepted.
    pub fn substitution(self) -> (kind: Option<Substitution>)
        ensures
            kind == self.spec_substitution(),
    {
        match self {
            Symbol::PlayerGetJumpSpeed
            | Symbol::PlayerGetWalkingSpeed
            | Symbol::PlayerGetJumpHoldTime
            | Symbol::PlayerCanJump
            | Symbol::CubeCanStealItem => Some(Substitution::PureOverride),
            Symbol::EggCanUse | Symbol::ConnectionMoveAndGetEvents | Symbol::PlayerTick => Some(
                Substitution::WrapAndDelegate,
            ),
            Symbol::WorldChat => Some(Substitution::ConditionalPassThrough),
            _ => None,
        }
    }
}

/// A name the dynamic loader accepts: not empty, and NUL at the end and
/// nowhere else.
pub open spec fn loader_name(name: Seq<char>) -> bool {
    &&& name.len() >= 2
    &&& name.last() == '\0'
    &&& forall|i: int| 0 <= i < name.len() - 1 ==> name[i] != '\0'
}

/// Two properties of a name that together tell all the names apart.
spec fn mark(name: Seq<char>) -> (nat, char) {
    (name.len(), if name.len() > 16 { name[16] } else { ' ' })
}

proof fn reveal_names()
    ensures
        forall|symbol: Symbol| loader_name(#[trigger] symbol.spec_name()),
        forall|a: Symbol, b: Symbol|
            #![trigger a.spec_name(), b.spec_name()]
            mark(a.spec_name()) == mark(b.spec_name()) ==> a == b,
{
    reveal_strlit("Game\0");
    reveal_strlit("_ZN7GameAPI13GetItemByNameEPKc\0");
    reveal_strlit("_ZN6Player7AddItemEP5IItemjb\0");
    reveal_strlit("_ZN6Player10FastTravelEPKcS1_\0");
    reveal_strlit("_ZN5Actor11GetPositionEv\0");
    reveal_strlit("_ZN5Actor11GetVelocityEv\0");
    reveal_strlit("_ZN5Actor11GetRotationEv\0");
    reveal_strlit("_ZN5Actor11SetPositionERK7Vector3\0");
    reveal_strlit("_ZN5Actor11SetVelocityERK7Vector3\0");
    reveal_strlit("_ZN20GameServerConnection4JumpEb\0");
    reveal_strlit("_ZN6Player12GetJumpSpeedEv\0");
    reveal_strlit("_ZN6Player15GetWalkingSpeedEv\0");
    reveal_strlit("_ZN6Player15GetJumpHoldTimeEv\0");
    reveal_strlit("_ZN6Player7CanJumpEv\0");
    reveal_strlit("_ZN14BallmerPeakEgg6CanUseEP7IPlayer\0");
    reveal_strlit("_ZN11RubicksCube12CanStealItemEP6PlayerP5IItem\0");
    reveal_strlit("_ZN20GameServerConnection16MoveAndGetEventsEP6Player\0");
    reveal_strlit("_ZN6Player4TickEf\0");
    reveal_strlit("_ZN11ClientWorld4ChatEP6PlayerRKSs\0");
}

/// Every symbol's name can be handed to the dynamic loader as it is.
pub proof fn lemma_names_terminated(symbol: Symbol)
    ensures
        loader_name(symbol.spec_name()),
{
    reveal_names();
}

/// Distinct symbols have distinct names and distinct table positions, so a
/// cache keyed by symbol is a cache keyed by name.
pub proof fn lemma_names_distinct(a: Symbol, b: Symbol)
    requires
        a != b,
    ensures
        a.spec_name() != b.spec_name(),
        a.spec_index() != b.spec_index(),
{
    reveal_names();
}

} // verus!
