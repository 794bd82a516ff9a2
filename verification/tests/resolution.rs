use interpose::host::{
    get_item_by_name, player_add_item, player_fast_travel, Actor, GameServerConnection, HostCall,
    Player, Reply, Vector3,
};
use interpose::resolve::{dlsym_current, Dispatch, SymbolCache, Unresolved};
use interpose::symbol::{Substitution, Symbol, SYMBOL_COUNT};

const ALL: [Symbol; 19] = [
    Symbol::Game,
    Symbol::GetItemByName,
    Symbol::PlayerAddItem,
    Symbol::PlayerFastTravel,
    Symbol::ActorGetPosition,
    Symbol::ActorGetVelocity,
    Symbol::ActorGetRotation,
    Symbol::ActorSetPosition,
    Symbol::ActorSetVelocity,
    Symbol::ConnectionJump,
    Symbol::PlayerGetJumpSpeed,
    Symbol::PlayerGetWalkingSpeed,
    Symbol::PlayerGetJumpHoldTime,
    Symbol::PlayerCanJump,
    Symbol::EggCanUse,
    Symbol::CubeCanStealItem,
    Symbol::ConnectionMoveAndGetEvents,
    Symbol::PlayerTick,
    Symbol::WorldChat,
];

/// A loader that knows every symbol and counts how often it is asked.
struct Stub {
    asked: usize,
}

impl Stub {
    fn lookup(&mut self, symbol: Symbol) -> usize {
        self.asked += 1;
        0x1000 + 0x10 * symbol.index()
    }
}

fn address_of(cache: &mut SymbolCache, stub: &mut Stub, symbol: Symbol) -> usize {
    match cache.get(symbol) {
        Some(address) => address,
        None => {
            let found = stub.lookup(symbol);
            cache.resolve(symbol, found).unwrap()
        }
    }
}

#[test]
fn names_end_in_nul_and_nowhere_else() {
    for symbol in ALL {
        let name = symbol.name().as_bytes();
        assert!(name.len() >= 2);
        assert_eq!(name[name.len() - 1], 0);
        assert!(name[..name.len() - 1].iter().all(|b| *b != 0));
    }
}

#[test]
fn names_are_the_exported_ones() {
    assert_eq!(Symbol::Game.name(), "Game\0");
    assert_eq!(Symbol::GetItemByName.name(), "_ZN7GameAPI13GetItemByNameEPKc\0");
    assert_eq!(Symbol::PlayerAddItem.name(), "_ZN6Player7AddItemEP5IItemjb\0");
    assert_eq!(Symbol::PlayerFastTravel.name(), "_ZN6Player10FastTravelEPKcS1_\0");
    assert_eq!(Symbol::ActorGetPosition.name(), "_ZN5Actor11GetPositionEv\0");
    assert_eq!(Symbol::ActorGetVelocity.name(), "_ZN5Actor11GetVelocityEv\0");
    assert_eq!(Symbol::ActorGetRotation.name(), "_ZN5Actor11GetRotationEv\0");
    assert_eq!(Symbol::ActorSetPosition.name(), "_ZN5Actor11SetPositionERK7Vector3\0");
    assert_eq!(Symbol::ActorSetVelocity.name(), "_ZN5Actor11SetVelocityERK7Vector3\0");
    assert_eq!(Symbol::ConnectionJump.name(), "_ZN20GameServerConnection4JumpEb\0");
    assert_eq!(Symbol::PlayerGetJumpSpeed.name(), "_ZN6Player12GetJumpSpeedEv\0");
    assert_eq!(Symbol::PlayerGetWalkingSpeed.name(), "_ZN6Player15GetWalkingSpeedEv\0");
    assert_eq!(Symbol::PlayerGetJumpHoldTime.name(), "_ZN6Player15GetJumpHoldTimeEv\0");
    assert_eq!(Symbol::PlayerCanJump.name(), "_ZN6Player7CanJumpEv\0");
    assert_eq!(Symbol::EggCanUse.name(), "_ZN14BallmerPeakEgg6CanUseEP7IPlayer\0");
    assert_eq!(
        Symbol::CubeCanStealItem.name(),
        "_ZN11RubicksCube12CanStealItemEP6PlayerP5IItem\0"
    );
    assert_eq!(
        Symbol::ConnectionMoveAndGetEvents.name(),
        "_ZN20GameServerConnection16MoveAndGetEventsEP6Player\0"
    );
    assert_eq!(Symbol::PlayerTick.name(), "_ZN6Player4TickEf\0");
    assert_eq!(Symbol::WorldChat.name(), "_ZN11ClientWorld4ChatEP6PlayerRKSs\0");
}

#[test]
fn names_and_positions_are_distinct() {
    assert_eq!(ALL.len(), SYMBOL_COUNT);
    for (i, a) in ALL.iter().enumerate() {
        assert_eq!(a.index(), i);
        for b in &ALL[i + 1..] {
            assert_ne!(a.name(), b.name());
            assert_ne!(a.index(), b.index());
        }
    }
}

#[test]
fn intercepted_symbols_have_a_substitution() {
    assert_eq!(Symbol::PlayerGetJumpSpeed.substitution(), Some(Substitution::PureOverride));
    assert_eq!(Symbol::PlayerGetWalkingSpeed.substitution(), Some(Substitution::PureOverride));
    assert_eq!(Symbol::PlayerGetJumpHoldTime.substitution(), Some(Substitution::PureOverride));
    assert_eq!(Symbol::PlayerCanJump.substitution(), Some(Substitution::PureOverride));
    assert_eq!(Symbol::CubeCanStealItem.substitution(), Some(Substitution::PureOverride));
    assert_eq!(Symbol::EggCanUse.substitution(), Some(Substitution::WrapAndDelegate));
    assert_eq!(
        Symbol::ConnectionMoveAndGetEvents.substitution(),
        Some(Substitution::WrapAndDelegate)
    );
    assert_eq!(Symbol::PlayerTick.substitution(), Some(Substitution::WrapAndDelegate));
    assert_eq!(Symbol::WorldChat.substitution(), Some(Substitution::ConditionalPassThrough));
    for symbol in &ALL[..10] {
        assert_eq!(symbol.substitution(), None);
    }
}

#[test]
fn null_address_is_unresolved() {
    assert_eq!(
        dlsym_current(Symbol::Game, 0),
        Err(Unresolved { symbol: Symbol::Game })
    );
    assert_eq!(dlsym_current(Symbol::Game, 0xdead_0000), Ok(0xdead_0000));
    assert_eq!(dlsym_current(Symbol::PlayerTick, 1), Ok(1));
}

#[test]
fn new_cache_holds_nothing() {
    let cache = SymbolCache::new();
    assert_eq!(cache.resolutions(), 0);
    for symbol in ALL {
        assert_eq!(cache.get(symbol), None);
    }
}

#[test]
fn resolving_twice_yields_the_same_address_and_one_lookup() {
    for symbol in ALL {
        let mut cache = SymbolCache::new();
        let mut stub = Stub { asked: 0 };
        let first = address_of(&mut cache, &mut stub, symbol);
        let second = address_of(&mut cache, &mut stub, symbol);
        assert_eq!(first, second);
        assert_eq!(first, 0x1000 + 0x10 * symbol.index());
        assert_eq!(stub.asked, 1);
        assert_eq!(cache.resolutions(), 1);
    }
}

#[test]
fn first_resolved_address_wins() {
    let mut cache = SymbolCache::new();
    assert_eq!(cache.resolve(Symbol::ActorGetPosition, 0x4000), Ok(0x4000));
    assert_eq!(cache.resolve(Symbol::ActorGetPosition, 0x9000), Ok(0x4000));
    assert_eq!(cache.resolve(Symbol::ActorGetPosition, 0), Ok(0x4000));
    assert_eq!(cache.get(Symbol::ActorGetPosition), Some(0x4000));
    assert_eq!(cache.resolutions(), 1);
}

#[test]
fn missing_symbol_records_nothing() {
    let mut cache = SymbolCache::new();
    assert_eq!(
        cache.resolve(Symbol::ConnectionJump, 0),
        Err(Unresolved { symbol: Symbol::ConnectionJump })
    );
    assert_eq!(cache.get(Symbol::ConnectionJump), None);
    assert_eq!(cache.resolutions(), 0);
    assert_eq!(cache.resolve(Symbol::ConnectionJump, 0x8000), Ok(0x8000));
    assert_eq!(cache.resolutions(), 1);
}

#[test]
fn symbols_are_cached_independently() {
    let mut cache = SymbolCache::new();
    let mut stub = Stub { asked: 0 };
    for round in 0..3 {
        for symbol in ALL {
            assert_eq!(
                address_of(&mut cache, &mut stub, symbol),
                0x1000 + 0x10 * symbol.index()
            );
        }
        assert_eq!(stub.asked, SYMBOL_COUNT);
        assert_eq!(cache.resolutions(), SYMBOL_COUNT);
        assert!(round < 3);
    }
}

#[test]
fn repeated_calls_resolve_once_and_go_out_unchanged() {
    let mut cache = SymbolCache::new();
    let mut stub = Stub { asked: 0 };
    let actor = Actor { address: 0x5000 };
    for n in 0..25u32 {
        let position = Vector3 { x: n, y: n + 1, z: n + 2 };
        let mut decision = cache.dispatch(actor.set_position(&position));
        if let Dispatch::Resolve { symbol, call } = decision {
            assert_eq!(n, 0);
            assert_eq!(symbol, Symbol::ActorSetPosition);
            let found = stub.lookup(symbol);
            assert_eq!(cache.resolve(symbol, found), Ok(found));
            decision = cache.dispatch(call);
        }
        assert_eq!(
            decision,
            Dispatch::Invoke {
                address: 0x1000 + 0x10 * Symbol::ActorSetPosition.index(),
                call: HostCall::SetPosition { actor: 0x5000, position },
            }
        );
    }
    assert_eq!(stub.asked, 1);
    assert_eq!(cache.resolutions(), 1);
}

#[test]
fn accessors_name_their_host_function_and_receiver() {
    let actor = Actor { address: 0xa000 };
    let value = Vector3 { x: 1, y: 2, z: 3 };
    assert_eq!(actor.get_position(), HostCall::GetPosition { actor: 0xa000 });
    assert_eq!(actor.get_velocity(), HostCall::GetVelocity { actor: 0xa000 });
    assert_eq!(actor.get_rotation(), HostCall::GetRotation { actor: 0xa000 });
    assert_eq!(
        actor.set_position(&value),
        HostCall::SetPosition { actor: 0xa000, position: value }
    );
    assert_eq!(
        actor.set_velocity(&value),
        HostCall::SetVelocity { actor: 0xa000, velocity: value }
    );
    assert_eq!(actor.get_position().symbol(), Symbol::ActorGetPosition);
    assert_eq!(actor.get_velocity().symbol(), Symbol::ActorGetVelocity);
    assert_eq!(actor.get_rotation().symbol(), Symbol::ActorGetRotation);
    assert_eq!(actor.set_position(&value).symbol(), Symbol::ActorSetPosition);
    assert_eq!(actor.set_velocity(&value).symbol(), Symbol::ActorSetVelocity);
    let server = GameServerConnection { address: 0xb000 };
    assert_eq!(server.jump(true), HostCall::Jump { connection: 0xb000, state: true });
    assert_eq!(server.jump(false), HostCall::Jump { connection: 0xb000, state: false });
    assert_eq!(server.jump(true).symbol(), Symbol::ConnectionJump);
}

#[test]
fn calls_declare_what_the_host_returns() {
    let actor = Actor { address: 1 };
    let value = Vector3 { x: 1, y: 2, z: 3 };
    let player = Player { address: 2 };
    assert_eq!(actor.get_position().reply(), Reply::Vector);
    assert_eq!(actor.get_velocity().reply(), Reply::Vector);
    assert_eq!(actor.get_rotation().reply(), Reply::Rotation);
    assert_eq!(actor.set_position(&value).reply(), Reply::Nothing);
    assert_eq!(actor.set_velocity(&value).reply(), Reply::Nothing);
    assert_eq!(GameServerConnection { address: 3 }.jump(true).reply(), Reply::Nothing);
    assert_eq!(get_item_by_name(4, b"x\0").reply(), Reply::Address);
    assert_eq!(player_add_item(player, 5, 1, false).reply(), Reply::Flag);
    assert_eq!(player_fast_travel(player, b"a\0", b"b\0").reply(), Reply::Nothing);
}

#[test]
fn player_begins_with_its_actor() {
    let player = Player { address: 0xc000 };
    assert_eq!(player.super_actor(), Actor { address: 0xc000 });
}

#[test]
fn item_and_travel_calls_carry_their_arguments() {
    let player = Player { address: 0xc000 };
    let lookup = get_item_by_name(0x6000, b"GreatBallsOfFire\0");
    assert_eq!(
        lookup,
        HostCall::GetItemByName { game: 0x6000, name: b"GreatBallsOfFire\0".to_vec() }
    );
    assert_eq!(lookup.symbol(), Symbol::GetItemByName);
    let add = player_add_item(player, 0x7000, 3, true);
    assert_eq!(
        add,
        HostCall::AddItem { player: 0xc000, item: 0x7000, count: 3, allow_partial: true }
    );
    assert_eq!(add.symbol(), Symbol::PlayerAddItem);
    let travel = player_fast_travel(player, b"Town\0", b"Cave\0");
    assert_eq!(
        travel,
        HostCall::FastTravel { player: 0xc000, from: b"Town\0".to_vec(), to: b"Cave\0".to_vec() }
    );
    assert_eq!(travel.symbol(), Symbol::PlayerFastTravel);
}
