use interpose::command::CommandError;
use interpose::hooks::{
    can_jump, can_steal, chat, client_send_position, jump_high, jump_hold, last_egg, lifted,
    player_tick, teleport, walk_fast, ChatPlan, EggPlan, MovePlan, TickPlan, TickStep, Toggles,
    FLOAT_LIFT, FORCED_SPEED,
};
use interpose::host::{
    player_fast_travel, Actor, GameServerConnection, HostCall, Player, Vector3,
};

fn vector(x: f32, y: f32, z: f32) -> Vector3 {
    Vector3 { x: x.to_bits(), y: y.to_bits(), z: z.to_bits() }
}

fn number(word: &[u8]) -> Option<u32> {
    std::str::from_utf8(word).ok()?.parse::<f32>().ok().map(f32::to_bits)
}

#[test]
fn forced_constants_are_the_numbers_they_stand_for() {
    assert_eq!(FORCED_SPEED, 1000.0f32.to_bits());
    assert_eq!(FLOAT_LIFT, 3.0f32.to_bits());
}

#[test]
fn pure_overrides_ignore_their_arguments() {
    for x in [0usize, 1, 0x7fff_0000] {
        assert_eq!(f32::from_bits(jump_high(x)), 1000.0);
        assert_eq!(f32::from_bits(walk_fast(x)), 1000.0);
        assert_eq!(f32::from_bits(jump_hold(x)), 1000.0);
        assert!(can_jump(x));
        assert!(can_steal(x, x + 1, x + 2));
    }
}

#[test]
fn last_egg_delegates_and_answers_true() {
    assert_eq!(last_egg(0x1000, 0x2000), EggPlan { x: 0x1000, y: 0x2000, answer: true });
    assert_eq!(last_egg(0, 0), EggPlan { x: 0, y: 0, answer: true });
}

#[test]
fn toggle_once_flips_exactly_one_flag() {
    let player = Player { address: 0x5000 };
    let mut toggles = Toggles::new();
    assert_eq!(chat(&mut toggles, 1, player, 2, b"!hack position"), Ok(ChatPlan::Toggled));
    assert_eq!(
        toggles,
        Toggles { print_position: true, print_velocity: false, float: false, float_helper: false }
    );
    assert_eq!(chat(&mut toggles, 1, player, 2, b"!hack velocity"), Ok(ChatPlan::Toggled));
    assert_eq!(
        toggles,
        Toggles { print_position: true, print_velocity: true, float: false, float_helper: false }
    );
    assert_eq!(chat(&mut toggles, 1, player, 2, b"!hack float"), Ok(ChatPlan::Toggled));
    assert_eq!(
        toggles,
        Toggles { print_position: true, print_velocity: true, float: true, float_helper: false }
    );
}

#[test]
fn toggle_twice_restores_the_flags() {
    let player = Player { address: 0x5000 };
    let lines: [&[u8]; 3] = [b"!hack position", b"!hack velocity", b"!hack float"];
    for line in lines {
        let start =
            Toggles { print_position: false, print_velocity: true, float: false, float_helper: true };
        let mut toggles = start;
        assert_eq!(chat(&mut toggles, 1, player, 2, line), Ok(ChatPlan::Toggled));
        assert_ne!(toggles, start);
        assert_eq!(chat(&mut toggles, 1, player, 2, line), Ok(ChatPlan::Toggled));
        assert_eq!(toggles, start);
    }
}

#[test]
fn ordinary_chat_reaches_the_original_unchanged() {
    let player = Player { address: 0x5000 };
    let mut toggles =
        Toggles { print_position: true, print_velocity: false, float: true, float_helper: false };
    let before = toggles;
    assert_eq!(
        chat(&mut toggles, 0x11, player, 0x22, b"good morning"),
        Ok(ChatPlan::Original { client_world: 0x11, player, text: 0x22 })
    );
    assert_eq!(toggles, before);
    assert_eq!(
        chat(&mut toggles, 0x11, player, 0x22, b"!hacking is fun"),
        Ok(ChatPlan::Original { client_world: 0x11, player, text: 0x22 })
    );
}

#[test]
fn commands_never_reach_the_original() {
    let player = Player { address: 0x5000 };
    let lines: [&[u8]; 5] = [
        b"!hack position",
        b"!hack velocity",
        b"!hack float",
        b"!hack tp 1 2 3",
        b"!hack ft a b",
    ];
    for line in lines {
        let mut toggles = Toggles::new();
        let plan = chat(&mut toggles, 0x11, player, 0x22, line).unwrap();
        assert!(!matches!(plan, ChatPlan::Original { .. }));
    }
}

#[test]
fn bogus_command_aborts_the_invocation() {
    let player = Player { address: 0x5000 };
    let mut toggles =
        Toggles { print_position: true, print_velocity: true, float: true, float_helper: true };
    let before = toggles;
    assert_eq!(
        chat(&mut toggles, 1, player, 2, b"!hack bogus"),
        Err(CommandError::UnknownCommand)
    );
    assert_eq!(toggles, before);
    assert_eq!(chat(&mut toggles, 1, player, 2, b"!hack tp 1"), Err(CommandError::MissingArgument));
    assert_eq!(toggles, before);
}

#[test]
fn teleport_sets_the_position_once() {
    let player = Player { address: 0x5000 };
    let mut toggles = Toggles::new();
    let plan = chat(&mut toggles, 1, player, 2, b"!hack tp 10 20 30").unwrap();
    assert_eq!(toggles, Toggles::new());
    match plan {
        ChatPlan::Teleport { actor, x, y, z } => {
            assert_eq!(actor, Actor { address: 0x5000 });
            assert_eq!(
                teleport(actor, number(&x), number(&y), number(&z)),
                Ok(HostCall::SetPosition { actor: 0x5000, position: vector(10.0, 20.0, 30.0) })
            );
        }
        _ => panic!("not a teleport"),
    }
}

#[test]
fn teleport_to_no_number_is_an_error() {
    let player = Player { address: 0x5000 };
    let mut toggles = Toggles::new();
    let plan = chat(&mut toggles, 1, player, 2, b"!hack tp 1 two 3").unwrap();
    match plan {
        ChatPlan::Teleport { actor, x, y, z } => {
            assert_eq!(number(&y), None);
            assert_eq!(
                teleport(actor, number(&x), number(&y), number(&z)),
                Err(CommandError::MalformedNumber)
            );
        }
        _ => panic!("not a teleport"),
    }
    let actor = Actor { address: 1 };
    assert_eq!(teleport(actor, None, Some(0), Some(0)), Err(CommandError::MalformedNumber));
    assert_eq!(teleport(actor, Some(0), Some(0), None), Err(CommandError::MalformedNumber));
    assert_eq!(teleport(actor, None, None, None), Err(CommandError::MalformedNumber));
    assert_eq!(
        teleport(actor, Some(1), Some(2), Some(3)),
        Ok(HostCall::SetPosition { actor: 1, position: Vector3 { x: 1, y: 2, z: 3 } })
    );
}

#[test]
fn fast_travel_calls_the_host() {
    let player = Player { address: 0x5000 };
    let mut toggles = Toggles::new();
    assert_eq!(
        chat(&mut toggles, 1, player, 2, b"!hack ft Town Cave"),
        Ok(ChatPlan::FastTravel { player, from: b"Town\0".to_vec(), to: b"Cave\0".to_vec() })
    );
    assert_eq!(toggles, Toggles::new());
    assert_eq!(
        player_fast_travel(player, b"Town\0", b"Cave\0"),
        HostCall::FastTravel {
            player: 0x5000,
            from: b"Town\0".to_vec(),
            to: b"Cave\0".to_vec(),
        }
    );
}

#[test]
fn float_mode_alternates_the_jump_state() {
    let server = GameServerConnection { address: 0x7000 };
    let player = Player { address: 0x5000 };
    let mut toggles =
        Toggles { print_position: false, print_velocity: false, float: true, float_helper: false };
    let mut previous = toggles.float_helper;
    for _ in 0..6 {
        let plan = client_send_position(&mut toggles, server, player);
        assert_eq!(
            plan,
            MovePlan {
                before: Some(HostCall::Jump { connection: 0x7000, state: !previous }),
                game_server: server,
                player,
            }
        );
        assert_eq!(toggles.float_helper, !previous);
        assert!(toggles.float);
        previous = toggles.float_helper;
    }
}

#[test]
fn without_float_mode_nothing_precedes_the_original() {
    let server = GameServerConnection { address: 0x7000 };
    let player = Player { address: 0x5000 };
    let mut toggles =
        Toggles { print_position: true, print_velocity: true, float: false, float_helper: true };
    let before = toggles;
    assert_eq!(
        client_send_position(&mut toggles, server, player),
        MovePlan { before: None, game_server: server, player }
    );
    assert_eq!(toggles, before);
}

#[test]
fn tick_follows_the_flags() {
    let player = Player { address: 0x5000 };
    let delta = 0.016f32.to_bits();
    for bits in 0..16u8 {
        let toggles = Toggles {
            print_position: bits & 1 != 0,
            print_velocity: bits & 2 != 0,
            float: bits & 4 != 0,
            float_helper: bits & 8 != 0,
        };
        let mut steps = Vec::new();
        if bits & 1 != 0 {
            steps.push(TickStep::ReportPosition);
        }
        if bits & 2 != 0 {
            steps.push(TickStep::ReportVelocity);
        }
        if bits & 4 != 0 {
            steps.push(TickStep::Lift);
        }
        steps.push(TickStep::Original);
        assert_eq!(
            player_tick(&toggles, player, delta),
            TickPlan { steps, player, delta_time: delta }
        );
    }
}

#[test]
fn tick_with_everything_on_runs_in_order() {
    let player = Player { address: 0x5000 };
    let toggles =
        Toggles { print_position: true, print_velocity: true, float: true, float_helper: false };
    assert_eq!(
        player_tick(&toggles, player, 7).steps,
        vec![
            TickStep::ReportPosition,
            TickStep::ReportVelocity,
            TickStep::Lift,
            TickStep::Original
        ]
    );
    assert_eq!(player_tick(&Toggles::new(), player, 7).steps, vec![TickStep::Original]);
}

#[test]
fn float_mode_lifts_z_and_keeps_x_and_y() {
    assert_eq!(lifted(vector(1.25, -7.5, -40.0)), vector(1.25, -7.5, 3.0));
    assert_eq!(lifted(vector(0.0, 0.0, 3.0)), vector(0.0, 0.0, 3.0));
    let odd = Vector3 { x: 0x7fc0_0001, y: 0x8000_0000, z: 0xffff_ffff };
    assert_eq!(lifted(odd), Vector3 { x: 0x7fc0_0001, y: 0x8000_0000, z: 3.0f32.to_bits() });
    let actor = Actor { address: 0x5000 };
    assert_eq!(
        actor.set_velocity(&lifted(vector(1.0, 2.0, 9.0))),
        HostCall::SetVelocity { actor: 0x5000, velocity: vector(1.0, 2.0, 3.0) }
    );
}
