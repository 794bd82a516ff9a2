//! The layout of a host player: an actor, followed by the player's own
//! fields.

use crate::layout::{Field, Kind, Layout};
use crate::objects::actor;
use vstd::prelude::*;

verus! {

/// The size of the object in bytes.
pub const SIZE: usize = 0x330;

/// The number of fields.
pub const FIELDS: usize = 107;

/// The address of the player interface that follows the actor. At offset 0xa8.
pub const SUPER_IPLAYER: usize = 24;

/// The character identifier. At offset 0xb0.
pub const CHARACTER_ID: usize = 25;

/// The address of the player name. At offset 0xb8.
pub const PLAYER_NAME: usize = 30;

/// The address of the team name. At offset 0xc0.
pub const TEAM_NAME: usize = 31;

/// The avatar index. At offset 0xc8.
pub const AVATAR_INDEX: usize = 32;

/// The first of the four colors. At offset 0xcc.
pub const COLORS: usize = 36;

/// The region of the inventory. At offset 0xe0.
pub const INVENTORY: usize = 44;

/// The region of the pickups. At offset 0x110.
pub const PICKUPS: usize = 45;

/// The region of the cooldowns. At offset 0x140.
pub const COOLDOWNS: usize = 46;

/// The region of the circuit inputs. At offset 0x170.
pub const CIRCUIT_INPUTS: usize = 47;

/// The region of the circuit outputs. At offset 0x1a0.
pub const CIRCUIT_OUTPUTS: usize = 48;

/// Whether the player is an administrator. At offset 0x1d0.
pub const ADMIN: usize = 49;

/// Whether fighting other players is on. At offset 0x1d1.
pub const PVP_ENABLED: usize = 50;

/// Whether fighting other players is asked for. At offset 0x1d2.
pub const PVP_DESIRED: usize = 51;

/// The timer of a change of that setting. At offset 0x1d4.
pub const PVP_CHANGE_TIMER: usize = 53;

/// The reported timer of a change of that setting. At offset 0x1d8.
pub const PVP_CHANGE_REPORTED_TIMER: usize = 54;

/// Whether a region change is under way. At offset 0x1dc.
pub const CHANGING_SERVER_REGION: usize = 55;

/// The address of the current region. At offset 0x1e0.
pub const CURRENT_REGION: usize = 59;

/// The address of the destination of a region change. At offset 0x1e8.
pub const CHANGE_REGION_DESTINATION: usize = 60;

/// The region of the zones. At offset 0x1f0.
pub const AI_ZONES: usize = 61;

/// The mana. At offset 0x220.
pub const MANA: usize = 62;

/// The mana regeneration timer. At offset 0x224.
pub const MANA_REGEN_TIMER: usize = 63;

/// The health regeneration cooldown. At offset 0x228.
pub const HEALTH_REGEN_COOLDOWN: usize = 64;

/// The health regeneration timer. At offset 0x22c.
pub const HEALTH_REGEN_TIMER: usize = 65;

/// The countdown. At offset 0x230.
pub const COUNTDOWN: usize = 66;

/// The look position last known to the server. At offset 0x234.
pub const REMOTE_LOOK_POSITION: usize = 67;

/// The look rotation last known to the server. At offset 0x240.
pub const REMOTE_LOOK_ROTATION: usize = 68;

/// The first of the ten equipped item slots. At offset 0x250.
pub const EQUIPPED: usize = 73;

/// The number of the slot in use. At offset 0x2a0.
pub const CURRENT_SLOT: usize = 83;

/// The region of the quest states. At offset 0x2a8.
pub const QUEST_STATES: usize = 84;

/// The address of the current quest. At offset 0x2d8.
pub const CURRENT_QUEST: usize = 85;

/// The walking speed. At offset 0x2e0.
pub const WALKING_SPEED: usize = 86;

/// The jump speed. At offset 0x2e4.
pub const JUMP_SPEED: usize = 87;

/// The jump hold time. At offset 0x2e8.
pub const JUMP_HOLD_TIME: usize = 88;

/// The address of the character spoken to. At offset 0x2f0.
pub const CURRENT_NPC: usize = 93;

/// The address of the state of that conversation. At offset 0x2f8.
pub const CURRENT_NPC_STATE: usize = 94;

/// The address of the local player. At offset 0x300.
pub const LOCAL_PLAYER: usize = 95;

/// The address of the events to send. At offset 0x308.
pub const EVENTS_TO_SEND: usize = 96;

/// Whether the items were updated. At offset 0x310.
pub const ITEMS_UPDATED: usize = 97;

/// The item synchronisation timer. At offset 0x314.
pub const ITEM_SYNC_TIMER: usize = 101;

/// The chat flood counter. At offset 0x318.
pub const CHAT_MESSAGE_COUNTER: usize = 102;

/// The decay timer of the chat flood counter. At offset 0x31c.
pub const CHAT_FLOOD_DECAY_TIMER: usize = 103;

/// The address of the item that hit last. At offset 0x320.
pub const LAST_HIT_BY_ITEM: usize = 104;

/// The time left of the last hit. At offset 0x328.
pub const LAST_HIT_ITEM_TIME_LEFT: usize = 105;

/// The cooldown timer of the circuit state. At offset 0x32c.
pub const CIRCUIT_STATE_COOLDOWN_TIMER: usize = 106;

/// Who the player is and what the avatar looks like.
pub open spec fn identity() -> Seq<Field> {
    seq![
        Field { offset: 0xa8, kind: Kind::Address },
        Field { offset: 0xb0, kind: Kind::Word },
        Field { offset: 0xb4, kind: Kind::Byte },
        Field { offset: 0xb5, kind: Kind::Byte },
        Field { offset: 0xb6, kind: Kind::Byte },
        Field { offset: 0xb7, kind: Kind::Byte },
        Field { offset: 0xb8, kind: Kind::Address },
        Field { offset: 0xc0, kind: Kind::Address },
        Field { offset: 0xc8, kind: Kind::Byte },
        Field { offset: 0xc9, kind: Kind::Byte },
        Field { offset: 0xca, kind: Kind::Byte },
        Field { offset: 0xcb, kind: Kind::Byte },
        Field { offset: 0xcc, kind: Kind::Word },
        Field { offset: 0xd0, kind: Kind::Word },
        Field { offset: 0xd4, kind: Kind::Word },
        Field { offset: 0xd8, kind: Kind::Word },
        Field { offset: 0xdc, kind: Kind::Byte },
        Field { offset: 0xdd, kind: Kind::Byte },
        Field { offset: 0xde, kind: Kind::Byte },
        Field { offset: 0xdf, kind: Kind::Byte },
    ]
}

/// The inventory and the other containers.
pub open spec fn containers() -> Seq<Field> {
    seq![
        Field { offset: 0xe0, kind: Kind::MakeshiftMap },
        Field { offset: 0x110, kind: Kind::MakeshiftSet },
        Field { offset: 0x140, kind: Kind::MakeshiftMap },
        Field { offset: 0x170, kind: Kind::MakeshiftMap },
        Field { offset: 0x1a0, kind: Kind::MakeshiftMap },
    ]
}

/// The rights of the player and the region the player is in.
pub open spec fn standing() -> Seq<Field> {
    seq![
        Field { offset: 0x1d0, kind: Kind::Flag },
        Field { offset: 0x1d1, kind: Kind::Flag },
        Field { offset: 0x1d2, kind: Kind::Flag },
        Field { offset: 0x1d3, kind: Kind::Byte },
        Field { offset: 0x1d4, kind: Kind::Real },
        Field { offset: 0x1d8, kind: Kind::Int },
        Field { offset: 0x1dc, kind: Kind::Flag },
        Field { offset: 0x1dd, kind: Kind::Byte },
        Field { offset: 0x1de, kind: Kind::Byte },
        Field { offset: 0x1df, kind: Kind::Byte },
        Field { offset: 0x1e0, kind: Kind::Address },
        Field { offset: 0x1e8, kind: Kind::Address },
        Field { offset: 0x1f0, kind: Kind::MakeshiftSet },
    ]
}

/// Mana, regeneration, and where the player looks.
pub open spec fn vitals() -> Seq<Field> {
    seq![
        Field { offset: 0x220, kind: Kind::Int },
        Field { offset: 0x224, kind: Kind::Real },
        Field { offset: 0x228, kind: Kind::Real },
        Field { offset: 0x22c, kind: Kind::Real },
        Field { offset: 0x230, kind: Kind::Int },
        Field { offset: 0x234, kind: Kind::Vector },
        Field { offset: 0x240, kind: Kind::Rotation },
        Field { offset: 0x24c, kind: Kind::Byte },
        Field { offset: 0x24d, kind: Kind::Byte },
        Field { offset: 0x24e, kind: Kind::Byte },
        Field { offset: 0x24f, kind: Kind::Byte },
    ]
}

/// The equipped items and the quests.
pub open spec fn equipment() -> Seq<Field> {
    seq![
        Field { offset: 0x250, kind: Kind::Address },
        Field { offset: 0x258, kind: Kind::Address },
        Field { offset: 0x260, kind: Kind::Address },
        Field { offset: 0x268, kind: Kind::Address },
        Field { offset: 0x270, kind: Kind::Address },
        Field { offset: 0x278, kind: Kind::Address },
        Field { offset: 0x280, kind: Kind::Address },
        Field { offset: 0x288, kind: Kind::Address },
        Field { offset: 0x290, kind: Kind::Address },
        Field { offset: 0x298, kind: Kind::Address },
        Field { offset: 0x2a0, kind: Kind::Size },
        Field { offset: 0x2a8, kind: Kind::MakeshiftMap },
        Field { offset: 0x2d8, kind: Kind::Address },
    ]
}

/// The movement tunables and the conversation under way.
pub open spec fn movement() -> Seq<Field> {
    seq![
        Field { offset: 0x2e0, kind: Kind::Real },
        Field { offset: 0x2e4, kind: Kind::Real },
        Field { offset: 0x2e8, kind: Kind::Real },
        Field { offset: 0x2ec, kind: Kind::Byte },
        Field { offset: 0x2ed, kind: Kind::Byte },
        Field { offset: 0x2ee, kind: Kind::Byte },
        Field { offset: 0x2ef, kind: Kind::Byte },
        Field { offset: 0x2f0, kind: Kind::Address },
        Field { offset: 0x2f8, kind: Kind::Address },
        Field { offset: 0x300, kind: Kind::Address },
        Field { offset: 0x308, kind: Kind::Address },
    ]
}

/// Item synchronisation, chat flood control and the last hit.
pub open spec fn upkeep() -> Seq<Field> {
    seq![
        Field { offset: 0x310, kind: Kind::Flag },
        Field { offset: 0x311, kind: Kind::Byte },
        Field { offset: 0x312, kind: Kind::Byte },
        Field { offset: 0x313, kind: Kind::Byte },
        Field { offset: 0x314, kind: Kind::Real },
        Field { offset: 0x318, kind: Kind::Word },
        Field { offset: 0x31c, kind: Kind::Real },
        Field { offset: 0x320, kind: Kind::Address },
        Field { offset: 0x328, kind: Kind::Real },
        Field { offset: 0x32c, kind: Kind::Real },
    ]
}

/// The fields, in order: those of the actor, then the player's own.
pub open spec fn fields() -> Seq<Field> {
    actor::fields() + identity() + containers() + standing() + vitals() + equipment() + movement() + upkeep()
}

fn place_identity(layout: &mut Layout)
    requires
        old(layout).spec_size() == 0xa8,
    ensures
        final(layout).fields() == old(layout).fields() + identity(),
        final(layout).spec_size() == 0xe0,
{
    layout.place(Kind::Address);
    layout.place(Kind::Word);
    layout.place(Kind::Byte);
    layout.place(Kind::Byte);
    layout.place(Kind::Byte);
    layout.place(Kind::Byte);
    layout.place(Kind::Address);
    layout.place(Kind::Address);
    layout.place(Kind::Byte);
    layout.place(Kind::Byte);
    layout.place(Kind::Byte);
    layout.place(Kind::Byte);
    layout.place(Kind::Word);
    layout.place(Kind::Word);
    layout.place(Kind::Word);
    layout.place(Kind::Word);
    layout.place(Kind::Byte);
    layout.place(Kind::Byte);
    layout.place(Kind::Byte);
    layout.place(Kind::Byte);
    assert(layout.fields() =~= old(layout).fields() + identity());
}

fn place_containers(layout: &mut Layout)
    requires
        old(layout).spec_size() == 0xe0,
    ensures
        final(layout).fields() == old(layout).fields() + containers(),
        final(layout).spec_size() == 0x1d0,
{
    layout.place(Kind::MakeshiftMap);
    layout.place(Kind::MakeshiftSet);
    layout.place(Kind::MakeshiftMap);
    layout.place(Kind::MakeshiftMap);
    layout.place(Kind::MakeshiftMap);
    assert(layout.fields() =~= old(layout).fields() + containers());
}

fn place_standing(layout: &mut Layout)
    requires
        old(layout).spec_size() == 0x1d0,
    ensures
        final(layout).fields() == old(layout).fields() + standing(),
        final(layout).spec_size() == 0x220,
{
    layout.place(Kind::Flag);
    layout.place(Kind::Flag);
    layout.place(Kind::Flag);
    layout.place(Kind::Byte);
    layout.place(Kind::Real);
    layout.place(Kind::Int);
    layout.place(Kind::Flag);
    layout.place(Kind::Byte);
    layout.place(Kind::Byte);
    layout.place(Kind::Byte);
    layout.place(Kind::Address);
    layout.place(Kind::Address);
    layout.place(Kind::MakeshiftSet);
    assert(layout.fields() =~= old(layout).fields() + standing());
}

fn place_vitals(layout: &mut Layout)
    requires
        old(layout).spec_size() == 0x220,
    ensures
        final(layout).fields() == old(layout).fields() + vitals(),
        final(layout).spec_size() == 0x250,
{
    layout.place(Kind::Int);
    layout.place(Kind::Real);
    layout.place(Kind::Real);
    layout.place(Kind::Real);
    layout.place(Kind::Int);
    layout.place(Kind::Vector);
    layout.place(Kind::Rotation);
    layout.place(Kind::Byte);
    layout.place(Kind::Byte);
    layout.place(Kind::Byte);
    layout.place(Kind::Byte);
    assert(layout.fields() =~= old(layout).fields() + vitals());
}

fn place_equipment(layout: &mut Layout)
    requires
        old(layout).spec_size() == 0x250,
    ensures
        final(layout).fields() == old(layout).fields() + equipment(),
        final(layout).spec_size() == 0x2e0,
{
    layout.place(Kind::Address);
    layout.place(Kind::Address);
    layout.place(Kind::Address);
    layout.place(Kind::Address);
    layout.place(Kind::Address);
    layout.place(Kind::Address);
    layout.place(Kind::Address);
    layout.place(Kind::Address);
    layout.place(Kind::Address);
    layout.place(Kind::Address);
    layout.place(Kind::Size);
    layout.place(Kind::MakeshiftMap);
    layout.place(Kind::Address);
    assert(layout.fields() =~= old(layout).fields() + equipment());
}

fn place_movement(layout: &mut Layout)
    requires
        old(layout).spec_size() == 0x2e0,
    ensures
        final(layout).fields() == old(layout).fields() + movement(),
        final(layout).spec_size() == 0x310,
{
    layout.place(Kind::Real);
    layout.place(Kind::Real);
    layout.place(Kind::Real);
    layout.place(Kind::Byte);
    layout.place(Kind::Byte);
    layout.place(Kind::Byte);
    layout.place(Kind::Byte);
    layout.place(Kind::Address);
    layout.place(Kind::Address);
    layout.place(Kind::Address);
    layout.place(Kind::Address);
    assert(layout.fields() =~= old(layout).fields() + movement());
}

fn place_upkeep(layout: &mut Layout)
    requires
        old(layout).spec_size() == 0x310,
    ensures
        final(layout).fields() == old(layout).fields() + upkeep(),
        final(layout).spec_size() == 0x330,
{
    layout.place(Kind::Flag);
    layout.place(Kind::Byte);
    layout.place(Kind::Byte);
    layout.place(Kind::Byte);
    layout.place(Kind::Real);
    layout.place(Kind::Word);
    layout.place(Kind::Real);
    layout.place(Kind::Address);
    layout.place(Kind::Real);
    layout.place(Kind::Real);
    assert(layout.fields() =~= old(layout).fields() + upkeep());
}

/// The layout of the object.
pub fn layout() -> (layout: Layout)
    ensures
        layout.wf(),
        layout.fields() == fields(),
        layout.spec_size() == SIZE,
{
    let mut layout = actor::layout();
    place_identity(&mut layout);
    place_containers(&mut layout);
    place_standing(&mut layout);
    place_vitals(&mut layout);
    place_equipment(&mut layout);
    place_movement(&mut layout);
    place_upkeep(&mut layout);
    assert(layout.fields() =~= fields());
    layout
}

/// A player object begins with an actor: the actor's fields are the
/// player's first fields, at the same offsets, and the player's own fields
/// start where the actor ends.
pub proof fn lemma_begins_with_actor()
    ensures
        fields().len() == FIELDS,
        fields().take(actor::FIELDS as int) == actor::fields(),
        fields()[actor::FIELDS as int].offset == actor::SIZE,
{
    assert(fields().take(actor::FIELDS as int) =~= actor::fields());
}

} // verus!
