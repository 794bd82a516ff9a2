//! The layout of a host actor.

use crate::layout::{Field, Kind, Layout};
use vstd::prelude::*;

verus! {

/// The size of the object in bytes.
pub const SIZE: usize = 0xa8;

/// The number of fields.
pub const FIELDS: usize = 24;

/// The address of the actor interface the object begins with. At offset 0x0.
pub const SUPER_IACTOR: usize = 0;

/// The reference count. At offset 0x8.
pub const REFS: usize = 1;

/// The numeric identifier. At offset 0x10.
pub const ID: usize = 2;

/// The address of the target. At offset 0x18.
pub const TARGET: usize = 7;

/// The address of the timers. At offset 0x20.
pub const TIMERS: usize = 8;

/// The address of the blueprint name. At offset 0x28.
pub const BLUEPRINT_NAME: usize = 9;

/// The address of the owner. At offset 0x30.
pub const OWNER: usize = 10;

/// The health. At offset 0x38.
pub const HEALTH: usize = 11;

/// The region of the state map. At offset 0x40.
pub const STATES: usize = 16;

/// The forward movement fraction. At offset 0x70.
pub const FORWARD_MOVEMENT_FRACTION: usize = 17;

/// The strafe movement fraction. At offset 0x74.
pub const STRAFE_MOVEMENT_FRACTION: usize = 18;

/// The position last known to the server. At offset 0x78.
pub const REMOTE_POSITION: usize = 19;

/// The velocity last known to the server. At offset 0x84.
pub const REMOTE_VELOCITY: usize = 20;

/// The rotation last known to the server. At offset 0x90.
pub const REMOTE_ROTATION: usize = 21;

/// The blend factor between local and remote location. At offset 0x9c.
pub const REMOTE_LOCATION_BLEND_FACTOR: usize = 22;

/// The address of the spawner. At offset 0xa0.
pub const SPAWNER: usize = 23;

/// The object header, identity and health.
pub open spec fn header() -> Seq<Field> {
    seq![
        Field { offset: 0x0, kind: Kind::Address },
        Field { offset: 0x8, kind: Kind::Size },
        Field { offset: 0x10, kind: Kind::Word },
        Field { offset: 0x14, kind: Kind::Byte },
        Field { offset: 0x15, kind: Kind::Byte },
        Field { offset: 0x16, kind: Kind::Byte },
        Field { offset: 0x17, kind: Kind::Byte },
        Field { offset: 0x18, kind: Kind::Address },
        Field { offset: 0x20, kind: Kind::Address },
        Field { offset: 0x28, kind: Kind::Address },
        Field { offset: 0x30, kind: Kind::Address },
        Field { offset: 0x38, kind: Kind::Int },
        Field { offset: 0x3c, kind: Kind::Byte },
        Field { offset: 0x3d, kind: Kind::Byte },
        Field { offset: 0x3e, kind: Kind::Byte },
        Field { offset: 0x3f, kind: Kind::Byte },
    ]
}

/// The states and what the server last knew of the motion.
pub open spec fn motion() -> Seq<Field> {
    seq![
        Field { offset: 0x40, kind: Kind::MakeshiftMap },
        Field { offset: 0x70, kind: Kind::Real },
        Field { offset: 0x74, kind: Kind::Real },
        Field { offset: 0x78, kind: Kind::Vector },
        Field { offset: 0x84, kind: Kind::Vector },
        Field { offset: 0x90, kind: Kind::Rotation },
        Field { offset: 0x9c, kind: Kind::Real },
        Field { offset: 0xa0, kind: Kind::Address },
    ]
}

/// The fields, in order.
pub open spec fn fields() -> Seq<Field> {
    header() + motion()
}

fn place_header(layout: &mut Layout)
    requires
        old(layout).spec_size() == 0x0,
    ensures
        final(layout).fields() == old(layout).fields() + header(),
        final(layout).spec_size() == 0x40,
{
    layout.place(Kind::Address);
    layout.place(Kind::Size);
    layout.place(Kind::Word);
    layout.place(Kind::Byte);
    layout.place(Kind::Byte);
    layout.place(Kind::Byte);
    layout.place(Kind::Byte);
    layout.place(Kind::Address);
    layout.place(Kind::Address);
    layout.place(Kind::Address);
    layout.place(Kind::Address);
    layout.place(Kind::Int);
    layout.place(Kind::Byte);
    layout.place(Kind::Byte);
    layout.place(Kind::Byte);
    layout.place(Kind::Byte);
    assert(layout.fields() =~= old(layout).fields() + header());
}

fn place_motion(layout: &mut Layout)
    requires
        old(layout).spec_size() == 0x40,
    ensures
        final(layout).fields() == old(layout).fields() + motion(),
        final(layout).spec_size() == 0xa8,
{
    layout.place(Kind::MakeshiftMap);
    layout.place(Kind::Real);
    layout.place(Kind::Real);
    layout.place(Kind::Vector);
    layout.place(Kind::Vector);
    layout.place(Kind::Rotation);
    layout.place(Kind::Real);
    layout.place(Kind::Address);
    assert(layout.fields() =~= old(layout).fields() + motion());
}

/// The layout of the object.
pub fn layout() -> (layout: Layout)
    ensures
        layout.wf(),
        layout.fields() == fields(),
        layout.spec_size() == SIZE,
{
    let mut layout = Layout::new();
    place_header(&mut layout);
    place_motion(&mut layout);
    assert(layout.fields() =~= fields());
    layout
}

} // verus!
