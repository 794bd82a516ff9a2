//! The layout of the host's connection to the game server.

use crate::layout::{Field, Kind, Layout};
use vstd::prelude::*;

verus! {

/// The size of the object in bytes.
pub const SIZE: usize = 0x130;

/// The number of fields.
pub const FIELDS: usize = 5;

/// The base connection the object begins with. At offset 0x0.
pub const SUPER_SERVER_CONNECTION: usize = 0;

/// The socket handle. At offset 0x100.
pub const SOCK: usize = 1;

/// The write stream buffer. At offset 0x108.
pub const WRITE_STREAM: usize = 2;

/// Whether a tick is in progress. At offset 0x128.
pub const TICK_IN_PROGRESS: usize = 3;

/// The padding that ends the object. At offset 0x129.
pub const ALIGN: usize = 4;

/// The fields, in order.
pub open spec fn fields() -> Seq<Field> {
    seq![
        Field { offset: 0x0, kind: Kind::Opaque(256) },
        Field { offset: 0x100, kind: Kind::Address },
        Field { offset: 0x108, kind: Kind::Opaque(32) },
        Field { offset: 0x128, kind: Kind::Flag },
        Field { offset: 0x129, kind: Kind::Opaque(7) },
    ]
}

/// The layout of the object.
pub fn layout() -> (layout: Layout)
    ensures
        layout.wf(),
        layout.fields() == fields(),
        layout.spec_size() == SIZE,
{
    let mut layout = Layout::new();
    layout.place(Kind::Opaque(256));
    layout.place(Kind::Address);
    layout.place(Kind::Opaque(32));
    layout.place(Kind::Flag);
    layout.place(Kind::Opaque(7));
    assert(layout.fields() =~= fields());
    layout
}

} // verus!
