//! What each substitute does when the host calls an intercepted symbol.
//!
//! A substitute never calls the host itself. It returns a plan: the calls to
//! make, and whether and with which arguments to invoke the original, that
//! is, the host's own implementation of the symbol, which the substitute
//! pre-empted. The caller carries the plan out in the order the plan's
//! documentation gives.

use crate::command::{parse, reading, Command, CommandError, Intent};
use crate::host::{Actor, GameServerConnection, HostCall, Player, Vector3};
use vstd::prelude::*;

verus! {

/// The binary32 number 1000, which every forced movement constant is set to.
pub const FORCED_SPEED: u32 = 0x447a_0000;

/// The binary32 number 3, the upward velocity that float mode holds.
pub const FLOAT_LIFT: u32 = 0x4040_0000;

/// The process-wide feature flags. They are independent of each other.
#[derive(Clone, Copy, Debug, PartialEq, Eq)]
pub struct Toggles {
    /// Print position and rotation on every tick.
    pub print_position: bool,
    /// Print velocity on every tick.
    pub print_velocity: bool,
    /// Hold the player in the air.
    pub float: bool,
    /// The jump state last sent to the server while floating.
    pub float_helper: bool,
}

impl Toggles {
    /// The flags after a command: a toggle flips its own flag and no other;
    /// any other command leaves all of them as they were.
    pub open spec fn after(self, intent: Intent) -> Toggles {
        match intent {
            Intent::TogglePosition => Toggles { print_position: !self.print_position, ..self },
            Intent::ToggleVelocity => Toggles { print_velocity: !self.print_velocity, ..self },
            Intent::ToggleFloat => Toggles { float: !self.float, ..self },
            _ => self,
        }
    }

    /// The flags after a position update was sent: while floating, the jump
    /// state alternates.
    pub open spec fn after_move(self) -> Toggles {
        if self.float {
            Toggles { float_helper: !self.float_helper, ..self }
        } else {
            self
        }
    }

    /// All flags off.
    pub fn new() -> (toggles: Toggles)
        ensures
            toggles == (Toggles {
                print_position: false,
                print_velocity: false,
                float: false,
                float_helper: false,
            }),
    {
        Toggles { print_position: false, print_velocity: false, float: false, float_helper: false }
    }
}

/// The jump speed the host is told: always [`FORCED_SPEED`].
pub fn jump_high(_x: usize) -> (speed: u32)
    ensures
        speed == FORCED_SPEED,
{
    FORCED_SPEED
}

/// The walking speed the host is told: always [`FORCED_SPEED`].
pub fn walk_fast(_x: usize) -> (speed: u32)
    ensures
        speed == FORCED_SPEED,
{
    FORCED_SPEED
}

/// The jump hold time the host is told: always [`FORCED_SPEED`].
pub fn jump_hold(_x: usize) -> (time: u32)
    ensures
        time == FORCED_SPEED,
{
    FORCED_SPEED
}

/// Whether the player can jump: always.
pub fn can_jump(_x: usize) -> (allowed: bool)
    ensures
        allowed,
{
    true
}

/// Whether an item can be stolen: always.
pub fn can_steal(_x: usize, _y: usize, _z: usize) -> (allowed: bool)
    ensures
        allowed,
{
    true
}

/// The plan for the egg's usability check: invoke the original with `x` and
/// `y`, drop what it returns, and answer `answer`.
#[derive(Clone, Copy, Debug, PartialEq, Eq)]
pub struct EggPlan {
    pub x: usize,
    pub y: usize,
    pub answer: bool,
}

/// Makes the last egg usable: the host's own check still runs, with the
/// arguments the host passed, and its answer is replaced by `true`.
pub fn last_egg(x: usize, y: usize) -> (plan: EggPlan)
    ensures
        plan == (EggPlan { x, y, answer: true }),
{
    EggPlan { x, y, answer: true }
}

/// The plan for a position update: make the call in `before`, if any, then
/// invoke the original with `game_server` and `player` and return what it
/// returns.
#[derive(Debug, PartialEq, Eq)]
pub struct MovePlan {
    pub before: Option<HostCall>,
    pub game_server: GameServerConnection,
    pub player: Player,
}

/// Runs before the host sends the player's position. The server takes a
/// player who has not jumped recently to be falling, so while float mode is
/// on each update is preceded by a jump whose state is the opposite of the
/// one sent before.
pub fn client_send_position(
    toggles: &mut Toggles,
    game_server: GameServerConnection,
    player: Player,
) -> (plan: MovePlan)
    ensures
        *final(toggles) == old(toggles).after_move(),
        plan.game_server == game_server,
        plan.player == player,
        plan.before == (if old(toggles).float {
            Some(HostCall::Jump { connection: game_server.address, state: !old(toggles).float_helper })
        } else {
            None
        }),
{
    let before = if toggles.float {
        toggles.float_helper = !toggles.float_helper;
        Some(game_server.jump(toggles.float_helper))
    } else {
        None
    };
    MovePlan { before, game_server, player }
}

/// One thing to do during a player tick.
#[derive(Clone, Copy, Debug, PartialEq, Eq)]
pub enum TickStep {
    /// Read the actor's position and rotation from the host and print them.
    ReportPosition,
    /// Read the actor's velocity from the host and print it.
    ReportVelocity,
    /// Read the actor's velocity from the host and set it to what [`lifted`]
    /// makes of it.
    Lift,
    /// Invoke the original with the plan's `player` and `delta_time` and
    /// return what it returns.
    Original,
}

/// The plan for a player tick: the steps to take, in order, and the
/// arguments for the original.
#[derive(Debug, PartialEq, Eq)]
pub struct TickPlan {
    pub steps: Vec<TickStep>,
    pub player: Player,
    pub delta_time: u32,
}

/// `step` if `wanted`, else nothing.
pub open spec fn step_if(wanted: bool, step: TickStep) -> Seq<TickStep> {
    if wanted {
        seq![step]
    } else {
        Seq::empty()
    }
}

/// The steps of a player tick: the reports that are switched on, position
/// before velocity, then the lift if float mode is on, then the original,
/// always and last.
pub open spec fn tick_steps(toggles: Toggles) -> Seq<TickStep> {
    step_if(toggles.print_position, TickStep::ReportPosition) + step_if(
        toggles.print_velocity,
        TickStep::ReportVelocity,
    ) + step_if(toggles.float, TickStep::Lift) + seq![TickStep::Original]
}

/// Runs before the host's per-tick update of a player. `delta_time` is a
/// binary32 number held as its bit pattern.
pub fn player_tick(toggles: &Toggles, player: Player, delta_time: u32) -> (plan: TickPlan)
    ensures
        plan.steps@ == tick_steps(*toggles),
        plan.player == player,
        plan.delta_time == delta_time,
{
    let mut steps: Vec<TickStep> = Vec::new();
    if toggles.print_position {
        steps.push(TickStep::ReportPosition);
    }
    if toggles.print_velocity {
        steps.push(TickStep::ReportVelocity);
    }
    if toggles.float {
        steps.push(TickStep::Lift);
    }
    steps.push(TickStep::Original);
    assert(steps@ =~= tick_steps(*toggles));
    TickPlan { steps, player, delta_time }
}

/// The velocity that float mode sets: `velocity` with its z replaced by
/// [`FLOAT_LIFT`].
pub fn lifted(velocity: Vector3) -> (raised: Vector3)
    ensures
        raised.x == velocity.x,
        raised.y == velocity.y,
        raised.z == FLOAT_LIFT,
{
    Vector3 { x: velocity.x, y: velocity.y, z: FLOAT_LIFT }
}

/// What to do with a chat line.
#[derive(Debug, PartialEq, Eq)]
pub enum ChatPlan {
    /// Ordinary chat: invoke the original with these arguments and nothing
    /// else.
    Original { client_world: usize, player: Player, text: usize },
    /// A flag was flipped. The original is not invoked.
    Toggled,
    /// Read the three words as binary32 numbers and make the call that
    /// [`teleport`] gives for them. The original is not invoked.
    Teleport { actor: Actor, x: Vec<u8>, y: Vec<u8>, z: Vec<u8> },
    /// Travel between the two zones, each given by its name with a NUL at
    /// the end. The original is not invoked.
    FastTravel { player: Player, from: Vec<u8>, to: Vec<u8> },
}

/// A chat plan with its words as byte sequences.
pub enum ChatPlanView {
    Original { client_world: usize, player: Player, text: usize },
    Toggled,
    Teleport { actor: Actor, x: Seq<u8>, y: Seq<u8>, z: Seq<u8> },
    FastTravel { player: Player, from: Seq<u8>, to: Seq<u8> },
}

impl View for ChatPlan {
    type V = ChatPlanView;

    open spec fn view(&self) -> ChatPlanView {
        match self {
            ChatPlan::Original { client_world, player, text } => ChatPlanView::Original {
                client_world: *client_world,
                player: *player,
                text: *text,
            },
            ChatPlan::Toggled => ChatPlanView::Toggled,
            ChatPlan::Teleport { actor, x, y, z } => ChatPlanView::Teleport {
                actor: *actor,
                x: x@,
                y: y@,
                z: z@,
            },
            ChatPlan::FastTravel { player, from, to } => ChatPlanView::FastTravel {
                player: *player,
                from: from@,
                to: to@,
            },
        }
    }
}

/// The plan that a chat line calls for.
pub open spec fn chat_plan(
    client_world: usize,
    player: Player,
    text_address: usize,
    asked: Option<Intent>,
) -> ChatPlanView {
    match asked {
        None => ChatPlanView::Original { client_world, player, text: text_address },
        Some(Intent::Teleport { x, y, z }) => ChatPlanView::Teleport {
            actor: Actor { address: player.address },
            x,
            y,
            z,
        },
        Some(Intent::FastTravel { from, to }) => ChatPlanView::FastTravel { player, from, to },
        Some(_) => ChatPlanView::Toggled,
    }
}

/// The flags after a chat line.
pub open spec fn chat_toggles(toggles: Toggles, asked: Option<Intent>) -> Toggles {
    match asked {
        Some(intent) => toggles.after(intent),
        None => toggles,
    }
}

/// Runs in place of the host's chat delivery. `text` holds the bytes of the
/// message and `text_address` is the argument through which the host passed
/// it. A line that is no command is passed to the original unchanged; a
/// command is carried out and never reaches the chat; a malformed command is
/// an error and changes nothing.
pub fn chat(
    toggles: &mut Toggles,
    client_world: usize,
    player: Player,
    text_address: usize,
    text: &[u8],
) -> (plan: Result<ChatPlan, CommandError>)
    ensures
        match plan {
            Ok(plan) => reading(text@) is Ok && plan@ == chat_plan(
                client_world,
                player,
                text_address,
                reading(text@)->Ok_0,
            ) && *final(toggles) == chat_toggles(*old(toggles), reading(text@)->Ok_0),
            Err(e) => reading(text@) == Err::<Option<Intent>, CommandError>(e) && *final(toggles)
                == *old(toggles),
        },
{
    match parse(text) {
        Err(e) => Err(e),
        Ok(None) => Ok(ChatPlan::Original { client_world, player, text: text_address }),
        Ok(Some(Command::TogglePosition)) => {
            toggles.print_position = !toggles.print_position;
            Ok(ChatPlan::Toggled)
        },
        Ok(Some(Command::ToggleVelocity)) => {
            toggles.print_velocity = !toggles.print_velocity;
            Ok(ChatPlan::Toggled)
        },
        Ok(Some(Command::ToggleFloat)) => {
            toggles.float = !toggles.float;
            Ok(ChatPlan::Toggled)
        },
        Ok(Some(Command::Teleport { x, y, z })) => Ok(
            ChatPlan::Teleport { actor: player.super_actor(), x, y, z },
        ),
        Ok(Some(Command::FastTravel { from, to })) => Ok(
            ChatPlan::FastTravel { player, from, to },
        ),
    }
}

/// The call that a teleport makes. Each coordinate is what its word reads
/// as: the bit pattern of a binary32 number, or nothing where the word
/// spells no number. The position is set once, through the host, to
/// exactly these numbers; a word that spells no number is an error.
pub fn teleport(actor: Actor, x: Option<u32>, y: Option<u32>, z: Option<u32>) -> (call: Result<
    HostCall,
    CommandError,
>)
    ensures
        call == (match (x, y, z) {
            (Some(x), Some(y), Some(z)) => Ok(
                HostCall::SetPosition { actor: actor.address, position: Vector3 { x, y, z } },
            ),
            _ => Err(CommandError::MalformedNumber),
        }),
{
    match (x, y, z) {
        (Some(x), Some(y), Some(z)) => Ok(actor.set_position(&Vector3 { x, y, z })),
        _ => Err(CommandError::MalformedNumber),
    }
}

/// One toggle command flips its flag and leaves the others alone; the same
/// command again restores every flag.
pub proof fn law_toggle_twice(toggles: Toggles, intent: Intent)
    requires
        intent is TogglePosition || intent is ToggleVelocity || intent is ToggleFloat,
    ensures
        toggles.after(intent) != toggles,
        toggles.after(intent).after(intent) == toggles,
        toggles.after(intent).print_position == (toggles.print_position != (
        intent is TogglePosition)),
        toggles.after(intent).print_velocity == (toggles.print_velocity != (
        intent is ToggleVelocity)),
        toggles.after(intent).float == (toggles.float != (intent is ToggleFloat)),
        toggles.after(intent).float_helper == toggles.float_helper,
{
}

/// The chat substitute passes a line on with the host's own arguments
/// exactly when the line is no command, and then changes no flag.
pub proof fn law_chat_delegation(
    toggles: Toggles,
    client_world: usize,
    player: Player,
    text_address: usize,
    text: Seq<u8>,
)
    requires
        reading(text) is Ok,
    ensures
        ({
            let asked = reading(text)->Ok_0;
            let plan = chat_plan(client_world, player, text_address, asked);
            &&& !crate::command::is_command(text) ==> plan == (ChatPlanView::Original {
                client_world,
                player,
                text: text_address,
            }) && chat_toggles(toggles, asked) == toggles
            &&& crate::command::is_command(text) ==> !(plan is Original)
        }),
{
}

/// A player tick ends with the original and invokes it exactly once; float
/// mode decides alone whether the velocity is lifted before that.
pub proof fn law_tick_delegates(toggles: Toggles)
    ensures
        tick_steps(toggles).last() == TickStep::Original,
        forall|i: int|
            0 <= i < tick_steps(toggles).len() - 1 ==> tick_steps(toggles)[i] != TickStep::Original,
        tick_steps(toggles).contains(TickStep::Lift) == toggles.float,
{
    let steps = tick_steps(toggles);
    if toggles.float {
        assert(steps[steps.len() - 2] == TickStep::Lift);
    }
}

/// While float mode is on, each position update sends the opposite of the
/// jump state sent before, and touches no other flag.
pub proof fn law_float_alternates(toggles: Toggles)
    requires
        toggles.float,
    ensures
        toggles.after_move().float_helper == !toggles.float_helper,
        toggles.after_move().after_move() == toggles,
        toggles.after_move().float,
        toggles.after_move().print_position == toggles.print_position,
        toggles.after_move().print_velocity == toggles.print_velocity,
{
}

} // verus!
