//! The character's per-state physics context and the six typestate
//! structs. Each state exposes exactly the transitions that are legal
//! for it; the shared context update rule applies gravity up to a
//! terminal cap, advances (or freezes) the animation frame counter,
//! integrates vertical velocity and clamps to the floor line.

use vstd::prelude::*;

use crate::geometry::{Point, PointModel, COORD_MAX, COORD_MIN};

verus! {

/// Height of the playing field in world units.
pub const HEIGHT: i16 = 600;
/// World y-coordinate of the floor line the character stands on.
pub const FLOOR: i16 = 479;
/// Vertical extent of the character sprite above the surface it stands on.
pub const PLAYER_HEIGHT: i16 = HEIGHT - FLOOR;
/// Initial x-coordinate of the character.
pub const STARTING_POINT: i16 = -20;

/// Frame-counter threshold of the idle animation.
pub const IDLE_FRAMES: u8 = 29;
/// Frame-counter threshold of the sliding animation.
pub const SLIDING_FRAMES: u8 = 14;
/// Frame-counter threshold of the running animation.
pub const RUNNING_FRAMES: u8 = 23;
/// Frame-counter threshold of the jumping animation.
pub const JUMP_FRAMES: u8 = 35;
/// Frame-counter threshold of the falling animation.
pub const FALL_FRAMES: u8 = 29;

/// Horizontal speed gained when the character starts running.
pub const RUNNING_SPEED: i16 = 4;
/// Vertical launch velocity of a jump (negative is upward).
pub const JUMP_SPEED: i16 = -23;
/// Downward acceleration added to the vertical velocity each tick.
pub const GRAVITY: i16 = 1;
/// Cap on the downward velocity that gravity can build up.
pub const TERMINAL_VELOCITY: i16 = 20;

/// The most a character can still rise (in world units) from a given
/// downward velocity before gravity turns it around: the sum
/// `(-vy - 1) + (-vy - 2) + ... + 1` for the jump launch speed.
pub const MAX_RISE: i16 = 253;
/// Lower bound on the y-coordinate of a character in a grounded state
/// (idle, running, sliding): it was last anchored at a floor or a
/// platform top, and can since have risen at most `MAX_RISE`.
pub const GROUND_Y_MIN: i16 = COORD_MIN - PLAYER_HEIGHT - MAX_RISE;
/// Lower bound on the y-coordinate of an airborne character (jumping,
/// falling, knocked out): one more jump's worth of rise below a
/// grounded anchor.
pub const AIR_Y_MIN: i16 = GROUND_Y_MIN - MAX_RISE;

/// How much higher a character with upward velocity `vy` can still get
/// before gravity brings the velocity back to zero: the sum of all
/// future upward steps `(-vy - 1) + (-vy - 2) + ... + 1`.
pub open spec fn rise_left(vy: int) -> int
    decreases (if vy < 0 { -vy } else { 0 }),
{
    if vy >= 0 {
        0
    } else {
        (-vy - 1) + rise_left(vy + 1)
    }
}

pub proof fn lemma_rise_left_nonneg(vy: int)
    ensures
        rise_left(vy) >= 0,
    decreases (if vy < 0 { -vy } else { 0 }),
{
    if vy < 0 {
        lemma_rise_left_nonneg(vy + 1);
    }
}

pub proof fn lemma_rise_left_mono(a: int, b: int)
    requires
        a <= b,
    ensures
        rise_left(a) >= rise_left(b),
    decreases b - a,
{
    if a < b {
        lemma_rise_left_mono(a + 1, b);
        if a < 0 {
            lemma_rise_left_nonneg(a + 1);
        }
    }
}

pub proof fn lemma_rise_left_bound(vy: int)
    requires
        vy >= JUMP_SPEED as int,
    ensures
        rise_left(vy) <= MAX_RISE as int,
{
    lemma_rise_left_mono(JUMP_SPEED as int, vy);
    reveal_with_fuel(rise_left, 25);
    assert(rise_left(JUMP_SPEED as int) == MAX_RISE as int);
}

/// Mathematical model of a character context: unbounded integers.
pub ghost struct ContextModel {
    pub frame: int,
    pub position: PointModel,
    pub velocity: PointModel,
}

/// Mutable physics/animation state owned by the character's current
/// state variant; replaced, not mutated in place, on every transition.
#[derive(Clone, Copy, PartialEq, Eq, Structural, Debug)]
pub struct RedHatBoyContext {
    pub frame: u8,
    pub position: Point,
    pub velocity: Point,
}

impl View for RedHatBoyContext {
    type V = ContextModel;

    open spec fn view(&self) -> ContextModel {
        ContextModel { frame: self.frame as int, position: self.position@, velocity: self.velocity@ }
    }
}

/// The shared per-tick physics rule: gravity up to the terminal cap,
/// frame counter incremented and wrapped at `frame_count`, vertical
/// velocity integrated, and the result clamped to the floor line.
pub open spec fn spec_update(c: ContextModel, frame_count: int) -> ContextModel {
    let vy = if c.velocity.y < TERMINAL_VELOCITY as int {
        c.velocity.y + GRAVITY as int
    } else {
        c.velocity.y
    };
    let frame = if c.frame < frame_count {
        c.frame + 1
    } else {
        0
    };
    let y_run = c.position.y + vy;
    let y = if y_run > FLOOR as int {
        FLOOR as int
    } else {
        y_run
    };
    ContextModel {
        frame,
        position: PointModel { x: c.position.x, y },
        velocity: PointModel { x: c.velocity.x, y: vy },
    }
}

/// The per-tick physics rule of the knocked-out state: gravity and
/// integration as in `spec_update`, but the frame counter is frozen.
pub open spec fn spec_update_fixed(c: ContextModel) -> ContextModel {
    let vy = if c.velocity.y < TERMINAL_VELOCITY as int {
        c.velocity.y + GRAVITY as int
    } else {
        c.velocity.y
    };
    let y_run = c.position.y + vy;
    let y = if y_run > FLOOR as int {
        FLOOR as int
    } else {
        y_run
    };
    ContextModel {
        frame: c.frame,
        position: PointModel { x: c.position.x, y },
        velocity: PointModel { x: c.velocity.x, y: vy },
    }
}

pub open spec fn spec_reset_frame(c: ContextModel) -> ContextModel {
    ContextModel { frame: 0, ..c }
}

pub open spec fn spec_run_right(c: ContextModel) -> ContextModel {
    ContextModel {
        velocity: PointModel { x: c.velocity.x + RUNNING_SPEED as int, y: c.velocity.y },
        ..c
    }
}

pub open spec fn spec_set_vertical_velocity(c: ContextModel, y: int) -> ContextModel {
    ContextModel { velocity: PointModel { x: c.velocity.x, y }, ..c }
}

pub open spec fn spec_stop(c: ContextModel) -> ContextModel {
    ContextModel { velocity: PointModel { x: 0, y: c.velocity.y }, ..c }
}

/// Re-anchors the character's y-position onto a surface whose top edge
/// is at `position`: the sprite stands `PLAYER_HEIGHT` above it.
pub open spec fn spec_set_on(c: ContextModel, position: int) -> ContextModel {
    ContextModel {
        position: PointModel { x: c.position.x, y: position - PLAYER_HEIGHT as int },
        ..c
    }
}

/// The machine-representable band every reachable context stays in;
/// `i16` arithmetic in the update rule cannot overflow inside it.
pub open spec fn ctx_fits(c: ContextModel) -> bool {
    &&& 0 <= c.velocity.x <= RUNNING_SPEED as int
    &&& JUMP_SPEED as int <= c.velocity.y <= TERMINAL_VELOCITY as int
    &&& COORD_MIN as int <= c.position.x <= COORD_MAX as int
    &&& AIR_Y_MIN as int <= c.position.y <= COORD_MAX as int
}

impl RedHatBoyContext {
    /// Advances physics and the frame counter by one tick.
    pub fn update(self, frame_count: u8) -> (r: RedHatBoyContext)
        requires
            self@.velocity.y < i16::MAX as int,
            i16::MIN as int <= self@.position.y + self@.velocity.y,
            self@.position.y + self@.velocity.y + 1 <= i16::MAX as int,
        ensures
            r@ == spec_update(self@, frame_count as int),
    {
        let mut ctx = self;
        if ctx.velocity.y < TERMINAL_VELOCITY {
            ctx.velocity.y = ctx.velocity.y + GRAVITY;
        }
        if ctx.frame < frame_count {
            ctx.frame = ctx.frame + 1;
        } else {
            ctx.frame = 0;
        }
        ctx.position.y = ctx.position.y + ctx.velocity.y;
        if ctx.position.y > FLOOR {
            ctx.position.y = FLOOR;
        }
        ctx
    }

    /// Advances physics by one tick while keeping the frame counter
    /// frozen; the rule of the terminal knocked-out state.
    pub fn update_with_fixed_frame(self) -> (r: RedHatBoyContext)
        requires
            self@.velocity.y < i16::MAX as int,
            i16::MIN as int <= self@.position.y + self@.velocity.y,
            self@.position.y + self@.velocity.y + 1 <= i16::MAX as int,
        ensures
            r@ == spec_update_fixed(self@),
    {
        let mut ctx = self;
        if ctx.velocity.y < TERMINAL_VELOCITY {
            ctx.velocity.y = ctx.velocity.y + GRAVITY;
        }
        ctx.position.y = ctx.position.y + ctx.velocity.y;
        if ctx.position.y > FLOOR {
            ctx.position.y = FLOOR;
        }
        ctx
    }

    pub fn reset_frame(self) -> (r: RedHatBoyContext)
        ensures
            r@ == spec_reset_frame(self@),
    {
        let mut ctx = self;
        ctx.frame = 0;
        ctx
    }

    pub fn run_right(self) -> (r: RedHatBoyContext)
        requires
            self@.velocity.x + RUNNING_SPEED as int <= i16::MAX as int,
        ensures
            r@ == spec_run_right(self@),
    {
        let mut ctx = self;
        ctx.velocity.x = ctx.velocity.x + RUNNING_SPEED;
        ctx
    }

    pub fn set_vertical_velocity(self, y: i16) -> (r: RedHatBoyContext)
        ensures
            r@ == spec_set_vertical_velocity(self@, y as int),
    {
        let mut ctx = self;
        ctx.velocity.y = y;
        ctx
    }

    pub fn stop(self) -> (r: RedHatBoyContext)
        ensures
            r@ == spec_stop(self@),
    {
        let mut ctx = self;
        ctx.velocity.x = 0;
        ctx
    }

    pub fn set_on(self, position: i16) -> (r: RedHatBoyContext)
        requires
            i16::MIN as int <= position - PLAYER_HEIGHT as int,
        ensures
            r@ == spec_set_on(self@, position as int),
    {
        let mut ctx = self;
        ctx.position.y = position - PLAYER_HEIGHT;
        ctx
    }
}

/// The context of a freshly constructed character: idle at the
/// starting point on the floor, at rest, frame counter zero.
pub open spec fn initial_context() -> ContextModel {
    ContextModel {
        frame: 0,
        position: PointModel { x: STARTING_POINT as int, y: FLOOR as int },
        velocity: PointModel { x: 0, y: 0 },
    }
}

/// Tag of the idle state.
#[derive(Clone, Copy)]
pub struct Idle;

/// Tag of the running state.
#[derive(Clone, Copy)]
pub struct Running;

/// Tag of the sliding state.
#[derive(Clone, Copy)]
pub struct Sliding;

/// Tag of the jumping state.
#[derive(Clone, Copy)]
pub struct Jumping;

/// Tag of the falling (knock-out animation) state.
#[derive(Clone, Copy)]
pub struct Falling;

/// Tag of the terminal knocked-out state.
#[derive(Clone, Copy)]
pub struct KnockedOut;

/// A context together with a zero-size tag identifying the state it
/// belongs to; the tag alone decides which transitions are legal.
#[derive(Clone, Copy)]
pub struct RedHatBoyState<S> {
    context: RedHatBoyContext,
    _state: S,
}

impl<S> View for RedHatBoyState<S> {
    type V = ContextModel;

    closed spec fn view(&self) -> ContextModel {
        self.context@
    }
}

impl<S> RedHatBoyState<S> {
    pub fn context(&self) -> (r: &RedHatBoyContext)
        ensures
            r@ == self@,
    {
        &self.context
    }
}

impl RedHatBoyState<Idle> {
    /// The character as first constructed: idle at the starting point
    /// on the floor, at rest, frame counter zero.
    pub fn new() -> (r: RedHatBoyState<Idle>)
        ensures
            r@ == initial_context(),
    {
        RedHatBoyState {
            context: RedHatBoyContext {
                frame: 0,
                position: Point { x: STARTING_POINT, y: FLOOR },
                velocity: Point { x: 0, y: 0 },
            },
            _state: Idle {},
        }
    }

    /// Starts running: frame reset, running speed added to x-velocity.
    pub fn run(self) -> (r: RedHatBoyState<Running>)
        requires
            self@.velocity.x + RUNNING_SPEED as int <= i16::MAX as int,
        ensures
            r@ == spec_run_right(spec_reset_frame(self@)),
    {
        RedHatBoyState { context: self.context.reset_frame().run_right(), _state: Running {} }
    }

    pub fn frame_name(&self) -> (r: &'static str)
        ensures
            r@ == "Idle"@,
    {
        "Idle"
    }

    pub fn update(self) -> (r: RedHatBoyState<Idle>)
        requires
            self@.velocity.y < i16::MAX as int,
            i16::MIN as int <= self@.position.y + self@.velocity.y,
            self@.position.y + self@.velocity.y + 1 <= i16::MAX as int,
        ensures
            r@ == spec_update(self@, IDLE_FRAMES as int),
    {
        RedHatBoyState { context: self.context.update(IDLE_FRAMES), _state: Idle {} }
    }
}

impl RedHatBoyState<Running> {
    pub fn frame_name(&self) -> (r: &'static str)
        ensures
            r@ == "Run"@,
    {
        "Run"
    }

    pub fn update(self) -> (r: RedHatBoyState<Running>)
        requires
            self@.velocity.y < i16::MAX as int,
            i16::MIN as int <= self@.position.y + self@.velocity.y,
            self@.position.y + self@.velocity.y + 1 <= i16::MAX as int,
        ensures
            r@ == spec_update(self@, RUNNING_FRAMES as int),
    {
        RedHatBoyState { context: self.context.update(RUNNING_FRAMES), _state: Running {} }
    }

    /// Starts sliding: frame reset, context otherwise unchanged.
    pub fn slide(self) -> (r: RedHatBoyState<Sliding>)
        ensures
            r@ == spec_reset_frame(self@),
    {
        RedHatBoyState { context: self.context.reset_frame(), _state: Sliding {} }
    }

    /// Launches a jump: vertical velocity set to the launch speed and
    /// the frame counter reset.
    pub fn jump(self) -> (r: RedHatBoyState<Jumping>)
        ensures
            r@ == spec_reset_frame(spec_set_vertical_velocity(self@, JUMP_SPEED as int)),
    {
        RedHatBoyState {
            context: self.context.set_vertical_velocity(JUMP_SPEED).reset_frame(),
            _state: Jumping {},
        }
    }

    /// A collision knocks the character over: frame reset and all
    /// horizontal motion stopped.
    pub fn knock_out(self) -> (r: RedHatBoyState<Falling>)
        ensures
            r@ == spec_stop(spec_reset_frame(self@)),
    {
        RedHatBoyState { context: self.context.reset_frame().stop(), _state: Falling {} }
    }

    /// Lands on a surface whose top edge is at `position`; the run
    /// cycle is not restarted.
    pub fn land_on(self, position: i16) -> (r: RedHatBoyState<Running>)
        requires
            i16::MIN as int <= position - PLAYER_HEIGHT as int,
        ensures
            r@ == spec_set_on(self@, position as int),
    {
        RedHatBoyState { context: self.context.set_on(position), _state: Running {} }
    }
}

/// Whether a sliding update left the character still crouched or
/// standing back up.
pub enum SlidingEndState {
    Complete(RedHatBoyState<Running>),
    Sliding(RedHatBoyState<Sliding>),
}

impl RedHatBoyState<Sliding> {
    pub fn frame_name(&self) -> (r: &'static str)
        ensures
            r@ == "Slide"@,
    {
        "Slide"
    }

    /// Advances the slide; once the frame counter reaches the sliding
    /// threshold the character stands back up into the running state.
    pub fn update(self) -> (r: SlidingEndState)
        requires
            self@.velocity.y < i16::MAX as int,
            i16::MIN as int <= self@.position.y + self@.velocity.y,
            self@.position.y + self@.velocity.y + 1 <= i16::MAX as int,
        ensures
            spec_update(self@, SLIDING_FRAMES as int).frame >= SLIDING_FRAMES as int ==> (
                r is Complete
                && r->Complete_0@ == spec_reset_frame(spec_update(self@, SLIDING_FRAMES as int))
            ),
            spec_update(self@, SLIDING_FRAMES as int).frame < SLIDING_FRAMES as int ==> (
                r is Sliding
                && r->Sliding_0@ == spec_update(self@, SLIDING_FRAMES as int)
            ),
    {
        let updated = RedHatBoyState {
            context: self.context.update(SLIDING_FRAMES),
            _state: Sliding {},
        };
        if updated.context.frame >= SLIDING_FRAMES {
            SlidingEndState::Complete(updated.stand())
        } else {
            SlidingEndState::Sliding(updated)
        }
    }

    /// Stands up out of the slide: frame reset, context otherwise kept.
    pub fn stand(self) -> (r: RedHatBoyState<Running>)
        ensures
            r@ == spec_reset_frame(self@),
    {
        RedHatBoyState { context: self.context.reset_frame(), _state: Running {} }
    }

    pub fn knock_out(self) -> (r: RedHatBoyState<Falling>)
        ensures
            r@ == spec_stop(spec_reset_frame(self@)),
    {
        RedHatBoyState { context: self.context.reset_frame().stop(), _state: Falling {} }
    }

    /// Lands on a surface while staying crouched.
    pub fn land_on(self, position: i16) -> (r: RedHatBoyState<Sliding>)
        requires
            i16::MIN as int <= position - PLAYER_HEIGHT as int,
        ensures
            r@ == spec_set_on(self@, position as int),
    {
        RedHatBoyState { context: self.context.set_on(position), _state: Sliding {} }
    }
}

/// Whether a jumping update left the character still airborne or back
/// on the floor line.
pub enum JumpingEndState {
    Complete(RedHatBoyState<Running>),
    Jumping(RedHatBoyState<Jumping>),
}

impl RedHatBoyState<Jumping> {
    pub fn frame_name(&self) -> (r: &'static str)
        ensures
            r@ == "Jump"@,
    {
        "Jump"
    }

    /// Advances the jump; once gravity has brought the y-position back
    /// to the floor line the jump completes into the running state,
    /// re-anchored to the floor with the frame counter reset.
    pub fn update(self) -> (r: JumpingEndState)
        requires
            self@.velocity.y < i16::MAX as int,
            i16::MIN as int <= self@.position.y + self@.velocity.y,
            self@.position.y + self@.velocity.y + 1 <= i16::MAX as int,
        ensures
            spec_update(self@, JUMP_FRAMES as int).position.y >= FLOOR as int ==> (
                r is Complete
                && r->Complete_0@ == spec_set_on(
                    spec_reset_frame(spec_update(self@, JUMP_FRAMES as int)),
                    HEIGHT as int,
                )
            ),
            spec_update(self@, JUMP_FRAMES as int).position.y < FLOOR as int ==> (
                r is Jumping
                && r->Jumping_0@ == spec_update(self@, JUMP_FRAMES as int)
            ),
    {
        let updated = RedHatBoyState {
            context: self.context.update(JUMP_FRAMES),
            _state: Jumping {},
        };
        if updated.context.position.y >= FLOOR {
            JumpingEndState::Complete(updated.land_on(HEIGHT))
        } else {
            JumpingEndState::Jumping(updated)
        }
    }

    /// Lands on a surface whose top edge is at `position`, ending the
    /// jump early: frame reset and y re-anchored.
    pub fn land_on(self, position: i16) -> (r: RedHatBoyState<Running>)
        requires
            i16::MIN as int <= position - PLAYER_HEIGHT as int,
        ensures
            r@ == spec_set_on(spec_reset_frame(self@), position as int),
    {
        RedHatBoyState { context: self.context.reset_frame().set_on(position), _state: Running {} }
    }

    pub fn knock_out(self) -> (r: RedHatBoyState<Falling>)
        ensures
            r@ == spec_stop(spec_reset_frame(self@)),
    {
        RedHatBoyState { context: self.context.reset_frame().stop(), _state: Falling {} }
    }
}

/// Whether the knock-out animation is still playing or has finished.
pub enum FallingEndState {
    Complete(RedHatBoyState<KnockedOut>),
    Falling(RedHatBoyState<Falling>),
}

impl RedHatBoyState<Falling> {
    pub fn frame_name(&self) -> (r: &'static str)
        ensures
            r@ == "Dead"@,
    {
        "Dead"
    }

    /// Advances the knock-out animation; at the falling threshold the
    /// character settles into the terminal knocked-out state with its
    /// context otherwise unchanged.
    pub fn update(self) -> (r: FallingEndState)
        requires
            self@.velocity.y < i16::MAX as int,
            i16::MIN as int <= self@.position.y + self@.velocity.y,
            self@.position.y + self@.velocity.y + 1 <= i16::MAX as int,
        ensures
            spec_update(self@, FALL_FRAMES as int).frame >= FALL_FRAMES as int ==> (
                r is Complete
                && r->Complete_0@ == spec_update(self@, FALL_FRAMES as int)
            ),
            spec_update(self@, FALL_FRAMES as int).frame < FALL_FRAMES as int ==> (
                r is Falling
                && r->Falling_0@ == spec_update(self@, FALL_FRAMES as int)
            ),
    {
        let updated = RedHatBoyState {
            context: self.context.update(FALL_FRAMES),
            _state: Falling {},
        };
        if updated.context.frame >= FALL_FRAMES {
            FallingEndState::Complete(updated.knocked_out())
        } else {
            FallingEndState::Falling(updated)
        }
    }

    pub fn knocked_out(self) -> (r: RedHatBoyState<KnockedOut>)
        ensures
            r@ == self@,
    {
        RedHatBoyState { context: self.context, _state: KnockedOut {} }
    }
}

impl RedHatBoyState<KnockedOut> {
    pub fn frame_name(&self) -> (r: &'static str)
        ensures
            r@ == "Dead"@,
    {
        "Dead"
    }

    /// The terminal state keeps integrating gravity but never advances
    /// the animation frame.
    pub fn update(self) -> (r: RedHatBoyState<KnockedOut>)
        requires
            self@.velocity.y < i16::MAX as int,
            i16::MIN as int <= self@.position.y + self@.velocity.y,
            self@.position.y + self@.velocity.y + 1 <= i16::MAX as int,
        ensures
            r@ == spec_update_fixed(self@),
    {
        RedHatBoyState { context: self.context.update_with_fixed_frame(), _state: KnockedOut {} }
    }
}

} // verus!
