//! The closed union over the six character states and the total
//! transition function. Unhandled (state, event) pairs are no-ops that
//! return the state unchanged; auto-transitions (stand up, touch down,
//! knock-out animation finishing) are folded into the `Update` event.

use vstd::prelude::*;

use crate::geometry::{COORD_MAX, COORD_MIN};
use crate::red_hat_boy_states::{
    ctx_fits, lemma_rise_left_bound, lemma_rise_left_nonneg, rise_left, spec_reset_frame,
    spec_run_right, spec_set_on, spec_set_vertical_velocity, spec_stop, spec_update,
    spec_update_fixed, ContextModel, Falling, FallingEndState, Idle, Jumping, JumpingEndState,
    KnockedOut, RedHatBoyContext, RedHatBoyState, Running, Sliding, SlidingEndState, AIR_Y_MIN,
    FALL_FRAMES, FLOOR, GROUND_Y_MIN, HEIGHT, IDLE_FRAMES, JUMP_FRAMES,
    JUMP_SPEED, MAX_RISE, PLAYER_HEIGHT, RUNNING_FRAMES, SLIDING_FRAMES, TERMINAL_VELOCITY,
};

verus! {

/// An input or world event handed to the state machine.
#[derive(Clone, Copy, PartialEq, Eq, Structural, Debug)]
pub enum Event {
    Run,
    Jump,
    Slide,
    KnockOut,
    Update,
    Land(i16),
}

/// Mathematical model of an `Event`: the landing coordinate as an
/// unbounded integer.
pub ghost enum EventModel {
    Run,
    Jump,
    Slide,
    KnockOut,
    Update,
    Land(int),
}

impl View for Event {
    type V = EventModel;

    open spec fn view(&self) -> EventModel {
        match self {
            Event::Run => EventModel::Run,
            Event::Jump => EventModel::Jump,
            Event::Slide => EventModel::Slide,
            Event::KnockOut => EventModel::KnockOut,
            Event::Update => EventModel::Update,
            Event::Land(p) => EventModel::Land(*p as int),
        }
    }
}

/// Mathematical model of the state machine: one of six tags, each
/// carrying the context model.
pub ghost enum MachineModel {
    Idle(ContextModel),
    Running(ContextModel),
    Sliding(ContextModel),
    Jumping(ContextModel),
    Falling(ContextModel),
    KnockedOut(ContextModel),
}

/// The context carried by whichever state is alive.
pub open spec fn model_context(m: MachineModel) -> ContextModel {
    match m {
        MachineModel::Idle(c) => c,
        MachineModel::Running(c) => c,
        MachineModel::Sliding(c) => c,
        MachineModel::Jumping(c) => c,
        MachineModel::Falling(c) => c,
        MachineModel::KnockedOut(c) => c,
    }
}

/// The transition table. Total: pairs outside the table return the
/// machine unchanged.
pub open spec fn spec_transition(m: MachineModel, e: EventModel) -> MachineModel {
    match (m, e) {
        (MachineModel::Idle(c), EventModel::Run) => MachineModel::Running(
            spec_run_right(spec_reset_frame(c)),
        ),
        (MachineModel::Idle(c), EventModel::Update) => MachineModel::Idle(
            spec_update(c, IDLE_FRAMES as int),
        ),
        (MachineModel::Running(c), EventModel::Slide) => MachineModel::Sliding(
            spec_reset_frame(c),
        ),
        (MachineModel::Running(c), EventModel::Update) => MachineModel::Running(
            spec_update(c, RUNNING_FRAMES as int),
        ),
        (MachineModel::Running(c), EventModel::Jump) => MachineModel::Jumping(
            spec_reset_frame(spec_set_vertical_velocity(c, JUMP_SPEED as int)),
        ),
        (MachineModel::Running(c), EventModel::KnockOut) => MachineModel::Falling(
            spec_stop(spec_reset_frame(c)),
        ),
        (MachineModel::Running(c), EventModel::Land(pos)) => MachineModel::Running(
            spec_set_on(c, pos),
        ),
        (MachineModel::Jumping(c), EventModel::Update) => {
            let u = spec_update(c, JUMP_FRAMES as int);
            if u.position.y >= FLOOR as int {
                MachineModel::Running(spec_set_on(spec_reset_frame(u), HEIGHT as int))
            } else {
                MachineModel::Jumping(u)
            }
        },
        (MachineModel::Jumping(c), EventModel::Land(pos)) => MachineModel::Running(
            spec_set_on(spec_reset_frame(c), pos),
        ),
        (MachineModel::Jumping(c), EventModel::KnockOut) => MachineModel::Falling(
            spec_stop(spec_reset_frame(c)),
        ),
        (MachineModel::Sliding(c), EventModel::Update) => {
            let u = spec_update(c, SLIDING_FRAMES as int);
            if u.frame >= SLIDING_FRAMES as int {
                MachineModel::Running(spec_reset_frame(u))
            } else {
                MachineModel::Sliding(u)
            }
        },
        (MachineModel::Sliding(c), EventModel::KnockOut) => MachineModel::Falling(
            spec_stop(spec_reset_frame(c)),
        ),
        (MachineModel::Sliding(c), EventModel::Land(pos)) => MachineModel::Sliding(
            spec_set_on(c, pos),
        ),
        (MachineModel::Falling(c), EventModel::Update) => {
            let u = spec_update(c, FALL_FRAMES as int);
            if u.frame >= FALL_FRAMES as int {
                MachineModel::KnockedOut(u)
            } else {
                MachineModel::Falling(u)
            }
        },
        (MachineModel::KnockedOut(c), EventModel::Update) => MachineModel::KnockedOut(
            spec_update_fixed(c),
        ),
        _ => m,
    }
}

/// Whether the transition table has an entry for this pair; everything
/// else is a defined no-op.
pub open spec fn event_handled(m: MachineModel, e: EventModel) -> bool {
    match (m, e) {
        (MachineModel::Idle(_), EventModel::Run) => true,
        (MachineModel::Idle(_), EventModel::Update) => true,
        (MachineModel::Running(_), EventModel::Slide) => true,
        (MachineModel::Running(_), EventModel::Update) => true,
        (MachineModel::Running(_), EventModel::Jump) => true,
        (MachineModel::Running(_), EventModel::KnockOut) => true,
        (MachineModel::Running(_), EventModel::Land(_)) => true,
        (MachineModel::Jumping(_), EventModel::Update) => true,
        (MachineModel::Jumping(_), EventModel::Land(_)) => true,
        (MachineModel::Jumping(_), EventModel::KnockOut) => true,
        (MachineModel::Sliding(_), EventModel::Update) => true,
        (MachineModel::Sliding(_), EventModel::KnockOut) => true,
        (MachineModel::Sliding(_), EventModel::Land(_)) => true,
        (MachineModel::Falling(_), EventModel::Update) => true,
        (MachineModel::KnockedOut(_), EventModel::Update) => true,
        _ => false,
    }
}

/// A landing coordinate the machine can re-anchor to without leaving
/// the representable band.
pub open spec fn event_fits(e: EventModel) -> bool {
    e is Land ==> COORD_MIN as int <= e->Land_0 <= COORD_MAX as int
}

/// The reachable-state invariant. Besides the representable band it
/// pins the per-state frame-counter bound, that only a grounded start
/// plus at most one jump of rise separates the character from the
/// lowest anchor, and that horizontal motion is stopped in the
/// knock-out states.
pub open spec fn machine_wf(m: MachineModel) -> bool {
    let c = model_context(m);
    &&& ctx_fits(c)
    &&& 0 <= c.frame
    &&& match m {
        MachineModel::Idle(c) => {
            &&& c.frame <= IDLE_FRAMES as int
            &&& c.velocity.x == 0
            &&& c.position.y - rise_left(c.velocity.y) >= GROUND_Y_MIN as int
        },
        MachineModel::Running(c) => {
            &&& c.frame <= RUNNING_FRAMES as int
            &&& c.position.y - rise_left(c.velocity.y) >= GROUND_Y_MIN as int
        },
        MachineModel::Sliding(c) => {
            &&& c.frame < SLIDING_FRAMES as int
            &&& c.position.y - rise_left(c.velocity.y) >= GROUND_Y_MIN as int
        },
        MachineModel::Jumping(c) => {
            &&& c.frame <= JUMP_FRAMES as int
            &&& c.position.y - rise_left(c.velocity.y) >= AIR_Y_MIN as int
        },
        MachineModel::Falling(c) => {
            &&& c.frame < FALL_FRAMES as int
            &&& c.velocity.x == 0
            &&& c.position.y - rise_left(c.velocity.y) >= AIR_Y_MIN as int
        },
        MachineModel::KnockedOut(c) => {
            &&& c.frame <= FALL_FRAMES as int
            &&& c.velocity.x == 0
            &&& c.position.y - rise_left(c.velocity.y) >= AIR_Y_MIN as int
        },
    }
}

/// The shared update rule keeps a context inside the band and above
/// the given lower line, and respects the frame threshold.
proof fn lemma_update_preserves(c: ContextModel, frame_count: int, y_min: int)
    requires
        ctx_fits(c),
        0 <= c.frame,
        0 <= frame_count,
        c.position.y - rise_left(c.velocity.y) >= y_min,
        AIR_Y_MIN as int <= y_min <= FLOOR as int - MAX_RISE as int,
    ensures
        ctx_fits(spec_update(c, frame_count)),
        spec_update(c, frame_count).position.y - rise_left(spec_update(c, frame_count).velocity.y)
            >= y_min,
        c.frame <= frame_count ==> spec_update(c, frame_count).frame <= frame_count,
        spec_update(c, frame_count).velocity.x == c.velocity.x,
        ctx_fits(spec_update_fixed(c)),
        spec_update_fixed(c).position.y - rise_left(spec_update_fixed(c).velocity.y) >= y_min,
        spec_update_fixed(c).velocity.x == c.velocity.x,
        spec_update_fixed(c).frame == c.frame,
{
    let vy = c.velocity.y;
    let vy2 = if vy < TERMINAL_VELOCITY as int { vy + 1 } else { vy };
    lemma_rise_left_nonneg(vy);
    lemma_rise_left_nonneg(vy2);
    lemma_rise_left_bound(vy2);
    if vy < 0 {
        assert(rise_left(vy) == (-vy - 1) + rise_left(vy + 1));
    }
    let u = spec_update(c, frame_count);
    assert(u.frame == if c.frame < frame_count { c.frame + 1 } else { 0 });
}

/// Transitions preserve the reachable-state invariant.
pub proof fn lemma_transition_preserves_wf(m: MachineModel, e: EventModel)
    requires
        machine_wf(m),
        event_fits(e),
    ensures
        machine_wf(spec_transition(m, e)),
{
    let c = model_context(m);
    lemma_rise_left_nonneg(c.velocity.y);
    lemma_rise_left_bound(c.velocity.y);
    match (m, e) {
        (MachineModel::Idle(c), EventModel::Update) => {
            lemma_update_preserves(c, IDLE_FRAMES as int, GROUND_Y_MIN as int);
        },
        (MachineModel::Running(c), EventModel::Update) => {
            lemma_update_preserves(c, RUNNING_FRAMES as int, GROUND_Y_MIN as int);
        },
        (MachineModel::Running(c), EventModel::Jump) => {
            reveal_with_fuel(rise_left, 25);
            assert(rise_left(JUMP_SPEED as int) == 253);
        },
        (MachineModel::Sliding(c), EventModel::Update) => {
            lemma_update_preserves(c, SLIDING_FRAMES as int, GROUND_Y_MIN as int);
        },
        (MachineModel::Jumping(c), EventModel::Update) => {
            lemma_update_preserves(c, JUMP_FRAMES as int, AIR_Y_MIN as int);
            let u = spec_update(c, JUMP_FRAMES as int);
            lemma_rise_left_nonneg(u.velocity.y);
            lemma_rise_left_bound(u.velocity.y);
        },
        (MachineModel::Falling(c), EventModel::Update) => {
            lemma_update_preserves(c, FALL_FRAMES as int, AIR_Y_MIN as int);
        },
        (MachineModel::KnockedOut(c), EventModel::Update) => {
            lemma_update_preserves(c, FALL_FRAMES as int, AIR_Y_MIN as int);
        },
        _ => {},
    }
}

/// The machine after `n` ticks of the `Update` event.
pub open spec fn spec_updates(m: MachineModel, n: nat) -> MachineModel
    decreases n,
{
    if n == 0 {
        m
    } else {
        spec_transition(spec_updates(m, (n - 1) as nat), EventModel::Update)
    }
}

/// For every state and event pair outside the transition table,
/// `transition` is the identity: the state comes back with its tag and
/// context unchanged.
pub proof fn lemma_unhandled_event_is_identity(m: MachineModel, e: EventModel)
    requires
        !event_handled(m, e),
    ensures
        spec_transition(m, e) == m,
{
}

/// One tick of the shared frame rule advances a `k % (threshold + 1)`
/// counter to `(k + 1) % (threshold + 1)`.
proof fn lemma_frame_step(frame: int, threshold: int, k: nat)
    requires
        threshold > 0,
        frame == k as int % (threshold + 1),
    ensures
        (if frame < threshold {
            frame + 1
        } else {
            0
        }) == (k + 1) as int % (threshold + 1),
{
    let t1 = threshold + 1;
    vstd::arithmetic::div_mod::lemma_mod_division_less_than_divisor(k as int, t1);
    vstd::arithmetic::div_mod::lemma_add_mod_noop(k as int, 1, t1);
    vstd::arithmetic::div_mod::lemma_small_mod(1, t1 as nat);
    if frame < threshold {
        vstd::arithmetic::div_mod::lemma_small_mod((frame + 1) as nat, t1 as nat);
    } else {
        vstd::arithmetic::div_mod::lemma_mod_self_0(t1);
    }
}

/// Repeated updates of an idle character never leave the idle state,
/// and from frame 0 the counter cycles through the idle threshold:
/// after `n` ticks it reads `n % (IDLE_FRAMES + 1)`.
pub proof fn lemma_idle_frame_cycle(m: MachineModel, n: nat)
    requires
        m is Idle,
        model_context(m).frame == 0,
    ensures
        spec_updates(m, n) is Idle,
        model_context(spec_updates(m, n)).frame == n as int % (IDLE_FRAMES as int + 1),
    decreases n,
{
    if n == 0 {
        vstd::arithmetic::div_mod::lemma_small_mod(0, (IDLE_FRAMES as int + 1) as nat);
    } else {
        let k = (n - 1) as nat;
        lemma_idle_frame_cycle(m, k);
        lemma_frame_step(model_context(spec_updates(m, k)).frame, IDLE_FRAMES as int, k);
    }
}

/// Repeated updates of a running character never leave the running
/// state, and from frame 0 the counter cycles through the running
/// threshold: after `n` ticks it reads `n % (RUNNING_FRAMES + 1)`.
pub proof fn lemma_running_frame_cycle(m: MachineModel, n: nat)
    requires
        m is Running,
        model_context(m).frame == 0,
    ensures
        spec_updates(m, n) is Running,
        model_context(spec_updates(m, n)).frame == n as int % (RUNNING_FRAMES as int + 1),
    decreases n,
{
    if n == 0 {
        vstd::arithmetic::div_mod::lemma_small_mod(0, (RUNNING_FRAMES as int + 1) as nat);
    } else {
        let k = (n - 1) as nat;
        lemma_running_frame_cycle(m, k);
        lemma_frame_step(model_context(spec_updates(m, k)).frame, RUNNING_FRAMES as int, k);
    }
}

/// Frame counters never exceed their state's threshold: in every
/// reachable state the counter stays at or under the bound that makes
/// it wrap or complete, and `lemma_transition_preserves_wf` shows that
/// every transition keeps it so.
pub proof fn lemma_frame_never_exceeds_threshold(m: MachineModel)
    requires
        machine_wf(m),
    ensures
        m is Idle ==> model_context(m).frame <= IDLE_FRAMES as int,
        m is Running ==> model_context(m).frame <= RUNNING_FRAMES as int,
        m is Sliding ==> model_context(m).frame < SLIDING_FRAMES as int,
        m is Jumping ==> model_context(m).frame <= JUMP_FRAMES as int,
        m is Falling ==> model_context(m).frame < FALL_FRAMES as int,
        m is KnockedOut ==> model_context(m).frame <= FALL_FRAMES as int,
{
}

/// A sliding character counts frames up to the sliding threshold and
/// then stands up: after `n` ticks from frame 0 it is still sliding at
/// frame `n` while `n` is under the threshold, and exactly at the
/// threshold it is running again with the frame counter reset.
pub proof fn lemma_sliding_completes(m: MachineModel, n: nat)
    requires
        m is Sliding,
        model_context(m).frame == 0,
        n <= SLIDING_FRAMES as nat,
    ensures
        n < SLIDING_FRAMES as nat ==> spec_updates(m, n) is Sliding && model_context(
            spec_updates(m, n),
        ).frame == n,
        n == SLIDING_FRAMES as nat ==> spec_updates(m, n) is Running && model_context(
            spec_updates(m, n),
        ).frame == 0,
    decreases n,
{
    if n > 0 {
        lemma_sliding_completes(m, (n - 1) as nat);
    }
}

/// A falling character counts frames up to the falling threshold and
/// then settles: after `n` ticks from frame 0 it is still falling at
/// frame `n` while `n` is under the threshold, and exactly at the
/// threshold it is knocked out, its context otherwise unchanged by the
/// settling step.
pub proof fn lemma_falling_settles(m: MachineModel, n: nat)
    requires
        m is Falling,
        model_context(m).frame == 0,
        n <= FALL_FRAMES as nat,
    ensures
        n < FALL_FRAMES as nat ==> spec_updates(m, n) is Falling && model_context(
            spec_updates(m, n),
        ).frame == n,
        n == FALL_FRAMES as nat ==> spec_updates(m, n) is KnockedOut && model_context(
            spec_updates(m, n),
        ).frame == FALL_FRAMES as int,
    decreases n,
{
    if n > 0 {
        lemma_falling_settles(m, (n - 1) as nat);
    }
}

/// The knocked-out state is terminal: no event leaves it, and however
/// many ticks pass the animation frame never advances.
pub proof fn lemma_knocked_out_is_terminal(m: MachineModel, e: EventModel)
    requires
        m is KnockedOut,
    ensures
        spec_transition(m, e) is KnockedOut,
        model_context(spec_transition(m, e)).frame == model_context(m).frame,
{
}

/// Gravity raises the y-velocity by exactly one unit per tick up to
/// the terminal cap and never beyond it, whatever state the machine is
/// in and however many ticks pass.
pub proof fn lemma_gravity_capped(m: MachineModel, n: nat)
    requires
        model_context(m).velocity.y <= TERMINAL_VELOCITY as int,
    ensures
        model_context(spec_updates(m, n)).velocity.y == (
            if model_context(m).velocity.y + n <= TERMINAL_VELOCITY as int {
                model_context(m).velocity.y + n
            } else {
                TERMINAL_VELOCITY as int
            }
        ),
        model_context(spec_updates(m, n)).velocity.y <= TERMINAL_VELOCITY as int,
    decreases n,
{
    if n > 0 {
        lemma_gravity_capped(m, (n - 1) as nat);
    }
}

/// Landing on a surface whose top edge is at `pos` re-anchors the
/// y-position to exactly `pos - PLAYER_HEIGHT` and alters neither the
/// x-position nor the velocity, in every state that accepts `Land`.
pub proof fn lemma_land_reanchors(m: MachineModel, pos: int)
    requires
        event_handled(m, EventModel::Land(pos)),
    ensures
        model_context(spec_transition(m, EventModel::Land(pos))).position.y == pos
            - PLAYER_HEIGHT as int,
        model_context(spec_transition(m, EventModel::Land(pos))).position.x == model_context(
            m,
        ).position.x,
        model_context(spec_transition(m, EventModel::Land(pos))).velocity == model_context(
            m,
        ).velocity,
{
}

/// The closed union over the six tagged states; exactly one variant is
/// alive at any time.
#[derive(Clone, Copy)]
pub enum RedHatBoyStateMachine {
    Idle(RedHatBoyState<Idle>),
    Running(RedHatBoyState<Running>),
    Sliding(RedHatBoyState<Sliding>),
    Jumping(RedHatBoyState<Jumping>),
    Falling(RedHatBoyState<Falling>),
    KnockedOut(RedHatBoyState<KnockedOut>),
}

impl View for RedHatBoyStateMachine {
    type V = MachineModel;

    open spec fn view(&self) -> MachineModel {
        match self {
            RedHatBoyStateMachine::Idle(s) => MachineModel::Idle(s@),
            RedHatBoyStateMachine::Running(s) => MachineModel::Running(s@),
            RedHatBoyStateMachine::Sliding(s) => MachineModel::Sliding(s@),
            RedHatBoyStateMachine::Jumping(s) => MachineModel::Jumping(s@),
            RedHatBoyStateMachine::Falling(s) => MachineModel::Falling(s@),
            RedHatBoyStateMachine::KnockedOut(s) => MachineModel::KnockedOut(s@),
        }
    }
}

impl RedHatBoyStateMachine {
    /// Applies one event. Pure and total: pairs outside the table
    /// return the machine unchanged.
    pub fn transition(self, event: Event) -> (r: RedHatBoyStateMachine)
        requires
            machine_wf(self@),
            event_fits(event@),
        ensures
            r@ == spec_transition(self@, event@),
            machine_wf(r@),
    {
        proof {
            lemma_transition_preserves_wf(self@, event@);
            lemma_rise_left_nonneg(model_context(self@).velocity.y);
        }
        match (self, event) {
            (RedHatBoyStateMachine::Idle(state), Event::Run) => RedHatBoyStateMachine::Running(
                state.run(),
            ),
            (RedHatBoyStateMachine::Idle(state), Event::Update) => RedHatBoyStateMachine::Idle(
                state.update(),
            ),
            (RedHatBoyStateMachine::Running(state), Event::Slide) => RedHatBoyStateMachine::Sliding(
                state.slide(),
            ),
            (RedHatBoyStateMachine::Running(state), Event::Update) => RedHatBoyStateMachine::Running(
                state.update(),
            ),
            (RedHatBoyStateMachine::Running(state), Event::Jump) => RedHatBoyStateMachine::Jumping(
                state.jump(),
            ),
            (RedHatBoyStateMachine::Running(state), Event::KnockOut) => RedHatBoyStateMachine::Falling(
                state.knock_out(),
            ),
            (RedHatBoyStateMachine::Running(state), Event::Land(pos)) => RedHatBoyStateMachine::Running(
                state.land_on(pos),
            ),
            (RedHatBoyStateMachine::Jumping(state), Event::Update) => match state.update() {
                JumpingEndState::Complete(s) => RedHatBoyStateMachine::Running(s),
                JumpingEndState::Jumping(s) => RedHatBoyStateMachine::Jumping(s),
            },
            (RedHatBoyStateMachine::Jumping(state), Event::Land(pos)) => RedHatBoyStateMachine::Running(
                state.land_on(pos),
            ),
            (RedHatBoyStateMachine::Jumping(state), Event::KnockOut) => RedHatBoyStateMachine::Falling(
                state.knock_out(),
            ),
            (RedHatBoyStateMachine::Sliding(state), Event::Update) => match state.update() {
                SlidingEndState::Complete(s) => RedHatBoyStateMachine::Running(s),
                SlidingEndState::Sliding(s) => RedHatBoyStateMachine::Sliding(s),
            },
            (RedHatBoyStateMachine::Sliding(state), Event::KnockOut) => RedHatBoyStateMachine::Falling(
                state.knock_out(),
            ),
            (RedHatBoyStateMachine::Sliding(state), Event::Land(pos)) => RedHatBoyStateMachine::Sliding(
                state.land_on(pos),
            ),
            (RedHatBoyStateMachine::Falling(state), Event::Update) => match state.update() {
                FallingEndState::Complete(s) => RedHatBoyStateMachine::KnockedOut(s),
                FallingEndState::Falling(s) => RedHatBoyStateMachine::Falling(s),
            },
            (RedHatBoyStateMachine::KnockedOut(state), Event::Update) => RedHatBoyStateMachine::KnockedOut(
                state.update(),
            ),
            _ => self,
        }
    }

    /// The animation sheet's name for the current state.
    pub fn frame_name(&self) -> (r: &'static str)
        ensures
            self@ is Idle ==> r@ == "Idle"@,
            self@ is Running ==> r@ == "Run"@,
            self@ is Sliding ==> r@ == "Slide"@,
            self@ is Jumping ==> r@ == "Jump"@,
            self@ is Falling ==> r@ == "Dead"@,
            self@ is KnockedOut ==> r@ == "Dead"@,
    {
        match self {
            RedHatBoyStateMachine::Idle(state) => state.frame_name(),
            RedHatBoyStateMachine::Running(state) => state.frame_name(),
            RedHatBoyStateMachine::Sliding(state) => state.frame_name(),
            RedHatBoyStateMachine::Jumping(state) => state.frame_name(),
            RedHatBoyStateMachine::Falling(state) => state.frame_name(),
            RedHatBoyStateMachine::KnockedOut(state) => state.frame_name(),
        }
    }

    /// The context carried by the live state.
    pub fn context(&self) -> (r: &RedHatBoyContext)
        ensures
            r@ == model_context(self@),
    {
        match self {
            RedHatBoyStateMachine::Idle(state) => state.context(),
            RedHatBoyStateMachine::Running(state) => state.context(),
            RedHatBoyStateMachine::Sliding(state) => state.context(),
            RedHatBoyStateMachine::Jumping(state) => state.context(),
            RedHatBoyStateMachine::Falling(state) => state.context(),
            RedHatBoyStateMachine::KnockedOut(state) => state.context(),
        }
    }

    /// One physics/animation tick: shorthand for the `Update` event.
    pub fn update(self) -> (r: RedHatBoyStateMachine)
        requires
            machine_wf(self@),
        ensures
            r@ == spec_transition(self@, EventModel::Update),
            machine_wf(r@),
    {
        self.transition(Event::Update)
    }
}

} // verus!
