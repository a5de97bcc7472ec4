//! The world controller: the character, two tiling backgrounds, the
//! live obstacle list and the procedural-generation timeline. One call
//! per tick applies input, advances physics, scrolls and wraps the
//! backgrounds, culls and moves obstacles, resolves collisions, and
//! keeps the world generated ahead of the character.

use vstd::prelude::*;

use rand::Rng;

use crate::geometry::{rect_in_band, RectModel, COORD_MAX, COORD_MIN, SPAN_MAX};
use crate::obstacle::{
    move_fits, obstacle_fits, spec_check, spec_move, spec_right, Obstacle, ObstacleModel,
};
use crate::red_hat_boy::{boy_wf, BoyModel, RedHatBoy};
use crate::red_hat_boy_states::RUNNING_SPEED;
use crate::state_machine::{machine_wf, model_context, spec_transition, EventModel, MachineModel};

verus! {

/// When the timeline has fallen under this lead distance, one more
/// segment is generated ahead of the character.
pub const TIMELINE_MINIMUM: i16 = 1000;
/// Gap left between the current timeline and newly generated content.
pub const OBSTACLE_BUFFER: i16 = 20;
/// Width of the visible viewport in world units.
pub const VIEWPORT_WIDTH: i16 = 600;
/// Widest background tile the two-tile ring buffer supports.
pub const BACKGROUND_WIDTH_MAX: i16 = 14_000;

/// Snapshot of the held keys consumed at the start of a tick.
#[derive(Clone, Copy, PartialEq, Eq, Structural, Debug)]
pub struct KeyInput {
    pub slide: bool,
    pub run: bool,
    pub jump: bool,
}

/// The right edge of the rightmost obstacle, or 0 for an empty list.
pub open spec fn spec_rightmost(obs: Seq<ObstacleModel>) -> int
    decreases obs.len(),
{
    if obs.len() == 0 {
        0
    } else if obs.len() == 1 {
        spec_right(obs[0])
    } else {
        let prev = spec_rightmost(obs.drop_last());
        if spec_right(obs.last()) >= prev {
            spec_right(obs.last())
        } else {
            prev
        }
    }
}

/// The rightmost edge of obstacles in the world band stays in the
/// band; an empty list reports 0, also in the band.
pub proof fn lemma_rightmost_in_band(obs: Seq<ObstacleModel>)
    requires
        forall|i: int| 0 <= i < obs.len() ==> obstacle_fits(#[trigger] obs[i]),
    ensures
        COORD_MIN as int <= spec_rightmost(obs) <= COORD_MAX as int,
    decreases obs.len(),
{
    if obs.len() > 0 {
        lemma_rightmost_in_band(obs.drop_last());
        assert(obstacle_fits(obs.last()));
    }
}

/// The rightmost edge over the live obstacle list; culling and
/// timeline placement are driven by it.
pub fn rightmost(obstacle_list: &Vec<Obstacle>) -> (r: i16)
    requires
        forall|i: int| 0 <= i < obstacle_list@.len() ==> obstacle_fits(
            (#[trigger] obstacle_list@[i])@,
        ),
    ensures
        r as int == spec_rightmost(obstacle_list@.map_values(|o: Obstacle| o@)),
{
    let ghost models = obstacle_list@.map_values(|o: Obstacle| o@);
    if obstacle_list.len() == 0 {
        return 0;
    }
    let mut r = obstacle_list[0].right();
    let mut i: usize = 1;
    proof {
        assert(models.take(1) =~= seq![models[0]]);
    }
    #[verifier::loop_isolation(false)]
    while i < obstacle_list.len()
        invariant
            1 <= i <= obstacle_list@.len(),
            r as int == spec_rightmost(models.take(i as int)),
        decreases obstacle_list@.len() - i as int,
    {
        let edge = obstacle_list[i].right();
        proof {
            assert(models.take(i as int + 1).drop_last() =~= models.take(i as int));
            assert(models.take(i as int + 1).last() == models[i as int]);
        }
        if edge > r {
            r = edge;
        }
        i = i + 1;
    }
    proof {
        assert(models.take(models.len() as int) =~= models);
    }
    r
}

/// Relies on rand::Rng::gen_range with rand::thread_rng: it returns a
/// value drawn from the given non-empty half-open range, here 0..2.
/// Nothing more is assumed of the draw.
#[verifier::external_body]
fn random_segment_index() -> (r: u32)
    ensures
        r < 2,
{
    rand::thread_rng().gen_range(0..2)
}

/// Picks, uniformly at random, which of the exactly two segment
/// generators supplies the next procedural segment. Whatever the draw,
/// the result names one of the two.
pub fn choose_segment_kind() -> (r: u32)
    ensures
        r < 2,
{
    random_segment_index()
}

/// The two background tiles form a ring: they are the same width, sit
/// edge to edge, and together always cover the viewport.
pub open spec fn bg_pair_wf(a: RectModel, b: RectModel) -> bool {
    &&& rect_in_band(a)
    &&& rect_in_band(b)
    &&& a.width == b.width
    &&& VIEWPORT_WIDTH as int <= a.width <= BACKGROUND_WIDTH_MAX as int
    &&& (a.x <= b.x ==> b.x == a.x + a.width && a.x <= 0 && a.x + a.width >= 0)
    &&& (b.x < a.x ==> a.x == b.x + b.width && b.x <= 0 && b.x + b.width >= 0)
}

/// One scroll step of the two tiles: both move by the scroll velocity,
/// and a tile that has fully left the viewport is re-anchored to the
/// right edge of its twin.
pub open spec fn spec_scroll_backgrounds(bg0: RectModel, bg1: RectModel, v: int) -> (
    RectModel,
    RectModel,
) {
    let a = RectModel { x: bg0.x + v, ..bg0 };
    let b = RectModel { x: bg1.x + v, ..bg1 };
    let a2 = if a.x + a.width < 0 {
        RectModel { x: b.x + b.width, ..a }
    } else {
        a
    };
    let b2 = if b.x + b.width < 0 {
        RectModel { x: a2.x + a2.width, ..b }
    } else {
        b
    };
    (a2, b2)
}

/// Scrolling at the character's walking speed keeps the ring of two
/// background tiles well formed.
pub proof fn lemma_scroll_backgrounds_wf(bg0: RectModel, bg1: RectModel, v: int)
    requires
        bg_pair_wf(bg0, bg1),
        -(RUNNING_SPEED as int) <= v <= 0,
    ensures
        bg_pair_wf(spec_scroll_backgrounds(bg0, bg1, v).0, spec_scroll_backgrounds(bg0, bg1, v).1),
{
}

/// At least one point of every viewport column is covered by a
/// background tile: the left tile starts at or left of 0, the tiles
/// meet without a gap, and the right tile ends at or past the
/// viewport's right edge.
pub proof fn lemma_backgrounds_cover_viewport(a: RectModel, b: RectModel, px: int)
    requires
        bg_pair_wf(a, b),
        0 <= px < VIEWPORT_WIDTH as int,
    ensures
        (a.x <= px < a.x + a.width) || (b.x <= px < b.x + b.width),
{
}

/// The input events of one tick, applied in a fixed order before
/// physics advances.
pub open spec fn spec_apply_inputs(m: MachineModel, keys: KeyInput) -> MachineModel {
    let m1 = if keys.slide {
        spec_transition(m, EventModel::Slide)
    } else {
        m
    };
    let m2 = if keys.run {
        spec_transition(m1, EventModel::Run)
    } else {
        m1
    };
    if keys.jump {
        spec_transition(m2, EventModel::Jump)
    } else {
        m2
    }
}

/// One pass over the obstacle list: obstacles already fully off the
/// left edge are dropped; each survivor moves by the scroll velocity
/// and is then tested against the character, every obstacle
/// independently and in stored order.
pub open spec fn spec_cull_move_check(obs: Seq<ObstacleModel>, v: int, b: BoyModel) -> (
    Seq<ObstacleModel>,
    BoyModel,
)
    decreases obs.len(),
{
    if obs.len() == 0 {
        (obs, b)
    } else if spec_right(obs[0]) > 0 {
        let moved = spec_move(obs[0], v);
        let hit = BoyModel { machine: spec_check(moved, b), sheet: b.sheet };
        let rest = spec_cull_move_check(obs.drop_first(), v, hit);
        (seq![moved] + rest.0, rest.1)
    } else {
        spec_cull_move_check(obs.drop_first(), v, b)
    }
}

/// The cull/move/check pass keeps the character reachable and every
/// kept obstacle in the world band.
pub proof fn lemma_cull_move_check_preserves(obs: Seq<ObstacleModel>, v: int, b: BoyModel)
    requires
        forall|i: int| 0 <= i < obs.len() ==> obstacle_fits(#[trigger] obs[i]),
        machine_wf(b.machine),
        -1_000 <= v <= 0,
    ensures
        machine_wf(spec_cull_move_check(obs, v, b).1.machine),
        spec_cull_move_check(obs, v, b).1.sheet == b.sheet,
        forall|i: int| 0 <= i < spec_cull_move_check(obs, v, b).0.len() ==> obstacle_fits(
            #[trigger] spec_cull_move_check(obs, v, b).0[i],
        ),
    decreases obs.len(),
{
    if obs.len() > 0 {
        if spec_right(obs[0]) > 0 {
            let moved = spec_move(obs[0], v);
            lemma_scroll_keeps_band(obs[0], v);
            let hit = BoyModel { machine: crate::obstacle::spec_check(moved, b), sheet: b.sheet };
            crate::obstacle::lemma_check_preserves_wf(moved, b);
            lemma_cull_move_check_preserves(obs.drop_first(), v, hit);
            let rest = spec_cull_move_check(obs.drop_first(), v, hit);
            assert forall|i: int| 0 <= i < spec_cull_move_check(obs, v, b).0.len() implies
                obstacle_fits(#[trigger] spec_cull_move_check(obs, v, b).0[i]) by {
                if i > 0 {
                    assert(spec_cull_move_check(obs, v, b).0[i] == rest.0[i - 1]);
                }
            }
        } else {
            lemma_cull_move_check_preserves(obs.drop_first(), v, b);
        }
    }
}

/// Every tick preserves the world invariant, whatever the input and
/// whatever well-formed segment is supplied — so the background
/// coverage and the timeline policy hold after any number of ticks.
pub proof fn lemma_tick_preserves_wf(w: WalkModel, keys: KeyInput, seg: Seq<ObstacleModel>)
    requires
        walk_wf(w),
        forall|i: int| 0 <= i < seg.len() ==> obstacle_fits(#[trigger] seg[i]),
    ensures
        walk_wf(spec_tick(w, keys, seg)),
{
    lemma_apply_inputs_wf(w.boy.machine, keys);
    let machine = spec_transition(spec_apply_inputs(w.boy.machine, keys), EventModel::Update);
    crate::state_machine::lemma_transition_preserves_wf(
        spec_apply_inputs(w.boy.machine, keys),
        EventModel::Update,
    );
    let v = -model_context(machine).velocity.x;
    lemma_scroll_backgrounds_wf(w.bg_first, w.bg_second, v);
    lemma_cull_move_check_preserves(w.obstacles, v, BoyModel { machine, sheet: w.boy.sheet });
    let run = spec_cull_move_check(w.obstacles, v, BoyModel { machine, sheet: w.boy.sheet });
    if w.timeline < TIMELINE_MINIMUM as int {
        lemma_rightmost_in_band(seg);
        assert forall|i: int| 0 <= i < spec_tick(w, keys, seg).obstacles.len() implies
            obstacle_fits(#[trigger] spec_tick(w, keys, seg).obstacles[i]) by {
            if i >= run.0.len() {
                assert(spec_tick(w, keys, seg).obstacles[i] == seg[i - run.0.len()]);
            }
        }
    }
}

/// An on-screen obstacle can scroll one step without leaving the
/// world band: its whole extent trails at most `SPAN_MAX` behind its
/// right edge.
pub proof fn lemma_scroll_keeps_band(o: ObstacleModel, v: int)
    requires
        obstacle_fits(o),
        spec_right(o) > 0,
        -1_000 <= v <= 0,
    ensures
        move_fits(o, v),
{
    match o {
        ObstacleModel::Platform(p) => {
            let moved = spec_move(o, v)->Platform_0;
            assert forall|i: int| 0 <= i < moved.boxes.len() implies rect_in_band(
                #[trigger] moved.boxes[i],
            ) by {
                assert(rect_in_band(p.boxes[i]));
                assert(spec_right(o) - p.boxes[i].x <= SPAN_MAX as int);
            }
            assert(moved.boxes.last() == moved.boxes[moved.boxes.len() - 1]);
        },
        ObstacleModel::Barrier(_) => {},
    }
}

/// Mathematical model of the world.
#[verifier::ext_equal]
pub ghost struct WalkModel {
    pub boy: BoyModel,
    pub bg_first: RectModel,
    pub bg_second: RectModel,
    pub obstacles: Seq<ObstacleModel>,
    pub timeline: int,
}

/// The world: the character, the two background tiles, the live
/// obstacles in draw order, and the generation timeline.
pub struct Walk {
    boy: RedHatBoy,
    backgrounds: (crate::obstacle::Image, crate::obstacle::Image),
    obstacles: Vec<Obstacle>,
    timeline: i16,
}

impl View for Walk {
    type V = WalkModel;

    closed spec fn view(&self) -> WalkModel {
        WalkModel {
            boy: self.boy@,
            bg_first: self.backgrounds.0@,
            bg_second: self.backgrounds.1@,
            obstacles: self.obstacles@.map_values(|o: Obstacle| o@),
            timeline: self.timeline as int,
        }
    }
}

/// The world invariant: a well-formed character, well-formed
/// obstacles, a well-formed background ring, and a timeline in the
/// world band.
pub open spec fn walk_wf(w: WalkModel) -> bool {
    &&& boy_wf(w.boy)
    &&& forall|i: int| 0 <= i < w.obstacles.len() ==> obstacle_fits(#[trigger] w.obstacles[i])
    &&& bg_pair_wf(w.bg_first, w.bg_second)
    &&& COORD_MIN as int <= w.timeline <= COORD_MAX as int
}

/// The world after one tick: input, physics, scroll, wrap, cull, move,
/// collide, then the timeline policy. When the timeline has fallen
/// under the minimum lead the supplied segment is installed and the
/// timeline jumps to its rightmost edge; otherwise the timeline
/// scrolls with the world.
pub open spec fn spec_tick(w: WalkModel, keys: KeyInput, seg: Seq<ObstacleModel>) -> WalkModel {
    let machine = spec_transition(spec_apply_inputs(w.boy.machine, keys), EventModel::Update);
    let v = -model_context(machine).velocity.x;
    let bgs = spec_scroll_backgrounds(w.bg_first, w.bg_second, v);
    let run = spec_cull_move_check(
        w.obstacles,
        v,
        BoyModel { machine, sheet: w.boy.sheet },
    );
    if w.timeline < TIMELINE_MINIMUM as int {
        WalkModel {
            boy: run.1,
            bg_first: bgs.0,
            bg_second: bgs.1,
            obstacles: run.0 + seg,
            timeline: spec_rightmost(seg),
        }
    } else {
        WalkModel {
            boy: run.1,
            bg_first: bgs.0,
            bg_second: bgs.1,
            obstacles: run.0,
            timeline: w.timeline + v,
        }
    }
}

impl Walk {
    /// Assembles a world. The obstacle list and timeline normally come
    /// from the segment generators that ran during loading.
    pub fn new(
        boy: RedHatBoy,
        background_first: crate::obstacle::Image,
        background_second: crate::obstacle::Image,
        obstacles: Vec<Obstacle>,
        timeline: i16,
    ) -> (r: Walk)
        requires
            boy_wf(boy@),
            forall|i: int| 0 <= i < obstacles@.len() ==> obstacle_fits((#[trigger] obstacles@[i])@),
            bg_pair_wf(background_first@, background_second@),
            COORD_MIN as int <= timeline as int <= COORD_MAX as int,
        ensures
            r@ == (WalkModel {
                boy: boy@,
                bg_first: background_first@,
                bg_second: background_second@,
                obstacles: obstacles@.map_values(|o: Obstacle| o@),
                timeline: timeline as int,
            }),
            walk_wf(r@),
    {
        let w = Walk { boy, backgrounds: (background_first, background_second), obstacles, timeline };
        proof {
            assert forall|i: int| 0 <= i < w@.obstacles.len() implies obstacle_fits(
                #[trigger] w@.obstacles[i],
            ) by {
                assert(w@.obstacles[i] == w.obstacles@[i]@);
            }
        }
        w
    }

    /// The character.
    pub fn boy(&self) -> (r: &RedHatBoy)
        ensures
            r@ == self@.boy,
    {
        &self.boy
    }

    /// The two background tiles, in stored order.
    pub fn backgrounds(&self) -> (r: (&crate::obstacle::Image, &crate::obstacle::Image))
        ensures
            r.0@ == self@.bg_first,
            r.1@ == self@.bg_second,
    {
        (&self.backgrounds.0, &self.backgrounds.1)
    }

    /// The live obstacles, in draw order.
    pub fn obstacles(&self) -> (r: &Vec<Obstacle>)
        ensures
            r@.map_values(|o: Obstacle| o@) == self@.obstacles,
    {
        &self.obstacles
    }

    /// The world coordinate up to which content has been generated.
    pub fn timeline(&self) -> (r: i16)
        ensures
            r as int == self@.timeline,
    {
        self.timeline
    }

    /// The scroll velocity of this tick: the world moves opposite to
    /// the character's walking speed.
    pub fn velocity(&self) -> (r: i16)
        requires
            walk_wf(self@),
        ensures
            r as int == -model_context(self@.boy.machine).velocity.x,
    {
        0 - self.boy.walking_speed()
    }

    /// Whether the next tick will ask for one more generated segment.
    pub fn needs_new_segment(&self) -> (r: bool)
        ensures
            r == (self@.timeline < TIMELINE_MINIMUM as int),
    {
        self.timeline < TIMELINE_MINIMUM
    }

    /// Where a newly requested segment is anchored: just past the
    /// current timeline.
    pub fn next_segment_start(&self) -> (r: i16)
        requires
            walk_wf(self@),
        ensures
            r as int == self@.timeline + OBSTACLE_BUFFER as int,
    {
        self.timeline + OBSTACLE_BUFFER
    }

    /// Installs a freshly generated segment: the timeline advances to
    /// the rightmost edge of the new obstacles and they join the back
    /// of the list.
    pub fn generate_next_segment(&mut self, next_obstacles: Vec<Obstacle>)
        requires
            forall|i: int| 0 <= i < next_obstacles@.len() ==> obstacle_fits(
                (#[trigger] next_obstacles@[i])@,
            ),
        ensures
            final(self)@ == (WalkModel {
                obstacles: old(self)@.obstacles + next_obstacles@.map_values(|o: Obstacle| o@),
                timeline: spec_rightmost(next_obstacles@.map_values(|o: Obstacle| o@)),
                ..old(self)@
            }),
    {
        let ghost seg = next_obstacles@.map_values(|o: Obstacle| o@);
        let mut next_obstacles = next_obstacles;
        self.timeline = rightmost(&next_obstacles);
        self.obstacles.append(&mut next_obstacles);
        proof {
            assert(self@.obstacles =~= old(self)@.obstacles + seg);
        }
    }

    /// One tick of the world. `next_segment` is the freshly generated
    /// content to install if the timeline has run low; callers anchor
    /// it at `next_segment_start()` and pass an empty list when
    /// `needs_new_segment()` is false.
    #[verifier::rlimit(60)]
    pub fn update(&mut self, keystate: &KeyInput, next_segment: Vec<Obstacle>)
        requires
            walk_wf(old(self)@),
            forall|i: int| 0 <= i < next_segment@.len() ==> obstacle_fits(
                (#[trigger] next_segment@[i])@,
            ),
        ensures
            final(self)@ == spec_tick(
                old(self)@,
                *keystate,
                next_segment@.map_values(|o: Obstacle| o@),
            ),
            walk_wf(final(self)@),
    {
        let ghost w0 = self@;
        let ghost seg = next_segment@.map_values(|o: Obstacle| o@);

        if keystate.slide {
            self.boy.slide();
        }
        if keystate.run {
            self.boy.run_right();
        }
        if keystate.jump {
            self.boy.jump();
        }
        self.boy.update();
        proof {
            assert(self@.boy.machine == spec_transition(
                spec_apply_inputs(w0.boy.machine, *keystate),
                EventModel::Update,
            ));
        }
        let velocity = 0 - self.boy.walking_speed();

        self.backgrounds.0.move_horizontally(velocity);
        self.backgrounds.1.move_horizontally(velocity);
        if self.backgrounds.0.right() < 0 {
            let x = self.backgrounds.1.right();
            self.backgrounds.0.set_x(x);
        }
        if self.backgrounds.1.right() < 0 {
            let x = self.backgrounds.0.right();
            self.backgrounds.1.set_x(x);
        }
        proof {
            lemma_scroll_backgrounds_wf(w0.bg_first, w0.bg_second, velocity as int);
            assert(self@.bg_first == spec_scroll_backgrounds(
                w0.bg_first,
                w0.bg_second,
                velocity as int,
            ).0);
            assert(self@.bg_second == spec_scroll_backgrounds(
                w0.bg_first,
                w0.bg_second,
                velocity as int,
            ).1);
        }
        let ghost bgs_done = (self@.bg_first, self@.bg_second);

        let mut drained: Vec<Obstacle> = Vec::new();
        core::mem::swap(&mut self.obstacles, &mut drained);
        let ghost boy_pre = self@.boy;
        let ghost pre = drained@.map_values(|o: Obstacle| o@);
        let ghost target = spec_cull_move_check(pre, velocity as int, boy_pre);
        let mut kept: Vec<Obstacle> = Vec::new();
        proof {
            assert(pre =~= w0.obstacles);
            assert forall|k: int| 0 <= k < drained@.len() implies obstacle_fits(
                (#[trigger] drained@[k])@,
            ) by {
                assert(drained@[k]@ == w0.obstacles[k]);
            }
        }
        #[verifier::loop_isolation(false)]
        while drained.len() > 0
            invariant
                boy_wf(self@.boy),
                self@.boy.sheet == boy_pre.sheet,
                self@.bg_first == bgs_done.0,
                self@.bg_second == bgs_done.1,
                self@.timeline == w0.timeline,
                self@.obstacles.len() == 0,
                forall|k: int| 0 <= k < drained@.len() ==> obstacle_fits((#[trigger] drained@[k])@),
                forall|k: int| 0 <= k < kept@.len() ==> obstacle_fits((#[trigger] kept@[k])@),
                target.0 == kept@.map_values(|o: Obstacle| o@) + spec_cull_move_check(
                    drained@.map_values(|o: Obstacle| o@),
                    velocity as int,
                    self@.boy,
                ).0,
                target.1 == spec_cull_move_check(
                    drained@.map_values(|o: Obstacle| o@),
                    velocity as int,
                    self@.boy,
                ).1,
            decreases drained@.len(),
        {
            let ghost remaining = drained@.map_values(|o: Obstacle| o@);
            let mut o = drained.remove(0);
            proof {
                assert(remaining[0] == o@);
                assert(drained@.map_values(|x: Obstacle| x@) =~= remaining.drop_first());
            }
            if o.right() > 0 {
                proof {
                    lemma_scroll_keeps_band(o@, velocity as int);
                }
                o.move_horizontally(velocity);
                o.check_intersection(&mut self.boy);
                kept.push(o);
                proof {
                    assert(kept@.map_values(|x: Obstacle| x@) =~= kept@.drop_last().map_values(
                        |x: Obstacle| x@,
                    ) + seq![o@]);
                    assert(target.0 =~= kept@.map_values(|x: Obstacle| x@)
                        + spec_cull_move_check(
                        remaining.drop_first(),
                        velocity as int,
                        self@.boy,
                    ).0);
                }
            }
        }
        core::mem::swap(&mut self.obstacles, &mut kept);
        proof {
            assert(spec_cull_move_check(
                Seq::<ObstacleModel>::empty(),
                velocity as int,
                self@.boy,
            ).0 =~= Seq::<ObstacleModel>::empty());
            assert(target.0 =~= self@.obstacles);
            assert(target.1 == self@.boy);
        }

        if self.timeline < TIMELINE_MINIMUM {
            self.generate_next_segment(next_segment);
            proof {
                lemma_rightmost_in_band(seg);
                assert(self@.obstacles =~= target.0 + seg);
                assert(self@ =~= spec_tick(w0, *keystate, seg));
                assert forall|i: int| 0 <= i < self@.obstacles.len() implies obstacle_fits(
                    #[trigger] self@.obstacles[i],
                ) by {
                    if i < target.0.len() {
                    } else {
                        assert(self@.obstacles[i] == seg[i - target.0.len()]);
                        assert(seg[i - target.0.len()] == next_segment@[i - target.0.len()]@);
                    }
                }
            }
        } else {
            self.timeline = self.timeline + velocity;
            proof {
                assert(self@ =~= spec_tick(w0, *keystate, seg));
            }
        }
    }
}

/// A tick that starts with the timeline under the minimum lead
/// installs the supplied segment and leaves the timeline at that
/// segment's rightmost edge. When the generated segment reaches past
/// the minimum lead, the timeline is replenished within that one tick,
/// so it is never below the minimum for two consecutive ticks.
pub proof fn lemma_timeline_replenished(w: WalkModel, keys: KeyInput, seg: Seq<ObstacleModel>)
    requires
        walk_wf(w),
        w.timeline < TIMELINE_MINIMUM as int,
        spec_rightmost(seg) >= TIMELINE_MINIMUM as int,
    ensures
        spec_tick(w, keys, seg).timeline == spec_rightmost(seg),
        spec_tick(w, keys, seg).timeline >= TIMELINE_MINIMUM as int,
{
}

/// A tick that starts with the timeline at or above the minimum lead
/// installs nothing and lets the timeline drift by at most the
/// walking speed, so one tick is the most the timeline can spend under
/// the minimum before generation replenishes it.
pub proof fn lemma_timeline_drift(w: WalkModel, keys: KeyInput, seg: Seq<ObstacleModel>)
    requires
        walk_wf(w),
        w.timeline >= TIMELINE_MINIMUM as int,
    ensures
        spec_tick(w, keys, seg).obstacles == spec_cull_move_check(
            w.obstacles,
            -model_context(
                spec_transition(spec_apply_inputs(w.boy.machine, keys), EventModel::Update),
            ).velocity.x,
            BoyModel {
                machine: spec_transition(spec_apply_inputs(w.boy.machine, keys), EventModel::Update),
                sheet: w.boy.sheet,
            },
        ).0,
        spec_tick(w, keys, seg).timeline >= w.timeline - RUNNING_SPEED as int,
{
    lemma_apply_inputs_wf(w.boy.machine, keys);
    crate::state_machine::lemma_transition_preserves_wf(
        spec_apply_inputs(w.boy.machine, keys),
        EventModel::Update,
    );
}

/// Input events preserve the machine invariant.
pub proof fn lemma_apply_inputs_wf(m: MachineModel, keys: KeyInput)
    requires
        machine_wf(m),
    ensures
        machine_wf(spec_apply_inputs(m, keys)),
{
    let m1 = if keys.slide {
        spec_transition(m, EventModel::Slide)
    } else {
        m
    };
    let m2 = if keys.run {
        spec_transition(m1, EventModel::Run)
    } else {
        m1
    };
    crate::state_machine::lemma_transition_preserves_wf(m, EventModel::Slide);
    crate::state_machine::lemma_transition_preserves_wf(m1, EventModel::Run);
    crate::state_machine::lemma_transition_preserves_wf(m2, EventModel::Jump);
}

} // verus!
