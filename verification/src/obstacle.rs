//! The obstacle model: a multi-cell platform with per-segment
//! collision boxes, a single-image barrier, and the shared dispatch
//! over the two. Platforms can be landed on from above; barriers
//! always knock the character out.

use vstd::prelude::*;

use crate::geometry::{
    rect_in_band, spec_intersects, Point, PointModel, Rect, RectModel, COORD_MAX, COORD_MIN,
};
use crate::red_hat_boy::{boy_wf, spec_bounding_box, BoyModel, RedHatBoy};
use crate::sheet::{cell_fits, Cell, CellModel};
use crate::state_machine::{model_context, spec_transition, EventModel};

verus! {

/// A drawable with a position and a bounding box; used for barriers
/// and for the scrolling backgrounds. The pixel data itself stays with
/// the embedding application.
#[derive(Clone, Copy, PartialEq, Eq, Structural, Debug)]
pub struct Image {
    bounding_box: Rect,
}

impl View for Image {
    type V = RectModel;

    closed spec fn view(&self) -> RectModel {
        self.bounding_box@
    }
}

impl Image {
    /// An image of the given size anchored at `position`.
    pub fn new(position: Point, width: i16, height: i16) -> (r: Image)
        ensures
            r@ == (RectModel {
                x: position.x as int,
                y: position.y as int,
                width: width as int,
                height: height as int,
            }),
    {
        Image { bounding_box: Rect::new(position, width, height) }
    }

    pub fn bounding_box(&self) -> (r: &Rect)
        ensures
            r@ == self@,
    {
        &self.bounding_box
    }

    pub fn move_horizontally(&mut self, distance: i16)
        requires
            i16::MIN as int <= old(self)@.x + distance as int <= i16::MAX as int,
        ensures
            final(self)@ == (RectModel { x: old(self)@.x + distance as int, ..old(self)@ }),
    {
        self.bounding_box.position.x = self.bounding_box.position.x + distance;
    }

    /// Moves the image so that its left edge sits at `x`.
    pub fn set_x(&mut self, x: i16)
        ensures
            final(self)@ == (RectModel { x: x as int, ..old(self)@ }),
    {
        self.bounding_box.set_x(x);
    }

    pub fn right(&self) -> (r: i16)
        requires
            i16::MIN as int <= self@.x + self@.width <= i16::MAX as int,
        ensures
            r as int == self@.x + self@.width,
    {
        self.bounding_box.right()
    }
}

/// Mathematical model of a platform.
pub ghost struct PlatformModel {
    pub sprites: Seq<CellModel>,
    pub boxes: Seq<RectModel>,
    pub position: PointModel,
}

/// A multi-cell platform: atlas cells drawn side by side, with
/// collision boxes stored in absolute world coordinates, left to
/// right.
pub struct Platform {
    sprites: Vec<Cell>,
    bounding_boxes: Vec<Rect>,
    position: Point,
}

impl View for Platform {
    type V = PlatformModel;

    closed spec fn view(&self) -> PlatformModel {
        PlatformModel {
            sprites: self.sprites@.map_values(|c: Cell| c@),
            boxes: self.bounding_boxes@.map_values(|r: Rect| r@),
            position: self.position@,
        }
    }
}

/// A single-image barrier.
pub struct Barrier {
    image: Image,
}

impl View for Barrier {
    type V = RectModel;

    closed spec fn view(&self) -> RectModel {
        self.image@
    }
}

/// Any collidable, drawable, scrollable world object.
pub enum Obstacle {
    Platform(Platform),
    Barrier(Barrier),
}

/// Mathematical model of an obstacle.
pub ghost enum ObstacleModel {
    Platform(PlatformModel),
    Barrier(RectModel),
}

impl View for Obstacle {
    type V = ObstacleModel;

    open spec fn view(&self) -> ObstacleModel {
        match self {
            Obstacle::Platform(p) => ObstacleModel::Platform(p@),
            Obstacle::Barrier(b) => ObstacleModel::Barrier(b@),
        }
    }
}

/// Every collision box lies in the world band; a platform carries at
/// least one box, supplied left to right, and its boxes move in
/// lockstep with its drawing position.
pub open spec fn obstacle_fits(o: ObstacleModel) -> bool {
    match o {
        ObstacleModel::Platform(p) => {
            let right = p.boxes.last().x + p.boxes.last().width;
            &&& p.boxes.len() >= 1
            &&& forall|i: int| 0 <= i < p.boxes.len() ==> rect_in_band(#[trigger] p.boxes[i])
            &&& COORD_MIN as int <= p.position.x <= COORD_MAX as int
            &&& COORD_MIN as int <= p.position.y <= COORD_MAX as int
            &&& right - p.position.x <= crate::geometry::SPAN_MAX as int
            &&& forall|i: int| 0 <= i < p.boxes.len() ==> right - (#[trigger] p.boxes[i]).x
                <= crate::geometry::SPAN_MAX as int
        },
        ObstacleModel::Barrier(b) => rect_in_band(b),
    }
}

/// The right edge obstacles are culled and the timeline is advanced
/// by: a platform's last collision box, a barrier's image.
pub open spec fn spec_right(o: ObstacleModel) -> int {
    match o {
        ObstacleModel::Platform(p) => if p.boxes.len() == 0 {
            0
        } else {
            p.boxes.last().x + p.boxes.last().width
        },
        ObstacleModel::Barrier(b) => b.x + b.width,
    }
}

/// The obstacle shifted horizontally by `dx`: position, boxes and
/// sprites' world placement all move together.
pub open spec fn spec_move(o: ObstacleModel, dx: int) -> ObstacleModel {
    match o {
        ObstacleModel::Platform(p) => ObstacleModel::Platform(
            PlatformModel {
                sprites: p.sprites,
                boxes: Seq::new(p.boxes.len(), |i: int| RectModel { x: p.boxes[i].x + dx, ..p.boxes[i] }),
                position: PointModel { x: p.position.x + dx, y: p.position.y },
            },
        ),
        ObstacleModel::Barrier(b) => ObstacleModel::Barrier(RectModel { x: b.x + dx, ..b }),
    }
}

/// The obstacle can move by `dx` without leaving the world band.
pub open spec fn move_fits(o: ObstacleModel, dx: int) -> bool {
    obstacle_fits(spec_move(o, dx))
}

/// The first stored collision box that the character's box overlaps,
/// in stored order.
pub open spec fn spec_first_hit(boxes: Seq<RectModel>, bb: RectModel) -> Option<RectModel>
    decreases boxes.len(),
{
    if boxes.len() == 0 {
        None
    } else if spec_intersects(bb, boxes[0]) {
        Some(boxes[0])
    } else {
        spec_first_hit(boxes.drop_first(), bb)
    }
}

/// What a collision check does to the character's state machine.
///
/// A platform hit counts as a landing when the character is moving
/// downward and its anchor is above the platform's position; any other
/// platform hit, and any barrier hit, is a knock-out. No overlap
/// leaves the machine unchanged.
pub open spec fn spec_check(o: ObstacleModel, b: BoyModel) -> crate::state_machine::MachineModel {
    match o {
        ObstacleModel::Platform(p) => match spec_first_hit(p.boxes, spec_bounding_box(b)) {
            Some(hit) => {
                if model_context(b.machine).velocity.y > 0 && model_context(b.machine).position.y
                    < p.position.y {
                    spec_transition(b.machine, EventModel::Land(hit.y))
                } else {
                    spec_transition(b.machine, EventModel::KnockOut)
                }
            },
            None => b.machine,
        },
        ObstacleModel::Barrier(rect) => {
            if spec_intersects(spec_bounding_box(b), rect) {
                spec_transition(b.machine, EventModel::KnockOut)
            } else {
                b.machine
            }
        },
    }
}

/// A first hit, when there is one, is one of the stored boxes.
pub proof fn lemma_first_hit_is_member(boxes: Seq<RectModel>, bb: RectModel)
    requires
        spec_first_hit(boxes, bb) is Some,
    ensures
        boxes.contains(spec_first_hit(boxes, bb)->Some_0),
    decreases boxes.len(),
{
    if boxes.len() > 0 && !spec_intersects(bb, boxes[0]) {
        lemma_first_hit_is_member(boxes.drop_first(), bb);
        let hit = spec_first_hit(boxes, bb)->Some_0;
        let i = choose|i: int| 0 <= i < boxes.drop_first().len() && boxes.drop_first()[i] == hit;
        assert(boxes[i + 1] == hit);
    }
}

/// A collision check leaves the character's machine in a reachable
/// state: the landing coordinate it can hand over is the top edge of a
/// stored box, which lies in the world band.
pub proof fn lemma_check_preserves_wf(o: ObstacleModel, b: BoyModel)
    requires
        obstacle_fits(o),
        crate::state_machine::machine_wf(b.machine),
    ensures
        crate::state_machine::machine_wf(spec_check(o, b)),
{
    match o {
        ObstacleModel::Platform(p) => {
            let bb = spec_bounding_box(b);
            if spec_first_hit(p.boxes, bb) is Some {
                let hit = spec_first_hit(p.boxes, bb)->Some_0;
                lemma_first_hit_is_member(p.boxes, bb);
                let i = choose|i: int| 0 <= i < p.boxes.len() && p.boxes[i] == hit;
                assert(rect_in_band(p.boxes[i]));
                crate::state_machine::lemma_transition_preserves_wf(
                    b.machine,
                    EventModel::Land(hit.y),
                );
                crate::state_machine::lemma_transition_preserves_wf(
                    b.machine,
                    EventModel::KnockOut,
                );
            }
        },
        ObstacleModel::Barrier(_) => {
            crate::state_machine::lemma_transition_preserves_wf(b.machine, EventModel::KnockOut);
        },
    }
}

impl Platform {
    /// Builds a platform at `position` from its atlas cells and its
    /// collision boxes given relative to `position`; the stored boxes
    /// are absolute.
    pub fn new(sprites: Vec<Cell>, position: Point, bounding_boxes: &Vec<Rect>) -> (r: Platform)
        requires
            bounding_boxes@.len() >= 1,
            COORD_MIN as int <= position@.x,
            COORD_MIN as int <= position@.y,
            bounding_boxes@.last()@.x + bounding_boxes@.last()@.width
                <= crate::geometry::SPAN_MAX as int,
            forall|i: int| 0 <= i < bounding_boxes@.len() ==> {
                let b = (#[trigger] bounding_boxes@[i])@;
                &&& 0 <= b.x
                &&& 0 <= b.y
                &&& 0 <= b.width <= crate::geometry::SPAN_MAX as int
                &&& 0 <= b.height <= crate::geometry::SPAN_MAX as int
                &&& position@.x + b.x + b.width <= COORD_MAX as int
                &&& position@.y + b.y + b.height <= COORD_MAX as int
            },
        ensures
            r@.position == position@,
            r@.sprites == sprites@.map_values(|c: Cell| c@),
            r@.boxes.len() == bounding_boxes@.len(),
            forall|i: int| 0 <= i < bounding_boxes@.len() ==> #[trigger] r@.boxes[i]
                == (RectModel {
                    x: bounding_boxes@[i]@.x + position@.x,
                    y: bounding_boxes@[i]@.y + position@.y,
                    width: bounding_boxes@[i]@.width,
                    height: bounding_boxes@[i]@.height,
                }),
            obstacle_fits(ObstacleModel::Platform(r@)),
    {
        let mut absolute: Vec<Rect> = Vec::new();
        let mut i: usize = 0;
        while i < bounding_boxes.len()
            invariant
                i <= bounding_boxes@.len(),
                bounding_boxes@.len() >= 1,
                COORD_MIN as int <= position@.x,
                COORD_MIN as int <= position@.y,
                forall|k: int| 0 <= k < bounding_boxes@.len() ==> {
                    let b = (#[trigger] bounding_boxes@[k])@;
                    &&& 0 <= b.x
                    &&& 0 <= b.y
                    &&& 0 <= b.width <= crate::geometry::SPAN_MAX as int
                    &&& 0 <= b.height <= crate::geometry::SPAN_MAX as int
                    &&& position@.x + b.x + b.width <= COORD_MAX as int
                    &&& position@.y + b.y + b.height <= COORD_MAX as int
                },
                absolute@.len() == i as int,
                forall|k: int| 0 <= k < i as int ==> #[trigger] absolute@[k]@
                    == (RectModel {
                        x: bounding_boxes@[k]@.x + position@.x,
                        y: bounding_boxes@[k]@.y + position@.y,
                        width: bounding_boxes@[k]@.width,
                        height: bounding_boxes@[k]@.height,
                    }),
            decreases bounding_boxes@.len() - i as int,
        {
            let b = &bounding_boxes[i];
            absolute.push(Rect::new_from_x_y(
                b.position.x + position.x,
                b.position.y + position.y,
                b.width,
                b.height,
            ));
            i = i + 1;
        }
        proof {
            let mapped = absolute@.map_values(|r: Rect| r@);
            let last = bounding_boxes@.len() - 1;
            assert(mapped.last() == absolute@[last]@);
            assert forall|k: int| 0 <= k < mapped.len() implies rect_in_band(#[trigger] mapped[k])
                && mapped.last().x + mapped.last().width - mapped[k].x
                <= crate::geometry::SPAN_MAX as int by {
                assert(mapped[k] == absolute@[k]@);
                let b = bounding_boxes@[k]@;
                assert(0 <= b.x);
            }
            assert(position@.x + bounding_boxes@[0]@.x + bounding_boxes@[0]@.width
                <= COORD_MAX as int);
            assert(position@.y + bounding_boxes@[0]@.y + bounding_boxes@[0]@.height
                <= COORD_MAX as int);
        }
        Platform { sprites, position, bounding_boxes: absolute }
    }

    /// The platform's cells are drawn side by side in one row, each
    /// offset by the widths of the cells before it.
    pub open spec fn spec_draw_offset(sprites: Seq<CellModel>, i: int) -> int
        decreases i,
    {
        if i <= 0 {
            0
        } else {
            Self::spec_draw_offset(sprites, i - 1) + sprites[i - 1].frame.width
        }
    }

    /// Draw offsets grow with the cell index when every cell has
    /// non-negative width.
    pub proof fn lemma_draw_offset_mono(sprites: Seq<CellModel>, i: int, j: int)
        requires
            0 <= i <= j <= sprites.len(),
            forall|k: int| 0 <= k < sprites.len() ==> cell_fits(#[trigger] sprites[k]),
        ensures
            Self::spec_draw_offset(sprites, i) <= Self::spec_draw_offset(sprites, j),
        decreases j - i,
    {
        if i < j {
            Self::lemma_draw_offset_mono(sprites, i, j - 1);
        }
    }

    /// The source and destination rectangle of each cell of the
    /// platform, in cell order: the atlas rectangle, and the world
    /// rectangle where it is drawn, cells sitting side by side from
    /// the platform's position.
    pub fn sprite_draw_rects(&self) -> (r: Vec<(Rect, Rect)>)
        requires
            forall|i: int| 0 <= i < self@.sprites.len() ==> cell_fits(#[trigger] self@.sprites[i]),
            COORD_MIN as int <= self@.position.x,
            COORD_MIN as int <= self@.position.y <= COORD_MAX as int,
            Self::spec_draw_offset(self@.sprites, self@.sprites.len() as int)
                <= crate::geometry::SPAN_MAX as int,
            self@.position.x + Self::spec_draw_offset(self@.sprites, self@.sprites.len() as int)
                <= COORD_MAX as int,
        ensures
            r@.len() == self@.sprites.len(),
            forall|i: int| 0 <= i < r@.len() ==> {
                let cell = self@.sprites[i];
                &&& (#[trigger] r@[i]).0@ == cell.frame
                &&& r@[i].1@ == (RectModel {
                    x: self@.position.x + Self::spec_draw_offset(self@.sprites, i),
                    y: self@.position.y,
                    width: cell.frame.width,
                    height: cell.frame.height,
                })
            },
    {
        let ghost cells = self@.sprites;
        let mut r: Vec<(Rect, Rect)> = Vec::new();
        let mut x: i16 = 0;
        let mut i: usize = 0;
        #[verifier::loop_isolation(false)]
        while i < self.sprites.len()
            invariant
                i <= self.sprites@.len(),
                x as int == Self::spec_draw_offset(cells, i as int),
                r@.len() == i as int,
                forall|k: int| 0 <= k < i as int ==> {
                    let cell = cells[k];
                    &&& (#[trigger] r@[k]).0@ == cell.frame
                    &&& r@[k].1@ == (RectModel {
                        x: self@.position.x + Self::spec_draw_offset(cells, k),
                        y: self@.position.y,
                        width: cell.frame.width,
                        height: cell.frame.height,
                    })
                },
            decreases self.sprites@.len() - i as int,
        {
            proof {
                assert(cells[i as int] == self.sprites@[i as int]@);
                Self::lemma_draw_offset_mono(cells, 0, i as int);
                Self::lemma_draw_offset_mono(cells, i as int + 1, cells.len() as int);
            }
            let sprite = &self.sprites[i];
            let source = Rect::new_from_x_y(
                sprite.frame.position.x,
                sprite.frame.position.y,
                sprite.frame.width,
                sprite.frame.height,
            );
            let destination = Rect::new_from_x_y(
                self.position.x + x,
                self.position.y,
                sprite.frame.width,
                sprite.frame.height,
            );
            r.push((source, destination));
            x = x + sprite.frame.width;
            i = i + 1;
        }
        r
    }

    /// The stored collision boxes, in absolute world coordinates.
    pub fn bounding_boxes(&self) -> (r: &Vec<Rect>)
        ensures
            r@.map_values(|b: Rect| b@) == self@.boxes,
    {
        &self.bounding_boxes
    }

    /// The atlas cells drawn for this platform, left to right.
    pub fn sprites(&self) -> (r: &Vec<Cell>)
        ensures
            r@.map_values(|c: Cell| c@) == self@.sprites,
    {
        &self.sprites
    }

    /// The platform's drawing anchor.
    pub fn position(&self) -> (r: Point)
        ensures
            r@ == self@.position,
    {
        self.position
    }
}

impl Barrier {
    pub fn new(image: Image) -> (r: Barrier)
        ensures
            r@ == image@,
    {
        Barrier { image }
    }

    /// The barrier's image geometry.
    pub fn image(&self) -> (r: &Image)
        ensures
            r@ == self@,
    {
        &self.image
    }
}

impl Obstacle {
    /// Tests the character against this obstacle and applies the
    /// resulting landing or knock-out, if any.
    pub fn check_intersection(&self, boy: &mut RedHatBoy)
        requires
            boy_wf(old(boy)@),
            obstacle_fits(self@),
        ensures
            final(boy)@.machine == spec_check(self@, old(boy)@),
            final(boy)@.sheet == old(boy)@.sheet,
            boy_wf(final(boy)@),
    {
        let bb = boy.bounding_box();
        match self {
            Obstacle::Platform(platform) => {
                let boxes = &platform.bounding_boxes;
                let mut i: usize = 0;
                let ghost all = platform@.boxes;
                proof {
                    assert(all.skip(0) =~= all);
                    assert forall|k: int| 0 <= k < all.len() implies rect_in_band(
                        #[trigger] all[k],
                    ) by {
                        assert(all[k] == boxes@[k]@);
                    }
                }
                #[verifier::loop_isolation(false)]
                while i < boxes.len()
                    invariant
                        i <= boxes@.len(),
                        boy@ == old(boy)@,
                        spec_first_hit(all, bb@) == spec_first_hit(
                            all.skip(i as int),
                            bb@,
                        ),
                        forall|k: int| 0 <= k < i as int ==> !spec_intersects(bb@, #[trigger] all[k]),
                    decreases boxes@.len() - i as int,
                {
                    proof {
                        crate::geometry::lemma_band_fits(all[i as int]);
                        assert(all[i as int] == boxes@[i as int]@);
                        assert(all.skip(i as int)[0] == all[i as int]);
                        assert(all.skip(i as int).drop_first() =~= all.skip(i as int + 1));
                    }
                    if bb.intersects(&boxes[i]) {
                        proof {
                            assert(spec_first_hit(all, bb@) == Some(all[i as int]));
                        }
                        if boy.velocity_y() > 0 && boy.pos_y() < platform.position.y {
                            boy.land_on(boxes[i].y());
                        } else {
                            boy.knock_out();
                        }
                        return ;
                    }
                    i = i + 1;
                }
                proof {
                    assert(all.skip(boxes@.len() as int).len() == 0);
                }
            },
            Obstacle::Barrier(barrier) => {
                proof {
                    crate::geometry::lemma_band_fits(barrier@);
                }
                if bb.intersects(barrier.image.bounding_box()) {
                    boy.knock_out();
                }
            },
        }
    }

    /// Shifts the obstacle horizontally: the drawing position and
    /// every collision box move by the same distance, staying in
    /// lockstep.
    pub fn move_horizontally(&mut self, x: i16)
        requires
            obstacle_fits(old(self)@),
            move_fits(old(self)@, x as int),
            -1_000 <= x as int <= 1_000,
        ensures
            final(self)@ == spec_move(old(self)@, x as int),
            obstacle_fits(final(self)@),
    {
        match self {
            Obstacle::Platform(platform) => {
                platform.position.x = platform.position.x + x;
                let boxes = &mut platform.bounding_boxes;
                let ghost orig = boxes@;
                proof {
                    let before = old(self)@->Platform_0.boxes;
                    let after = spec_move(old(self)@, x as int)->Platform_0.boxes;
                    assert forall|k: int| 0 <= k < orig.len() implies rect_in_band(
                        (#[trigger] orig[k])@,
                    ) && rect_in_band(RectModel { x: orig[k]@.x + x as int, ..orig[k]@ }) by {
                        assert(before[k] == orig[k]@);
                        assert(after[k] == RectModel { x: orig[k]@.x + x as int, ..orig[k]@ });
                    }
                }
                let mut i: usize = 0;
                while i < boxes.len()
                    invariant
                        i <= boxes@.len(),
                        boxes@.len() == orig.len(),
                        forall|k: int| 0 <= k < orig.len() ==> rect_in_band((#[trigger] orig[k])@),
                        forall|k: int| 0 <= k < orig.len() ==> rect_in_band(
                            RectModel { x: (#[trigger] orig[k])@.x + x as int, ..orig[k]@ },
                        ),
                        forall|k: int| i as int <= k < orig.len() ==> #[trigger] boxes@[k] == orig[k],
                        forall|k: int| 0 <= k < i as int ==> #[trigger] boxes@[k]@
                            == (RectModel { x: orig[k]@.x + x as int, ..orig[k]@ }),
                    decreases boxes@.len() - i as int,
                {
                    let new_x = boxes[i].position.x + x;
                    boxes[i].set_x(new_x);
                    i = i + 1;
                }
                proof {
                    assert(platform@.boxes =~= spec_move(old(self)@, x as int)->Platform_0.boxes);
                }
            },
            Obstacle::Barrier(barrier) => {
                barrier.image.move_horizontally(x);
            },
        }
    }

    /// The obstacle's right edge, used for culling and for placing
    /// newly generated content.
    pub fn right(&self) -> (r: i16)
        requires
            obstacle_fits(self@),
        ensures
            r as int == spec_right(self@),
    {
        match self {
            Obstacle::Platform(platform) => {
                if platform.bounding_boxes.len() == 0 {
                    Rect::default().right()
                } else {
                    let last = platform.bounding_boxes.len() - 1;
                    proof {
                        assert(self@->Platform_0.boxes[last as int]
                            == platform.bounding_boxes@[last as int]@);
                        crate::geometry::lemma_band_fits(self@->Platform_0.boxes[last as int]);
                    }
                    platform.bounding_boxes[last].right()
                }
            },
            Obstacle::Barrier(barrier) => {
                proof {
                    crate::geometry::lemma_band_fits(barrier@);
                }
                barrier.image.right()
            },
        }
    }
}

/// Moving an obstacle shifts every one of its collision boxes by
/// exactly the movement distance, and shifts its right edge by exactly
/// the same distance.
pub proof fn lemma_move_shifts_everything(o: ObstacleModel, dx: int)
    requires
        obstacle_fits(o),
    ensures
        o is Platform ==> {
            let moved = spec_move(o, dx)->Platform_0;
            &&& moved.boxes.len() == o->Platform_0.boxes.len()
            &&& forall|i: int| 0 <= i < moved.boxes.len() ==> #[trigger] moved.boxes[i]
                == (RectModel { x: o->Platform_0.boxes[i].x + dx, ..o->Platform_0.boxes[i] })
            &&& moved.position.x == o->Platform_0.position.x + dx
        },
        o is Barrier ==> spec_move(o, dx)->Barrier_0 == (RectModel {
            x: o->Barrier_0.x + dx,
            ..o->Barrier_0
        }),
        spec_right(spec_move(o, dx)) == spec_right(o) + dx,
{
    match o {
        ObstacleModel::Platform(p) => {
            let moved = spec_move(o, dx)->Platform_0;
            assert(moved.boxes.last() == (RectModel {
                x: p.boxes.last().x + dx,
                ..p.boxes.last()
            }));
        },
        ObstacleModel::Barrier(_) => {},
    }
}

} // verus!
