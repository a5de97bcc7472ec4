//! A plain-value model of the character's sprite atlas: one cell per
//! animation image, grouped per state and indexed by the frame
//! counter. The atlas is loaded and decoded by the embedding
//! application; this crate only reads the geometry stored here.

use vstd::prelude::*;

use crate::geometry::{Point, PointModel, Rect, RectModel};

verus! {

/// One atlas cell: the source rectangle inside the sheet image and the
/// offset at which the sprite is drawn relative to the character's
/// position.
#[derive(Clone, Copy, PartialEq, Eq, Structural, Debug)]
pub struct Cell {
    pub frame: Rect,
    pub sprite_source_size: Point,
}

/// Mathematical model of a `Cell`.
pub ghost struct CellModel {
    pub frame: RectModel,
    pub sprite_source_size: PointModel,
}

impl View for Cell {
    type V = CellModel;

    open spec fn view(&self) -> CellModel {
        CellModel { frame: self.frame@, sprite_source_size: self.sprite_source_size@ }
    }
}

/// Atlas geometry stays in a small non-negative band, and every cell
/// is large enough to carry the character's collision-box insets.
pub open spec fn cell_fits(c: CellModel) -> bool {
    &&& 0 <= c.frame.x <= 10_000
    &&& 0 <= c.frame.y <= 10_000
    &&& 28 <= c.frame.width <= 1_000
    &&& 14 <= c.frame.height <= 1_000
    &&& 0 <= c.sprite_source_size.x <= 1_000
    &&& 0 <= c.sprite_source_size.y <= 1_000
}

/// The character's sprite sheet, with the cells of each animation in
/// frame order (three ticks per cell).
#[derive(Clone, PartialEq, Eq, Debug)]
pub struct Sheet {
    pub idle: Vec<Cell>,
    pub run: Vec<Cell>,
    pub slide: Vec<Cell>,
    pub jump: Vec<Cell>,
    pub dead: Vec<Cell>,
}

/// Mathematical model of a `Sheet`.
pub ghost struct SheetModel {
    pub idle: Seq<CellModel>,
    pub run: Seq<CellModel>,
    pub slide: Seq<CellModel>,
    pub jump: Seq<CellModel>,
    pub dead: Seq<CellModel>,
}

impl View for Sheet {
    type V = SheetModel;

    open spec fn view(&self) -> SheetModel {
        SheetModel {
            idle: self.idle@.map_values(|c: Cell| c@),
            run: self.run@.map_values(|c: Cell| c@),
            slide: self.slide@.map_values(|c: Cell| c@),
            jump: self.jump@.map_values(|c: Cell| c@),
            dead: self.dead@.map_values(|c: Cell| c@),
        }
    }
}

/// Every animation holds enough cells for its state's frame-counter
/// range, and every cell is within the atlas band. The state machine
/// and the atlas are kept in sync by construction; a missing sprite is
/// an unrecoverable authoring error, so it is excluded here rather
/// than handled at run time.
pub open spec fn sheet_fits(s: SheetModel) -> bool {
    &&& s.idle.len() >= 10
    &&& s.run.len() >= 8
    &&& s.slide.len() >= 5
    &&& s.jump.len() >= 12
    &&& s.dead.len() >= 10
    &&& forall|i: int| 0 <= i < s.idle.len() ==> cell_fits(#[trigger] s.idle[i])
    &&& forall|i: int| 0 <= i < s.run.len() ==> cell_fits(#[trigger] s.run[i])
    &&& forall|i: int| 0 <= i < s.slide.len() ==> cell_fits(#[trigger] s.slide[i])
    &&& forall|i: int| 0 <= i < s.jump.len() ==> cell_fits(#[trigger] s.jump[i])
    &&& forall|i: int| 0 <= i < s.dead.len() ==> cell_fits(#[trigger] s.dead[i])
}

} // verus!
