//! The playable character: the state machine together with its sprite
//! sheet. Collision geometry is derived from the current animation
//! cell, so the sheet is part of the character's well-formedness.

use vstd::prelude::*;

use crate::geometry::{rect_fits, Rect, RectModel};
use crate::red_hat_boy_states::{RedHatBoyContext, RedHatBoyState};
use crate::sheet::{cell_fits, Cell, CellModel, Sheet, SheetModel};
use crate::state_machine::{
    event_fits, machine_wf, model_context, spec_transition, Event, EventModel, MachineModel,
    RedHatBoyStateMachine,
};

verus! {

/// Horizontal inset of the collision box inside the sprite's
/// destination box.
pub const X_OFFSET: i16 = 18;
/// Vertical inset of the collision box inside the sprite's
/// destination box.
pub const Y_OFFSET: i16 = 14;
/// Total width trimmed off the sprite's destination box to get the
/// collision box.
pub const WIDTH_OFFSET: i16 = 28;

/// Mathematical model of the character.
pub ghost struct BoyModel {
    pub machine: MachineModel,
    pub sheet: SheetModel,
}

/// The playable character.
pub struct RedHatBoy {
    state_machine: RedHatBoyStateMachine,
    sprite_sheet: Sheet,
}

impl View for RedHatBoy {
    type V = BoyModel;

    closed spec fn view(&self) -> BoyModel {
        BoyModel { machine: self.state_machine@, sheet: self.sprite_sheet@ }
    }
}

/// A character is well formed when its machine is in a reachable state
/// and its sheet covers every frame the machine can show.
pub open spec fn boy_wf(b: BoyModel) -> bool {
    &&& machine_wf(b.machine)
    &&& crate::sheet::sheet_fits(b.sheet)
}

/// The animation list the current state draws from.
pub open spec fn spec_sprites(b: BoyModel) -> Seq<CellModel> {
    match b.machine {
        MachineModel::Idle(_) => b.sheet.idle,
        MachineModel::Running(_) => b.sheet.run,
        MachineModel::Sliding(_) => b.sheet.slide,
        MachineModel::Jumping(_) => b.sheet.jump,
        MachineModel::Falling(_) => b.sheet.dead,
        MachineModel::KnockedOut(_) => b.sheet.dead,
    }
}

/// Each cell is shown for three ticks of the frame counter.
pub open spec fn spec_sprite_index(b: BoyModel) -> int {
    model_context(b.machine).frame / 3
}

/// The atlas cell of the current animation frame, if the sheet covers
/// it.
pub open spec fn spec_current_sprite(b: BoyModel) -> Option<CellModel> {
    if 0 <= spec_sprite_index(b) < spec_sprites(b).len() {
        Some(spec_sprites(b)[spec_sprite_index(b)])
    } else {
        None
    }
}

/// A well-formed character always has a current sprite: the frame
/// bound of each state keeps the index inside the sheet.
pub proof fn lemma_wf_has_sprite(b: BoyModel)
    requires
        boy_wf(b),
    ensures
        spec_current_sprite(b) is Some,
        cell_fits(spec_sprites(b)[spec_sprite_index(b)]),
{
}

/// Where the current sprite is drawn: the character's position plus
/// the cell's source offset, at the cell's size.
pub open spec fn spec_destination_box(b: BoyModel) -> RectModel {
    let c = model_context(b.machine);
    let cell = spec_sprites(b)[spec_sprite_index(b)];
    RectModel {
        x: c.position.x + cell.sprite_source_size.x,
        y: c.position.y + cell.sprite_source_size.y,
        width: cell.frame.width,
        height: cell.frame.height,
    }
}

/// The collision box: the destination box shrunk by the fixed insets.
pub open spec fn spec_bounding_box(b: BoyModel) -> RectModel {
    let d = spec_destination_box(b);
    RectModel {
        x: d.x + X_OFFSET as int,
        y: d.y + Y_OFFSET as int,
        width: d.width - WIDTH_OFFSET as int,
        height: d.height - Y_OFFSET as int,
    }
}

impl RedHatBoy {
    /// A new character: idle at the starting point with the given
    /// sheet.
    pub fn new(sheet: Sheet) -> (r: RedHatBoy)
        requires
            crate::sheet::sheet_fits(sheet@),
        ensures
            r@.machine == MachineModel::Idle(crate::red_hat_boy_states::initial_context()),
            r@.sheet == sheet@,
            boy_wf(r@),
    {
        RedHatBoy {
            state_machine: RedHatBoyStateMachine::Idle(RedHatBoyState::new()),
            sprite_sheet: sheet,
        }
    }

    /// The current horizontal speed; the world scrolls by its negation.
    pub fn walking_speed(&self) -> (r: i16)
        ensures
            r as int == model_context(self@.machine).velocity.x,
    {
        self.state_machine.context().velocity.x
    }

    pub fn pos_y(&self) -> (r: i16)
        ensures
            r as int == model_context(self@.machine).position.y,
    {
        self.state_machine.context().position.y
    }

    pub fn velocity_y(&self) -> (r: i16)
        ensures
            r as int == model_context(self@.machine).velocity.y,
    {
        self.state_machine.context().velocity.y
    }

    /// The sheet's name for the current animation.
    pub fn frame_name(&self) -> (r: &'static str)
        ensures
            self@.machine is Idle ==> r@ == "Idle"@,
            self@.machine is Running ==> r@ == "Run"@,
            self@.machine is Sliding ==> r@ == "Slide"@,
            self@.machine is Jumping ==> r@ == "Jump"@,
            self@.machine is Falling ==> r@ == "Dead"@,
            self@.machine is KnockedOut ==> r@ == "Dead"@,
    {
        self.state_machine.frame_name()
    }

    /// The context carried by the current state.
    pub fn context(&self) -> (r: &RedHatBoyContext)
        ensures
            r@ == model_context(self@.machine),
    {
        self.state_machine.context()
    }

    fn sprite_list(&self) -> (r: &Vec<Cell>)
        ensures
            r@.map_values(|c: Cell| c@) == spec_sprites(self@),
    {
        match &self.state_machine {
            RedHatBoyStateMachine::Idle(_) => &self.sprite_sheet.idle,
            RedHatBoyStateMachine::Running(_) => &self.sprite_sheet.run,
            RedHatBoyStateMachine::Sliding(_) => &self.sprite_sheet.slide,
            RedHatBoyStateMachine::Jumping(_) => &self.sprite_sheet.jump,
            RedHatBoyStateMachine::Falling(_) => &self.sprite_sheet.dead,
            RedHatBoyStateMachine::KnockedOut(_) => &self.sprite_sheet.dead,
        }
    }

    /// The atlas cell for the current animation frame, if the sheet
    /// covers it.
    pub fn current_sprite(&self) -> (r: Option<&Cell>)
        ensures
            r is Some <==> spec_current_sprite(self@) is Some,
            r matches Some(c) ==> Some(c@) == spec_current_sprite(self@),
    {
        let list = self.sprite_list();
        let index = (self.state_machine.context().frame / 3) as usize;
        if index < list.len() {
            Some(&list[index])
        } else {
            None
        }
    }

    /// The rectangle the current sprite occupies in the world.
    pub fn destination_box(&self) -> (r: Rect)
        requires
            boy_wf(self@),
        ensures
            r@ == spec_destination_box(self@),
    {
        proof {
            lemma_wf_has_sprite(self@);
        }
        let list = self.sprite_list();
        let index = (self.state_machine.context().frame / 3) as usize;
        let sprite = &list[index];
        Rect::new_from_x_y(
            self.state_machine.context().position.x + sprite.sprite_source_size.x,
            self.state_machine.context().position.y + sprite.sprite_source_size.y,
            sprite.frame.width,
            sprite.frame.height,
        )
    }

    /// The character's collision box for this tick.
    pub fn bounding_box(&self) -> (r: Rect)
        requires
            boy_wf(self@),
        ensures
            r@ == spec_bounding_box(self@),
            rect_fits(r@),
    {
        proof {
            lemma_wf_has_sprite(self@);
        }
        let destination = self.destination_box();
        Rect::new_from_x_y(
            destination.x() + X_OFFSET,
            destination.y() + Y_OFFSET,
            destination.width - WIDTH_OFFSET,
            destination.height - Y_OFFSET,
        )
    }

    /// One physics/animation tick.
    pub fn update(&mut self)
        requires
            boy_wf(old(self)@),
        ensures
            final(self)@.machine == spec_transition(old(self)@.machine, EventModel::Update),
            final(self)@.sheet == old(self)@.sheet,
            boy_wf(final(self)@),
    {
        self.state_machine = self.state_machine.transition(Event::Update);
    }

    /// Forwards the "start running" input event.
    pub fn run_right(&mut self)
        requires
            boy_wf(old(self)@),
        ensures
            final(self)@.machine == spec_transition(old(self)@.machine, EventModel::Run),
            final(self)@.sheet == old(self)@.sheet,
            boy_wf(final(self)@),
    {
        self.state_machine = self.state_machine.transition(Event::Run);
    }

    /// Forwards the "slide" input event.
    pub fn slide(&mut self)
        requires
            boy_wf(old(self)@),
        ensures
            final(self)@.machine == spec_transition(old(self)@.machine, EventModel::Slide),
            final(self)@.sheet == old(self)@.sheet,
            boy_wf(final(self)@),
    {
        self.state_machine = self.state_machine.transition(Event::Slide);
    }

    /// Forwards the "jump" input event.
    pub fn jump(&mut self)
        requires
            boy_wf(old(self)@),
        ensures
            final(self)@.machine == spec_transition(old(self)@.machine, EventModel::Jump),
            final(self)@.sheet == old(self)@.sheet,
            boy_wf(final(self)@),
    {
        self.state_machine = self.state_machine.transition(Event::Jump);
    }

    /// A collision knocked the character over.
    pub fn knock_out(&mut self)
        requires
            boy_wf(old(self)@),
        ensures
            final(self)@.machine == spec_transition(old(self)@.machine, EventModel::KnockOut),
            final(self)@.sheet == old(self)@.sheet,
            boy_wf(final(self)@),
    {
        self.state_machine = self.state_machine.transition(Event::KnockOut);
    }

    /// The character landed on a surface whose top edge is at `position`.
    pub fn land_on(&mut self, position: i16)
        requires
            boy_wf(old(self)@),
            event_fits(EventModel::Land(position as int)),
        ensures
            final(self)@.machine == spec_transition(
                old(self)@.machine,
                EventModel::Land(position as int),
            ),
            final(self)@.sheet == old(self)@.sheet,
            boy_wf(final(self)@),
    {
        self.state_machine = self.state_machine.transition(Event::Land(position));
    }
}

} // verus!
