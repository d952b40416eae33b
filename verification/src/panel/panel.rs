//! The panel itself.

use vstd::prelude::*;
use crate::handler::handle::Handle;
use crate::panel::command_enum::PanelCommandEnum;
use crate::panel::errors::PanelError;
use crate::panel::state::PanelState;
use crate::rendering::render_object::RenderObject;
use crate::rendering::sprite::{byte_rows, clipped, cut_out};
use crate::shared::frame::{blank_frame, blank_rows, Pixel};
use crate::shared::square::{ranges_meet, Square};
use crate::shared::usize2d::Usize2d;
use crate::utils::vec_t_writer::{append_range, rows_of};

verus! {

/// A part of the screen, given by its area, that draws on a handle. Every
/// object sent to the panel is drawn only as far as it falls into the area.
pub struct Panel<H: Handle> {
    pub _previous_frame: Vec<Vec<Pixel>>,
    pub _next_frame: Vec<Vec<Pixel>>,
    pub area: Square,
    pub state: PanelState,
    pub handle: H,
}

/// Whether `object` can be placed: it is at least two columns wide, its
/// claimed square can be counted, the area is at least two columns wide,
/// and where the object meets the area across, both are at least two rows
/// high as well.
pub open spec fn placeable(area: Square, object: RenderObject) -> bool {
    let location = object.location();
    let sprite = object.picture();
    &&& sprite.columns() >= 2
    &&& location.x + sprite.columns() <= usize::MAX
    &&& location.y + sprite.columns() <= usize::MAX
    &&& location.y + sprite.lines() <= usize::MAX
    &&& area.top_left().x < area.bottom_right().x
    &&& across(area, object) is Some ==> {
        &&& sprite.lines() >= 2
        &&& area.top_left().y < area.bottom_right().y
    }
}

/// The columns of `object` that fall into `area`.
pub open spec fn across(area: Square, object: RenderObject) -> Option<(int, int)> {
    clipped(
        object.location().x as int,
        object.location().x + object.picture().columns() - 1,
        area.top_left().x as int,
        area.bottom_right().x as int,
    )
}

/// The rows of `object` that fall into `area`.
pub open spec fn down(area: Square, object: RenderObject) -> Option<(int, int)> {
    clipped(
        object.location().y as int,
        object.location().y + object.picture().lines() - 1,
        area.top_left().y as int,
        area.bottom_right().y as int,
    )
}

/// Whether the square that `object` claims shares a cell with `area`. The
/// claimed square is as high as the sprite is wide.
pub open spec fn claims_part_of(area: Square, object: RenderObject) -> bool {
    let location = object.location();
    let side = object.picture().columns();
    &&& ranges_meet(
        area.top_left().x,
        area.bottom_right().x,
        location.x,
        (location.x + side - 1) as usize,
    )
    &&& ranges_meet(
        area.top_left().y,
        area.bottom_right().y,
        location.y,
        (location.y + side - 1) as usize,
    )
}

/// One row of an object as it is to be drawn: where the cursor goes, and
/// what is written there.
#[derive(Clone, Debug, PartialEq, Eq)]
pub struct PlacedRow {
    pub at: Usize2d,
    pub bytes: Vec<u8>,
}

/// The rows of a plan as positions and texts.
pub open spec fn placed(rows: Seq<PlacedRow>) -> Seq<(Usize2d, Seq<u8>)> {
    Seq::new(rows.len(), |j: int| (rows[j].at, rows[j].bytes@))
}

/// What drawing `object` within `area` writes, where some part of the
/// object falls into the area: the part of each row that falls into it, one
/// row below the other, beginning at the object's position.
pub open spec fn planned_rows(area: Square, object: RenderObject) -> Seq<(Usize2d, Seq<u8>)> {
    let columns = across(area, object)->Some_0;
    let rows = down(area, object)->Some_0;
    let content = cut_out(object.picture().rows(), columns.0, columns.1, rows.0, rows.1);
    Seq::new(
        content.len(),
        |j: int|
            (Usize2d { x: object.location().x, y: (object.location().y + j) as usize }, content[j]),
    )
}

impl<H: Handle> Panel<H> {
    /// A panel for `area` that draws on `handle`, with both of its frames
    /// blank and as large as the area.
    pub fn init(area: Square, handle: H) -> (panel: Result<Self, PanelError>)
        requires
            area.bottom_right().x - area.top_left().x < usize::MAX,
            area.bottom_right().y - area.top_left().y < usize::MAX,
        ensures
            panel is Ok,
            panel->Ok_0.area == area,
            panel->Ok_0.handle == handle,
            panel->Ok_0.state == PanelState::untouched(),
            rows_of(panel->Ok_0._previous_frame@) == blank_rows(
                area.bottom_right().x - area.top_left().x + 1,
                area.bottom_right().y - area.top_left().y + 1,
            ),
            rows_of(panel->Ok_0._next_frame@) == blank_rows(
                area.bottom_right().x - area.top_left().x + 1,
                area.bottom_right().y - area.top_left().y + 1,
            ),
    {
        let width = area.width();
        let height = area.height();
        Ok(
            Panel {
                _previous_frame: blank_frame(width, height),
                _next_frame: blank_frame(width, height),
                area,
                state: PanelState::default(),
                handle,
            },
        )
    }

    /// One pass of the panel's loop: applies the command that was waiting,
    /// if any, and says whether the panel goes on. A killed panel stops.
    pub fn run_step(&mut self, command: Option<PanelCommandEnum>) -> (goes_on: bool)
        ensures
            final(self).state == (match command {
                Some(given) => old(self).state.after(given),
                None => old(self).state,
            }),
            goes_on == !final(self).state.is_killed,
            final(self)._previous_frame == old(self)._previous_frame,
            final(self)._next_frame == old(self)._next_frame,
            final(self).area == old(self).area,
            final(self).handle == old(self).handle,
    {
        match command {
            Some(given) => self.state.process_command(given),
            None => {},
        }
        !self.state.is_killed
    }

    /// Takes a frame of objects. Nothing is drawn by this, and it cannot
    /// fail; objects are drawn one by one with `write_object`.
    pub fn process_frame(&mut self, _render_objects: Vec<RenderObject>) -> (done: Result<
        (),
        PanelError,
    >)
        ensures
            done is Ok,
            *final(self) == *old(self),
    {
        Ok(())
    }

    /// Plans the drawing of `render_object`: which rows are written, and
    /// where.
    ///
    /// An object whose claimed square shares no cell with the area is out of
    /// bounds. An object that shares a cell but has no two columns or rows
    /// within the area has nothing to draw. Otherwise the plan holds every
    /// row that falls into the area, cut to the columns that fall into it.
    pub fn plan_object(&self, render_object: &RenderObject) -> (plan: Result<
        Option<Vec<PlacedRow>>,
        PanelError,
    >)
        requires
            placeable(self.area, *render_object),
        ensures
            !claims_part_of(self.area, *render_object) ==> plan == Err::<
                Option<Vec<PlacedRow>>,
                PanelError,
            >(PanelError::OutOfBounds),
            claims_part_of(self.area, *render_object) && (across(self.area, *render_object) is None
                || down(self.area, *render_object) is None) ==> plan == Ok::<
                Option<Vec<PlacedRow>>,
                PanelError,
            >(None),
            claims_part_of(self.area, *render_object) && across(
                self.area,
                *render_object,
            ) is Some && down(self.area, *render_object) is Some ==> {
                &&& plan is Ok
                &&& plan->Ok_0 is Some
                &&& placed(plan->Ok_0->Some_0@) == planned_rows(self.area, *render_object)
            },
    {
        let object_area = render_object.get_area();
        if !self.area.overlaps_with(&object_area) {
            return Err(PanelError::OutOfBounds);
        }
        let to_write: Vec<Vec<u8>> = match render_object.get_content_to_write(self.area) {
            Ok(content) => content,
            Err(_) => return Ok(None),
        };
        let location = render_object.get_location();
        let ghost target = planned_rows(self.area, *render_object);
        assert(target.len() == to_write.len()) by {
            assert(byte_rows(to_write@).len() == to_write.len());
        }
        assert(to_write.len() <= render_object.picture().lines());
        let mut rows: Vec<PlacedRow> = Vec::new();
        let mut index: usize = 0;
        while index < to_write.len()
            invariant
                index <= to_write.len(),
                to_write.len() + location.y <= usize::MAX,
                location == render_object.location(),
                target == planned_rows(self.area, *render_object),
                target.len() == to_write.len(),
                forall|j: int| 0 <= j < to_write.len() ==> (#[trigger] target[j]).1 == to_write@[j]@,
                rows.len() == index,
                forall|j: int|
                    0 <= j < index ==> (#[trigger] rows@[j]).at == target[j].0 && rows@[j].bytes@
                        == target[j].1,
            decreases to_write.len() - index,
        {
            let mut bytes: Vec<u8> = Vec::new();
            append_range(&mut bytes, to_write[index].as_slice(), 0, to_write[index].len());
            assert(bytes@ =~= to_write@[index as int]@);
            rows.push(PlacedRow { at: location + Usize2d::new(0, index), bytes });
            index = index + 1;
        }
        assert(placed(rows@) =~= target);
        Ok(Some(rows))
    }

    /// Draws `render_object` on the handle as `plan_object` plans it: for
    /// each planned row the cursor is placed and the row is written, and
    /// then the handle is flushed. The result is `true` when all of that
    /// was done and `false` when there was nothing to draw. A handle that
    /// refuses to place the cursor or to write ends the drawing with the
    /// matching error.
    pub fn write_object(&mut self, render_object: &RenderObject) -> (done: Result<bool, PanelError>)
        requires
            placeable(old(self).area, *render_object),
        ensures
            final(self)._previous_frame == old(self)._previous_frame,
            final(self)._next_frame == old(self)._next_frame,
            final(self).area == old(self).area,
            final(self).state == old(self).state,
            !claims_part_of(old(self).area, *render_object) ==> {
                &&& done == Err::<bool, PanelError>(PanelError::OutOfBounds)
                &&& final(self).handle == old(self).handle
            },
            claims_part_of(old(self).area, *render_object) && (across(
                old(self).area,
                *render_object,
            ) is None || down(old(self).area, *render_object) is None) ==> {
                &&& done == Ok::<bool, PanelError>(false)
                &&& final(self).handle == old(self).handle
            },
            claims_part_of(old(self).area, *render_object) && across(
                old(self).area,
                *render_object,
            ) is Some && down(old(self).area, *render_object) is Some ==> {
                ||| done == Ok::<bool, PanelError>(true)
                ||| done == Err::<bool, PanelError>(PanelError::WriteLocationFailed)
                ||| done == Err::<bool, PanelError>(PanelError::WriteFailed)
            },
    {
        let rows = match self.plan_object(render_object) {
            Ok(Some(rows)) => rows,
            Ok(None) => return Ok(false),
            Err(error) => return Err(error),
        };
        let mut index: usize = 0;
        while index < rows.len()
            invariant
                index <= rows.len(),
                claims_part_of(old(self).area, *render_object),
                across(old(self).area, *render_object) is Some,
                down(old(self).area, *render_object) is Some,
                self._previous_frame == old(self)._previous_frame,
                self._next_frame == old(self)._next_frame,
                self.area == old(self).area,
                self.state == old(self).state,
            decreases rows.len() - index,
        {
            match self.handle.set_cursor_location(rows[index].at) {
                Ok(_) => {},
                Err(_) => return Err(PanelError::WriteLocationFailed),
            }
            match self.handle.write(rows[index].bytes.as_slice()) {
                Ok(_) => {},
                Err(_) => return Err(PanelError::WriteFailed),
            }
            index = index + 1;
        }
        let _ = self.handle.flush();
        Ok(true)
    }
}

} // verus!
