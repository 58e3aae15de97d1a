//! The pass that draws one frame, and the pace at which frames are due.
//!
//! A frame is one render pass. The target is always cleared. Where a buffer
//! stands behind the objects slot, the pipeline is set, the three slots are
//! bound in the order of the pipeline layout, the static geometry is bound, and
//! one indexed draw covers the full-screen quad. Where none stands there, the
//! pass ends with the clear: nothing is bound that is not there, and nothing is
//! drawn.

use vstd::prelude::*;
use crate::pipeline::Slot;
use crate::pipeline::slots;
use crate::pipeline::pipeline_layout;
use crate::pipeline::quad_indices;
use crate::pipeline::quad_triangles;
use crate::store::ObjectBuffer;

verus! {

/// The double-precision bit pattern of zero.
pub const DOUBLE_ZERO: u64 = 0x0000_0000_0000_0000;

/// The double-precision bit pattern of one.
pub const DOUBLE_ONE: u64 = 0x3ff0_0000_0000_0000;

/// Nanoseconds after which the scene is updated again without a request.
pub const UPDATE_INTERVAL: u128 = 10_000_000;

/// A colour. Every channel is a double-precision bit pattern.
#[derive(Clone, Copy, Debug, PartialEq, Eq)]
pub struct Color {
    /// Red.
    pub r: u64,
    /// Green.
    pub g: u64,
    /// Blue.
    pub b: u64,
    /// Alpha.
    pub a: u64,
}

/// The colour that the target is cleared to: opaque magenta.
pub open spec fn background() -> Color {
    Color { r: DOUBLE_ONE, g: DOUBLE_ZERO, b: DOUBLE_ONE, a: DOUBLE_ONE }
}

/// The colour that the target is cleared to.
pub fn clear_color() -> (out: Color)
    ensures
        out == background(),
{
    Color { r: DOUBLE_ONE, g: DOUBLE_ZERO, b: DOUBLE_ONE, a: DOUBLE_ONE }
}

/// A range of indices or of instances: from `start` up to, not including, `end`.
#[derive(Clone, Copy, Debug, PartialEq, Eq)]
pub struct Span {
    /// The first of the range.
    pub start: u32,
    /// The one after the last of the range.
    pub end: u32,
}

/// The width of the indices in the index buffer.
#[derive(Clone, Copy, Debug, PartialEq, Eq)]
pub enum IndexFormat {
    /// Sixteen bits.
    Uint16,
    /// Thirty-two bits.
    Uint32,
}

/// What a bind group refers to.
#[derive(Clone, Copy, Debug, PartialEq, Eq)]
pub enum BindGroup {
    /// The camera uniform.
    Camera,
    /// The time uniform.
    Time,
    /// The buffer behind the objects slot.
    Objects(ObjectBuffer),
}

impl BindGroup {
    /// The bind group that the pass binds for `slot` when `objects` stands
    /// behind the objects slot.
    pub open spec fn of(slot: Slot, objects: ObjectBuffer) -> BindGroup {
        match slot {
            Slot::Camera => BindGroup::Camera,
            Slot::Time => BindGroup::Time,
            Slot::Objects => BindGroup::Objects(objects),
        }
    }

    /// The slot that the bind group belongs to.
    pub open spec fn slot(self) -> Slot {
        match self {
            BindGroup::Camera => Slot::Camera,
            BindGroup::Time => Slot::Time,
            BindGroup::Objects(_) => Slot::Objects,
        }
    }
}

/// One command of the render pass.
#[derive(Clone, Copy, Debug, PartialEq, Eq)]
pub enum PassCommand {
    /// Set the render pipeline.
    SetPipeline,
    /// Bind `group` at `index` of the pipeline layout, with no dynamic offset.
    SetBindGroup {
        /// Index in the pipeline layout.
        index: u32,
        /// What to bind.
        group: BindGroup,
    },
    /// Bind the whole vertex buffer of the static geometry at `slot`.
    SetVertexBuffer {
        /// The vertex buffer slot.
        slot: u32,
    },
    /// Bind the whole index buffer of the static geometry.
    SetIndexBuffer {
        /// The width of its indices.
        format: IndexFormat,
    },
    /// Draw.
    DrawIndexed {
        /// The indices to draw.
        indices: Span,
        /// What is added to every index.
        base_vertex: i32,
        /// The instances to draw.
        instances: Span,
    },
}

impl PassCommand {
    /// The object buffer that the command names, if it names one.
    pub open spec fn names(self) -> Option<ObjectBuffer> {
        match self {
            PassCommand::SetBindGroup { index, group: BindGroup::Objects(buffer) } => Some(buffer),
            _ => None,
        }
    }

    /// Whether the command binds something at the objects slot.
    pub open spec fn binds_objects(self) -> bool {
        match self {
            PassCommand::SetBindGroup { index, group } => index == Slot::Objects.group()
                || group.slot() == Slot::Objects,
            _ => false,
        }
    }
}

/// The commands that draw the quad from the object buffer `objects`.
pub open spec fn draw(objects: ObjectBuffer) -> Seq<PassCommand> {
    seq![
        PassCommand::SetPipeline,
        PassCommand::SetBindGroup { index: 0, group: BindGroup::Camera },
        PassCommand::SetBindGroup { index: 1, group: BindGroup::Time },
        PassCommand::SetBindGroup { index: 2, group: BindGroup::Objects(objects) },
        PassCommand::SetVertexBuffer { slot: 0 },
        PassCommand::SetIndexBuffer { format: IndexFormat::Uint16 },
        PassCommand::DrawIndexed {
            indices: Span { start: 0, end: 6 },
            base_vertex: 0,
            instances: Span { start: 0, end: 1 },
        },
    ]
}

/// The commands of the pass, in order, after the target has been cleared: the
/// draw from the buffer behind the objects slot, or, with no buffer there,
/// nothing.
pub open spec fn pass(objects: Option<ObjectBuffer>) -> Seq<PassCommand> {
    match objects {
        Some(buffer) => draw(buffer),
        None => Seq::empty(),
    }
}

/// The commands of the pass, in order, after the target has been cleared.
///
/// With no buffer behind the objects slot there is no command: the pass
/// neither binds the slot nor draws.
pub fn pass_commands(objects: Option<ObjectBuffer>) -> (out: Vec<PassCommand>)
    ensures
        out@ == pass(objects),
{
    let mut out: Vec<PassCommand> = Vec::new();
    let buffer = match objects {
        Some(buffer) => buffer,
        None => {
            return out;
        },
    };
    out.push(PassCommand::SetPipeline);
    let layout = pipeline_layout();
    let mut i: usize = 0;
    while i < 3
        invariant
            i <= 3,
            layout@ == slots(),
            out@ == draw(buffer).take(1 + i),
        decreases 3 - i,
    {
        let slot = layout[i];
        let group = match slot {
            Slot::Camera => BindGroup::Camera,
            Slot::Time => BindGroup::Time,
            Slot::Objects => BindGroup::Objects(buffer),
        };
        out.push(PassCommand::SetBindGroup { index: slot.index(), group });
        assert(out@ =~= draw(buffer).take(2 + i));
        i += 1;
    }
    out.push(PassCommand::SetVertexBuffer { slot: 0 });
    out.push(PassCommand::SetIndexBuffer { format: IndexFormat::Uint16 });
    let indices = quad_indices();
    out.push(
        PassCommand::DrawIndexed {
            indices: Span { start: 0, end: indices.len() as u32 },
            base_vertex: 0,
            instances: Span { start: 0, end: 1 },
        },
    );
    assert(out@ =~= draw(buffer));
    out
}

/// With no buffer behind the objects slot the pass has no command: after the
/// clear it binds nothing and draws nothing.
pub proof fn lemma_pass_without_objects_only_clears()
    ensures
        pass(None).len() == 0,
        forall|i: int|
            0 <= i < pass(None).len() ==> !(#[trigger] pass(None)[i]).binds_objects() && !(pass(
                None,
            )[i] is DrawIndexed),
{
}

/// No pass binds what is not there, and no pass draws without its objects: a
/// pass that has a command at all has a buffer behind the objects slot, and
/// every command that binds something at the slot binds that buffer.
pub proof fn lemma_pass_binds_no_missing_buffer(objects: Option<ObjectBuffer>, i: int)
    requires
        0 <= i < pass(objects).len(),
    ensures
        objects is Some,
        pass(objects)[i].binds_objects() ==> pass(objects)[i] == (PassCommand::SetBindGroup {
            index: Slot::Objects.group(),
            group: BindGroup::Objects(objects.unwrap()),
        }),
        pass(objects)[i].names() is Some ==> pass(objects)[i].names() == objects,
{
}

/// A pass that draws sets the pipeline first and then binds every slot at the
/// index of its group, before anything is drawn.
pub proof fn lemma_pass_binds_every_slot(objects: ObjectBuffer, slot: Slot)
    ensures
        pass(Some(objects))[0] == PassCommand::SetPipeline,
        pass(Some(objects))[1 + slot.group()] == (PassCommand::SetBindGroup {
            index: slot.group(),
            group: BindGroup::of(slot, objects),
        }),
        BindGroup::of(slot, objects).slot() == slot,
        1 + slot.group() < pass(Some(objects)).len() - 1,
{
}

/// A pass that draws ends with its one draw: all the indices of the quad,
/// sixteen bits wide, as a single instance.
pub proof fn lemma_pass_draws_quad_once(objects: ObjectBuffer)
    ensures
        pass(Some(objects)).last() == (PassCommand::DrawIndexed {
            indices: Span { start: 0, end: quad_triangles().len() as u32 },
            base_vertex: 0,
            instances: Span { start: 0, end: 1 },
        }),
        forall|i: int|
            0 <= i < pass(Some(objects)).len() - 1 ==> !(
            #[trigger] pass(Some(objects))[i] is DrawIndexed),
        pass(Some(objects))[5] == (PassCommand::SetIndexBuffer { format: IndexFormat::Uint16 }),
{
}

/// When the scene was last updated, and whether a redraw has been asked for.
#[derive(Clone, Copy, Debug, PartialEq, Eq)]
pub struct Pacer {
    /// Whether the window has asked to be drawn again since the last update.
    pub redraw_requested: bool,
    /// The time of the last update, in nanoseconds on the host's clock.
    pub last_update: u128,
}

impl Pacer {
    /// Whether an update is due at `now`: a redraw has been asked for, or the
    /// interval has passed since the last update. A clock that has gone back
    /// counts as no time passed.
    pub open spec fn due(self, now: u128) -> bool {
        self.redraw_requested || now - self.last_update >= UPDATE_INTERVAL
    }

    /// A pacer whose last update was at `now`.
    pub fn new(now: u128) -> (out: Pacer)
        ensures
            out == (Pacer { redraw_requested: false, last_update: now }),
    {
        Pacer { redraw_requested: false, last_update: now }
    }

    /// Notes that the window has asked to be drawn again.
    pub fn request_redraw(&mut self)
        ensures
            *final(self) == (Pacer { redraw_requested: true, ..*old(self) }),
    {
        self.redraw_requested = true;
    }

    /// Says whether the scene is to be updated and drawn at `now`, and if so
    /// notes the update.
    pub fn tick(&mut self, now: u128) -> (out: bool)
        ensures
            out == old(self).due(now),
            *final(self) == if out {
                Pacer { redraw_requested: false, last_update: now }
            } else {
                *old(self)
            },
    {
        let elapsed: u128 = if now >= self.last_update {
            now - self.last_update
        } else {
            0
        };
        if self.redraw_requested || elapsed >= UPDATE_INTERVAL {
            self.redraw_requested = false;
            self.last_update = now;
            true
        } else {
            false
        }
    }
}

} // verus!
