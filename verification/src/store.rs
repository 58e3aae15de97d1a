//! The object store: the buffer on the device that holds the records of the
//! scene, and the binding through which the shading program reads it.
//!
//! The buffer always has room for exactly the records it holds. When a scene of
//! another size arrives, the store asks for a buffer of the new size and goes on
//! drawing from the old one; only when the host reports that the new buffer
//! stands does the store put it behind the binding and let the old one go. An
//! empty scene changes nothing.

use vstd::prelude::*;
use crate::error::RendererError;
use crate::layout::Sphere;
use crate::layout::spheres_bytes;
use crate::layout::encode_spheres;
use crate::pipeline::BindGroupLayoutEntry;
use crate::pipeline::BufferUsages;
use crate::pipeline::Slot;

verus! {

/// A buffer of object records on the device, together with the bind group that
/// refers to it.
#[derive(Clone, Copy, Debug, PartialEq, Eq)]
pub struct ObjectBuffer {
    /// The name by which the core and the host speak of the buffer. No two
    /// buffers of one store share it.
    pub id: u64,
    /// Size of the buffer in bytes.
    pub capacity: u64,
}

/// What the device is asked for when a buffer is created.
#[derive(Clone, Copy, Debug, PartialEq, Eq)]
pub struct BufferDescriptor {
    /// Size of the buffer in bytes.
    pub size: u64,
    /// What the buffer may be used for.
    pub usage: BufferUsages,
    /// Whether the host can write into the buffer from the moment it exists.
    pub mapped_at_creation: bool,
}

/// The layout of the objects slot and, for a size other than zero, the request
/// for a buffer of that size that can stand behind the slot.
pub open spec fn objects_buffer(size: u64) -> (BindGroupLayoutEntry, Option<BufferDescriptor>) {
    (
        Slot::Objects.layout(),
        if size == 0 {
            None
        } else {
            Some(
                BufferDescriptor {
                    size,
                    usage: Slot::Objects.usages(),
                    mapped_at_creation: false,
                },
            )
        },
    )
}

/// The layout of the objects slot and, for a size other than zero, the request
/// for a buffer of that size that can stand behind the slot.
pub fn create_objects_buffer(size: u64) -> (out: (BindGroupLayoutEntry, Option<BufferDescriptor>))
    ensures
        out == objects_buffer(size),
{
    let layout = Slot::Objects.layout_entry();
    if size == 0 {
        return (layout, None);
    }
    let descriptor = BufferDescriptor {
        size,
        usage: Slot::Objects.buffer_usages(),
        mapped_at_creation: false,
    };
    (layout, Some(descriptor))
}

/// The object store as a mathematical value.
pub struct StoreModel {
    /// The buffer behind the objects slot, if there is one.
    pub bound: Option<ObjectBuffer>,
    /// The records that the bound buffer holds.
    pub records: Seq<Sphere>,
    /// The buffer that has been asked for and not yet reported on.
    pub pending: Option<ObjectBuffer>,
    /// The records that the pending buffer is to hold.
    pub staged: Seq<Sphere>,
    /// How many buffers the store has named so far.
    pub issued: nat,
}

/// What the host has to do for an update of the objects, as a mathematical value.
pub enum UpdateModel {
    /// Nothing.
    Unchanged,
    /// Write `data` into `buffer` from its start.
    Write { buffer: ObjectBuffer, data: Seq<u8> },
    /// Create `buffer` as `descriptor` says, write `data` into it from its
    /// start, and report whether the device made it.
    Allocate { buffer: ObjectBuffer, descriptor: BufferDescriptor, data: Seq<u8> },
}

/// One update of the objects as it went: the scene that was handed over, and
/// whether the device made the buffer where one was asked for.
pub struct UpdateStep {
    /// The scene.
    pub spheres: Seq<Sphere>,
    /// Whether the device made the buffer.
    pub allocated: bool,
}

/// The exchange of buffers behind the objects slot.
#[derive(Clone, Copy, Debug, PartialEq, Eq)]
pub struct Swap {
    /// The buffer that now stands behind the slot.
    pub bound: ObjectBuffer,
    /// The buffer that stood there before and can be let go.
    pub released: Option<ObjectBuffer>,
}

impl StoreModel {
    /// A store without any buffer.
    pub open spec fn empty() -> StoreModel {
        StoreModel {
            bound: None,
            records: Seq::empty(),
            pending: None,
            staged: Seq::empty(),
            issued: 0,
        }
    }

    /// What holds of every store: a buffer has room for exactly the records it
    /// holds, it holds at least one, and a pending buffer was named after the
    /// bound one.
    pub open spec fn wf(self) -> bool {
        &&& self.issued <= u64::MAX
        &&& match self.bound {
            Some(b) => b.id < self.issued && self.records.len() > 0 && b.capacity == 32
                * self.records.len(),
            None => self.records.len() == 0,
        }
        &&& match self.pending {
            Some(p) => {
                &&& p.id < self.issued
                &&& self.staged.len() > 0
                &&& p.capacity == 32 * self.staged.len()
                &&& match self.bound {
                    Some(b) => b.id < p.id && b.capacity != p.capacity,
                    None => true,
                }
            },
            None => self.staged.len() == 0,
        }
    }

    /// The bytes that the bound buffer holds.
    pub open spec fn contents(self) -> Seq<u8> {
        spheres_bytes(self.records)
    }

    /// Whether the bound buffer has room for exactly `count` records.
    pub open spec fn fits(self, count: nat) -> bool {
        match self.bound {
            Some(b) => b.capacity == 32 * count,
            None => false,
        }
    }

    /// Whether the store cannot take `count` records: their size is beyond what
    /// a buffer can have, or a new buffer is needed and no name is left for it.
    pub open spec fn refuses(self, count: nat) -> bool {
        count > 0 && (32 * count > u64::MAX || (!self.fits(count) && self.issued >= u64::MAX))
    }

    /// The store after the scene `spheres` has been handed to it.
    pub open spec fn stage(self, spheres: Seq<Sphere>) -> StoreModel {
        if spheres.len() == 0 || self.refuses(spheres.len()) {
            self
        } else if self.fits(spheres.len()) {
            StoreModel { records: spheres, pending: None, staged: Seq::empty(), ..self }
        } else {
            StoreModel {
                pending: Some(
                    ObjectBuffer { id: self.issued as u64, capacity: (32 * spheres.len()) as u64 },
                ),
                staged: spheres,
                issued: self.issued + 1,
                ..self
            }
        }
    }

    /// What the host has to do once the scene `spheres` has been handed to the
    /// store.
    pub open spec fn staged_update(self, spheres: Seq<Sphere>) -> Result<
        UpdateModel,
        RendererError,
    > {
        if spheres.len() == 0 {
            Ok(UpdateModel::Unchanged)
        } else if self.refuses(spheres.len()) {
            Err(RendererError::ResourceAllocationFailed)
        } else if self.fits(spheres.len()) {
            Ok(UpdateModel::Write { buffer: self.bound.unwrap(), data: spheres_bytes(spheres) })
        } else {
            Ok(
                UpdateModel::Allocate {
                    buffer: self.stage(spheres).pending.unwrap(),
                    descriptor: objects_buffer((32 * spheres.len()) as u64).1.unwrap(),
                    data: spheres_bytes(spheres),
                },
            )
        }
    }

    /// The store after the host has reported on the pending buffer.
    pub open spec fn install(self, allocated: bool) -> StoreModel {
        match self.pending {
            Some(p) => if allocated {
                StoreModel {
                    bound: Some(p),
                    records: self.staged,
                    pending: None,
                    staged: Seq::empty(),
                    ..self
                }
            } else {
                StoreModel { pending: None, staged: Seq::empty(), ..self }
            },
            None => self,
        }
    }

    /// What the host learns when it reports on the pending buffer.
    pub open spec fn installed(self, allocated: bool) -> Result<Option<Swap>, RendererError> {
        match self.pending {
            Some(p) => if allocated {
                Ok(Some(Swap { bound: p, released: self.bound }))
            } else {
                Err(RendererError::ResourceAllocationFailed)
            },
            None => Ok(None),
        }
    }

    /// The store after a run of updates, each handed over and reported on.
    pub open spec fn replay(self, steps: Seq<UpdateStep>) -> StoreModel
        decreases steps.len(),
    {
        if steps.len() == 0 {
            self
        } else {
            self.replay(steps.drop_last()).stage(steps.last().spheres).install(
                steps.last().allocated,
            )
        }
    }
}

/// What the host has to do for an update of the objects.
#[derive(Debug, PartialEq, Eq)]
pub enum ObjectsUpdate {
    /// Nothing: the scene was empty, and the store is as it was.
    Unchanged,
    /// Write `data` into `buffer`, which stands behind the objects slot, from
    /// its start.
    Write {
        /// The bound buffer.
        buffer: ObjectBuffer,
        /// The records of the scene as bytes.
        data: Vec<u8>,
    },
    /// Create `buffer` as `descriptor` says and a bind group for it, write
    /// `data` into it from its start, and report to the store whether the
    /// device made it. Until then the old buffer stays behind the slot.
    Allocate {
        /// The buffer to create.
        buffer: ObjectBuffer,
        /// What to ask the device for.
        descriptor: BufferDescriptor,
        /// The records of the scene as bytes.
        data: Vec<u8>,
    },
}

impl View for ObjectsUpdate {
    type V = UpdateModel;

    open spec fn view(&self) -> UpdateModel {
        match *self {
            ObjectsUpdate::Unchanged => UpdateModel::Unchanged,
            ObjectsUpdate::Write { buffer, data } => UpdateModel::Write { buffer, data: data@ },
            ObjectsUpdate::Allocate { buffer, descriptor, data } => UpdateModel::Allocate {
                buffer,
                descriptor,
                data: data@,
            },
        }
    }
}

/// The answer to an update as a mathematical value.
pub open spec fn update_view(out: Result<ObjectsUpdate, RendererError>) -> Result<
    UpdateModel,
    RendererError,
> {
    match out {
        Ok(update) => Ok(update@),
        Err(error) => Err(error),
    }
}

/// The object store.
pub struct ObjectStore {
    bound: Option<ObjectBuffer>,
    pending: Option<ObjectBuffer>,
    issued: u64,
    records: Ghost<Seq<Sphere>>,
    staged: Ghost<Seq<Sphere>>,
}

impl View for ObjectStore {
    type V = StoreModel;

    closed spec fn view(&self) -> StoreModel {
        StoreModel {
            bound: self.bound,
            records: self.records@,
            pending: self.pending,
            staged: self.staged@,
            issued: self.issued as nat,
        }
    }
}

impl ObjectStore {
    /// What holds of every store that exists: its value is well formed.
    #[verifier::type_invariant]
    pub open spec fn inv(self) -> bool {
        self@.wf()
    }

    /// A store without any buffer.
    pub fn new() -> (out: ObjectStore)
        ensures
            out@ == StoreModel::empty(),
    {
        ObjectStore {
            bound: None,
            pending: None,
            issued: 0,
            records: Ghost(Seq::empty()),
            staged: Ghost(Seq::empty()),
        }
    }

    /// The buffer behind the objects slot, if there is one.
    pub fn bound(&self) -> (out: Option<ObjectBuffer>)
        ensures
            out == self@.bound,
    {
        self.bound
    }

    /// The buffer that has been asked for and not yet reported on.
    pub fn pending(&self) -> (out: Option<ObjectBuffer>)
        ensures
            out == self@.pending,
    {
        self.pending
    }

    /// Size in bytes of the buffer behind the objects slot; zero where there is
    /// none.
    pub fn capacity(&self) -> (out: u64)
        ensures
            out == 32 * self@.records.len(),
            self@.bound matches Some(b) ==> out == b.capacity,
    {
        proof {
            use_type_invariant(self);
        }
        match self.bound {
            Some(b) => b.capacity,
            None => 0,
        }
    }

    /// Number of records that the buffer behind the objects slot holds.
    pub fn len(&self) -> (out: u64)
        ensures
            out == self@.records.len(),
    {
        proof {
            use_type_invariant(self);
        }
        match self.bound {
            Some(b) => b.capacity / 32,
            None => 0,
        }
    }

    /// Hands the scene `spheres` to the store and says what the host has to do.
    ///
    /// An empty scene changes nothing. A scene that the bound buffer has room
    /// for, to the byte, is written into it. Any other scene needs a buffer of
    /// its own size, which the store names and asks for; the bound buffer stays
    /// until `install` is told that the new one stands. A buffer that was asked
    /// for earlier and never reported on is forgotten.
    pub fn stage(&mut self, spheres: &[Sphere]) -> (out: Result<ObjectsUpdate, RendererError>)
        ensures
            final(self)@ == old(self)@.stage(spheres@),
            update_view(out) == old(self)@.staged_update(spheres@),
    {
        proof {
            use_type_invariant(&*self);
        }
        let count: usize = spheres.len();
        if count == 0 {
            return Ok(ObjectsUpdate::Unchanged);
        }
        let size: u64 = match (count as u64).checked_mul(32) {
            Some(size) => size,
            None => {
                return Err(RendererError::ResourceAllocationFailed);
            },
        };
        let fits = match self.bound {
            Some(b) => b.capacity == size,
            None => false,
        };
        if fits {
            let buffer = self.bound.unwrap();
            let data = encode_spheres(spheres);
            *self = ObjectStore {
                bound: self.bound,
                pending: None,
                issued: self.issued,
                records: Ghost(spheres@),
                staged: Ghost(Seq::empty()),
            };
            return Ok(ObjectsUpdate::Write { buffer, data });
        }
        if self.issued == u64::MAX {
            return Err(RendererError::ResourceAllocationFailed);
        }
        let descriptor = create_objects_buffer(size).1.unwrap();
        let buffer = ObjectBuffer { id: self.issued, capacity: size };
        let data = encode_spheres(spheres);
        *self = ObjectStore {
            bound: self.bound,
            pending: Some(buffer),
            issued: self.issued + 1,
            records: self.records,
            staged: Ghost(spheres@),
        };
        Ok(ObjectsUpdate::Allocate { buffer, descriptor, data })
    }

    /// Takes the host's report on the pending buffer.
    ///
    /// Where the device made the buffer, it goes behind the objects slot and the
    /// buffer that stood there is released. Where it did not, the bound buffer
    /// stays and the update is lost. With no buffer pending nothing happens.
    pub fn install(&mut self, allocated: bool) -> (out: Result<Option<Swap>, RendererError>)
        ensures
            final(self)@ == old(self)@.install(allocated),
            out == old(self)@.installed(allocated),
    {
        proof {
            use_type_invariant(&*self);
        }
        match self.pending {
            Some(p) => {
                if allocated {
                    let released = self.bound;
                    *self = ObjectStore {
                        bound: Some(p),
                        pending: None,
                        issued: self.issued,
                        records: self.staged,
                        staged: Ghost(Seq::empty()),
                    };
                    Ok(Some(Swap { bound: p, released }))
                } else {
                    *self = ObjectStore {
                        bound: self.bound,
                        pending: None,
                        issued: self.issued,
                        records: self.records,
                        staged: Ghost(Seq::empty()),
                    };
                    Err(RendererError::ResourceAllocationFailed)
                }
            },
            None => Ok(None),
        }
    }
}

/// The scene that a store at rest holds after a run of updates that all went
/// through: the last of the scenes that is not empty, or, if all are empty,
/// what it held before.
pub open spec fn latest(held: Seq<Sphere>, steps: Seq<UpdateStep>) -> Seq<Sphere>
    decreases steps.len(),
{
    if steps.len() == 0 {
        held
    } else if steps.last().spheres.len() > 0 {
        steps.last().spheres
    } else {
        latest(held, steps.drop_last())
    }
}

/// An empty scene leaves the store as it was, whatever it holds, and gives the
/// host nothing to do.
pub proof fn lemma_empty_scene_changes_nothing(store: StoreModel, spheres: Seq<Sphere>)
    requires
        spheres.len() == 0,
    ensures
        store.stage(spheres) == store,
        store.staged_update(spheres) == Ok::<UpdateModel, RendererError>(UpdateModel::Unchanged),
{
}

/// A store stays well formed when a scene is handed to it and when the host
/// reports on a buffer, and it never takes back a name it has given out.
pub proof fn lemma_steps_keep_well_formed(store: StoreModel, spheres: Seq<Sphere>, allocated: bool)
    requires
        store.wf(),
    ensures
        store.stage(spheres).wf(),
        store.install(allocated).wf(),
        store.issued <= store.stage(spheres).issued <= store.issued + 1,
        store.install(allocated).issued == store.issued,
{
}

/// A scene that the store refuses leaves it as it was.
pub proof fn lemma_refused_scene_changes_nothing(store: StoreModel, spheres: Seq<Sphere>)
    requires
        store.staged_update(spheres) is Err,
    ensures
        store.stage(spheres) == store,
        store.refuses(spheres.len()),
{
}

/// Once an update of at least one record has gone through, the bound buffer has
/// room for exactly the records of the scene and holds them. It is the buffer
/// that was bound before if that one had the right size; else it is a buffer
/// that the store had never named before.
pub proof fn lemma_update_sizes_buffer(store: StoreModel, spheres: Seq<Sphere>)
    requires
        store.wf(),
        spheres.len() > 0,
        !store.refuses(spheres.len()),
    ensures
        ({
            let after = store.stage(spheres).install(true);
            &&& after.wf()
            &&& after.pending is None
            &&& after.bound is Some
            &&& after.bound.unwrap().capacity == 32 * spheres.len()
            &&& after.records == spheres
            &&& after.contents() == spheres_bytes(spheres)
            &&& store.fits(spheres.len()) ==> after.bound == store.bound
            &&& !store.fits(spheres.len()) ==> after.bound.unwrap().id >= store.issued
        }),
{
}

/// Where the device does not make the buffer that was asked for, the store
/// draws from the buffer it had, with the records it had.
pub proof fn lemma_failed_allocation_keeps_buffer(store: StoreModel, spheres: Seq<Sphere>)
    requires
        store.wf(),
    ensures
        ({
            let staged = store.stage(spheres);
            &&& staged.bound == store.bound
            &&& staged.pending is Some ==> staged.records == store.records
            &&& staged.install(false).bound == store.bound
            &&& staged.pending is Some ==> staged.install(false).records == store.records
            &&& staged.pending is Some ==> staged.installed(false) == Err::<
                Option<Swap>,
                RendererError,
            >(RendererError::ResourceAllocationFailed)
        }),
{
}

/// After any run of updates, whatever the scenes and whatever the device
/// reported, the store is well formed: its buffer, if it has one, has room for
/// exactly the records it holds.
pub proof fn lemma_replay_keeps_well_formed(store: StoreModel, steps: Seq<UpdateStep>)
    requires
        store.wf(),
    ensures
        store.replay(steps).wf(),
        store.replay(steps).issued >= store.issued,
        match store.replay(steps).bound {
            Some(b) => b.capacity == 32 * store.replay(steps).records.len(),
            None => store.replay(steps).records.len() == 0,
        },
    decreases steps.len(),
{
    if steps.len() > 0 {
        lemma_replay_keeps_well_formed(store, steps.drop_last());
    }
}

/// After any run of updates that all went through, a store that was at rest is
/// at rest again, holds the last scene that was not empty, and its buffer has
/// room for exactly that scene.
pub proof fn lemma_replay_holds_latest(store: StoreModel, steps: Seq<UpdateStep>)
    requires
        store.wf(),
        store.pending is None,
        store.issued + steps.len() <= u64::MAX,
        forall|i: int|
            0 <= i < steps.len() ==> (#[trigger] steps[i]).allocated && 32 * steps[i].spheres.len()
                <= u64::MAX,
    ensures
        ({
            let after = store.replay(steps);
            &&& after.wf()
            &&& after.pending is None
            &&& after.issued <= store.issued + steps.len()
            &&& after.records == latest(store.records, steps)
            &&& match after.bound {
                Some(b) => b.capacity == 32 * latest(store.records, steps).len(),
                None => latest(store.records, steps).len() == 0,
            }
        }),
    decreases steps.len(),
{
    if steps.len() > 0 {
        let before = store.replay(steps.drop_last());
        assert forall|i: int| 0 <= i < steps.drop_last().len() implies (
        #[trigger] steps.drop_last()[i]).allocated && 32 * steps.drop_last()[i].spheres.len()
            <= u64::MAX by {
            assert(steps.drop_last()[i] == steps[i]);
        }
        lemma_replay_holds_latest(store, steps.drop_last());
        assert(steps.last() == steps[steps.len() - 1]);
        if steps.last().spheres.len() > 0 {
            lemma_update_sizes_buffer(before, steps.last().spheres);
        }
    }
}

/// Whether every buffer that the store holds or will ever name was named after
/// the buffer `id`.
pub open spec fn named_after(store: StoreModel, id: u64) -> bool {
    &&& store.issued > id
    &&& match store.bound {
        Some(b) => b.id > id,
        None => true,
    }
    &&& match store.pending {
        Some(p) => p.id > id,
        None => true,
    }
}

/// When a buffer is replaced, every buffer of the store from then on was named
/// after it.
pub proof fn lemma_replacement_is_named_later(store: StoreModel)
    requires
        store.wf(),
        store.bound is Some,
        store.pending is Some,
    ensures
        named_after(store.install(true), store.bound.unwrap().id),
{
}

/// A buffer that has gone stays out: once every buffer of the store was named
/// after it, that is so after every further step, whatever the scene and
/// whatever the device reports.
pub proof fn lemma_released_buffer_stays_out(
    store: StoreModel,
    id: u64,
    spheres: Seq<Sphere>,
    allocated: bool,
)
    requires
        store.wf(),
        named_after(store, id),
    ensures
        named_after(store.stage(spheres), id),
        named_after(store.install(allocated), id),
{
}

/// A buffer that has gone is not back after any run of updates.
pub proof fn lemma_replay_keeps_released_buffer_out(
    store: StoreModel,
    id: u64,
    steps: Seq<UpdateStep>,
)
    requires
        store.wf(),
        named_after(store, id),
    ensures
        named_after(store.replay(steps), id),
        store.replay(steps).bound matches Some(b) ==> b.id != id,
    decreases steps.len(),
{
    if steps.len() > 0 {
        let before = store.replay(steps.drop_last());
        lemma_replay_keeps_well_formed(store, steps.drop_last());
        lemma_replay_keeps_released_buffer_out(store, id, steps.drop_last());
        lemma_released_buffer_stays_out(before, id, steps.last().spheres, steps.last().allocated);
        lemma_steps_keep_well_formed(before, steps.last().spheres, steps.last().allocated);
        lemma_released_buffer_stays_out(
            before.stage(steps.last().spheres),
            id,
            steps.last().spheres,
            steps.last().allocated,
        );
    }
}

/// An update that has gone through, done again with the same scene, changes
/// nothing and asks for no buffer.
pub proof fn lemma_update_is_idempotent(store: StoreModel, spheres: Seq<Sphere>)
    requires
        store.wf(),
        !store.refuses(spheres.len()),
    ensures
        ({
            let once = store.stage(spheres).install(true);
            &&& once.stage(spheres).install(true) == once
            &&& !(once.staged_update(spheres) matches Ok(UpdateModel::Allocate { .. }))
        }),
{
}

} // verus!
