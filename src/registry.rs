use vstd::prelude::*;

use crate::spawner::{Emission, Emitter, EmitterView};

verus! {

/// A spawner handle that no registered spawner carries.
#[derive(Clone, Copy, Debug, PartialEq, Eq, Structural)]
pub struct HandleNotFound {
    pub handle: usize,
}

/// The registered spawners, by handle. Each entry holds the spawner's control
/// state and its shape `S` (what the owner needs to place new particles).
/// Handles are handed out from zero up and never reused, so the spawner with
/// handle `h` is the `h`-th one registered; frames visit the spawners in
/// ascending handle order.
pub struct SpawnerRegistry<S> {
    emitters: Vec<Emitter>,
    shapes: Vec<S>,
}

impl<S> View for SpawnerRegistry<S> {
    type V = Seq<EmitterView>;

    closed spec fn view(&self) -> Seq<EmitterView> {
        self.emitters@.map_values(|e: Emitter| e@)
    }
}

/// The registry after one frame.
pub open spec fn frame_after(spawners: Seq<EmitterView>, expired: Seq<bool>) -> Seq<EmitterView> {
    Seq::new(spawners.len(), |i: int| spawners[i].after(expired[i]))
}

/// The registry with the spawner at `handle` switched on or off.
pub open spec fn with_active(spawners: Seq<EmitterView>, handle: int, active: bool) -> Seq<EmitterView> {
    spawners.update(handle, EmitterView { active, ..spawners[handle] })
}

impl<S> SpawnerRegistry<S> {
    /// Every control state has its shape.
    pub closed spec fn wf(&self) -> bool {
        self.emitters@.len() == self.shapes@.len()
    }

    /// The shapes, by handle.
    pub closed spec fn shapes(&self) -> Seq<S> {
        self.shapes@
    }

    pub fn new() -> (r: SpawnerRegistry<S>)
        ensures
            r.wf(),
            r@ == Seq::<EmitterView>::empty(),
            r.shapes() == Seq::<S>::empty(),
    {
        SpawnerRegistry { emitters: Vec::new(), shapes: Vec::new() }
    }

    pub fn len(&self) -> (r: usize)
        ensures
            r == self@.len(),
    {
        self.emitters.len()
    }

    /// Registers a spawner and returns its handle: the number of spawners
    /// registered before it.
    pub fn add_spawner(&mut self, spawner: Emitter, shape: S) -> (handle: usize)
        requires
            old(self).wf(),
            old(self)@.len() < usize::MAX,
        ensures
            final(self).wf(),
            handle == old(self)@.len(),
            final(self)@ == old(self)@.push(spawner@),
            final(self).shapes() == old(self).shapes().push(shape),
    {
        let handle = self.emitters.len();
        self.emitters.push(spawner);
        self.shapes.push(shape);
        proof {
            assert(self@ =~= old(self)@.push(spawner@));
        }
        handle
    }

    /// Whether the spawner at `handle` is active.
    pub fn is_active(&self, handle: usize) -> (r: bool)
        requires
            handle < self@.len(),
        ensures
            r == self@[handle as int].active,
    {
        self.emitters[handle].is_active()
    }

    /// The shape of the spawner at `handle`, to be changed in place.
    pub fn shape_mut(&mut self, handle: usize) -> (r: &mut S)
        requires
            old(self).wf(),
            handle < old(self)@.len(),
        ensures
            *r == old(self).shapes()[handle as int],
            final(self).wf(),
            final(self)@ == old(self)@,
            final(self).shapes() == old(self).shapes().update(handle as int, *final(r)),
    {
        &mut self.shapes[handle]
    }

    /// The shape of the spawner at `handle`.
    pub fn shape(&self, handle: usize) -> (r: &S)
        requires
            self.wf(),
            handle < self@.len(),
        ensures
            *r == self.shapes()[handle as int],
    {
        &self.shapes[handle]
    }

    /// The control state of the spawner at `handle`.
    pub fn spawner(&self, handle: usize) -> (r: Result<Emitter, HandleNotFound>)
        ensures
            match r {
                Ok(e) => handle < self@.len() && e@ == self@[handle as int],
                Err(e) => handle >= self@.len() && e.handle == handle,
            },
    {
        if handle < self.emitters.len() {
            Ok(self.emitters[handle])
        } else {
            Err(HandleNotFound { handle })
        }
    }

    fn set_active(&mut self, handle: usize, active: bool) -> (r: Result<(), HandleNotFound>)
        requires
            old(self).wf(),
        ensures
            final(self).wf(),
            final(self).shapes() == old(self).shapes(),
            match r {
                Ok(()) => handle < old(self)@.len() && final(self)@ == with_active(
                    old(self)@,
                    handle as int,
                    active,
                ),
                Err(e) => handle >= old(self)@.len() && e.handle == handle && final(self)@ == old(
                    self,
                )@,
            },
    {
        if handle < self.emitters.len() {
            let mut e = self.emitters[handle];
            if active {
                e.activate();
            } else {
                e.deactivate();
            }
            self.emitters.set(handle, e);
            proof {
                assert(self@ =~= with_active(old(self)@, handle as int, active));
            }
            Ok(())
        } else {
            Err(HandleNotFound { handle })
        }
    }

    /// Switches the spawner at `handle` on, keeping its timer's progress; an
    /// unknown handle is reported and changes nothing.
    pub fn activate_spawner(&mut self, handle: usize) -> (r: Result<(), HandleNotFound>)
        requires
            old(self).wf(),
        ensures
            final(self).wf(),
            final(self).shapes() == old(self).shapes(),
            match r {
                Ok(()) => handle < old(self)@.len() && final(self)@ == with_active(
                    old(self)@,
                    handle as int,
                    true,
                ),
                Err(e) => handle >= old(self)@.len() && e.handle == handle && final(self)@ == old(
                    self,
                )@,
            },
    {
        self.set_active(handle, true)
    }

    /// Switches the spawner at `handle` off, keeping its timer's progress; an
    /// unknown handle is reported and changes nothing.
    pub fn deactivate_spawner(&mut self, handle: usize) -> (r: Result<(), HandleNotFound>)
        requires
            old(self).wf(),
        ensures
            final(self).wf(),
            final(self).shapes() == old(self).shapes(),
            match r {
                Ok(()) => handle < old(self)@.len() && final(self)@ == with_active(
                    old(self)@,
                    handle as int,
                    false,
                ),
                Err(e) => handle >= old(self)@.len() && e.handle == handle && final(self)@ == old(
                    self,
                )@,
            },
    {
        self.set_active(handle, false)
    }

    /// One frame of every spawner, in ascending handle order. `expired[h]`
    /// is whether the countdown of spawner `h` fell below zero this frame
    /// (it is ignored for an inactive spawner). The result holds, by handle,
    /// what each spawner asks of its owner.
    pub fn update(&mut self, expired: &Vec<bool>) -> (r: Vec<Emission>)
        requires
            old(self).wf(),
            expired@.len() == old(self)@.len(),
        ensures
            final(self).wf(),
            final(self).shapes() == old(self).shapes(),
            final(self)@ == frame_after(old(self)@, expired@),
            r@.len() == old(self)@.len(),
            forall|h: int|
                0 <= h < r@.len() ==> {
                    &&& r@[h].count as nat == old(self)@[h].emitted(expired@[h])
                    &&& r@[h].action == old(self)@[h].action(expired@[h])
                },
    {
        let n = self.emitters.len();
        let mut out: Vec<Emission> = Vec::new();
        let mut h: usize = 0;
        while h < n
            invariant
                n == old(self)@.len(),
                n == expired@.len(),
                self.shapes@ == old(self).shapes@,
                h <= n,
                self@.len() == n,
                out@.len() == h,
                forall|i: int| 0 <= i < h ==> self@[i] == old(self)@[i].after(expired@[i]),
                forall|i: int| h <= i < n ==> self@[i] == old(self)@[i],
                forall|i: int|
                    0 <= i < h ==> {
                        &&& out@[i].count as nat == old(self)@[i].emitted(expired@[i])
                        &&& out@[i].action == old(self)@[i].action(expired@[i])
                    },
            decreases n - h,
        {
            let ghost before = self@;
            let mut e = self.emitters[h];
            let emission = e.update(expired[h]);
            self.emitters.set(h, e);
            proof {
                assert(self@ =~= before.update(h as int, e@));
            }
            out.push(emission);
            h = h + 1;
        }
        proof {
            assert(self@ =~= frame_after(old(self)@, expired@));
        }
        out
    }
}

} // verus!
