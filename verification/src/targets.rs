//! All the render targets of a session, found by their windows.
//!
//! Targets stand in the order in which they were added. A window is looked up
//! by its identifier; where several targets carry the same one, the first is
//! meant.

use vstd::prelude::*;
use crate::error::RendererError;
use crate::pipeline::Adapter;
use crate::surface::Configure;
use crate::surface::RenderTarget;
use crate::surface::SurfaceCapabilities;
use crate::surface::TargetModel;

verus! {

/// Whether `i` is the place of the first target for `window`.
pub open spec fn first_for<F, A>(targets: Seq<TargetModel<F, A>>, window: u64, i: int) -> bool {
    &&& 0 <= i < targets.len()
    &&& targets[i].window == window
    &&& forall|j: int| 0 <= j < i ==> (#[trigger] targets[j]).window != window
}

/// Whether there is no target for `window`.
pub open spec fn none_for<F, A>(targets: Seq<TargetModel<F, A>>, window: u64) -> bool {
    forall|j: int| 0 <= j < targets.len() ==> (#[trigger] targets[j]).window != window
}

/// The targets that are left when those for `window` go.
pub open spec fn without<F, A>(targets: Seq<TargetModel<F, A>>, window: u64) -> Seq<
    TargetModel<F, A>,
> {
    targets.filter(|target: TargetModel<F, A>| target.window != window)
}

/// The render targets of a session.
pub struct RenderTargets<F, A> {
    targets: Vec<RenderTarget<F, A>>,
}

impl<F, A> View for RenderTargets<F, A> {
    type V = Seq<TargetModel<F, A>>;

    closed spec fn view(&self) -> Seq<TargetModel<F, A>> {
        self.targets@.map_values(|target: RenderTarget<F, A>| target@)
    }
}

impl<F: Copy, A: Copy> RenderTargets<F, A> {
    /// No render targets.
    pub fn new() -> (out: RenderTargets<F, A>)
        ensures
            out@ == Seq::<TargetModel<F, A>>::empty(),
    {
        let out = RenderTargets { targets: Vec::new() };
        assert(out@ =~= Seq::<TargetModel<F, A>>::empty());
        out
    }

    /// Number of render targets.
    pub fn len(&self) -> (out: usize)
        ensures
            out == self@.len(),
    {
        self.targets.len()
    }

    /// The place of the first target for `window`.
    fn position(&self, window: u64) -> (out: Option<usize>)
        ensures
            match out {
                Some(i) => first_for(self@, window, i as int),
                None => none_for(self@, window),
            },
    {
        let mut i: usize = 0;
        while i < self.targets.len()
            invariant
                i <= self.targets.len(),
                forall|j: int| 0 <= j < i ==> (#[trigger] self@[j]).window != window,
            decreases self.targets.len() - i,
        {
            if self.targets[i].window() == window {
                return Some(i);
            }
            i += 1;
        }
        None
    }

    /// Adds a render target for `window`, whose surface has the given size and
    /// capabilities, on `adapter`, and says what the host has to do to
    /// configure the surface. Where the target cannot be made, nothing is
    /// added.
    pub fn add(
        &mut self,
        window: u64,
        adapter: Option<&Adapter>,
        capabilities: &SurfaceCapabilities<F, A>,
        width: u32,
        height: u32,
    ) -> (out: Result<Configure<F, A>, RendererError>)
        ensures
            ({
                let model = TargetModel::create(
                    window,
                    match adapter {
                        Some(adapter) => Some(*adapter),
                        None => None,
                    },
                    capabilities.formats@,
                    capabilities.alpha_modes@,
                    width,
                    height,
                );
                match out {
                    Ok(configure) => {
                        &&& model is Ok
                        &&& final(self)@ == old(self)@.push(model.unwrap())
                        &&& configure@ == model.unwrap().configure(width, height, false)
                    },
                    Err(error) => {
                        &&& model == Err::<TargetModel<F, A>, RendererError>(error)
                        &&& final(self)@ == old(self)@
                    },
                }
            }),
    {
        match RenderTarget::new(window, adapter, capabilities, width, height) {
            Ok((target, configure)) => {
                self.targets.push(target);
                assert(self@ =~= old(self)@.push(target@));
                Ok(configure)
            },
            Err(error) => Err(error),
        }
    }

    /// The first render target for `window`.
    pub fn get(&self, window: u64) -> (out: Option<&RenderTarget<F, A>>)
        ensures
            match out {
                Some(target) => exists|i: int|
                    first_for(self@, window, i) && self@[i] == target@,
                None => none_for(self@, window),
            },
    {
        match self.position(window) {
            Some(i) => {
                let target = &self.targets[i];
                assert(first_for(self@, window, i as int) && self@[i as int] == target@);
                Some(target)
            },
            None => None,
        }
    }

    /// The first render target for `window`, to be changed in place.
    pub fn get_mut(&mut self, window: u64) -> (out: Option<&mut RenderTarget<F, A>>)
        ensures
            match out {
                Some(target) => exists|i: int|
                    {
                        &&& first_for(old(self)@, window, i)
                        &&& old(self)@[i] == target@
                        &&& final(self)@ == old(self)@.update(i, final(target)@)
                    },
                None => none_for(old(self)@, window) && final(self)@ == old(self)@,
            },
    {
        match self.position(window) {
            Some(i) => {
                let target = &mut self.targets[i];
                Some(target)
            },
            None => None,
        }
    }

    /// The windows of the render targets, in the order of the targets.
    pub fn windows(&self) -> (out: Vec<u64>)
        ensures
            out@ == self@.map_values(|target: TargetModel<F, A>| target.window),
    {
        let mut out: Vec<u64> = Vec::new();
        let mut i: usize = 0;
        while i < self.targets.len()
            invariant
                i <= self.targets.len(),
                out@ == self@.take(i as int).map_values(|target: TargetModel<F, A>| target.window),
            decreases self.targets.len() - i,
        {
            out.push(self.targets[i].window());
            assert(out@ =~= self@.take(i + 1).map_values(
                |target: TargetModel<F, A>| target.window,
            ));
            i += 1;
        }
        assert(self@.take(i as int) =~= self@);
        out
    }

    /// Removes every render target for `window`.
    pub fn remove(&mut self, window: u64)
        ensures
            final(self)@ == without(old(self)@, window),
    {
        let ghost keep = |target: TargetModel<F, A>| target.window != window;
        let mut i: usize = 0;
        assert(self@.take(0) =~= Seq::<TargetModel<F, A>>::empty());
        while i < self.targets.len()
            invariant
                i <= self.targets.len(),
                keep == |target: TargetModel<F, A>| target.window != window,
                self@.take(i as int).filter(keep) == self@.take(i as int),
                self@.filter(keep) == old(self)@.filter(keep),
            decreases self.targets.len() - i,
        {
            let ghost before = self@;
            let ghost head = before.take(i as int);
            let ghost tail = before.skip(i + 1);
            proof {
                assert(before =~= head.push(before[i as int]) + tail);
                assert(before.take(i + 1) =~= head.push(before[i as int]));
                head.lemma_filter_push(before[i as int], keep);
                Seq::filter_distributes_over_add(head.push(before[i as int]), tail, keep);
                Seq::filter_distributes_over_add(head, tail, keep);
            }
            if self.targets[i].window() == window {
                self.targets.remove(i);
                proof {
                    assert(self@ =~= head + tail);
                    assert(self@.take(i as int) =~= head);
                }
            } else {
                i += 1;
            }
        }
        assert(self@.take(i as int) =~= self@);
    }

    /// Brings the surface of the first render target for `window` to a new
    /// size and says what the host has to do. Without a target for the window
    /// nothing happens.
    pub fn resized(&mut self, window: u64, width: u32, height: u32) -> (out: Option<
        Configure<F, A>,
    >)
        ensures
            match out {
                Some(configure) => exists|i: int|
                    {
                        &&& first_for(old(self)@, window, i)
                        &&& final(self)@ == old(self)@.update(
                            i,
                            old(self)@[i].resize(width, height),
                        )
                        &&& configure@ == old(self)@[i].configure(width, height, true)
                    },
                None => none_for(old(self)@, window) && final(self)@ == old(self)@,
            },
    {
        match self.get_mut(window) {
            Some(target) => Some(target.resize(width, height)),
            None => None,
        }
    }
}

} // verus!
