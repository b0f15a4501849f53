//! The pyramid of one view: its levels, each with its size and its image.
//!
//! Level 0 is the depth source itself. Every other level lives in the image
//! that the view's chain holds for it. A pyramid is put together anew each
//! frame from the source and the chain that the view brings, and lasts for
//! that frame.

use vstd::prelude::*;
use crate::bindings::{
    BoundResource,
    DepthSource,
    ImageView,
    binding_set_spec,
    level_image,
    write_slot_count_of,
};
use crate::layout::{AccessMode, READ_WRITE_BINDING, ResourceBindingLayout, Strategy};
use crate::planner::{LevelSize, plan, plan_spec};

verus! {

/// One level of a pyramid.
#[derive(Clone, Copy, Debug, PartialEq, Eq, Structural)]
pub struct PyramidLevel {
    pub width: u32,
    pub height: u32,
    /// The image that shows the level.
    pub view: ImageView,
}

/// The levels of the pyramid over `source`, with the images of `chain`.
pub open spec fn pyramid_levels(source: DepthSource, chain: Seq<ImageView>) -> Seq<PyramidLevel> {
    Seq::new(
        plan_spec(source.width, source.height).len(),
        |k: int|
            PyramidLevel {
                width: plan_spec(source.width, source.height)[k].width,
                height: plan_spec(source.width, source.height)[k].height,
                view: level_image(source, chain, k),
            },
    )
}

/// How a level is bound in a step, if it is bound at all. The level that
/// the step reads is read-only. An iterative step writes the level below
/// it, write-only. An aggregated step writes every level below it:
/// write-only, but for the level [`READ_WRITE_BINDING`] below, which the
/// kernel reads back and so has read-write.
pub open spec fn access_in_step_spec(strategy: Strategy, step: int, level: int) -> Option<
    AccessMode,
> {
    if level == step {
        Some(AccessMode::ReadOnly)
    } else if level < step {
        None
    } else {
        match strategy {
            Strategy::Aggregated => if level - step == READ_WRITE_BINDING {
                Some(AccessMode::ReadWrite)
            } else {
                Some(AccessMode::WriteOnly)
            },
            Strategy::Iterative => if level - step == 1 {
                Some(AccessMode::WriteOnly)
            } else {
                None
            },
        }
    }
}

/// How a level is bound in a step, if it is bound at all.
pub fn access_in_step(strategy: Strategy, step: usize, level: usize) -> (r: Option<AccessMode>)
    ensures
        r == access_in_step_spec(strategy, step as int, level as int),
{
    if level == step {
        Some(AccessMode::ReadOnly)
    } else if level < step {
        None
    } else {
        match strategy {
            Strategy::Aggregated => {
                if level - step == READ_WRITE_BINDING as usize {
                    Some(AccessMode::ReadWrite)
                } else {
                    Some(AccessMode::WriteOnly)
                }
            },
            Strategy::Iterative => {
                if level - step == 1 {
                    Some(AccessMode::WriteOnly)
                } else {
                    None
                }
            },
        }
    }
}

/// In the binding set of a step, image slot `i` holds the image of level
/// `step + i`, and the layout gives the kernel the access to it that the
/// level has in that step: read-only to the level read, read-write to the
/// level that an aggregated kernel reads back, write-only to every other
/// level written.
pub proof fn lemma_binding_access(
    layout: ResourceBindingLayout,
    source: DepthSource,
    chain: Seq<ImageView>,
    step: int,
    i: int,
)
    requires
        layout.wf(),
        0 <= step,
        0 <= i <= write_slot_count_of(layout),
    ensures
        binding_set_spec(layout@, source, chain, step)[i].binding == i,
        binding_set_spec(layout@, source, chain, step)[i].resource == BoundResource::Image(
            level_image(source, chain, step + i),
        ),
        layout@[i].kind.access() == access_in_step_spec(layout.spec_strategy(), step, step + i),
        layout@[i].kind.access() is Some,
{
}

/// The pyramid of one view.
#[derive(Debug)]
pub struct DepthPyramid {
    source: DepthSource,
    sizes: Vec<LevelSize>,
    views: Vec<ImageView>,
}

impl View for DepthPyramid {
    type V = Seq<PyramidLevel>;

    closed spec fn view(&self) -> Seq<PyramidLevel> {
        Seq::new(
            self.sizes@.len(),
            |k: int|
                PyramidLevel {
                    width: self.sizes@[k].width,
                    height: self.sizes@[k].height,
                    view: self.views@[k],
                },
        )
    }
}

impl DepthPyramid {
    /// The depth source that the pyramid stands over.
    pub closed spec fn spec_source(&self) -> DepthSource {
        self.source
    }

    /// The sizes of the levels.
    pub closed spec fn spec_sizes(&self) -> Seq<LevelSize> {
        self.sizes@
    }

    /// The sizes of the levels are those planned for the source, level 0 is
    /// shown by the source's own image, and every level has its image.
    /// Every pyramid that this library hands out is well formed.
    pub open spec fn wf(&self) -> bool {
        &&& self.spec_sizes() == plan_spec(self.spec_source().width, self.spec_source().height)
        &&& self@.len() == self.spec_sizes().len()
        &&& self@.len() >= 1
        &&& self@[0].view == self.spec_source().view
        &&& forall|k: int|
            0 <= k < self@.len() ==> (#[trigger] self@[k]).width == self.spec_sizes()[k].width
                && self@[k].height == self.spec_sizes()[k].height
    }

    #[verifier::type_invariant]
    spec fn inv(&self) -> bool {
        &&& self.wf()
        &&& self.views@.len() == self.sizes@.len()
    }

    /// Puts the pyramid of a view together: plans the levels for the size
    /// of `source` and gives each the image that `chain` holds for it.
    /// There is no pyramid if the chain is shorter than the plan.
    pub fn assemble(source: DepthSource, chain: &Vec<ImageView>) -> (r: Option<Self>)
        ensures
            r is Some <==> chain@.len() >= plan_spec(source.width, source.height).len(),
            r matches Some(pyramid) ==> {
                &&& pyramid.wf()
                &&& pyramid.spec_source() == source
                &&& pyramid@ == pyramid_levels(source, chain@)
            },
    {
        let sizes = plan(source.width, source.height);
        if chain.len() < sizes.len() {
            return None;
        }
        let mut views: Vec<ImageView> = Vec::new();
        let mut k: usize = 0;
        while k < sizes.len()
            invariant
                k <= sizes.len() <= chain.len(),
                views@.len() == k,
                forall|j: int|
                    0 <= j < k ==> #[trigger] views@[j] == level_image(source, chain@, j),
            decreases sizes.len() - k,
        {
            if k == 0 {
                views.push(source.view);
            } else {
                views.push(chain[k]);
            }
            k = k + 1;
        }
        let pyramid = DepthPyramid { source, sizes, views };
        assert(pyramid@ =~= pyramid_levels(source, chain@));
        Some(pyramid)
    }

    /// The depth source that the pyramid stands over.
    pub fn source(&self) -> (r: DepthSource)
        ensures
            r == self.spec_source(),
    {
        self.source
    }

    /// The number of levels.
    pub fn level_count(&self) -> (r: usize)
        ensures
            r == self@.len(),
            r >= 1,
    {
        proof {
            use_type_invariant(self);
        }
        self.sizes.len()
    }

    /// The sizes of the levels, from the source's own size down.
    pub fn sizes(&self) -> (r: &Vec<LevelSize>)
        ensures
            r@ == self.spec_sizes(),
            self.wf(),
    {
        proof {
            use_type_invariant(self);
        }
        &self.sizes
    }

    /// Level `k`, if the pyramid has that many levels.
    pub fn level(&self, k: usize) -> (r: Option<PyramidLevel>)
        ensures
            k < self@.len() ==> r == Some(self@[k as int]),
            k >= self@.len() ==> r is None,
    {
        proof {
            use_type_invariant(self);
        }
        if k < self.sizes.len() {
            let size = self.sizes[k];
            Some(PyramidLevel { width: size.width, height: size.height, view: self.views[k] })
        } else {
            None
        }
    }
}

} // verus!
