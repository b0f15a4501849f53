//! The per-frame pass over the views: which of them get a pyramid this frame,
//! and with which binding sets.
//!
//! A view is ready when its depth source and its chain of level images are
//! both there, the chain holds an image for every level planned for the
//! source's size and, under the aggregated strategy, for every slot of the
//! layout, the layout serves a pyramid of that many levels, and every size
//! that a dispatch has to carry fits the push constant. A view that is
//! not ready is passed over without an error: it has no entry in the result,
//! and whoever looks for its pyramid must take everything in it for visible.
//! One view being passed over changes nothing for the others.

use vstd::prelude::*;
use crate::bindings::{
    BindingSet,
    DepthSource,
    ImageView,
    binding_set_spec,
    build,
    can_build,
    is_buildable,
    step_count,
};
use crate::dispatch::{PipelineStatus, can_dispatch, dispatch_spec, is_dispatchable, schedule};
use crate::layout::{ConfigError, ResourceBindingLayout, Strategy, layout_slots, slot_count};
use crate::pipeline::HiZPrepassPipeline;
use crate::planner::{HIZ_MIPMAP_COUNT, LevelSize, plan_spec};
use crate::pyramid::{DepthPyramid, pyramid_levels};
use crate::replay::{LevelState, built_state, is_complete, is_pyramid_state, lemma_schedule_builds, run};

verus! {

/// Marks a view that is to have a depth pyramid.
#[derive(Clone, Copy, Debug, Default, PartialEq, Eq, Structural)]
pub struct HiZ;

/// The settings that the subsystem is installed with.
#[derive(Clone, Copy, Debug, PartialEq, Eq, Structural)]
pub struct HiZPlugin {
    /// How the levels are produced.
    pub strategy: Strategy,
    /// The number of levels of the pyramids that are served.
    pub level_count: u32,
    /// Whether the kernels sample the image they read.
    pub sampler: bool,
}

impl Default for HiZPlugin {
    /// One dispatch per view over the largest pyramid, with a sampler: twelve
    /// slots in all.
    fn default() -> (r: Self)
        ensures
            r == (HiZPlugin {
                strategy: Strategy::Aggregated,
                level_count: HIZ_MIPMAP_COUNT,
                sampler: true,
            }),
    {
        HiZPlugin { strategy: Strategy::Aggregated, level_count: HIZ_MIPMAP_COUNT, sampler: true }
    }
}

impl HiZPlugin {
    /// Describes the pipelines for these settings, once the device is known
    /// and with it the number of slots that one binding group takes.
    ///
    /// Fails exactly when the layout cannot be had, with the layout's error.
    pub fn finish(&self, binding_limit: u32) -> (r: Result<HiZPrepassPipeline, ConfigError>)
        ensures
            self.level_count == 0 ==> r == Err::<HiZPrepassPipeline, ConfigError>(
                ConfigError::NoLevels,
            ),
            self.level_count > 0 && slot_count(
                self.strategy,
                self.level_count as int,
                self.sampler,
            ) > binding_limit ==> r == Err::<HiZPrepassPipeline, ConfigError>(
                (ConfigError::TooManyBindings {
                    required: slot_count(
                        self.strategy,
                        self.level_count as int,
                        self.sampler,
                    ) as u64,
                    limit: binding_limit,
                }),
            ),
            self.level_count > 0 && slot_count(
                self.strategy,
                self.level_count as int,
                self.sampler,
            ) <= binding_limit ==> r is Ok,
            r matches Ok(pipeline) ==> {
                &&& pipeline.wf()
                &&& pipeline.spec_strategy() == self.strategy
                &&& pipeline.spec_bind_group_layout().spec_level_count() == self.level_count
                &&& pipeline.spec_bind_group_layout().spec_has_sampler() == self.sampler
                &&& pipeline.spec_bind_group_layout()@ == layout_slots(
                    self.strategy,
                    self.level_count as int,
                    self.sampler,
                )
            },
    {
        HiZPrepassPipeline::new(self.strategy, self.level_count, self.sampler, binding_limit)
    }
}

/// The binding sets of one view for one frame, one per dispatch step.
#[derive(Debug)]
pub struct HiZPrepassBindGroup(pub Vec<BindingSet>);

/// What a view brings to the frame.
#[derive(Debug)]
pub struct ViewTextures {
    /// The identifier of the view.
    pub entity: u64,
    /// The view's depth source, if the depth pass has produced one.
    pub depth: Option<DepthSource>,
    /// The view's chain of level images, if it has been allocated.
    pub chain: Option<Vec<ImageView>>,
}

impl ViewTextures {
    /// The chain as a sequence, where there is one.
    pub open spec fn chain_spec(&self) -> Option<Seq<ImageView>> {
        match self.chain {
            Some(images) => Some(images@),
            None => None,
        }
    }

    /// The sizes of the levels of the view's pyramid; none without a depth
    /// source.
    pub open spec fn levels_spec(&self) -> Seq<LevelSize> {
        match self.depth {
            Some(source) => plan_spec(source.width, source.height),
            None => Seq::empty(),
        }
    }
}

/// A view that gets a pyramid this frame.
#[derive(Debug)]
pub struct PreparedView {
    /// The identifier of the view.
    pub entity: u64,
    /// The view's pyramid.
    pub pyramid: DepthPyramid,
    /// The view's binding sets.
    pub bind_group: HiZPrepassBindGroup,
}

/// Whether a view gets a pyramid this frame.
pub open spec fn view_ready(layout: ResourceBindingLayout, view: ViewTextures) -> bool {
    &&& view.depth is Some
    &&& can_build(layout, view.chain_spec(), view.levels_spec().len() as int)
    &&& can_dispatch(
        layout.spec_strategy(),
        PipelineStatus::Ready,
        step_count(layout.spec_strategy(), view.levels_spec().len() as int),
        view.levels_spec(),
    )
}

/// Whether `prepared` is what a ready view is prepared to: the view's
/// identifier, the pyramid over its depth source with the images of its
/// chain, and one binding set per step, each wired as the layout says.
pub open spec fn is_prepared_from(
    prepared: PreparedView,
    layout: ResourceBindingLayout,
    view: ViewTextures,
) -> bool {
    &&& prepared.entity == view.entity
    &&& prepared.pyramid.wf()
    &&& prepared.pyramid.spec_source() == view.depth->Some_0
    &&& prepared.pyramid.spec_sizes() == view.levels_spec()
    &&& prepared.pyramid@ == pyramid_levels(view.depth->Some_0, view.chain_spec()->Some_0)
    &&& prepared.bind_group.0@.len() == step_count(
        layout.spec_strategy(),
        view.levels_spec().len() as int,
    )
    &&& forall|k: int|
        0 <= k < prepared.bind_group.0@.len() ==> (#[trigger] prepared.bind_group.0@[k])@
            == binding_set_spec(layout@, view.depth->Some_0, view.chain_spec()->Some_0, k)
}

/// The indices of the ready views among `views`, in rising order.
pub open spec fn ready_views(layout: ResourceBindingLayout, views: Seq<ViewTextures>) -> Seq<int>
    decreases views.len(),
{
    if views.len() == 0 {
        Seq::empty()
    } else {
        let before = ready_views(layout, views.drop_last());
        if view_ready(layout, views.last()) {
            before.push(views.len() - 1)
        } else {
            before
        }
    }
}

/// Prepares one view: plans its pyramid and makes its binding sets, if it is
/// ready.
pub fn prepare_view(pipeline: &HiZPrepassPipeline, view: &ViewTextures) -> (r: Option<
    PreparedView,
>)
    ensures
        r is Some <==> view_ready(pipeline.spec_bind_group_layout(), *view),
        view.chain is None ==> r is None,
        r matches Some(prepared) ==> is_prepared_from(
            prepared,
            pipeline.spec_bind_group_layout(),
            *view,
        ),
{
    let layout = pipeline.bind_group_layout();
    let source = match view.depth {
        Some(source) => source,
        None => {
            return None;
        },
    };
    let chain = match view.chain.as_ref() {
        Some(chain) => chain,
        None => {
            return None;
        },
    };
    let pyramid = match DepthPyramid::assemble(source, chain) {
        Some(pyramid) => pyramid,
        None => {
            return None;
        },
    };
    if !is_buildable(layout, Some(chain), pyramid.level_count()) {
        return None;
    }
    let sets = build(layout, &source, Some(chain), pyramid.sizes());
    if !is_dispatchable(layout.strategy(), PipelineStatus::Ready, sets.len(), pyramid.sizes()) {
        return None;
    }
    Some(PreparedView { entity: view.entity, pyramid, bind_group: HiZPrepassBindGroup(sets) })
}

/// Prepares the views of one frame. The result holds one entry for each
/// ready view, in the order of the views; the views that are not ready are
/// passed over.
pub fn prepare_hiz_bind_groups(pipeline: &HiZPrepassPipeline, views: &Vec<ViewTextures>) -> (r:
    Vec<PreparedView>)
    ensures
        r@.len() == ready_views(pipeline.spec_bind_group_layout(), views@).len(),
        forall|j: int|
            0 <= j < r@.len() ==> 0 <= #[trigger] ready_views(
                pipeline.spec_bind_group_layout(),
                views@,
            )[j] < views@.len(),
        forall|j: int|
            0 <= j < r@.len() ==> is_prepared_from(
                #[trigger] r@[j],
                pipeline.spec_bind_group_layout(),
                views@[ready_views(pipeline.spec_bind_group_layout(), views@)[j]],
            ),
{
    let ghost layout = pipeline.spec_bind_group_layout();
    let mut prepared: Vec<PreparedView> = Vec::new();
    let mut i: usize = 0;
    while i < views.len()
        invariant
            i <= views.len(),
            layout == pipeline.spec_bind_group_layout(),
            prepared@.len() == ready_views(layout, views@.take(i as int)).len(),
            forall|j: int|
                0 <= j < prepared@.len() ==> is_prepared_from(
                    #[trigger] prepared@[j],
                    layout,
                    views@[ready_views(layout, views@.take(i as int))[j]],
                ),
        decreases views.len() - i,
    {
        let ghost before = ready_views(layout, views@.take(i as int));
        let ghost after = ready_views(layout, views@.take(i + 1));
        let ghost old_prepared = prepared@;
        proof {
            assert(views@.take(i + 1).drop_last() =~= views@.take(i as int));
            assert(views@.take(i + 1).last() == views@[i as int]);
        }
        let entry = prepare_view(pipeline, &views[i]);
        if let Some(entry) = entry {
            prepared.push(entry);
        }
        proof {
            assert forall|j: int| 0 <= j < prepared@.len() implies is_prepared_from(
                #[trigger] prepared@[j],
                layout,
                views@[after[j]],
            ) by {
                if j < old_prepared.len() {
                    assert(prepared@[j] == old_prepared[j]);
                    assert(after[j] == before[j]);
                }
            }
        }
        i = i + 1;
    }
    proof {
        assert(views@.take(i as int) =~= views@);
        lemma_ready_views(layout, views@);
    }
    prepared
}

/// Every index that `ready_views` lists is that of a ready view, the
/// indices rise, and no ready view is left out.
pub proof fn lemma_ready_views(layout: ResourceBindingLayout, views: Seq<ViewTextures>)
    ensures
        forall|j: int|
            0 <= j < ready_views(layout, views).len() ==> {
                let i = #[trigger] ready_views(layout, views)[j];
                0 <= i < views.len() && view_ready(layout, views[i])
            },
        forall|j: int, k: int|
            0 <= j < k < ready_views(layout, views).len() ==> #[trigger] ready_views(
                layout,
                views,
            )[j] < #[trigger] ready_views(layout, views)[k],
        forall|i: int|
            0 <= i < views.len() && view_ready(layout, #[trigger] views[i]) ==> ready_views(
                layout,
                views,
            ).contains(i),
    decreases views.len(),
{
    if views.len() > 0 {
        let head = views.drop_last();
        let before = ready_views(layout, head);
        let all = ready_views(layout, views);
        lemma_ready_views(layout, head);
        assert forall|i: int| 0 <= i < views.len() && view_ready(
            layout,
            #[trigger] views[i],
        ) implies all.contains(i) by {
            if i < views.len() - 1 {
                assert(head[i] == views[i]);
                assert(before.contains(i));
                let j = choose|j: int| 0 <= j < before.len() && before[j] == i;
                assert(all[j] == i);
            } else {
                assert(all[all.len() - 1] == i);
            }
        }
        assert forall|j: int| 0 <= j < all.len() implies {
            let i = #[trigger] all[j];
            0 <= i < views.len() && view_ready(layout, views[i])
        } by {
            if j < before.len() {
                assert(all[j] == before[j]);
                assert(head[before[j]] == views[before[j]]);
            }
        }
        assert forall|j: int, k: int| 0 <= j < k < all.len() implies #[trigger] all[j]
            < #[trigger] all[k] by {
            if k < before.len() {
                assert(all[j] == before[j] && all[k] == before[k]);
            } else {
                assert(all[j] == before[j]);
            }
        }
    }
}

/// The commands issued for a ready view, once the kernels are compiled, are
/// the whole schedule of its pyramid, and they build it: after them every
/// level holds its reduction of the view's depth source, whatever the images
/// held before.
pub proof fn lemma_ready_view_is_built(
    layout: ResourceBindingLayout,
    view: ViewTextures,
    state: Seq<LevelState>,
)
    requires
        view_ready(layout, view),
        is_pyramid_state(state, view.levels_spec().len() as int),
    ensures
        dispatch_spec(
            layout.spec_strategy(),
            PipelineStatus::Ready,
            step_count(layout.spec_strategy(), view.levels_spec().len() as int),
            view.levels_spec(),
        ) == schedule(layout.spec_strategy(), view.levels_spec()),
        run(
            layout.spec_strategy(),
            schedule(layout.spec_strategy(), view.levels_spec()),
            state,
        ) == built_state(layout.spec_strategy(), view.levels_spec().len()),
        is_complete(
            run(layout.spec_strategy(), schedule(layout.spec_strategy(), view.levels_spec()), state),
        ),
{
    let source = view.depth->Some_0;
    crate::planner::lemma_plan_from_is_chain(
        crate::planner::source_size(source.width, source.height),
        HIZ_MIPMAP_COUNT as nat,
    );
    lemma_schedule_builds(layout.spec_strategy(), view.levels_spec(), state);
}

/// A view without a chain of level images gets nothing: it is not ready, so
/// no entry and no binding set is made for it.
pub proof fn lemma_view_without_chain_is_skipped(
    layout: ResourceBindingLayout,
    views: Seq<ViewTextures>,
    i: int,
)
    requires
        0 <= i < views.len(),
        views[i].chain is None,
    ensures
        !view_ready(layout, views[i]),
        !ready_views(layout, views).contains(i),
{
    lemma_ready_views(layout, views);
}

} // verus!
