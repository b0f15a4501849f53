//! Binding sets: the images of one view, wired to the slots of the layout.
//!
//! A view that is ready brings two things: its depth source, and a chain of
//! image views, one per level of its pyramid, allocated before the frame's
//! binding sets are made. Image `k` of the chain shows level `k`. The depth
//! source itself stands for level 0 wherever level 0 is read, so image 0 of
//! the chain is never bound.
//!
//! One binding set serves one dispatch step. In step `k` the slot that is
//! read holds level `k`, and the `i`-th slot after it holds level `k + i`.
//! An iterative pyramid takes one step per pair of neighbouring levels; an
//! aggregated pyramid takes the single step 0, which writes every level
//! below the source.
//!
//! A binding set fills every slot of the layout. An aggregated layout has a
//! slot for every level that it was made for, so it serves any pyramid of no
//! more levels than that, as long as the chain holds an image for each of
//! its slots; the images past the pyramid's last level are bound and left
//! alone.

use vstd::prelude::*;
use crate::layout::{BindingSlot, ResourceBindingLayout, SlotKind, Strategy};
use crate::planner::LevelSize;

verus! {

/// The handle of an image view on the GPU. The library never looks inside
/// it: it carries it from the view's records to the binding sets.
#[derive(Clone, Copy, Debug, PartialEq, Eq, Structural)]
pub struct ImageView(pub u64);

/// The full-resolution depth image of one view.
#[derive(Clone, Copy, Debug, PartialEq, Eq, Structural)]
pub struct DepthSource {
    pub view: ImageView,
    pub width: u32,
    pub height: u32,
}

/// What a slot of a binding set holds.
#[derive(Clone, Copy, Debug, PartialEq, Eq, Structural)]
pub enum BoundResource {
    Image(ImageView),
    Sampler,
}

/// One slot of a binding set: the index of the slot in the layout, and what
/// it holds.
#[derive(Clone, Copy, Debug, PartialEq, Eq, Structural)]
pub struct Binding {
    pub binding: u32,
    pub resource: BoundResource,
}

/// The resources of one dispatch step, in the order of the layout's slots.
#[derive(Debug)]
pub struct BindingSet {
    pub entries: Vec<Binding>,
}

impl View for BindingSet {
    type V = Seq<Binding>;

    open spec fn view(&self) -> Seq<Binding> {
        self.entries@
    }
}

/// The image that shows level `level` of a view's pyramid: the depth source
/// for level 0, the chain's image for every other level.
pub open spec fn level_image(source: DepthSource, chain: Seq<ImageView>, level: int) -> ImageView {
    if level == 0 {
        source.view
    } else {
        chain[level]
    }
}

/// What slot `i` holds in step `step`.
pub open spec fn bound_resource(
    kind: SlotKind,
    i: int,
    source: DepthSource,
    chain: Seq<ImageView>,
    step: int,
) -> BoundResource {
    match kind {
        SlotKind::DepthImage => BoundResource::Image(level_image(source, chain, step)),
        SlotKind::StorageImage(_) => BoundResource::Image(chain[step + i]),
        SlotKind::Sampler => BoundResource::Sampler,
    }
}

/// The binding set of step `step`: one entry per slot of the layout, under
/// the slot's own index.
pub open spec fn binding_set_spec(
    slots: Seq<BindingSlot>,
    source: DepthSource,
    chain: Seq<ImageView>,
    step: int,
) -> Seq<Binding> {
    Seq::new(
        slots.len(),
        |i: int|
            Binding {
                binding: slots[i].binding,
                resource: bound_resource(slots[i].kind, i, source, chain, step),
            },
    )
}

/// The number of dispatch steps, and so of binding sets, of a pyramid of
/// `level_count` levels.
pub open spec fn step_count(strategy: Strategy, level_count: int) -> int {
    match strategy {
        Strategy::Aggregated => 1,
        Strategy::Iterative => level_count - 1,
    }
}

/// Whether binding sets can be made for a view: it has a chain, and the
/// chain holds an image for each of the pyramid's levels, of which there is
/// at least one. Under the aggregated strategy the layout must also have
/// been made for at least that many levels, and the chain must hold an
/// image for each level that the layout was made for.
pub open spec fn can_build(
    layout: ResourceBindingLayout,
    chain: Option<Seq<ImageView>>,
    level_count: int,
) -> bool {
    &&& chain is Some
    &&& 1 <= level_count <= chain->Some_0.len()
    &&& layout.spec_strategy() == Strategy::Aggregated ==> level_count
        <= layout.spec_level_count() <= chain->Some_0.len()
}

/// The chain as a sequence, where there is one.
pub open spec fn chain_view(chain: Option<&Vec<ImageView>>) -> Option<Seq<ImageView>> {
    match chain {
        Some(images) => Some(images@),
        None => None,
    }
}

/// Whether binding sets can be made for a view.
pub fn is_buildable(
    layout: &ResourceBindingLayout,
    chain: Option<&Vec<ImageView>>,
    level_count: usize,
) -> (r: bool)
    ensures
        r == can_build(*layout, chain_view(chain), level_count as int),
{
    match chain {
        None => false,
        Some(images) => {
            if level_count < 1 || level_count > images.len() {
                false
            } else {
                match layout.strategy() {
                    Strategy::Aggregated => {
                        let served = layout.level_count() as usize;
                        level_count <= served && served <= images.len()
                    },
                    Strategy::Iterative => true,
                }
            }
        },
    }
}

/// Makes the binding set of one step.
///
/// The step must be one of the pyramid's, and the chain long enough for
/// it: both hold for every step below `step_count` of a view that
/// `can_build` accepts.
pub fn build_step(
    layout: &ResourceBindingLayout,
    depth_source: &DepthSource,
    chain: &Vec<ImageView>,
    step: usize,
) -> (set: BindingSet)
    requires
        step + write_slot_count_of(*layout) < chain.len(),
    ensures
        set@ == binding_set_spec(layout@, *depth_source, chain@, step as int),
{
    let slots = layout.slots();
    let mut entries: Vec<Binding> = Vec::new();
    let mut i: usize = 0;
    while i < slots.len()
        invariant
            i <= slots.len(),
            slots@ == layout@,
            layout.wf(),
            step + write_slot_count_of(*layout) < chain.len(),
            entries@.len() == i,
            forall|j: int|
                0 <= j < i ==> #[trigger] entries@[j] == binding_set_spec(
                    layout@,
                    *depth_source,
                    chain@,
                    step as int,
                )[j],
        decreases slots.len() - i,
    {
        let slot = slots[i];
        let resource = match slot.kind {
            SlotKind::DepthImage => {
                if step == 0 {
                    BoundResource::Image(depth_source.view)
                } else {
                    BoundResource::Image(chain[step])
                }
            },
            SlotKind::StorageImage(_) => BoundResource::Image(chain[step + i]),
            SlotKind::Sampler => BoundResource::Sampler,
        };
        entries.push(Binding { binding: slot.binding, resource });
        i = i + 1;
    }
    assert(entries@ =~= binding_set_spec(layout@, *depth_source, chain@, step as int));
    BindingSet { entries }
}

/// The number of images that a dispatch writes through a layout.
pub open spec fn write_slot_count_of(layout: ResourceBindingLayout) -> int {
    crate::layout::write_slot_count(layout.spec_strategy(), layout.spec_level_count() as int)
}

/// The steps of an iterative pyramid hang together: the image that a step
/// writes is the image that the next step reads.
pub proof fn lemma_steps_are_chained(
    layout: ResourceBindingLayout,
    source: DepthSource,
    chain: Seq<ImageView>,
    step: int,
)
    requires
        layout.wf(),
        layout.spec_strategy() == Strategy::Iterative,
        0 <= step,
    ensures
        binding_set_spec(layout@, source, chain, step)[0].resource == BoundResource::Image(
            level_image(source, chain, step),
        ),
        binding_set_spec(layout@, source, chain, step)[1].resource == BoundResource::Image(
            level_image(source, chain, step + 1),
        ),
        binding_set_spec(layout@, source, chain, step)[1].resource == binding_set_spec(
            layout@,
            source,
            chain,
            step + 1,
        )[0].resource,
{
}

/// The label under which the binding sets are shown.
pub open spec fn bind_group_label_spec() -> Seq<char> {
    "hiz_mipmap_bindgroups"@
}

/// The label under which the binding sets are shown.
pub fn bind_group_label() -> (r: &'static str)
    ensures
        r@ == bind_group_label_spec(),
{
    "hiz_mipmap_bindgroups"
}

/// Makes the binding sets of one view, one per dispatch step and in the
/// order of the steps.
///
/// `chain` is the view's chain of level images, if it has one yet, and
/// `levels` the sizes of the levels of its pyramid. A view for which
/// `can_build` does not hold is passed over: it gets no binding set, and
/// that is no error.
pub fn build(
    layout: &ResourceBindingLayout,
    depth_source: &DepthSource,
    chain: Option<&Vec<ImageView>>,
    levels: &Vec<LevelSize>,
) -> (sets: Vec<BindingSet>)
    ensures
        chain is None ==> sets@.len() == 0,
        !can_build(*layout, chain_view(chain), levels@.len() as int) ==> sets@.len() == 0,
        can_build(*layout, chain_view(chain), levels@.len() as int) ==> {
            &&& sets@.len() == step_count(layout.spec_strategy(), levels@.len() as int)
            &&& forall|k: int|
                0 <= k < sets@.len() ==> (#[trigger] sets@[k])@ == binding_set_spec(
                    layout@,
                    *depth_source,
                    chain->Some_0@,
                    k,
                )
        },
{
    let mut sets: Vec<BindingSet> = Vec::new();
    if !is_buildable(layout, chain, levels.len()) {
        return sets;
    }
    let images = chain.unwrap();
    let steps: usize = match layout.strategy() {
        Strategy::Aggregated => 1,
        Strategy::Iterative => levels.len() - 1,
    };
    let writes = layout.write_slot_count();
    let mut k: usize = 0;
    while k < steps
        invariant
            k <= steps,
            steps == step_count(layout.spec_strategy(), levels@.len() as int),
            steps - 1 + write_slot_count_of(*layout) < images@.len(),
            sets@.len() == k,
            forall|j: int|
                0 <= j < k ==> (#[trigger] sets@[j])@ == binding_set_spec(
                    layout@,
                    *depth_source,
                    images@,
                    j,
                ),
        decreases steps - k,
    {
        let set = build_step(layout, depth_source, images, k);
        sets.push(set);
        k = k + 1;
    }
    sets
}

} // verus!
