//! The shape of the compute pipelines that build a pyramid.
//!
//! The library does not compile anything. It says what has to be compiled:
//! against which layout, under which entry point, with which push-constant
//! range, and for which thread-block size the kernel must have been written.
//!
//! Conventions, fixed here for the whole library:
//!
//! * Every kernel comes from the one source registered under
//!   [`HIZ_SHADER_HANDLE`], is compiled without shader definitions, and is
//!   compiled against the one layout, which it finds as binding group
//!   [`BIND_GROUP_INDEX`].
//! * An aggregated pyramid is built by one kernel, entered at
//!   `downsample_depth_first`, in thread blocks of 64 by 1.
//! * An iterative pyramid is built by two kernels in thread blocks of 8 by 8.
//!   `downsample_depth_first` serves the step that reads the depth source,
//!   `downsample_depth_second` every step that reads a level of the pyramid.
//! * Every kernel is handed one push constant of four bytes: the width of the
//!   level that the dispatch is sized from in the low half, its height in the
//!   high half.

use vstd::prelude::*;
use crate::layout::{ConfigError, ResourceBindingLayout, Strategy, slot_count, layout_slots};

verus! {

/// The number of threads in one thread block, under either strategy.
pub const WORK_GROUP_SIZE: u32 = 64;

/// The number of bytes in the push constant of a pyramid kernel.
pub const PUSH_CONSTANT_BYTES: u32 = 4;

/// The identifier under which the kernels' source is registered.
pub const HIZ_SHADER_HANDLE: u128 = 3904150601;

/// The index of the binding group through which a kernel finds the layout.
pub const BIND_GROUP_INDEX: u32 = 0;

/// The label under which the layout is shown.
pub open spec fn layout_label_spec() -> Seq<char> {
    "hiz_downsample_depth_bind_group_layout"@
}

/// The label under which the layout is shown.
pub fn layout_label() -> (r: &'static str)
    ensures
        r@ == layout_label_spec(),
{
    "hiz_downsample_depth_bind_group_layout"
}

/// An entry point of the kernels' source.
#[derive(Clone, Copy, Debug, PartialEq, Eq, Structural)]
pub enum EntryPoint {
    DownsampleDepthFirst,
    DownsampleDepthSecond,
}

impl EntryPoint {
    /// The name of the entry point in the kernels' source.
    pub open spec fn name_spec(self) -> Seq<char> {
        match self {
            EntryPoint::DownsampleDepthFirst => "downsample_depth_first"@,
            EntryPoint::DownsampleDepthSecond => "downsample_depth_second"@,
        }
    }

    /// The name of the entry point in the kernels' source.
    pub fn name(self) -> (r: &'static str)
        ensures
            r@ == self.name_spec(),
    {
        match self {
            EntryPoint::DownsampleDepthFirst => "downsample_depth_first",
            EntryPoint::DownsampleDepthSecond => "downsample_depth_second",
        }
    }

    /// The label under which the pipeline of this entry point is shown.
    pub open spec fn label_spec(self) -> Seq<char> {
        match self {
            EntryPoint::DownsampleDepthFirst => "hiz_downsample_depth_first_pipeline"@,
            EntryPoint::DownsampleDepthSecond => "hiz_downsample_depth_second_pipeline"@,
        }
    }

    /// The label under which the pipeline of this entry point is shown.
    pub fn label(self) -> (r: &'static str)
        ensures
            r@ == self.label_spec(),
    {
        match self {
            EntryPoint::DownsampleDepthFirst => "hiz_downsample_depth_first_pipeline",
            EntryPoint::DownsampleDepthSecond => "hiz_downsample_depth_second_pipeline",
        }
    }
}

/// The number of threads in one thread block, along each axis of the image.
#[derive(Clone, Copy, Debug, PartialEq, Eq, Structural)]
pub struct BlockSize {
    pub x: u32,
    pub y: u32,
}

/// A range of bytes of push constants, visible to the compute stage.
#[derive(Clone, Copy, Debug, PartialEq, Eq, Structural)]
pub struct PushConstantRange {
    pub start: u32,
    pub end: u32,
}

/// What is needed, besides the layout, to compile one kernel.
#[derive(Clone, Copy, Debug, PartialEq, Eq, Structural)]
pub struct PipelineDescriptor {
    /// The identifier of the source that holds the kernel.
    pub shader: u128,
    /// The number of shader definitions that the kernel is compiled with.
    pub shader_defs: u32,
    /// The index of the binding group that holds the layout.
    pub bind_group: u32,
    pub entry_point: EntryPoint,
    pub push_constant_range: PushConstantRange,
    pub block: BlockSize,
}

/// The thread-block size that the kernels of a strategy are written for.
pub open spec fn block_size_spec(strategy: Strategy) -> BlockSize {
    match strategy {
        Strategy::Aggregated => BlockSize { x: 64, y: 1 },
        Strategy::Iterative => BlockSize { x: 8, y: 8 },
    }
}

/// The thread-block size that the kernels of a strategy are written for.
#[verifier::when_used_as_spec(block_size_spec)]
pub fn block_size(strategy: Strategy) -> (r: BlockSize)
    ensures
        r == block_size_spec(strategy),
        r.x * r.y == WORK_GROUP_SIZE,
{
    match strategy {
        Strategy::Aggregated => BlockSize { x: 64, y: 1 },
        Strategy::Iterative => BlockSize { x: 8, y: 8 },
    }
}

/// The description of the kernel under `entry_point` for a strategy.
pub open spec fn descriptor_spec(strategy: Strategy, entry_point: EntryPoint) -> PipelineDescriptor {
    PipelineDescriptor {
        shader: HIZ_SHADER_HANDLE,
        shader_defs: 0,
        bind_group: BIND_GROUP_INDEX,
        entry_point,
        push_constant_range: PushConstantRange { start: 0, end: PUSH_CONSTANT_BYTES },
        block: block_size_spec(strategy),
    }
}

/// The entry point of the second kernel of a strategy, if it has one.
pub open spec fn second_entry_point(strategy: Strategy) -> Option<EntryPoint> {
    match strategy {
        Strategy::Aggregated => None,
        Strategy::Iterative => Some(EntryPoint::DownsampleDepthSecond),
    }
}

/// All that the pyramid dispatches of one application share: the binding
/// layout and the description of the kernel or kernels compiled against it.
/// Made once when the subsystem starts and never changed.
#[derive(Debug)]
pub struct HiZPrepassPipeline {
    bind_group_layout: ResourceBindingLayout,
    downsample_depth_first: PipelineDescriptor,
    downsample_depth_second: Option<PipelineDescriptor>,
    work_group_size: u32,
}

impl HiZPrepassPipeline {
    /// The layout that every kernel is compiled against.
    pub closed spec fn spec_bind_group_layout(&self) -> ResourceBindingLayout {
        self.bind_group_layout
    }

    /// The kernel that reads the depth source.
    pub closed spec fn spec_downsample_depth_first(&self) -> PipelineDescriptor {
        self.downsample_depth_first
    }

    /// The kernel that reads a level of the pyramid, where the strategy has
    /// one.
    pub closed spec fn spec_downsample_depth_second(&self) -> Option<PipelineDescriptor> {
        self.downsample_depth_second
    }

    /// The number of threads in one thread block.
    pub closed spec fn spec_work_group_size(&self) -> u32 {
        self.work_group_size
    }

    /// The strategy that the pipelines serve: that of their layout.
    pub open spec fn spec_strategy(&self) -> Strategy {
        self.spec_bind_group_layout().spec_strategy()
    }

    /// The layout is well formed, and the kernels are those of its strategy.
    /// Every value that this library hands out is well formed.
    pub open spec fn wf(&self) -> bool {
        &&& self.spec_bind_group_layout().wf()
        &&& self.spec_downsample_depth_first() == descriptor_spec(
            self.spec_strategy(),
            EntryPoint::DownsampleDepthFirst,
        )
        &&& self.spec_downsample_depth_second() == match second_entry_point(self.spec_strategy()) {
            Some(entry_point) => Some(descriptor_spec(self.spec_strategy(), entry_point)),
            None => None,
        }
        &&& self.spec_work_group_size() == WORK_GROUP_SIZE
    }

    #[verifier::type_invariant]
    spec fn inv(&self) -> bool {
        self.wf()
    }

    /// Describes the pipelines for pyramids of `level_count` levels under
    /// `strategy`, with a sampler slot if `sampler` is set, on a device whose
    /// binding groups take `binding_limit` slots.
    ///
    /// Fails exactly when the layout cannot be had, with the layout's error.
    pub fn new(strategy: Strategy, level_count: u32, sampler: bool, binding_limit: u32) -> (r:
        Result<Self, ConfigError>)
        ensures
            level_count == 0 ==> r == Err::<Self, ConfigError>(ConfigError::NoLevels),
            level_count > 0 && slot_count(strategy, level_count as int, sampler) > binding_limit
                ==> r == Err::<Self, ConfigError>(
                (ConfigError::TooManyBindings {
                    required: slot_count(strategy, level_count as int, sampler) as u64,
                    limit: binding_limit,
                }),
            ),
            level_count > 0 && slot_count(strategy, level_count as int, sampler) <= binding_limit
                ==> r is Ok,
            r matches Ok(pipeline) ==> {
                &&& pipeline.wf()
                &&& pipeline.spec_strategy() == strategy
                &&& pipeline.spec_bind_group_layout().spec_level_count() == level_count
                &&& pipeline.spec_bind_group_layout().spec_has_sampler() == sampler
                &&& pipeline.spec_bind_group_layout()@ == layout_slots(
                    strategy,
                    level_count as int,
                    sampler,
                )
            },
    {
        match ResourceBindingLayout::new(strategy, level_count, sampler, binding_limit) {
            Err(e) => Err(e),
            Ok(bind_group_layout) => {
                let block = block_size(strategy);
                let push_constant_range = PushConstantRange { start: 0, end: PUSH_CONSTANT_BYTES };
                let downsample_depth_first = PipelineDescriptor {
                    shader: HIZ_SHADER_HANDLE,
                    shader_defs: 0,
                    bind_group: BIND_GROUP_INDEX,
                    entry_point: EntryPoint::DownsampleDepthFirst,
                    push_constant_range,
                    block,
                };
                let downsample_depth_second = match strategy {
                    Strategy::Aggregated => None,
                    Strategy::Iterative => Some(
                        PipelineDescriptor {
                            shader: HIZ_SHADER_HANDLE,
                            shader_defs: 0,
                            bind_group: BIND_GROUP_INDEX,
                            entry_point: EntryPoint::DownsampleDepthSecond,
                            push_constant_range,
                            block,
                        },
                    ),
                };
                Ok(
                    HiZPrepassPipeline {
                        bind_group_layout,
                        downsample_depth_first,
                        downsample_depth_second,
                        work_group_size: WORK_GROUP_SIZE,
                    },
                )
            },
        }
    }

    /// The layout that every kernel is compiled against.
    pub fn bind_group_layout(&self) -> (r: &ResourceBindingLayout)
        ensures
            *r == self.spec_bind_group_layout(),
            r.wf(),
    {
        proof {
            use_type_invariant(self);
        }
        &self.bind_group_layout
    }

    /// The strategy that the pipelines serve.
    #[verifier::when_used_as_spec(spec_strategy)]
    pub fn strategy(&self) -> (r: Strategy)
        ensures
            r == self.spec_strategy(),
    {
        self.bind_group_layout.strategy()
    }

    /// The kernel that reads the depth source.
    pub fn downsample_depth_first(&self) -> (r: PipelineDescriptor)
        ensures
            r == self.spec_downsample_depth_first(),
            r == descriptor_spec(self.spec_strategy(), EntryPoint::DownsampleDepthFirst),
    {
        proof {
            use_type_invariant(self);
        }
        self.downsample_depth_first
    }

    /// The kernel that reads a level of the pyramid: there is one under the
    /// iterative strategy and none under the aggregated one.
    pub fn downsample_depth_second(&self) -> (r: Option<PipelineDescriptor>)
        ensures
            r == self.spec_downsample_depth_second(),
            self.spec_strategy() == Strategy::Aggregated ==> r is None,
            self.spec_strategy() == Strategy::Iterative ==> r == Some(
                descriptor_spec(Strategy::Iterative, EntryPoint::DownsampleDepthSecond),
            ),
    {
        proof {
            use_type_invariant(self);
        }
        self.downsample_depth_second
    }

    /// The number of threads in one thread block: 64 under either strategy.
    pub fn work_group_size(&self) -> (r: u32)
        ensures
            r == self.spec_work_group_size(),
            r == WORK_GROUP_SIZE,
    {
        proof {
            use_type_invariant(self);
        }
        self.work_group_size
    }

    /// The thread-block size of the kernels.
    pub fn block(&self) -> (r: BlockSize)
        ensures
            r == block_size_spec(self.spec_strategy()),
    {
        proof {
            use_type_invariant(self);
        }
        self.downsample_depth_first.block
    }
}

} // verus!
