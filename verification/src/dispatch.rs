//! The compute commands that build one view's pyramid, in the order in which
//! they must reach the queue.
//!
//! The library records nothing on a GPU. It decides what is to be recorded
//! and hands the commands out as values.
//!
//! * An iterative pyramid takes its steps in rising order. Step `k` reads
//!   level `k` and writes level `k + 1`: it is bound to binding set `k`, and
//!   its grid is the smallest that covers level `k + 1`. Between two steps
//!   stands a barrier on the level just written, which the next step reads.
//! * An aggregated pyramid takes one step, bound to the one binding set, with
//!   the smallest grid that covers level 0. No barrier is needed.
//!
//! Every dispatch carries the size of the level that its grid covers as a
//! push constant of four bytes, so neither side of that level may exceed
//! [`MAX_PACKED_DIMENSION`].
//!
//! Nothing here fails. Where the kernels are not compiled, where the binding
//! sets are not those of the levels, or where a size does not fit the push
//! constant, no command is issued and the view goes without a pyramid for
//! the frame.

use vstd::prelude::*;
use crate::bindings::{BindingSet, step_count};
use crate::layout::Strategy;
use crate::pipeline::{BlockSize, EntryPoint, HiZPrepassPipeline, block_size_spec};
use crate::planner::LevelSize;

verus! {

/// The largest width or height that fits its half of a push constant.
pub const MAX_PACKED_DIMENSION: u32 = 65535;

/// The number of thread blocks of `block` threads that it takes to cover
/// `target` pixels: `target / block`, rounded up.
pub open spec fn group_count_spec(target: int, block: int) -> int {
    (target + block - 1) / block
}

/// The grid of `group_count_spec` covers the target and is the smallest that
/// does: it has enough thread blocks for every pixel, and with one block
/// fewer a pixel would be left out.
pub proof fn lemma_group_count_covers(target: int, block: int)
    requires
        0 <= target,
        1 <= block,
    ensures
        group_count_spec(target, block) * block >= target,
        (group_count_spec(target, block) - 1) * block < target,
        0 <= group_count_spec(target, block) <= target,
{
    let g = group_count_spec(target, block);
    let n = target + block - 1;
    vstd::arithmetic::div_mod::lemma_fundamental_div_mod(n, block);
    vstd::arithmetic::div_mod::lemma_mod_bound(n, block);
    assert(block * g == g * block) by (nonlinear_arith);
    assert((g - 1) * block == g * block - block) by (nonlinear_arith);
    assert(g >= 0 && g <= target) by (nonlinear_arith)
        requires
            g * block >= target,
            (g - 1) * block < target,
            0 <= target,
            1 <= block,
    ;
}

/// The number of thread blocks of `block` threads that it takes to cover
/// `target` pixels.
pub fn group_count(target: u32, block: u32) -> (groups: u32)
    requires
        block >= 1,
    ensures
        groups == group_count_spec(target as int, block as int),
        groups * block >= target,
        (groups - 1) * block < target,
{
    proof {
        lemma_group_count_covers(target as int, block as int);
    }
    let whole: u32 = target / block;
    let groups: u32 = if target % block != 0 {
        assert(whole < target) by (nonlinear_arith)
            requires
                whole == target as int / block as int,
                target as int % block as int != 0,
                block >= 1,
        ;
        whole + 1
    } else {
        whole
    };
    proof {
        let t = target as int;
        let b = block as int;
        vstd::arithmetic::div_mod::lemma_fundamental_div_mod(t, b);
        vstd::arithmetic::div_mod::lemma_mod_bound(t, b);
        let g = groups as int;
        assert(b * (t / b) == (t / b) * b) by (nonlinear_arith);
        assert(g * b >= t && (g - 1) * b < t) by (nonlinear_arith)
            requires
                t == (t / b) * b + t % b,
                0 <= t % b < b,
                g == if t % b != 0 {
                    t / b + 1
                } else {
                    t / b
                },
        ;
        let s = group_count_spec(t, b);
        assert(g == s) by (nonlinear_arith)
            requires
                g * b >= t,
                (g - 1) * b < t,
                s * b >= t,
                (s - 1) * b < t,
                b >= 1,
        ;
    }
    groups
}

/// Whether a size fits the push constant: neither side is over
/// [`MAX_PACKED_DIMENSION`].
pub open spec fn is_packable(size: LevelSize) -> bool {
    size.width <= MAX_PACKED_DIMENSION && size.height <= MAX_PACKED_DIMENSION
}

/// The push constant for a size that fits: the width in the low sixteen
/// bits, the height in the high sixteen.
pub open spec fn packed_size(size: LevelSize) -> int {
    size.width + 65536 * size.height
}

/// Two sizes that fit and pack to the same push constant are the same size:
/// the kernel can tell from the constant what it was given.
pub proof fn lemma_packed_size_is_one_to_one(a: LevelSize, b: LevelSize)
    requires
        is_packable(a),
        is_packable(b),
        packed_size(a) == packed_size(b),
    ensures
        a == b,
{
}

/// Packs a size into the four bytes of the push constant, if it fits.
pub fn pack_size(size: LevelSize) -> (r: Option<u32>)
    ensures
        is_packable(size) <==> r is Some,
        r matches Some(word) ==> word == packed_size(size),
{
    if size.width <= MAX_PACKED_DIMENSION && size.height <= MAX_PACKED_DIMENSION {
        Some(size.width + 65536 * size.height)
    } else {
        None
    }
}

/// Unpacks a push constant into the size that it was packed from.
pub fn unpack_size(word: u32) -> (size: LevelSize)
    ensures
        is_packable(size),
        packed_size(size) == word,
{
    LevelSize { width: word % 65536, height: word / 65536 }
}

/// One command for the compute queue.
#[derive(Clone, Copy, Debug, PartialEq, Eq, Structural)]
pub enum Command {
    /// Run the kernel under `entry_point` on a grid of `groups_x` by
    /// `groups_y` thread blocks, bound to the binding set at index
    /// `binding_set`, with `push_constant` as its push constant.
    Dispatch { entry_point: EntryPoint, binding_set: usize, groups_x: u32, groups_y: u32, push_constant: u32 },
    /// Make what was written to the image of level `level` visible to the
    /// dispatches that follow.
    Barrier { level: usize },
}

/// Whether the kernels that the pipeline describes can be run. That is for
/// the compiler to say, so it comes from outside.
#[derive(Clone, Copy, Debug, PartialEq, Eq, Structural)]
pub enum PipelineStatus {
    Ready,
    Unavailable,
}

/// Whether the kernels can be run, from what the compiler says of each: the
/// first kernel must be compiled, and the second too where the strategy has
/// one. `second_ready` is `None` where it has none.
pub fn pipeline_status(first_ready: bool, second_ready: Option<bool>) -> (r: PipelineStatus)
    ensures
        r == PipelineStatus::Ready <==> first_ready && second_ready != Some(false),
        r == PipelineStatus::Unavailable <==> !(first_ready && second_ready != Some(false)),
{
    let second_missing = match second_ready {
        Some(ready) => !ready,
        None => false,
    };
    if first_ready && !second_missing {
        PipelineStatus::Ready
    } else {
        PipelineStatus::Unavailable
    }
}

/// The index of the level whose size a step's grid covers.
pub open spec fn target_level(strategy: Strategy, step: int) -> int {
    match strategy {
        Strategy::Aggregated => 0,
        Strategy::Iterative => step + 1,
    }
}

/// The kernel that a step runs: the first kernel reads the depth source, and
/// only step 0 does that.
pub open spec fn step_entry_point(step: int) -> EntryPoint {
    if step == 0 {
        EntryPoint::DownsampleDepthFirst
    } else {
        EntryPoint::DownsampleDepthSecond
    }
}

/// The dispatch of step `step`.
pub open spec fn dispatch_of(strategy: Strategy, sizes: Seq<LevelSize>, step: int) -> Command {
    let target = sizes[target_level(strategy, step)];
    let block = block_size_spec(strategy);
    Command::Dispatch {
        entry_point: step_entry_point(step),
        binding_set: step as usize,
        groups_x: group_count_spec(target.width as int, block.x as int) as u32,
        groups_y: group_count_spec(target.height as int, block.y as int) as u32,
        push_constant: packed_size(target) as u32,
    }
}

/// The grid of every step covers the level that the step produces from edge
/// to edge, and is the smallest grid that does, along either axis.
pub proof fn lemma_dispatch_grid_covers(strategy: Strategy, sizes: Seq<LevelSize>, step: int)
    requires
        sizes.len() >= 1,
        0 <= step < step_count(strategy, sizes.len() as int),
    ensures
        ({
            let command = dispatch_of(strategy, sizes, step);
            let target = sizes[target_level(strategy, step)];
            let block = block_size_spec(strategy);
            &&& command->groups_x * block.x >= target.width
            &&& (command->groups_x - 1) * block.x < target.width
            &&& command->groups_y * block.y >= target.height
            &&& (command->groups_y - 1) * block.y < target.height
        }),
{
    let target = sizes[target_level(strategy, step)];
    let block = block_size_spec(strategy);
    lemma_group_count_covers(target.width as int, block.x as int);
    lemma_group_count_covers(target.height as int, block.y as int);
}

/// Command `i` of a view's commands: dispatches at the even places,
/// barriers between them.
pub open spec fn command_at(strategy: Strategy, sizes: Seq<LevelSize>, i: int) -> Command {
    if i % 2 == 0 {
        dispatch_of(strategy, sizes, i / 2)
    } else {
        Command::Barrier { level: ((i + 1) / 2) as usize }
    }
}

/// The number of commands for `steps` steps: a dispatch each, and a barrier
/// between any two.
pub open spec fn command_count(steps: int) -> int {
    if steps <= 0 {
        0
    } else {
        2 * steps - 1
    }
}

/// The commands of a pyramid with levels of these sizes.
pub open spec fn schedule(strategy: Strategy, sizes: Seq<LevelSize>) -> Seq<Command> {
    Seq::new(
        command_count(step_count(strategy, sizes.len() as int)) as nat,
        |i: int| command_at(strategy, sizes, i),
    )
}

/// Whether commands can be issued: the kernels are ready, the pyramid has a
/// level, there is one binding set per step, and the size that each step's
/// grid covers fits the push constant.
pub open spec fn can_dispatch(
    strategy: Strategy,
    status: PipelineStatus,
    set_count: int,
    sizes: Seq<LevelSize>,
) -> bool {
    &&& status == PipelineStatus::Ready
    &&& sizes.len() >= 1
    &&& set_count == step_count(strategy, sizes.len() as int)
    &&& forall|step: int|
        0 <= step < step_count(strategy, sizes.len() as int) ==> is_packable(
            #[trigger] sizes[target_level(strategy, step)],
        )
}

/// What `dispatch` issues.
pub open spec fn dispatch_spec(
    strategy: Strategy,
    status: PipelineStatus,
    set_count: int,
    sizes: Seq<LevelSize>,
) -> Seq<Command> {
    if can_dispatch(strategy, status, set_count, sizes) {
        schedule(strategy, sizes)
    } else {
        Seq::empty()
    }
}

/// Whether commands can be issued for a view.
pub fn is_dispatchable(
    strategy: Strategy,
    status: PipelineStatus,
    set_count: usize,
    level_sizes: &Vec<LevelSize>,
) -> (r: bool)
    ensures
        r == can_dispatch(strategy, status, set_count as int, level_sizes@),
{
    if status != PipelineStatus::Ready || level_sizes.len() < 1 {
        return false;
    }
    let steps: usize = match strategy {
        Strategy::Aggregated => 1,
        Strategy::Iterative => level_sizes.len() - 1,
    };
    if set_count != steps {
        return false;
    }
    let mut step: usize = 0;
    while step < steps
        invariant
            step <= steps,
            level_sizes@.len() >= 1,
            steps == step_count(strategy, level_sizes@.len() as int),
            forall|s: int|
                0 <= s < step ==> is_packable(
                    #[trigger] level_sizes@[target_level(strategy, s)],
                ),
        decreases steps - step,
    {
        let target: usize = match strategy {
            Strategy::Aggregated => 0,
            Strategy::Iterative => step + 1,
        };
        let size = level_sizes[target];
        if size.width > MAX_PACKED_DIMENSION || size.height > MAX_PACKED_DIMENSION {
            assert(!is_packable(level_sizes@[target_level(strategy, step as int)]));
            return false;
        }
        step = step + 1;
    }
    true
}

/// Issues the commands that build one view's pyramid.
///
/// `binding_sets` are the view's binding sets, one per step, and
/// `level_sizes` the sizes of the levels of its pyramid. Where
/// `can_dispatch` does not hold, nothing is issued.
pub fn dispatch(
    pipeline: &HiZPrepassPipeline,
    status: PipelineStatus,
    binding_sets: &Vec<BindingSet>,
    level_sizes: &Vec<LevelSize>,
) -> (commands: Vec<Command>)
    ensures
        commands@ == dispatch_spec(
            pipeline.spec_strategy(),
            status,
            binding_sets@.len() as int,
            level_sizes@,
        ),
{
    let strategy = pipeline.strategy();
    let mut commands: Vec<Command> = Vec::new();
    if !is_dispatchable(strategy, status, binding_sets.len(), level_sizes) {
        assert(commands@ =~= Seq::<Command>::empty());
        return commands;
    }
    let block: BlockSize = pipeline.block();
    let steps: usize = binding_sets.len();
    let mut step: usize = 0;
    while step < steps
        invariant
            step <= steps,
            strategy == pipeline.spec_strategy(),
            block == block_size_spec(strategy),
            can_dispatch(strategy, status, steps as int, level_sizes@),
            commands@.len() == command_count(step as int),
            forall|i: int|
                0 <= i < commands@.len() ==> #[trigger] commands@[i] == command_at(
                    strategy,
                    level_sizes@,
                    i,
                ),
        decreases steps - step,
    {
        if step > 0 {
            commands.push(Command::Barrier { level: step });
        }
        let target_index: usize = match strategy {
            Strategy::Aggregated => 0,
            Strategy::Iterative => step + 1,
        };
        let target = level_sizes[target_index];
        assert(is_packable(level_sizes@[target_level(strategy, step as int)]));
        let entry_point = if step == 0 {
            EntryPoint::DownsampleDepthFirst
        } else {
            EntryPoint::DownsampleDepthSecond
        };
        commands.push(
            Command::Dispatch {
                entry_point,
                binding_set: step,
                groups_x: group_count(target.width, block.x),
                groups_y: group_count(target.height, block.y),
                push_constant: target.width + 65536 * target.height,
            },
        );
        step = step + 1;
    }
    assert(commands@ =~= schedule(strategy, level_sizes@));
    commands
}

} // verus!
