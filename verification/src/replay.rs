//! What a stream of commands leaves in the images of a pyramid.
//!
//! The kernels run on the GPU and are not part of this library. What the
//! library can say is what each image holds after a stream of commands, given
//! that a kernel writes the reduction of what it reads:
//!
//! * the depth source is level 0, and is never written;
//! * a dispatch that reads level `k` as it stands after its write has been
//!   made visible leaves the reduction of level `k` in level `k + 1`;
//! * a dispatch that reads an image whose last write has not been made
//!   visible, or an image that does not hold the reduction of the level above
//!   it, leaves stale data behind;
//! * what a dispatch writes is not visible to later dispatches until a
//!   barrier on the written image has passed.
//!
//! Replaying the commands that `dispatch` issues leaves every level holding
//! its reduction of the source, whatever the images held before. Replaying
//! them with one barrier left out leaves stale data in the level below the
//! one that the barrier stood for.

use vstd::prelude::*;
use crate::dispatch::{
    Command,
    PipelineStatus,
    can_dispatch,
    command_at,
    command_count,
    dispatch_spec,
    schedule,
};
use crate::layout::Strategy;
use crate::planner::LevelSize;

verus! {

/// What an image holds.
#[derive(Clone, Copy, Debug, PartialEq, Eq, Structural)]
pub enum Content {
    /// Anything but what the level should hold for the present source.
    Stale,
    /// The source reduced this many times: what level `k` should hold is
    /// `Reduced(k)`.
    Reduced(usize),
}

/// The state of the image of one level.
#[derive(Clone, Copy, Debug, PartialEq, Eq, Structural)]
pub struct LevelState {
    pub content: Content,
    /// Whether the last write to the image has been made visible to the
    /// dispatches that follow.
    pub visible: bool,
}

/// The state of the depth source: it holds the source, for all to see.
pub open spec fn source_state() -> LevelState {
    LevelState { content: Content::Reduced(0), visible: true }
}

/// The states of the images of a pyramid of `level_count` levels: at least
/// one image, the first of which is the depth source.
pub open spec fn is_pyramid_state(state: Seq<LevelState>, level_count: int) -> bool {
    &&& state.len() == level_count
    &&& level_count >= 1
    &&& state[0] == source_state()
}

/// The images at the start of a frame: nothing has been derived from the
/// frame's source yet.
pub open spec fn fresh_state(level_count: nat) -> Seq<LevelState> {
    Seq::new(
        level_count,
        |k: int|
            if k == 0 {
                source_state()
            } else {
                LevelState { content: Content::Stale, visible: false }
            },
    )
}

/// What a kernel that reads level `level` in state `read` writes.
pub open spec fn derived(read: LevelState, level: int) -> Content {
    if read.visible && read.content == Content::Reduced(level as usize) {
        Content::Reduced((level + 1) as usize)
    } else {
        Content::Stale
    }
}

/// The images after one command.
pub open spec fn apply(strategy: Strategy, state: Seq<LevelState>, command: Command) -> Seq<
    LevelState,
> {
    match command {
        Command::Barrier { level } => {
            if level < state.len() {
                state.update(
                    level as int,
                    LevelState { content: state[level as int].content, visible: true },
                )
            } else {
                state
            }
        },
        Command::Dispatch { binding_set, .. } => {
            match strategy {
                Strategy::Iterative => {
                    if binding_set + 1 < state.len() {
                        state.update(
                            binding_set + 1,
                            LevelState {
                                content: derived(state[binding_set as int], binding_set as int),
                                visible: false,
                            },
                        )
                    } else {
                        state
                    }
                },
                Strategy::Aggregated => {
                    if binding_set == 0 && state.len() >= 1 {
                        Seq::new(
                            state.len(),
                            |k: int|
                                if k == 0 {
                                    state[0]
                                } else {
                                    LevelState {
                                        content: if derived(state[0], 0) == Content::Reduced(1) {
                                            Content::Reduced(k as usize)
                                        } else {
                                            Content::Stale
                                        },
                                        visible: false,
                                    }
                                },
                        )
                    } else {
                        state
                    }
                },
            }
        },
    }
}

/// The images after a stream of commands.
pub open spec fn run(strategy: Strategy, commands: Seq<Command>, state: Seq<LevelState>) -> Seq<
    LevelState,
>
    decreases commands.len(),
{
    if commands.len() == 0 {
        state
    } else {
        apply(strategy, run(strategy, commands.drop_last(), state), commands.last())
    }
}

/// Whether every level holds what it should: level `k` the source reduced
/// `k` times.
pub open spec fn is_complete(state: Seq<LevelState>) -> bool {
    forall|k: int| 0 <= k < state.len() ==> (#[trigger] state[k]).content == Content::Reduced(k as usize)
}

/// The images after the commands of a whole pyramid of `level_count`
/// levels: every level holds its reduction, and every level that a later
/// dispatch reads has been made visible.
pub open spec fn built_state(strategy: Strategy, level_count: nat) -> Seq<LevelState> {
    Seq::new(
        level_count,
        |k: int|
            if k == 0 {
                source_state()
            } else {
                LevelState {
                    content: Content::Reduced(k as usize),
                    visible: strategy == Strategy::Iterative && k < level_count - 1,
                }
            },
    )
}

/// Replays one command on the images.
pub fn replay_command(strategy: Strategy, state: &mut Vec<LevelState>, command: Command)
    ensures
        final(state)@ == apply(strategy, old(state)@, command),
{
    match command {
        Command::Barrier { level } => {
            if level < state.len() {
                let content = state[level].content;
                state.set(level, LevelState { content, visible: true });
            }
        },
        Command::Dispatch { binding_set, .. } => {
            match strategy {
                Strategy::Iterative => {
                    if binding_set < state.len() && binding_set + 1 < state.len() {
                        let read = state[binding_set];
                        let content = match read.content {
                            Content::Reduced(k) => {
                                if read.visible && k == binding_set {
                                    Content::Reduced(binding_set + 1)
                                } else {
                                    Content::Stale
                                }
                            },
                            Content::Stale => Content::Stale,
                        };
                        state.set(binding_set + 1, LevelState { content, visible: false });
                    }
                },
                Strategy::Aggregated => {
                    if binding_set == 0 && state.len() >= 1 {
                        let read = state[0];
                        let good = match read.content {
                            Content::Reduced(k) => read.visible && k == 0,
                            Content::Stale => false,
                        };
                        let ghost before = state@;
                        let mut k: usize = 1;
                        while k < state.len()
                            invariant
                                1 <= k <= state.len(),
                                state@.len() == before.len(),
                                good == (derived(before[0], 0) == Content::Reduced(1)),
                                forall|j: int|
                                    0 <= j < k ==> #[trigger] state@[j] == apply(
                                        strategy,
                                        before,
                                        command,
                                    )[j],
                                forall|j: int|
                                    k <= j < state@.len() ==> #[trigger] state@[j] == before[j],
                                strategy == Strategy::Aggregated,
                                command == (Command::Dispatch {
                                    entry_point: command->entry_point,
                                    binding_set: 0,
                                    groups_x: command->groups_x,
                                    groups_y: command->groups_y,
                                    push_constant: command->push_constant,
                                }),
                            decreases state.len() - k,
                        {
                            let content = if good {
                                Content::Reduced(k)
                            } else {
                                Content::Stale
                            };
                            state.set(k, LevelState { content, visible: false });
                            k = k + 1;
                        }
                        assert(state@ =~= apply(strategy, before, command));
                    }
                },
            }
        },
    }
}

/// Replays a stream of commands on the images of a pyramid of `level_count`
/// levels as they are at the start of a frame.
pub fn replay(strategy: Strategy, level_count: usize, commands: &Vec<Command>) -> (state: Vec<
    LevelState,
>)
    ensures
        state@ == run(strategy, commands@, fresh_state(level_count as nat)),
{
    let mut state: Vec<LevelState> = Vec::new();
    let mut k: usize = 0;
    while k < level_count
        invariant
            k <= level_count,
            state@.len() == k,
            forall|j: int| 0 <= j < k ==> #[trigger] state@[j] == fresh_state(level_count as nat)[j],
        decreases level_count - k,
    {
        if k == 0 {
            state.push(LevelState { content: Content::Reduced(0), visible: true });
        } else {
            state.push(LevelState { content: Content::Stale, visible: false });
        }
        k = k + 1;
    }
    assert(state@ =~= fresh_state(level_count as nat));
    let mut i: usize = 0;
    while i < commands.len()
        invariant
            i <= commands.len(),
            state@ == run(strategy, commands@.take(i as int), fresh_state(level_count as nat)),
        decreases commands.len() - i,
    {
        proof {
            assert(commands@.take(i + 1).drop_last() =~= commands@.take(i as int));
            assert(commands@.take(i + 1).last() == commands@[i as int]);
        }
        replay_command(strategy, &mut state, commands[i]);
        i = i + 1;
    }
    proof {
        assert(commands@.take(i as int) =~= commands@);
    }
    state
}

/// Whether every level holds what it should.
pub fn check_complete(state: &Vec<LevelState>) -> (r: bool)
    ensures
        r == is_complete(state@),
{
    let mut k: usize = 0;
    while k < state.len()
        invariant
            k <= state.len(),
            forall|j: int| 0 <= j < k ==> (#[trigger] state@[j]).content == Content::Reduced(j as usize),
        decreases state.len() - k,
    {
        match state[k].content {
            Content::Reduced(n) => {
                if n != k {
                    return false;
                }
            },
            Content::Stale => {
                return false;
            },
        }
        k = k + 1;
    }
    true
}

/// Running one more command is applying it to what the others left.
pub proof fn lemma_run_push(
    strategy: Strategy,
    commands: Seq<Command>,
    command: Command,
    state: Seq<LevelState>,
)
    ensures
        run(strategy, commands.push(command), state) == apply(
            strategy,
            run(strategy, commands, state),
            command,
        ),
{
    assert(commands.push(command).drop_last() =~= commands);
}

/// No command adds or removes an image.
pub proof fn lemma_run_len(strategy: Strategy, commands: Seq<Command>, state: Seq<LevelState>)
    ensures
        run(strategy, commands, state).len() == state.len(),
    decreases commands.len(),
{
    if commands.len() > 0 {
        lemma_run_len(strategy, commands.drop_last(), state);
    }
}

/// The images of an iterative pyramid after its first `steps` steps: the
/// levels down to `steps` hold their reductions, all but the last of them
/// visibly, and the levels below are as they were.
pub open spec fn after_steps(state: Seq<LevelState>, steps: int) -> Seq<LevelState> {
    Seq::new(
        state.len(),
        |k: int|
            if k == 0 {
                source_state()
            } else if k <= steps {
                LevelState { content: Content::Reduced(k as usize), visible: k < steps }
            } else {
                state[k]
            },
    )
}

/// The first `steps` steps of an iterative pyramid leave `after_steps`.
pub proof fn lemma_iterative_prefix(sizes: Seq<LevelSize>, state: Seq<LevelState>, steps: int)
    requires
        is_pyramid_state(state, sizes.len() as int),
        sizes.len() <= usize::MAX,
        0 <= steps <= sizes.len() - 1,
    ensures
        run(
            Strategy::Iterative,
            schedule(Strategy::Iterative, sizes).take(command_count(steps)),
            state,
        ) == after_steps(state, steps),
    decreases steps,
{
    let all = schedule(Strategy::Iterative, sizes);
    if steps == 0 {
        assert(all.take(0) =~= Seq::<Command>::empty());
        assert(state =~= after_steps(state, 0));
    } else {
        lemma_iterative_prefix(sizes, state, steps - 1);
        let before = all.take(command_count(steps - 1));
        let reached = after_steps(state, steps - 1);
        let step = all[2 * steps - 2];
        assert(step == command_at(Strategy::Iterative, sizes, 2 * steps - 2));
        assert(step->binding_set == steps - 1);
        if steps == 1 {
            assert(all.take(1) =~= before.push(step));
            lemma_run_push(Strategy::Iterative, before, step, state);
            assert(apply(Strategy::Iterative, reached, step) =~= after_steps(state, 1));
        } else {
            let barrier = all[2 * steps - 3];
            assert(barrier == command_at(Strategy::Iterative, sizes, 2 * steps - 3));
            assert(barrier == Command::Barrier { level: (steps - 1) as usize });
            assert(all.take(command_count(steps)) =~= before.push(barrier).push(step));
            lemma_run_push(Strategy::Iterative, before, barrier, state);
            lemma_run_push(Strategy::Iterative, before.push(barrier), step, state);
            let shown = apply(Strategy::Iterative, reached, barrier);
            assert(shown[steps - 1] == LevelState {
                content: Content::Reduced((steps - 1) as usize),
                visible: true,
            });
            assert(apply(Strategy::Iterative, shown, step) =~= after_steps(state, steps));
        }
    }
}

/// The commands of a pyramid build it: after them every level holds its
/// reduction of the source, whatever the images held before.
pub proof fn lemma_schedule_builds(
    strategy: Strategy,
    sizes: Seq<LevelSize>,
    state: Seq<LevelState>,
)
    requires
        is_pyramid_state(state, sizes.len() as int),
        sizes.len() <= usize::MAX,
    ensures
        run(strategy, schedule(strategy, sizes), state) == built_state(strategy, sizes.len()),
        is_complete(run(strategy, schedule(strategy, sizes), state)),
{
    let all = schedule(strategy, sizes);
    match strategy {
        Strategy::Iterative => {
            lemma_iterative_prefix(sizes, state, sizes.len() - 1);
            assert(all.take(all.len() as int) =~= all);
            assert(after_steps(state, sizes.len() - 1) =~= built_state(strategy, sizes.len()));
        },
        Strategy::Aggregated => {
            let only = all[0];
            assert(only == command_at(strategy, sizes, 0));
            assert(all =~= Seq::<Command>::empty().push(only));
            lemma_run_push(strategy, Seq::<Command>::empty(), only, state);
            assert(apply(strategy, state, only) =~= built_state(strategy, sizes.len()));
        },
    }
}

/// What `dispatch` issues for a view that it serves builds the view's
/// pyramid.
pub proof fn lemma_dispatch_builds(
    strategy: Strategy,
    status: PipelineStatus,
    set_count: int,
    sizes: Seq<LevelSize>,
    state: Seq<LevelState>,
)
    requires
        can_dispatch(strategy, status, set_count, sizes),
        is_pyramid_state(state, sizes.len() as int),
        sizes.len() <= usize::MAX,
    ensures
        run(strategy, dispatch_spec(strategy, status, set_count, sizes), state) == built_state(
            strategy,
            sizes.len(),
        ),
        is_complete(run(strategy, dispatch_spec(strategy, status, set_count, sizes), state)),
{
    lemma_schedule_builds(strategy, sizes, state);
}

/// Building a pyramid again over the same source changes nothing: the
/// commands leave the images as they found them after the first time.
pub proof fn lemma_rebuild_is_identical(
    strategy: Strategy,
    sizes: Seq<LevelSize>,
    state: Seq<LevelState>,
)
    requires
        is_pyramid_state(state, sizes.len() as int),
        sizes.len() <= usize::MAX,
    ensures
        run(
            strategy,
            schedule(strategy, sizes),
            run(strategy, schedule(strategy, sizes), state),
        ) == run(strategy, schedule(strategy, sizes), state),
{
    lemma_schedule_builds(strategy, sizes, state);
    lemma_schedule_builds(strategy, sizes, built_state(strategy, sizes.len()));
}

/// The commands of an iterative pyramid with the barrier at place
/// `barrier` left out.
pub open spec fn without_barrier(sizes: Seq<LevelSize>, barrier: int) -> Seq<Command> {
    schedule(Strategy::Iterative, sizes).remove(barrier)
}

/// Once the dispatch that follows a missing barrier has left stale data in a
/// level, the commands after it do not mend it.
proof fn lemma_stale_stays(sizes: Seq<LevelSize>, state: Seq<LevelState>, barrier: int, upto: int)
    requires
        is_pyramid_state(state, sizes.len() as int),
        sizes.len() <= usize::MAX,
        0 < barrier < schedule(Strategy::Iterative, sizes).len(),
        barrier % 2 == 1,
        barrier + 1 <= upto <= without_barrier(sizes, barrier).len(),
    ensures
        run(Strategy::Iterative, without_barrier(sizes, barrier).take(upto), state)[(barrier + 1)
            / 2 + 1].content == Content::Stale,
        run(Strategy::Iterative, without_barrier(sizes, barrier).take(upto), state).len()
            == sizes.len(),
    decreases upto,
{
    let all = schedule(Strategy::Iterative, sizes);
    let cut = without_barrier(sizes, barrier);
    let guarded = (barrier + 1) / 2;
    let before = cut.take(upto - 1);
    let last = cut[upto - 1];
    all.remove_ensures(barrier);
    assert(last == all[upto]);
    assert(last == command_at(Strategy::Iterative, sizes, upto));
    assert(cut.take(upto) =~= before.push(last));
    lemma_run_push(Strategy::Iterative, before, last, state);
    lemma_run_len(Strategy::Iterative, before, state);
    if upto == barrier + 1 {
        assert(before =~= all.take(command_count(guarded)));
        lemma_iterative_prefix(sizes, state, guarded);
        assert(last->binding_set == guarded);
        assert(!after_steps(state, guarded)[guarded].visible);
    } else {
        lemma_stale_stays(sizes, state, barrier, upto - 1);
    }
}

/// The barriers carry the pyramid: with any one of them left out, the
/// dispatch after it reads a level whose write is not visible yet, and the
/// level that it writes is left stale. The replay shows it.
pub proof fn lemma_missing_barrier_is_detected(
    sizes: Seq<LevelSize>,
    state: Seq<LevelState>,
    barrier: int,
)
    requires
        is_pyramid_state(state, sizes.len() as int),
        sizes.len() <= usize::MAX,
        0 <= barrier < schedule(Strategy::Iterative, sizes).len(),
        schedule(Strategy::Iterative, sizes)[barrier] is Barrier,
    ensures
        run(Strategy::Iterative, without_barrier(sizes, barrier), state)[(barrier + 1) / 2
            + 1].content == Content::Stale,
        !is_complete(run(Strategy::Iterative, without_barrier(sizes, barrier), state)),
{
    let all = schedule(Strategy::Iterative, sizes);
    let cut = without_barrier(sizes, barrier);
    assert(all[barrier] == command_at(Strategy::Iterative, sizes, barrier));
    all.remove_ensures(barrier);
    lemma_stale_stays(sizes, state, barrier, cut.len() as int);
    assert(cut.take(cut.len() as int) =~= cut);
    let left = run(Strategy::Iterative, cut, state);
    assert(left[(barrier + 1) / 2 + 1].content != Content::Reduced(((barrier + 1) / 2 + 1) as usize));
}

} // verus!
