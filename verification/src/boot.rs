//! The boot pipeline.
//!
//! A boot sequence is an ordered list of stages. Each stage runs against a
//! shared [`BootContext`] and may fail, which aborts the sequence.

use vstd::prelude::*;

use crate::arch::Architecture;

verus! {

/// The error a boot stage returns.
#[derive(Debug, Clone, Copy, PartialEq, Eq)]
pub enum BootError {
    /// A fatal error with a short, static description.
    Fatal(&'static str),
}

/// The progress of a boot sequence.
#[derive(Debug, Clone, Copy, PartialEq, Eq, Structural)]
pub enum BootState {
    /// Boot has not begun.
    NotStarted,
    /// The stage at `current_stage` is running.
    Running { current_stage: usize },
    /// Boot completed after running `stages_run` stages.
    Completed { stages_run: usize },
    /// Boot failed at the stage at `failed_stage`.
    Failed { failed_stage: usize },
}

/// The context that every boot stage runs against: the architecture, which
/// stages may use but not replace, and the state of the boot.
pub struct BootContext<'a, A: Architecture> {
    arch: &'a mut A,
    state: BootState,
}

impl<'a, A: Architecture> BootContext<'a, A> {
    /// The current boot state.
    pub closed spec fn current_state(&self) -> BootState {
        self.state
    }

    /// The borrow of the architecture that the context holds.
    pub closed spec fn arch_ref(&self) -> &'a mut A {
        self.arch
    }

    /// The architecture the context wraps, as it is now.
    pub open spec fn arch_value(&self) -> A {
        *self.arch_ref()
    }

    /// Creates a context around `arch`, before any stage has run.
    pub fn new(arch: &'a mut A) -> (ctx: Self)
        ensures
            ctx.current_state() == BootState::NotStarted,
            *ctx.arch_ref() == *old(arch),
            *final(ctx.arch_ref()) == *final(arch),
    {
        BootContext { arch, state: BootState::NotStarted }
    }

    /// The architecture, for stages to use its timer, interrupt controller
    /// and address translator. What is written through it reaches the
    /// caller's architecture once the context ends (see
    /// [`BootContext::released_context_hands_back`]).
    pub fn arch(&mut self) -> (arch: &mut A)
        ensures
            *arch == old(self).arch_value(),
            final(self).arch_value() == *final(arch),
            *final(final(self).arch_ref()) == *final(old(self).arch_ref()),
            final(self).current_state() == old(self).current_state(),
    {
        self.arch
    }

    /// The current boot state.
    pub fn state(&self) -> (state: BootState)
        ensures
            state == self.current_state(),
    {
        self.state
    }

    fn set_state(&mut self, state: BootState)
        ensures
            final(self).current_state() == state,
            final(self).arch_ref() == old(self).arch_ref(),
    {
        self.state = state;
    }

    /// Once a context is done with, the architecture it wrapped is, for its
    /// owner, what the context last held.
    pub broadcast proof fn released_context_hands_back(ctx: Self)
        requires
            #[trigger] has_resolved(ctx),
        ensures
            ctx.arch_value() == *final(ctx.arch_ref()),
    {
    }

    /// Records what the stage at `index` returned: an error marks the boot
    /// as failed at that stage, success leaves the state as it is. The
    /// outcome is handed back unchanged.
    fn record_stage_result(&mut self, index: usize, outcome: Result<(), BootError>) -> (r:
        Result<(), BootError>)
        ensures
            r == outcome,
            final(self).current_state() == (match outcome {
                Ok(()) => old(self).current_state(),
                Err(_) => BootState::Failed { failed_stage: index },
            }),
            final(self).arch_ref() == old(self).arch_ref(),
    {
        if outcome.is_err() {
            self.set_state(BootState::Failed { failed_stage: index });
        }
        outcome
    }
}

/// One stage of a boot pipeline.
pub trait BootStage<A: Architecture> {
    /// A short, human-readable name for the stage.
    fn name(&self) -> &'static str;

    /// Whether running the stage while the boot is in `state`, with the
    /// architecture at `before`, may leave the architecture at `after` and
    /// return `r`. Unless an implementation says more, every outcome may
    /// come; only an implementation verified with Verus can say more.
    open spec fn run_allows(&self, state: BootState, before: A, after: A, r: Result<(), BootError>) -> bool {
        true
    }

    /// Runs the stage. The context goes on wrapping the same architecture.
    fn run(&self, ctx: &mut BootContext<'_, A>) -> (r: Result<(), BootError>)
        ensures
            self.run_allows(old(ctx).current_state(), old(ctx).arch_value(), final(ctx).arch_value(), r),
            *final(final(ctx).arch_ref()) == *final(old(ctx).arch_ref()),
    ;
}

/// The stages before `k` ran in order on the architecture states `archs`:
/// stage `i` ran while the boot reported it running, took the architecture
/// from `archs[i]` to `archs[i + 1]` and succeeded.
pub open spec fn stages_succeeded<A: Architecture>(
    stages: Seq<&dyn BootStage<A>>,
    archs: Seq<A>,
    k: int,
) -> bool {
    forall|i: int| 0 <= i < k ==> #[trigger] stage_ran(stages, archs, i, Ok(()))
}

/// Stage `i` ran while the boot reported it running, took the architecture
/// from `archs[i]` to `archs[i + 1]` and returned `r`.
pub open spec fn stage_ran<A: Architecture>(
    stages: Seq<&dyn BootStage<A>>,
    archs: Seq<A>,
    i: int,
    r: Result<(), BootError>,
) -> bool {
    stages[i].run_allows(BootState::Running { current_stage: i as usize }, archs[i], archs[i + 1], r)
}

/// `r`, with the architecture going from `before` to `after`, is what
/// running `stages` in order can give, stopping at the first failure:
/// - `Ok`: every stage ran and succeeded, one after the other on the
///   architecture, and the boot completed over all of them;
/// - `Err(e)`: the stages before some stage `k` ran and succeeded, stage `k`
///   ran and returned `e`, and no later stage ran.
/// Each stage ran while the boot state reported it running at its index.
pub open spec fn is_boot_run<A: Architecture>(
    stages: Seq<&dyn BootStage<A>>,
    before: A,
    after: A,
    r: Result<BootState, BootError>,
) -> bool {
    match r {
        Ok(state) => {
            &&& state == BootState::Completed { stages_run: stages.len() as usize }
            &&& exists|archs: Seq<A>|
                #![trigger stages_succeeded(stages, archs, stages.len() as int)]
                {
                    &&& archs.len() == stages.len() + 1
                    &&& archs[0] == before
                    &&& archs[stages.len() as int] == after
                    &&& stages_succeeded(stages, archs, stages.len() as int)
                }
        },
        Err(err) => exists|k: int, archs: Seq<A>|
            #![trigger stages_succeeded(stages, archs, k)]
            {
                &&& 0 <= k < stages.len()
                &&& archs.len() == k + 2
                &&& archs[0] == before
                &&& archs[k + 1] == after
                &&& stages_succeeded(stages, archs, k)
                &&& stage_ran(stages, archs, k, Err(err))
            },
    }
}

/// Runs the boot stages in order against a context around `arch`.
///
/// Each stage runs while the state is `Running` at its index. The first
/// stage to fail marks the boot as failed at its index, and its error is
/// returned without running the later stages. Otherwise the boot completes
/// with `Completed` over all the stages. The architecture changes only
/// through the stages.
pub fn run_boot_sequence<A: Architecture>(arch: &mut A, stages: &[&dyn BootStage<A>]) -> (r:
    Result<BootState, BootError>)
    ensures
        is_boot_run(stages@, *old(arch), *final(arch), r),
{
    let ghost start = *arch;
    let ghost end = *final(arch);
    let mut ctx = BootContext::new(arch);
    let ghost borrowed = ctx.arch_ref();
    let ghost mut archs: Seq<A> = seq![start];
    let mut index: usize = 0;
    #[verifier::loop_isolation(false)]
    while index < stages.len()
        invariant
            index <= stages@.len(),
            archs.len() == index + 1,
            archs[0] == start,
            start == *old(arch),
            *final(borrowed) == end,
            archs[index as int] == ctx.arch_value(),
            *final(ctx.arch_ref()) == *final(borrowed),
            stages_succeeded(stages@, archs, index as int),
        decreases stages@.len() - index,
    {
        ctx.set_state(BootState::Running { current_stage: index });
        let stage = stages[index];
        let outcome = stage.run(&mut ctx);
        let ghost earlier = archs;
        proof {
            archs = archs.push(ctx.arch_value());
            assert forall|i: int| 0 <= i < index implies #[trigger] stage_ran(stages@, archs, i, Ok(())) by {
                assert(archs[i] == earlier[i] && archs[i + 1] == earlier[i + 1]);
                assert(stage_ran(stages@, earlier, i, Ok(())));
            }
        }
        match ctx.record_stage_result(index, outcome) {
            Ok(()) => {
                assert(outcome->Ok_0 == ());
                assert(stage_ran(stages@, archs, index as int, Ok(())));
                assert(stages_succeeded(stages@, archs, index + 1));
            },
            Err(err) => {
                assert(stage_ran(stages@, archs, index as int, Err(err)));
                assert(stages_succeeded(stages@, archs, index as int));
                return Err(err);
            },
        }
        index = index + 1;
    }
    ctx.set_state(BootState::Completed { stages_run: stages.len() });
    Ok(ctx.state())
}

/// A boot sequence with no stages completes at once, having run none, and
/// leaves the architecture as it was.
pub proof fn empty_boot_completes<A: Architecture>(before: A, after: A, r: Result<BootState, BootError>)
    requires
        is_boot_run(Seq::<&dyn BootStage<A>>::empty(), before, after, r),
    ensures
        r == Ok::<BootState, BootError>(BootState::Completed { stages_run: 0 }),
        after == before,
{
}

/// Stage `i` of `stages` is deterministic: run in a given state on a
/// given architecture it can give only one outcome.
pub open spec fn is_deterministic<A: Architecture>(stages: Seq<&dyn BootStage<A>>, i: int) -> bool {
    forall|
        state: BootState,
        before: A,
        after1: A,
        r1: Result<(), BootError>,
        after2: A,
        r2: Result<(), BootError>,
    |
        #![trigger stages[i].run_allows(state, before, after1, r1), stages[i].run_allows(state, before, after2, r2)]
        stages[i].run_allows(state, before, after1, r1) && stages[i].run_allows(
            state,
            before,
            after2,
            r2,
        ) ==> after1 == after2 && r1 == r2
}

/// The first `m` stages of `s` and `t` are the same deterministic stages.
pub open spec fn same_deterministic_prefix<A: Architecture>(
    s: Seq<&dyn BootStage<A>>,
    t: Seq<&dyn BootStage<A>>,
    m: int,
) -> bool {
    &&& m <= s.len()
    &&& m <= t.len()
    &&& forall|i: int| #![trigger s[i]] 0 <= i < m ==> s[i] == t[i] && is_deterministic(s, i)
}

/// Two chains of successful runs of the same deterministic stages from the
/// same architecture pass through the same architecture states.
proof fn successful_chains_agree<A: Architecture>(
    s: Seq<&dyn BootStage<A>>,
    t: Seq<&dyn BootStage<A>>,
    archs1: Seq<A>,
    archs2: Seq<A>,
    m: int,
)
    requires
        0 <= m,
        same_deterministic_prefix(s, t, m),
        archs1.len() > m,
        archs2.len() > m,
        archs1[0] == archs2[0],
        stages_succeeded(s, archs1, m),
        stages_succeeded(t, archs2, m),
    ensures
        forall|i: int| 0 <= i <= m ==> #[trigger] archs1[i] == archs2[i],
    decreases m,
{
    if m > 0 {
        successful_chains_agree(s, t, archs1, archs2, m - 1);
        let j = m - 1;
        assert(stage_ran(s, archs1, j, Ok(())));
        assert(stage_ran(t, archs2, j, Ok(())));
        assert(s[j] == t[j] && is_deterministic(s, j));
        assert(archs1[j] == archs2[j]);
        assert(archs1[j + 1] == archs2[j + 1]);
        assert forall|i: int| 0 <= i <= m implies #[trigger] archs1[i] == archs2[i] by {
            if i < m {
                assert(archs1[i] == archs2[i]);
            }
        }
    }
}

/// A failed run decides every run that starts with the same deterministic
/// stages from the same architecture: if running `s` fails with `e`, then
/// running `t`, which begins with all the stages of `s`, fails with the same
/// error at the same stage, leaving the architecture as the run of `s` left
/// it, and no later stage of `t` runs.
pub proof fn failure_decides_longer_runs<A: Architecture>(
    s: Seq<&dyn BootStage<A>>,
    t: Seq<&dyn BootStage<A>>,
    before: A,
    after1: A,
    r1: Result<BootState, BootError>,
    after2: A,
    r2: Result<BootState, BootError>,
)
    requires
        same_deterministic_prefix(s, t, s.len() as int),
        is_boot_run(s, before, after1, r1),
        is_boot_run(t, before, after2, r2),
        r1 is Err,
    ensures
        r2 == r1,
        after2 == after1,
{
    let e1 = r1->Err_0;
    let (k1, archs1) = choose|k: int, archs: Seq<A>|
        #![trigger stages_succeeded(s, archs, k)]
        {
            &&& 0 <= k < s.len()
            &&& archs.len() == k + 2
            &&& archs[0] == before
            &&& archs[k + 1] == after1
            &&& stages_succeeded(s, archs, k)
            &&& stage_ran(s, archs, k, Err(e1))
        };
    assert(s[k1] == t[k1] && is_deterministic(s, k1));
    match r2 {
        Ok(_) => {
            let archs2 = choose|archs: Seq<A>|
                #![trigger stages_succeeded(t, archs, t.len() as int)]
                {
                    &&& archs.len() == t.len() + 1
                    &&& archs[0] == before
                    &&& archs[t.len() as int] == after2
                    &&& stages_succeeded(t, archs, t.len() as int)
                };
            assert(stages_succeeded(t, archs2, k1));
            successful_chains_agree(s, t, archs1, archs2, k1);
            assert(stage_ran(t, archs2, k1, Ok(())));
            assert(false);
        },
        Err(e2) => {
            let (k2, archs2) = choose|k: int, archs: Seq<A>|
                #![trigger stages_succeeded(t, archs, k)]
                {
                    &&& 0 <= k < t.len()
                    &&& archs.len() == k + 2
                    &&& archs[0] == before
                    &&& archs[k + 1] == after2
                    &&& stages_succeeded(t, archs, k)
                    &&& stage_ran(t, archs, k, Err(e2))
                };
            if k2 < k1 {
                assert(stages_succeeded(s, archs1, k2));
                successful_chains_agree(s, t, archs1, archs2, k2);
                assert(stage_ran(s, archs1, k2, Ok(())));
                assert(s[k2] == t[k2] && is_deterministic(s, k2));
                assert(false);
            } else if k2 > k1 {
                assert(stages_succeeded(t, archs2, k1));
                successful_chains_agree(s, t, archs1, archs2, k1);
                assert(stage_ran(t, archs2, k1, Ok(())));
                assert(false);
            } else {
                successful_chains_agree(s, t, archs1, archs2, k1);
                assert(stage_ran(t, archs2, k1, Err(e2)));
            }
        },
    }
}

/// Runs of the same deterministic stages from the same architecture give
/// the same result and leave the same architecture.
pub proof fn deterministic_runs_agree<A: Architecture>(
    stages: Seq<&dyn BootStage<A>>,
    before: A,
    after1: A,
    r1: Result<BootState, BootError>,
    after2: A,
    r2: Result<BootState, BootError>,
)
    requires
        same_deterministic_prefix(stages, stages, stages.len() as int),
        is_boot_run(stages, before, after1, r1),
        is_boot_run(stages, before, after2, r2),
    ensures
        r2 == r1,
        after2 == after1,
{
    if r1 is Err {
        failure_decides_longer_runs(stages, stages, before, after1, r1, after2, r2);
    } else if r2 is Err {
        failure_decides_longer_runs(stages, stages, before, after2, r2, after1, r1);
    } else {
        let n = stages.len() as int;
        let archs1 = choose|archs: Seq<A>|
            #![trigger stages_succeeded(stages, archs, n)]
            {
                &&& archs.len() == n + 1
                &&& archs[0] == before
                &&& archs[n] == after1
                &&& stages_succeeded(stages, archs, n)
            };
        let archs2 = choose|archs: Seq<A>|
            #![trigger stages_succeeded(stages, archs, n)]
            {
                &&& archs.len() == n + 1
                &&& archs[0] == before
                &&& archs[n] == after2
                &&& stages_succeeded(stages, archs, n)
            };
        successful_chains_agree(stages, stages, archs1, archs2, n);
    }
}

} // verus!
