use os_kernel_foundry::arch::{
    Architecture, MockAddressTranslator, MockInterruptController, MockTimer, Timer,
};
use os_kernel_foundry::boot::{run_boot_sequence, BootContext, BootError, BootStage, BootState};
use std::cell::RefCell;

#[derive(Debug)]
struct TestArch {
    timer: MockTimer,
    ic: MockInterruptController,
    translator: MockAddressTranslator,
}

impl TestArch {
    fn new() -> Self {
        Self {
            timer: MockTimer::new(),
            ic: MockInterruptController::default(),
            translator: MockAddressTranslator::new(),
        }
    }
}

impl Architecture for TestArch {
    type Timer = MockTimer;
    type InterruptController = MockInterruptController;
    type AddressTranslator = MockAddressTranslator;

    fn timer(&self) -> &Self::Timer {
        &self.timer
    }

    fn interrupt_controller(&mut self) -> &mut Self::InterruptController {
        &mut self.ic
    }

    fn address_translator(&self) -> &Self::AddressTranslator {
        &self.translator
    }
}

struct TickStage;

impl<A> BootStage<A> for TickStage
where
    A: Architecture,
    A::Timer: Timer<Tick = u64>,
{
    fn name(&self) -> &'static str {
        "tick"
    }

    fn run(&self, ctx: &mut BootContext<'_, A>) -> Result<(), BootError> {
        let current = ctx.arch().timer().now();
        if current > u64::MAX - 1 {
            return Err(BootError::Fatal("tick overflow"));
        }
        Ok(())
    }
}

struct FailingStage;

impl<A: Architecture> BootStage<A> for FailingStage {
    fn name(&self) -> &'static str {
        "failing"
    }

    fn run(&self, _ctx: &mut BootContext<'_, A>) -> Result<(), BootError> {
        Err(BootError::Fatal("expected failure"))
    }
}

/// Records the state it sees when it runs, and succeeds.
struct RecordingStage<'s> {
    seen: &'s RefCell<Vec<BootState>>,
}

impl<'s, A: Architecture> BootStage<A> for RecordingStage<'s> {
    fn name(&self) -> &'static str {
        "recording"
    }

    fn run(&self, ctx: &mut BootContext<'_, A>) -> Result<(), BootError> {
        self.seen.borrow_mut().push(ctx.state());
        Ok(())
    }
}

#[test]
fn boot_sequence_succeeds() {
    let mut arch = TestArch::new();
    let stages: [&dyn BootStage<TestArch>; 1] = [&TickStage];

    let state = run_boot_sequence(&mut arch, &stages).expect("boot should succeed");
    assert_eq!(
        state,
        BootState::Completed {
            stages_run: stages.len()
        }
    );
}

#[test]
fn boot_sequence_stops_on_failure() {
    let mut arch = TestArch::new();
    let stages: [&dyn BootStage<TestArch>; 2] = [&TickStage, &FailingStage];

    let result = run_boot_sequence(&mut arch, &stages);
    assert!(result.is_err());
}

#[test]
fn empty_boot_sequence_completes_with_no_stages() {
    let mut arch = TestArch::new();
    let stages: [&dyn BootStage<TestArch>; 0] = [];
    assert_eq!(
        run_boot_sequence(&mut arch, &stages),
        Ok(BootState::Completed { stages_run: 0 })
    );
}

#[test]
fn boot_sequence_returns_the_first_error_and_skips_later_stages() {
    let mut arch = TestArch::new();
    let seen = RefCell::new(Vec::new());
    let first = RecordingStage { seen: &seen };
    let after = RecordingStage { seen: &seen };
    let stages: [&dyn BootStage<TestArch>; 3] = [&first, &FailingStage, &after];

    let result = run_boot_sequence(&mut arch, &stages);
    assert_eq!(result, Err(BootError::Fatal("expected failure")));
    // Only the stage before the failing one ran.
    assert_eq!(*seen.borrow(), vec![BootState::Running { current_stage: 0 }]);
}

#[test]
fn each_stage_runs_while_the_state_reports_it_running() {
    let mut arch = TestArch::new();
    let seen = RefCell::new(Vec::new());
    let a = RecordingStage { seen: &seen };
    let b = RecordingStage { seen: &seen };
    let c = RecordingStage { seen: &seen };
    let stages: [&dyn BootStage<TestArch>; 3] = [&a, &b, &c];

    let state = run_boot_sequence(&mut arch, &stages);
    assert_eq!(state, Ok(BootState::Completed { stages_run: 3 }));
    assert_eq!(
        *seen.borrow(),
        vec![
            BootState::Running { current_stage: 0 },
            BootState::Running { current_stage: 1 },
            BootState::Running { current_stage: 2 },
        ]
    );
}

#[test]
fn tick_stage_fails_at_the_last_tick() {
    let mut arch = TestArch::new();
    arch.timer.advance(u64::MAX);
    let stages: [&dyn BootStage<TestArch>; 1] = [&TickStage];
    assert_eq!(
        run_boot_sequence(&mut arch, &stages),
        Err(BootError::Fatal("tick overflow"))
    );
}

#[test]
fn context_starts_not_started() {
    let mut arch = TestArch::new();
    let ctx = BootContext::new(&mut arch);
    assert_eq!(ctx.state(), BootState::NotStarted);
}

#[test]
fn context_gives_access_to_the_architecture() {
    let mut arch = TestArch::new();
    {
        let mut ctx = BootContext::new(&mut arch);
        ctx.arch().timer.advance(7);
        assert_eq!(ctx.arch().timer().now(), 7);
    }
    assert_eq!(arch.timer.now(), 7);
}

#[test]
fn empty_boot_sequence_leaves_the_architecture() {
    let mut arch = TestArch::new();
    arch.translator.insert(0x10, 0x20);
    let before = format!("{:?}", arch);
    let stages: [&dyn BootStage<TestArch>; 0] = [];
    assert_eq!(
        run_boot_sequence(&mut arch, &stages),
        Ok(BootState::Completed { stages_run: 0 })
    );
    assert_eq!(format!("{:?}", arch), before);
}
