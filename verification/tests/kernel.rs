use os_kernel_foundry::arch::{
    AddressTranslator, Architecture, InterruptController, MockAddressTranslator, MockInterruptController, MockTimer, Timer,
};
use os_kernel_foundry::boot::{BootContext, BootError, BootStage, BootState};
use os_kernel_foundry::device::{DeviceDriver, DeviceError, DeviceRegistry};
use os_kernel_foundry::kernel::Kernel;

#[derive(Debug)]
struct TestArch {
    timer: MockTimer,
    ic: MockInterruptController,
    translator: MockAddressTranslator,
}

impl TestArch {
    fn new() -> Self {
        Self {
            timer: MockTimer::new(),
            ic: MockInterruptController::default(),
            translator: MockAddressTranslator::new(),
        }
    }
}

impl Architecture for TestArch {
    type Timer = MockTimer;
    type InterruptController = MockInterruptController;
    type AddressTranslator = MockAddressTranslator;

    fn timer(&self) -> &Self::Timer {
        &self.timer
    }

    fn interrupt_controller(&mut self) -> &mut Self::InterruptController {
        &mut self.ic
    }

    fn address_translator(&self) -> &Self::AddressTranslator {
        &self.translator
    }
}

struct QuickBoot;

impl BootStage<TestArch> for QuickBoot {
    fn name(&self) -> &'static str {
        "quick-boot"
    }

    fn run(&self, ctx: &mut BootContext<'_, TestArch>) -> Result<(), BootError> {
        let _ = ctx.arch().timer().now();
        Ok(())
    }
}

struct BrokenBoot;

impl BootStage<TestArch> for BrokenBoot {
    fn name(&self) -> &'static str {
        "broken-boot"
    }

    fn run(&self, _ctx: &mut BootContext<'_, TestArch>) -> Result<(), BootError> {
        Err(BootError::Fatal("broken"))
    }
}

struct DummyDevice;

impl DeviceDriver for DummyDevice {
    fn name(&self) -> &'static str {
        "dummy"
    }

    fn init(&mut self) -> Result<(), DeviceError> {
        Ok(())
    }
}

struct FailingDevice;

impl DeviceDriver for FailingDevice {
    fn name(&self) -> &'static str {
        "failing"
    }

    fn init(&mut self) -> Result<(), DeviceError> {
        Err(DeviceError::InitFailed)
    }
}

#[test]
fn kernel_boot_and_device_init() {
    let arch = TestArch::new();
    let mut kernel = Kernel::new(arch);

    let boot_stages: [&dyn BootStage<TestArch>; 1] = [&QuickBoot];
    let state = kernel.boot(&boot_stages).expect("boot should succeed");
    assert!(matches!(state, BootState::Completed { .. }));

    let mut device = DummyDevice;
    let mut storage: [Option<&mut dyn DeviceDriver>; 1] = [None];
    let mut registry = DeviceRegistry::new(&mut storage);
    assert!(registry.register(&mut device));

    kernel.init_devices(&mut registry).expect("devices should init");
}

#[test]
fn kernel_boot_reports_failure() {
    let mut kernel = Kernel::new(TestArch::new());
    let boot_stages: [&dyn BootStage<TestArch>; 2] = [&QuickBoot, &BrokenBoot];
    assert_eq!(kernel.boot(&boot_stages), Err(BootError::Fatal("broken")));
}

#[test]
fn kernel_init_devices_reports_failure() {
    let mut kernel = Kernel::new(TestArch::new());
    let mut device = FailingDevice;
    let mut storage: [Option<&mut dyn DeviceDriver>; 1] = [None];
    let mut registry = DeviceRegistry::new(&mut storage);
    assert!(registry.register(&mut device));
    assert_eq!(kernel.init_devices(&mut registry), Err(DeviceError::InitFailed));
}

#[test]
fn kernel_exposes_its_architecture() {
    let mut kernel = Kernel::new(TestArch::new());
    kernel.arch_mut().timer.advance(9);
    assert_eq!(kernel.arch().timer().now(), 9);
    kernel.arch_mut().translator.insert(0x10, 0x20);
    assert_eq!(kernel.arch().address_translator().translate(0x10), Some(0x20));
}

struct EnableLine;

impl BootStage<TestArch> for EnableLine {
    fn name(&self) -> &'static str {
        "enable-line"
    }

    fn run(&self, ctx: &mut BootContext<'_, TestArch>) -> Result<(), BootError> {
        ctx.arch().interrupt_controller().enable(3);
        Ok(())
    }
}

#[test]
fn kernel_keeps_what_the_stages_did_to_the_architecture() {
    let mut kernel = Kernel::new(TestArch::new());
    let boot_stages: [&dyn BootStage<TestArch>; 2] = [&EnableLine, &BrokenBoot];
    assert_eq!(kernel.boot(&boot_stages), Err(BootError::Fatal("broken")));
    assert!(format!("{:?}", kernel.arch().ic).contains("last_enabled: Some(3)"));
}

#[test]
fn kernel_boot_with_one_good_stage_completes_over_one_stage() {
    let mut kernel = Kernel::new(TestArch::new());
    let boot_stages: [&dyn BootStage<TestArch>; 1] = [&QuickBoot];
    assert_eq!(kernel.boot(&boot_stages), Ok(BootState::Completed { stages_run: 1 }));
    assert_eq!(kernel.arch().timer().now(), 0);
}
