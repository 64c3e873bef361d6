# os_kernel_foundry

A small, modular foundation for Rust operating-system kernels, written in
Verus. Kernel architecture is modelled as traits (timer, interrupt
controller, address translator, boot stages, device drivers, memory
managers, schedulers, message endpoints); the orchestration logic that ties
them together carries contracts that Verus proves.

Layout:

- `src/arch.rs`: architecture traits and deterministic mocks (timer,
  interrupt controller, address translator).
- `src/boot.rs`: the boot pipeline (`BootContext`, `BootStage`,
  `run_boot_sequence`).
- `src/device.rs`: device drivers and the fixed-capacity `DeviceRegistry`.
- `src/kernel.rs`: the `Kernel` wrapper.
- `src/sync.rs`: `SpinLock` and its guard.
- `src/memory.rs`, `src/scheduler.rs`, `src/ipc.rs`: traits for frame
  allocation and mapping, scheduling, and messaging.
- `tests/`: tests against the library, with host-side implementations of
  the traits.
