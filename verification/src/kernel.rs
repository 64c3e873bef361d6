//! The kernel: ties the architecture, the boot pipeline and the device
//! registry together.

use vstd::prelude::*;

use crate::arch::Architecture;
use crate::boot::{is_boot_run, run_boot_sequence, BootError, BootStage, BootState};
use crate::device::{DeviceError, DeviceRegistry};

verus! {

/// A kernel over an architecture `A`.
pub struct Kernel<A: Architecture> {
    arch: A,
}

impl<A: Architecture> Kernel<A> {
    /// The architecture the kernel runs on.
    pub closed spec fn arch_value(&self) -> A {
        self.arch
    }

    /// Creates a kernel on `arch`.
    pub fn new(arch: A) -> (kernel: Self)
        ensures
            kernel.arch_value() == arch,
    {
        Kernel { arch }
    }

    /// The architecture.
    pub fn arch(&self) -> (arch: &A)
        ensures
            *arch == self.arch_value(),
    {
        &self.arch
    }

    /// The architecture, for mutation.
    pub fn arch_mut(&mut self) -> (arch: &mut A)
        ensures
            *arch == old(self).arch_value(),
            final(self).arch_value() == *final(arch),
    {
        &mut self.arch
    }

    /// Runs the boot sequence made of `stages` on the kernel's own
    /// architecture, as [`run_boot_sequence`] does; the kernel's
    /// architecture afterwards is what the stages left. Both carry the same
    /// contract, so with deterministic stages they agree
    /// ([`crate::boot::deterministic_runs_agree`]).
    pub fn boot(&mut self, stages: &[&dyn BootStage<A>]) -> (r: Result<BootState, BootError>)
        ensures
            is_boot_run(stages@, old(self).arch_value(), final(self).arch_value(), r),
    {
        run_boot_sequence(&mut self.arch, stages)
    }

    /// Initialises every device of `registry`, as
    /// [`DeviceRegistry::init_all`] does; the architecture is left as it is.
    pub fn init_devices<'a>(&mut self, registry: &mut DeviceRegistry<'a>) -> (r: Result<
        (),
        DeviceError,
    >)
        requires
            old(registry).wf(),
        ensures
            final(self).arch_value() == old(self).arch_value(),
            final(registry).wf(),
            final(registry).count() == old(registry).count(),
            final(registry).capacity() == old(registry).capacity(),
            forall|i: int|
                0 <= i < old(registry).count() ==> &*final(#[trigger] final(registry).slots()[i]->0)
                    == &*final(old(registry).slots()[i]->0),
            old(registry).initialised_from(&*final(registry), r),
    {
        registry.init_all()
    }
}

} // verus!
