//! Architecture abstractions.
//!
//! Portable kernel code talks to the machine only through these traits.
//! Each can be implemented by a hardware back-end or by the deterministic
//! in-memory mocks defined here, which the tests use.

use vstd::prelude::*;

verus! {

/// A monotonic timer source: it only reports a tick counter.
pub trait Timer {
    /// The tick type exposed by the timer.
    type Tick: Copy + Ord;

    /// Returns the current tick value.
    fn now(&self) -> Self::Tick;
}

/// The subset of an interrupt controller that a kernel needs.
pub trait InterruptController {
    /// Enables the interrupt line `id`.
    fn enable(&mut self, id: u32);

    /// Disables the interrupt line `id`.
    fn disable(&mut self, id: u32);

    /// Acknowledges the interrupt `id`: its handler has completed.
    fn acknowledge(&mut self, id: u32);
}

/// Turns a virtual address into a physical one, where a mapping exists.
pub trait AddressTranslator {
    /// Best-effort translation; `None` where no mapping can be resolved.
    fn translate(&self, virtual_address: usize) -> Option<usize>;
}

/// The architecture services a kernel is generic over.
pub trait Architecture {
    /// The timer of this architecture.
    type Timer: Timer;

    /// The interrupt controller of this architecture.
    type InterruptController: InterruptController;

    /// The address translator of this architecture.
    type AddressTranslator: AddressTranslator;

    /// Returns the architecture timer.
    fn timer(&self) -> &Self::Timer;

    /// Returns the interrupt controller, for mutation.
    fn interrupt_controller(&mut self) -> &mut Self::InterruptController;

    /// Returns the address translator.
    fn address_translator(&self) -> &Self::AddressTranslator;
}

/// `tick + delta`, saturating at `u64::MAX`.
pub open spec fn saturating_tick(tick: u64, delta: u64) -> u64 {
    if tick + delta > u64::MAX {
        u64::MAX
    } else {
        (tick + delta) as u64
    }
}

/// An in-memory timer that only moves when advanced by hand.
#[derive(Debug, Clone)]
pub struct MockTimer {
    tick: u64,
}

impl View for MockTimer {
    type V = u64;

    /// The current tick.
    closed spec fn view(&self) -> u64 {
        self.tick
    }
}

impl MockTimer {
    /// Creates a timer at tick `0`.
    pub fn new() -> (timer: Self)
        ensures
            timer@ == 0,
    {
        MockTimer { tick: 0 }
    }

    /// Advances the timer by `delta` ticks, saturating at `u64::MAX`, and
    /// returns the new tick.
    pub fn advance(&mut self, delta: u64) -> (tick: u64)
        ensures
            tick == saturating_tick(old(self)@, delta),
            final(self)@ == tick,
    {
        self.tick = self.tick.saturating_add(delta);
        self.tick
    }
}

impl Timer for MockTimer {
    type Tick = u64;

    fn now(&self) -> (tick: u64)
        ensures
            tick == self@,
    {
        self.tick
    }
}

/// The tick of a mock timer never goes back when it is advanced, and it
/// moves by exactly `delta` unless that would pass `u64::MAX`.
pub proof fn mock_timer_is_monotonic(tick: u64, delta: u64)
    ensures
        tick <= saturating_tick(tick, delta),
        tick + delta <= u64::MAX ==> saturating_tick(tick, delta) == tick + delta,
        tick + delta > u64::MAX ==> saturating_tick(tick, delta) == u64::MAX,
{
}

/// The tick of a mock timer created at `0` and then advanced by each of
/// `deltas` in turn.
pub open spec fn ticks_after(deltas: Seq<u64>) -> u64
    decreases deltas.len(),
{
    if deltas.len() == 0 {
        0
    } else {
        saturating_tick(ticks_after(deltas.drop_last()), deltas.last())
    }
}

/// The mathematical sum of `deltas`.
pub open spec fn total_delta(deltas: Seq<u64>) -> int
    decreases deltas.len(),
{
    if deltas.len() == 0 {
        0
    } else {
        total_delta(deltas.drop_last()) + deltas.last()
    }
}

/// A mock timer advanced by several deltas shows their sum, capped at
/// `u64::MAX`, and its tick never went back along the way.
pub proof fn mock_timer_sums_advances(deltas: Seq<u64>)
    ensures
        ticks_after(deltas) == (if total_delta(deltas) > u64::MAX {
            u64::MAX as int
        } else {
            total_delta(deltas)
        }),
        forall|i: int| 0 <= i <= deltas.len() ==> #[trigger] ticks_after(deltas.take(i)) <= ticks_after(deltas),
    decreases deltas.len(),
{
    if deltas.len() > 0 {
        let init = deltas.drop_last();
        mock_timer_sums_advances(init);
        assert forall|i: int| 0 <= i <= deltas.len() implies #[trigger] ticks_after(deltas.take(i)) <= ticks_after(deltas) by {
            if i < deltas.len() {
                assert(deltas.take(i) == init.take(i));
                assert(ticks_after(init.take(i)) <= ticks_after(init));
            } else {
                assert(deltas.take(i) == deltas);
            }
        }
    }
}

/// A call of `advance` extends the history of a mock timer: if its tick is
/// what `deltas` give, then after `advance(delta)`, related as `advance`
/// ensures, it is what `deltas` followed by `delta` give. With
/// [`mock_timer_sums_advances`], a new timer advanced by any sequence of
/// deltas shows their capped sum.
pub proof fn advance_extends_history(deltas: Seq<u64>, delta: u64, before: u64, after: u64)
    requires
        before == ticks_after(deltas),
        after == saturating_tick(before, delta),
    ensures
        after == ticks_after(deltas.push(delta)),
{
    assert(deltas.push(delta).drop_last() == deltas);
}

/// An in-memory interrupt controller that remembers the last line enabled,
/// disabled and acknowledged.
#[derive(Debug)]
pub struct MockInterruptController {
    last_enabled: Option<u32>,
    last_disabled: Option<u32>,
    last_acknowledged: Option<u32>,
}

impl MockInterruptController {
    /// The last line enabled, if any.
    pub closed spec fn last_enabled(&self) -> Option<u32> {
        self.last_enabled
    }

    /// The last line disabled, if any.
    pub closed spec fn last_disabled(&self) -> Option<u32> {
        self.last_disabled
    }

    /// The last interrupt acknowledged, if any.
    pub closed spec fn last_acknowledged(&self) -> Option<u32> {
        self.last_acknowledged
    }
}

impl Default for MockInterruptController {
    /// A controller that has seen nothing yet.
    fn default() -> (ic: Self)
        ensures
            ic.last_enabled() is None,
            ic.last_disabled() is None,
            ic.last_acknowledged() is None,
    {
        MockInterruptController { last_enabled: None, last_disabled: None, last_acknowledged: None }
    }
}

impl InterruptController for MockInterruptController {
    fn enable(&mut self, id: u32)
        ensures
            final(self).last_enabled() == Some(id),
            final(self).last_disabled() == old(self).last_disabled(),
            final(self).last_acknowledged() == old(self).last_acknowledged(),
    {
        self.last_enabled = Some(id);
    }

    fn disable(&mut self, id: u32)
        ensures
            final(self).last_enabled() == old(self).last_enabled(),
            final(self).last_disabled() == Some(id),
            final(self).last_acknowledged() == old(self).last_acknowledged(),
    {
        self.last_disabled = Some(id);
    }

    fn acknowledge(&mut self, id: u32)
        ensures
            final(self).last_enabled() == old(self).last_enabled(),
            final(self).last_disabled() == old(self).last_disabled(),
            final(self).last_acknowledged() == Some(id),
    {
        self.last_acknowledged = Some(id);
    }
}

/// What a translation table `mappings` gives for `virtual_address`.
pub open spec fn translation(mappings: Map<usize, usize>, virtual_address: usize) -> Option<usize> {
    if mappings.contains_key(virtual_address) {
        Some(mappings[virtual_address])
    } else {
        None
    }
}

/// An address translator backed by an in-memory map.
#[derive(Debug)]
pub struct MockAddressTranslator {
    mappings: std::collections::BTreeMap<usize, usize>,
}

impl View for MockAddressTranslator {
    type V = Map<usize, usize>;

    /// The mappings, from virtual to physical address.
    closed spec fn view(&self) -> Map<usize, usize> {
        self.mappings@
    }
}

impl MockAddressTranslator {
    /// Creates a translator with no mappings.
    pub fn new() -> (translator: Self)
        ensures
            translator@ == Map::<usize, usize>::empty(),
    {
        MockAddressTranslator { mappings: std::collections::BTreeMap::new() }
    }

    /// Maps `virtual_address` to `physical_address`, replacing any earlier
    /// mapping of that address.
    pub fn insert(&mut self, virtual_address: usize, physical_address: usize)
        ensures
            final(self)@ == old(self)@.insert(virtual_address, physical_address),
    {
        broadcast use vstd::std_specs::btree::group_btree_axioms;

        let _ = self.mappings.insert(virtual_address, physical_address);
    }
}

impl Default for MockAddressTranslator {
    /// A translator with no mappings.
    fn default() -> (translator: Self)
        ensures
            translator@ == Map::<usize, usize>::empty(),
    {
        MockAddressTranslator::new()
    }
}

impl AddressTranslator for MockAddressTranslator {
    fn translate(&self, virtual_address: usize) -> (physical: Option<usize>)
        ensures
            physical == translation(self@, virtual_address),
    {
        broadcast use vstd::std_specs::btree::group_btree_axioms;

        match self.mappings.get(&virtual_address) {
            Some(physical) => Some(*physical),
            None => None,
        }
    }
}

/// A translation reads back what the last insertion of its address wrote,
/// and an insertion leaves every other address as it was; a fresh
/// translator maps nothing.
pub proof fn translate_reads_last_insert(
    mappings: Map<usize, usize>,
    virtual_address: usize,
    physical_address: usize,
    other: usize,
)
    requires
        other != virtual_address,
    ensures
        translation(mappings.insert(virtual_address, physical_address), virtual_address) == Some(
            physical_address,
        ),
        translation(mappings.insert(virtual_address, physical_address), other) == translation(
            mappings,
            other,
        ),
        translation(Map::<usize, usize>::empty(), virtual_address) is None,
{
}

} // verus!
