//! Device drivers and a fixed-capacity device registry.
//!
//! The registry does not allocate: it keeps the devices in a slice that the
//! caller provides, so it works in kernels without a heap and in tests.

use vstd::prelude::*;


verus! {

/// The error a device driver returns.
#[derive(Debug, Clone, Copy, PartialEq, Eq, Structural)]
pub enum DeviceError {
    /// Initialisation of the device failed.
    InitFailed,
}

/// A device driver.
pub trait DeviceDriver {
    /// A short, human-readable name, mainly for logging.
    fn name(&self) -> &'static str;

    /// The state of the device, as an implementation models it. Unless an
    /// implementation says more, every device is in the same state; only an
    /// implementation verified with Verus can say more.
    open spec fn device_state(&self) -> int {
        0
    }

    /// Whether initialising the device, as it is now, may leave it in state
    /// `after` and return `r`. Unless an implementation says more, every
    /// outcome may come; only an implementation verified with Verus can say
    /// more.
    open spec fn init_allows(&self, after: int, r: Result<(), DeviceError>) -> bool {
        true
    }

    /// Initialises the device.
    fn init(&mut self) -> (r: Result<(), DeviceError>)
        ensures
            old(self).init_allows(final(self).device_state(), r),
    ;
}

/// A registry of devices, held in a caller-provided slice of slots. The
/// first `len()` slots hold the registered devices, in registration order.
pub struct DeviceRegistry<'a> {
    devices: &'a mut [Option<&'a mut dyn DeviceDriver>],
    count: usize,
}

impl<'a> DeviceRegistry<'a> {
    /// The slots of the backing storage, as they are now.
    pub closed spec fn slots(&self) -> Seq<Option<&'a mut dyn DeviceDriver>> {
        self.devices@
    }

    /// The number of registered devices.
    pub closed spec fn count(&self) -> nat {
        self.count as nat
    }

    /// How many devices the registry can hold.
    pub open spec fn capacity(&self) -> nat {
        self.slots().len()
    }

    /// The registry's invariant: no more devices than slots, and a device
    /// in each of the first `count()` slots.
    pub open spec fn wf(&self) -> bool {
        &&& self.count() <= self.capacity()
        &&& forall|i: int| 0 <= i < self.count() ==> (#[trigger] self.slots()[i]) is Some
    }

    /// Creates an empty registry backed by `storage`.
    pub fn new(storage: &'a mut [Option<&'a mut dyn DeviceDriver>]) -> (registry: Self)
        ensures
            registry.wf(),
            registry.count() == 0,
            registry.slots() == old(storage)@,
    {
        DeviceRegistry { devices: storage, count: 0 }
    }

    /// The number of registered devices.
    pub fn len(&self) -> (n: usize)
        ensures
            n == self.count(),
    {
        self.count
    }

    /// Whether no device is registered.
    pub fn is_empty(&self) -> (empty: bool)
        ensures
            empty == (self.count() == 0),
    {
        self.count == 0
    }

    /// Registers `device` in the next free slot. Returns `false`, and
    /// changes nothing, when every slot is taken.
    pub fn register(&mut self, device: &'a mut dyn DeviceDriver) -> (registered: bool)
        requires
            old(self).wf(),
        ensures
            final(self).wf(),
            registered == (old(self).count() < old(self).capacity()),
            registered ==> final(self).count() == old(self).count() + 1,
            registered ==> (final(self).slots()[old(self).count() as int] matches Some(d) && d
                == device),
            registered ==> final(self).capacity() == old(self).capacity(),
            registered ==> forall|j: int|
                0 <= j < old(self).capacity() && j != old(self).count() ==> #[trigger] final(self).slots()[j]
                    == old(self).slots()[j],
            !registered ==> final(self).count() == old(self).count(),
            !registered ==> final(self).slots() == old(self).slots(),
    {
        if self.count >= self.devices.len() {
            return false;
        }
        let slot = Some(device);
        self.devices[self.count] = slot;
        self.count = self.count + 1;
        true
    }

    /// The state of the device in slot `i`, as it is now.
    pub open spec fn state_of(&self, i: int) -> int {
        self.slots()[i]->0.device_state()
    }

    /// One initialisation of the device in slot `i`, as it is in `self`,
    /// may leave it in the state it has in `after` and return `r`.
    pub open spec fn device_initialised(&self, after: &Self, i: int, r: Result<(), DeviceError>) -> bool {
        self.slots()[i]->0.init_allows(after.state_of(i), r)
    }

    /// The registry `after` and the result `r` are what initialising the
    /// devices of `self` in registration order, stopping at the first
    /// failure, can give:
    /// - `Ok`: each registered device went, by one initialisation that
    ///   succeeded, from its state in `self` to its state in `after`;
    /// - `Err(e)`: for some registered device `k`, the devices before it
    ///   went by one successful initialisation to their state in `after`,
    ///   device `k` went by one initialisation returning `e` to its state in
    ///   `after`, and the slots after `k` are untouched, their devices not
    ///   initialised.
    pub open spec fn initialised_from(&self, after: &Self, r: Result<(), DeviceError>) -> bool {
        match r {
            Ok(()) => {
                &&& forall|i: int| 0 <= i < self.count() ==> #[trigger] self.device_initialised(after, i, Ok(()))
                &&& forall|j: int| self.count() <= j < self.capacity() ==> #[trigger] after.slots()[j] == self.slots()[j]
            },
            Err(err) => exists|k: int|
                #![trigger self.device_initialised(after, k, Err(err))]
                {
                    &&& 0 <= k < self.count()
                    &&& forall|i: int| 0 <= i < k ==> #[trigger] self.device_initialised(after, i, Ok(()))
                    &&& self.device_initialised(after, k, Err(err))
                    &&& forall|j: int| k < j < self.capacity() ==> #[trigger] after.slots()[j] == self.slots()[j]
                },
        }
    }

    /// Initialises the registered devices in registration order, stopping
    /// at the first failure and returning its error. Every registered slot
    /// goes on holding the same device, in the same order.
    pub fn init_all(&mut self) -> (r: Result<(), DeviceError>)
        requires
            old(self).wf(),
        ensures
            final(self).wf(),
            final(self).count() == old(self).count(),
            final(self).capacity() == old(self).capacity(),
            forall|i: int|
                0 <= i < old(self).count() ==> &*final(#[trigger] final(self).slots()[i]->0)
                    == &*final(old(self).slots()[i]->0),
            old(self).initialised_from(&*final(self), r),
    {
        let ghost initial = *self;
        let mut index: usize = 0;
        while index < self.count
            invariant
                self.wf(),
                self.count() == initial.count(),
                initial == *old(self),
                self.capacity() == initial.capacity(),
                index <= self.count(),
                forall|i: int| 0 <= i < index ==> #[trigger] initial.device_initialised(&*self, i, Ok(())),
                forall|i: int|
                    0 <= i < initial.count() ==> &*final(#[trigger] self.slots()[i]->0)
                        == &*final(initial.slots()[i]->0),
                forall|j: int| index <= j < initial.capacity() ==> #[trigger] self.slots()[j] == initial.slots()[j],
            decreases self.count() - index,
        {
            let ghost earlier = *self;
            let (_, rest) = self.devices.split_at_mut(index);
            let outcome = match rest.first_mut() {
                Some(slot) => match slot {
                    Some(device) => device.init(),
                    None => Ok(()),
                },
                None => Ok(()),
            };
            assert(initial.device_initialised(&*self, index as int, outcome));
            assert forall|i: int| 0 <= i < index implies #[trigger] initial.device_initialised(&*self, i, Ok(())) by {
                assert(self.slots()[i] == earlier.slots()[i]);
                assert(initial.device_initialised(&earlier, i, Ok(())));
            }
            match outcome {
                Ok(()) => {
                    assert(outcome->Ok_0 == ());
                },
                Err(err) => {
                    assert(initial.device_initialised(&*self, index as int, Err(err)));
                    return Err(err);
                },
            }
            index = index + 1;
        }
        Ok(())
    }
}

/// Initialising the devices of a registry that holds none succeeds and
/// leaves every slot as it was.
pub proof fn empty_registry_initialises<'a>(
    before: &DeviceRegistry<'a>,
    after: &DeviceRegistry<'a>,
    r: Result<(), DeviceError>,
)
    requires
        before.count() == 0,
        before.initialised_from(after, r),
    ensures
        r is Ok,
        forall|j: int| 0 <= j < before.capacity() ==> #[trigger] after.slots()[j] == before.slots()[j],
{
}

/// Initialising each registered device of `registry` has only one
/// outcome: one result and one state it leaves the device in.
pub open spec fn initialisation_determined<'a>(registry: &DeviceRegistry<'a>) -> bool {
    forall|i: int, s1: int, r1: Result<(), DeviceError>, s2: int, r2: Result<(), DeviceError>|
        #![trigger registry.slots()[i]->0.init_allows(s1, r1), registry.slots()[i]->0.init_allows(s2, r2)]
        0 <= i < registry.count() && registry.slots()[i]->0.init_allows(s1, r1)
            && registry.slots()[i]->0.init_allows(s2, r2) ==> s1 == s2 && r1 == r2
}

/// Two initialisations of the same registry, whose devices each have only
/// one outcome, give the same result and leave every device they
/// initialised in the same state; so `Kernel::init_devices` and
/// `DeviceRegistry::init_all`, which carry the same contract, agree.
pub proof fn initialisations_agree<'a>(
    before: &DeviceRegistry<'a>,
    after1: &DeviceRegistry<'a>,
    r1: Result<(), DeviceError>,
    after2: &DeviceRegistry<'a>,
    r2: Result<(), DeviceError>,
)
    requires
        initialisation_determined(before),
        before.initialised_from(after1, r1),
        before.initialised_from(after2, r2),
    ensures
        r1 == r2,
        r1 is Ok ==> forall|i: int| 0 <= i < before.count() ==> #[trigger] after1.state_of(i) == after2.state_of(i),
{
    match (r1, r2) {
        (Ok(()), Ok(())) => {
            assert(r1->Ok_0 == () && r2->Ok_0 == ());
            assert forall|i: int| 0 <= i < before.count() implies #[trigger] after1.state_of(i) == after2.state_of(i) by {
                assert(before.device_initialised(after1, i, Ok(())));
                assert(before.device_initialised(after2, i, Ok(())));
            }
        },
        (Ok(()), Err(e2)) => {
            let k2 = choose|k: int|
                #![trigger before.device_initialised(after2, k, Err(e2))]
                {
                    &&& 0 <= k < before.count()
                    &&& forall|i: int| 0 <= i < k ==> #[trigger] before.device_initialised(after2, i, Ok(()))
                    &&& before.device_initialised(after2, k, Err(e2))
                    &&& forall|j: int| k < j < before.capacity() ==> #[trigger] after2.slots()[j] == before.slots()[j]
                };
            assert(before.device_initialised(after1, k2, Ok(())));
        },
        (Err(e1), Ok(())) => {
            let k1 = choose|k: int|
                #![trigger before.device_initialised(after1, k, Err(e1))]
                {
                    &&& 0 <= k < before.count()
                    &&& forall|i: int| 0 <= i < k ==> #[trigger] before.device_initialised(after1, i, Ok(()))
                    &&& before.device_initialised(after1, k, Err(e1))
                    &&& forall|j: int| k < j < before.capacity() ==> #[trigger] after1.slots()[j] == before.slots()[j]
                };
            assert(before.device_initialised(after2, k1, Ok(())));
        },
        (Err(e1), Err(e2)) => {
            let k1 = choose|k: int|
                #![trigger before.device_initialised(after1, k, Err(e1))]
                {
                    &&& 0 <= k < before.count()
                    &&& forall|i: int| 0 <= i < k ==> #[trigger] before.device_initialised(after1, i, Ok(()))
                    &&& before.device_initialised(after1, k, Err(e1))
                    &&& forall|j: int| k < j < before.capacity() ==> #[trigger] after1.slots()[j] == before.slots()[j]
                };
            let k2 = choose|k: int|
                #![trigger before.device_initialised(after2, k, Err(e2))]
                {
                    &&& 0 <= k < before.count()
                    &&& forall|i: int| 0 <= i < k ==> #[trigger] before.device_initialised(after2, i, Ok(()))
                    &&& before.device_initialised(after2, k, Err(e2))
                    &&& forall|j: int| k < j < before.capacity() ==> #[trigger] after2.slots()[j] == before.slots()[j]
                };
            if k1 < k2 {
                assert(before.device_initialised(after2, k1, Ok(())));
            } else if k2 < k1 {
                assert(before.device_initialised(after1, k2, Ok(())));
            }
        },
    }
}

/// The number of devices in a registry of `capacity` slots holding `count`
/// devices, after `m` more calls of `register`: each call registers a device
/// while a slot is free and changes nothing otherwise.
pub open spec fn count_after_registrations(count: nat, capacity: nat, m: nat) -> nat
    decreases m,
{
    if m == 0 {
        count
    } else {
        let before = count_after_registrations(count, capacity, (m - 1) as nat);
        if before < capacity {
            before + 1
        } else {
            before
        }
    }
}

/// Starting from a new registry, the first `capacity` registrations succeed
/// and every later one is refused: after `m` calls the registry holds
/// `min(m, capacity)` devices, never more than its capacity, and it is empty
/// only if no registration succeeded.
pub proof fn registrations_fill_capacity(capacity: nat, m: nat)
    ensures
        count_after_registrations(0, capacity, m) == (if m < capacity { m } else { capacity }),
        count_after_registrations(0, capacity, m) <= capacity,
        m > 0 ==> ((count_after_registrations(0, capacity, (m - 1) as nat) < capacity) <==> m <= capacity),
        (count_after_registrations(0, capacity, m) == 0) <==> (m == 0 || capacity == 0),
    decreases m,
{
    if m > 0 {
        registrations_fill_capacity(capacity, (m - 1) as nat);
    }
}

/// A call of `register` takes the registry one step along
/// [`count_after_registrations`]: if a registry that started empty holds
/// the devices of `m` registrations, then after one more call, related as
/// `register` ensures, it holds those of `m + 1`. With
/// [`registrations_fill_capacity`], a new registry therefore accepts
/// exactly its first `capacity` registrations.
pub proof fn register_steps_the_count<'a>(
    before: &DeviceRegistry<'a>,
    after: &DeviceRegistry<'a>,
    registered: bool,
    m: nat,
)
    requires
        before.count() == count_after_registrations(0, before.capacity(), m),
        registered == (before.count() < before.capacity()),
        registered ==> after.count() == before.count() + 1,
        !registered ==> after.count() == before.count(),
        after.capacity() == before.capacity(),
    ensures
        after.count() == count_after_registrations(0, after.capacity(), m + 1),
{
}

} // verus!
