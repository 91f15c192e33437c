use vstd::prelude::*;

verus! {

/// The electrical buses a unit can draw power from.
#[derive(Clone, Copy, Debug, PartialEq, Eq, Structural)]
pub enum ElectricalBusType {
    AlternatingCurrent(u8),
    AlternatingCurrentEssential,
    AlternatingCurrentEssentialShed,
    AlternatingCurrentStaticInverter,
    AlternatingCurrentGndFltService,
    DirectCurrent(u8),
    DirectCurrentEssential,
    DirectCurrentEssentialShed,
    DirectCurrentBattery,
    DirectCurrentHot(u8),
    DirectCurrentGndFltService,
}

/// What the electrical network tells its consumers on each tick: which buses
/// currently supply power.
pub trait ElectricalBuses {
    /// Whether `bus` is powered, as a mathematical fact about the network.
    spec fn bus_powered(&self, bus: ElectricalBusType) -> bool;

    fn is_powered(&self, bus: ElectricalBusType) -> (r: bool)
        ensures
            r == self.bus_powered(bus),
    ;
}

/// A snapshot of the electrical network: the set of buses that are powered.
pub struct PoweredBuses {
    powered: Vec<ElectricalBusType>,
}

impl PoweredBuses {
    /// The buses of this snapshot that supply power.
    pub closed spec fn powered_set(&self) -> Set<ElectricalBusType> {
        self.powered@.to_set()
    }

    /// A network on which no bus is powered.
    pub fn new() -> (r: Self)
        ensures
            r.powered_set() == Set::<ElectricalBusType>::empty(),
    {
        let r = PoweredBuses { powered: Vec::new() };
        proof {
            assert(r.powered@.to_set() =~= Set::<ElectricalBusType>::empty());
        }
        r
    }

    /// Marks `bus` as powered.
    pub fn power(&mut self, bus: ElectricalBusType)
        ensures
            final(self).powered_set() == old(self).powered_set().insert(bus),
    {
        let ghost before = self.powered@;
        self.powered.push(bus);
        proof {
            assert(self.powered@ == before.push(bus));
            assert forall|b: ElectricalBusType| self.powered@.contains(b) <==> (before.contains(b) || b == bus) by {
                if b == bus {
                    assert(self.powered@[before.len() as int] == bus);
                }
                if before.contains(b) {
                    let i = choose|i: int| 0 <= i < before.len() && before[i] == b;
                    assert(self.powered@[i] == b);
                }
            }
            assert(self.powered@.to_set() =~= before.to_set().insert(bus));
        }
    }
}

impl ElectricalBuses for PoweredBuses {
    open spec fn bus_powered(&self, bus: ElectricalBusType) -> bool {
        self.powered_set().contains(bus)
    }

    fn is_powered(&self, bus: ElectricalBusType) -> (r: bool) {
        let mut i: usize = 0;
        while i < self.powered.len()
            invariant
                i <= self.powered@.len(),
                forall|j: int| 0 <= j < i ==> self.powered@[j] != bus,
            decreases self.powered@.len() - i,
        {
            if self.powered[i] == bus {
                proof {
                    assert(self.powered@.contains(bus));
                }
                return true;
            }
            i = i + 1;
        }
        false
    }
}

} // verus!
