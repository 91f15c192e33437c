use vstd::prelude::*;

verus! {

/// A handle on one variable of the simulation's variable registry.
#[derive(Clone, Copy, Debug, PartialEq, Eq, Structural)]
pub struct VariableIdentifier {
    index: usize,
}

impl VariableIdentifier {
    pub closed spec fn spec_index(&self) -> nat {
        self.index as nat
    }

    pub fn index(&self) -> (r: usize)
        ensures
            r == self.spec_index(),
    {
        self.index
    }
}

/// `names` once `name` is registered in it: unchanged if it is there already,
/// else with `name` appended.
pub open spec fn register(names: Seq<Seq<char>>, name: Seq<char>) -> Seq<Seq<char>> {
    if names.contains(name) {
        names
    } else {
        names.push(name)
    }
}

/// The registry of variable names met while the system is built. Each distinct
/// name gets one identifier, its position in the registry.
pub struct InitContext {
    names: Vec<String>,
}

impl InitContext {
    /// The registered names, in order of registration.
    pub closed spec fn names(&self) -> Seq<Seq<char>> {
        self.names@.map_values(|s: String| s@)
    }

    /// No name is registered twice.
    pub open spec fn wf(&self) -> bool {
        forall|i: int, j: int|
            0 <= i < j < self.names().len() ==> self.names()[i] != self.names()[j]
    }

    pub fn new() -> (r: Self)
        ensures
            r.wf(),
            r.names() == Seq::<Seq<char>>::empty(),
    {
        let r = InitContext { names: Vec::new() };
        assert(r.names() =~= Seq::<Seq<char>>::empty());
        r
    }

    /// The identifier registered for `name`, registering it first if it is new.
    pub fn get_identifier(&mut self, name: String) -> (r: VariableIdentifier)
        requires
            old(self).wf(),
        ensures
            final(self).wf(),
            final(self).names() == register(old(self).names(), name@),
            r.spec_index() < final(self).names().len(),
            final(self).names()[r.spec_index() as int] == name@,
    {
        let mut i: usize = 0;
        while i < self.names.len()
            invariant
                self.wf(),
                self.names() == old(self).names(),
                i <= self.names@.len(),
                forall|j: int| 0 <= j < i ==> self.names()[j] != name@,
            decreases self.names@.len() - i,
        {
            if self.names[i] == name {
                proof {
                    assert(self.names()[i as int] == name@);
                }
                return VariableIdentifier { index: i };
            }
            i = i + 1;
        }
        let ghost before = self.names();
        proof {
            assert(!before.contains(name@));
        }
        let index = self.names.len();
        self.names.push(name);
        proof {
            assert(self.names() =~= before.push(name@));
        }
        VariableIdentifier { index }
    }
}

/// The value of each boolean variable of the simulation; one that was never
/// written reads as false.
pub struct SimulatorVariables {
    values: Vec<bool>,
}

/// The value that `values` gives to variable `i`.
pub open spec fn value_at(values: Seq<bool>, i: nat) -> bool {
    if i < values.len() {
        values[i as int]
    } else {
        false
    }
}

impl SimulatorVariables {
    pub closed spec fn values(&self) -> Seq<bool> {
        self.values@
    }

    /// The value of `id` in this state.
    pub open spec fn value(&self, id: VariableIdentifier) -> bool {
        value_at(self.values(), id.spec_index())
    }

    /// A state in which every variable reads as false.
    pub fn new() -> (r: Self)
        ensures
            forall|id: VariableIdentifier| !r.value(id),
    {
        SimulatorVariables { values: Vec::new() }
    }

    pub fn read(&self, id: &VariableIdentifier) -> (r: bool)
        ensures
            r == self.value(*id),
    {
        if id.index < self.values.len() {
            self.values[id.index]
        } else {
            false
        }
    }

    pub fn write(&mut self, id: &VariableIdentifier, value: bool)
        ensures
            final(self).value(*id) == value,
            forall|other: VariableIdentifier|
                other != *id ==> final(self).value(other) == old(self).value(other),
    {
        let ghost before = self.values@;
        while self.values.len() <= id.index
            invariant
                self.values@.len() >= before.len(),
                forall|k: nat| value_at(self.values@, k) == value_at(before, k),
            decreases id.index + 1 - self.values@.len(),
        {
            let ghost prev = self.values@;
            self.values.push(false);
            proof {
                assert forall|k: nat| value_at(self.values@, k) == value_at(prev, k) by {
                    if k < prev.len() {
                        assert(self.values@[k as int] == prev[k as int]);
                    }
                }
            }
        }
        let ghost mid = self.values@;
        self.values.set(id.index, value);
        proof {
            assert forall|other: VariableIdentifier| other != *id implies
                value_at(self.values@, other.spec_index()) == value_at(mid, other.spec_index()) by {
                assert(other.index != id.index);
            }
        }
    }
}

} // verus!
