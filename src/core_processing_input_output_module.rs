use vstd::prelude::*;
use vstd::string::*;

use crate::electrical::{ElectricalBusType, ElectricalBuses};
use crate::network::{
    AvionicsDataCommunicationNetwork, AvionicsDataCommunicationNetworkMessageData,
    AvionicsDataCommunicationNetworkMessageIdentifier,
};
use crate::simulation::{register, InitContext, SimulatorVariables, VariableIdentifier};

verus! {

/// The registry name under which a module called `name` publishes its availability.
pub open spec fn available_variable_name(name: Seq<char>) -> Seq<char> {
    "CPIOM_"@ + name + "_AVAIL"@
}

/// The registry name from which a module called `name` reads its failure indication.
pub open spec fn failure_variable_name(name: Seq<char>) -> Seq<char> {
    "CPIOM_"@ + name + "_FAILURE"@
}

/// What a receive of `key` through the switches at `handles` yields: the value
/// held by the first of them, in list order, that holds one.
pub open spec fn first_match(
    stores: Seq<Map<u64, AvionicsDataCommunicationNetworkMessageData>>,
    handles: Seq<usize>,
    key: u64,
) -> Option<AvionicsDataCommunicationNetworkMessageData>
    decreases handles.len(),
{
    if handles.len() == 0 {
        None
    } else if stores[handles[0] as int].contains_key(key) {
        Some(stores[handles[0] as int][key])
    } else {
        first_match(stores, handles.drop_first(), key)
    }
}

/// Some entry of `handles` is the position `k`.
pub open spec fn connects(handles: Seq<usize>, k: int) -> bool {
    exists|j: int| 0 <= j < handles.len() && handles[j] == k
}

/// The switch stores once `value` is published under `key` on every switch at
/// `handles`, and on no other.
pub open spec fn broadcast(
    stores: Seq<Map<u64, AvionicsDataCommunicationNetworkMessageData>>,
    handles: Seq<usize>,
    key: u64,
    value: AvionicsDataCommunicationNetworkMessageData,
) -> Seq<Map<u64, AvionicsDataCommunicationNetworkMessageData>> {
    Seq::new(
        stores.len(),
        |k: int|
            if connects(handles, k) {
                stores[k].insert(key, value)
            } else {
                stores[k]
            },
    )
}

/// Every position in `handles` names a switch of `stores`.
pub open spec fn handles_within(
    stores: Seq<Map<u64, AvionicsDataCommunicationNetworkMessageData>>,
    handles: Seq<usize>,
) -> bool {
    forall|i: int| 0 <= i < handles.len() ==> handles[i] < stores.len()
}

/// A Core Processing Input/Output Module: powered from one bus, available when
/// powered and not failed, and attached to the network through an ordered list
/// of switches.
pub struct CoreProcessingInputOutputModule {
    power_supply: ElectricalBusType,
    is_powered: bool,
    available_id: VariableIdentifier,
    failure_indication_id: VariableIdentifier,
    failure_indication: bool,
    connected_switches: Vec<usize>,
}

impl CoreProcessingInputOutputModule {
    pub closed spec fn power_supply(&self) -> ElectricalBusType {
        self.power_supply
    }

    pub closed spec fn powered(&self) -> bool {
        self.is_powered
    }

    pub closed spec fn failure_indicated(&self) -> bool {
        self.failure_indication
    }

    pub closed spec fn available_id(&self) -> VariableIdentifier {
        self.available_id
    }

    pub closed spec fn failure_indication_id(&self) -> VariableIdentifier {
        self.failure_indication_id
    }

    /// The positions of the connected switches, in order of lookup priority.
    pub closed spec fn connected(&self) -> Seq<usize> {
        self.connected_switches@
    }

    /// Availability: powered and no failure indicated.
    pub open spec fn available(&self) -> bool {
        self.powered() && !self.failure_indicated()
    }

    /// A module called `name`, drawing from `power_supply` and attached to the
    /// switches at `connected_switches`, first to last in lookup priority. Its
    /// registry variables are `CPIOM_<name>_AVAIL` and `CPIOM_<name>_FAILURE`.
    /// It starts unpowered, with no failure indicated.
    pub fn new(
        context: &mut InitContext,
        name: &str,
        power_supply: ElectricalBusType,
        connected_switches: Vec<usize>,
    ) -> (r: Self)
        requires
            old(context).wf(),
        ensures
            final(context).wf(),
            final(context).names() == register(
                register(old(context).names(), available_variable_name(name@)),
                failure_variable_name(name@),
            ),
            final(context).names()[r.available_id().spec_index() as int]
                == available_variable_name(name@),
            final(context).names()[r.failure_indication_id().spec_index() as int]
                == failure_variable_name(name@),
            r.available_id() != r.failure_indication_id(),
            r.power_supply() == power_supply,
            !r.powered(),
            !r.failure_indicated(),
            !r.available(),
            r.connected() == connected_switches@,
    {
        let available_name = String::from_str("CPIOM_").concat(name).concat("_AVAIL");
        let failure_name = String::from_str("CPIOM_").concat(name).concat("_FAILURE");
        let available_id = context.get_identifier(available_name);
        let failure_indication_id = context.get_identifier(failure_name);
        proof {
            reveal_strlit("CPIOM_");
            reveal_strlit("_AVAIL");
            reveal_strlit("_FAILURE");
            assert(available_variable_name(name@).len() != failure_variable_name(name@).len());
        }
        CoreProcessingInputOutputModule {
            power_supply,
            is_powered: false,
            available_id,
            failure_indication_id,
            failure_indication: false,
            connected_switches,
        }
    }

    /// Whether the module is powered and no failure is indicated.
    #[verifier::when_used_as_spec(available)]
    pub fn is_available(&self) -> (r: bool)
        ensures
            r == (self.powered() && !self.failure_indicated()),
    {
        self.is_powered && !self.failure_indication
    }

    /// `self` and `other` draw from the same bus, use the same registry
    /// variables and are attached to the same switches.
    pub open spec fn same_wiring(&self, other: &Self) -> bool {
        &&& self.power_supply() == other.power_supply()
        &&& self.available_id() == other.available_id()
        &&& self.failure_indication_id() == other.failure_indication_id()
        &&& self.connected() == other.connected()
    }

    /// `self` is what the read hook makes of `before` on registry state `vars`.
    pub open spec fn read_from(&self, before: &Self, vars: &SimulatorVariables) -> bool {
        &&& self.same_wiring(before)
        &&& self.powered() == before.powered()
        &&& self.failure_indicated() == vars.value(before.failure_indication_id())
    }

    /// `self` is what the power hook makes of `before` when the bus it draws
    /// from is powered or not as `powered` says.
    pub open spec fn powered_from(&self, before: &Self, powered: bool) -> bool {
        &&& self.same_wiring(before)
        &&& self.failure_indicated() == before.failure_indicated()
        &&& self.powered() == powered
    }

    /// Takes the failure indication from the registry.
    pub fn read(&mut self, reader: &SimulatorVariables)
        ensures
            final(self).read_from(old(self), reader),
    {
        self.failure_indication = reader.read(&self.failure_indication_id);
    }

    /// Publishes the availability in the registry, leaving every other
    /// variable as it was.
    pub fn write(&self, writer: &mut SimulatorVariables)
        ensures
            final(writer).value(self.available_id()) == self.available(),
            forall|other: VariableIdentifier|
                other != self.available_id() ==> final(writer).value(other) == old(writer).value(
                    other,
                ),
    {
        writer.write(&self.available_id, self.is_available());
    }

    /// Takes the power state of the module's bus from the electrical network.
    pub fn receive_power<B: ElectricalBuses>(&mut self, buses: &B)
        ensures
            final(self).powered_from(old(self), buses.bus_powered(old(self).power_supply())),
    {
        self.is_powered = buses.is_powered(self.power_supply);
    }

    /// This module's switches all belong to `network`.
    pub open spec fn attached_to(&self, network: &AvionicsDataCommunicationNetwork) -> bool {
        handles_within(network.stores(), self.connected())
    }

    /// The value last published under `id` on the first connected switch, in
    /// list order, that holds one; `None` when no switch holds one.
    pub fn recv_value(
        &self,
        network: &AvionicsDataCommunicationNetwork,
        id: &AvionicsDataCommunicationNetworkMessageIdentifier,
    ) -> (r: Option<AvionicsDataCommunicationNetworkMessageData>)
        requires
            self.attached_to(network),
        ensures
            r == first_match(network.stores(), self.connected(), id.key()),
    {
        let ghost stores = network.stores();
        let ghost handles = self.connected();
        assert(handles.subrange(0, handles.len() as int) =~= handles);
        let mut i: usize = 0;
        while i < self.connected_switches.len()
            invariant
                i <= handles.len(),
                stores == network.stores(),
                handles == self.connected(),
                self.attached_to(network),
                first_match(stores, handles, id.key()) == first_match(
                    stores,
                    handles.subrange(i as int, handles.len() as int),
                    id.key(),
                ),
            decreases handles.len() - i,
        {
            let handle = self.connected_switches[i];
            assert(handles.subrange(i as int, handles.len() as int).drop_first() =~= handles.subrange(
                i + 1,
                handles.len() as int,
            ));
            match network.switch(handle).recv_value(id) {
                Some(v) => {
                    return Some(v);
                },
                None => {},
            }
            i = i + 1;
        }
        None
    }

    /// Publishes `value` under `id` on every connected switch, whatever the
    /// module's own power and failure state.
    pub fn send_value(
        &self,
        network: &mut AvionicsDataCommunicationNetwork,
        id: &AvionicsDataCommunicationNetworkMessageIdentifier,
        value: AvionicsDataCommunicationNetworkMessageData,
    )
        requires
            self.attached_to(old(network)),
        ensures
            final(network).stores() == broadcast(
                old(network).stores(),
                self.connected(),
                id.key(),
                value,
            ),
    {
        let ghost stores = network.stores();
        let ghost handles = self.connected();
        let mut i: usize = 0;
        while i < self.connected_switches.len()
            invariant
                i <= handles.len(),
                handles == self.connected(),
                handles_within(stores, handles),
                network.stores() == broadcast(
                    stores,
                    handles.subrange(0, i as int),
                    id.key(),
                    value,
                ),
            decreases handles.len() - i,
        {
            let handle = self.connected_switches[i];
            let ghost mid = network.stores();
            network.send_value_to(handle, id, value);
            proof {
                let next = broadcast(stores, handles.subrange(0, i + 1), id.key(), value);
                assert forall|k: int| 0 <= k < stores.len() implies #[trigger] next[k]
                    == network.stores()[k] by {
                    let prev = handles.subrange(0, i as int);
                    let cur = handles.subrange(0, i + 1);
                    assert(cur =~= prev.push(handle));
                    assert(connects(cur, k) <==> (connects(prev, k) || handle == k)) by {
                        if connects(cur, k) {
                            let j = choose|j: int| 0 <= j < cur.len() && #[trigger] cur[j] == k;
                            if j < i {
                                assert(prev[j] == k);
                            }
                        }
                        if connects(prev, k) {
                            let j = choose|j: int| 0 <= j < prev.len() && #[trigger] prev[j] == k;
                            assert(cur[j] == k);
                        }
                        if handle == k {
                            assert(cur[i as int] == k);
                        }
                    }
                    if k == handle as int {
                        assert(mid[k].insert(id.key(), value) =~= stores[k].insert(id.key(), value).insert(
                            id.key(),
                            value,
                        ));
                    }
                }
                assert(next =~= network.stores());
            }
            i = i + 1;
        }
        assert(handles.subrange(0, handles.len() as int) =~= handles);
    }
}

/// A value published through a module that has at least one switch is what a
/// receive of the same identifier through that module then yields.
pub proof fn lemma_send_then_recv(
    module: &CoreProcessingInputOutputModule,
    before: &AvionicsDataCommunicationNetwork,
    after: &AvionicsDataCommunicationNetwork,
    id: AvionicsDataCommunicationNetworkMessageIdentifier,
    value: AvionicsDataCommunicationNetworkMessageData,
)
    requires
        module.attached_to(before),
        module.connected().len() >= 1,
        after.stores() == broadcast(before.stores(), module.connected(), id.key(), value),
    ensures
        first_match(after.stores(), module.connected(), id.key()) == Some(value),
{
    let handles = module.connected();
    assert(connects(handles, handles[0] as int));
}

/// A receive takes the value of the first switch in the list that holds one,
/// whatever the later switches hold for the same identifier.
pub proof fn lemma_first_switch_wins(
    module: &CoreProcessingInputOutputModule,
    network: &AvionicsDataCommunicationNetwork,
    id: AvionicsDataCommunicationNetworkMessageIdentifier,
)
    requires
        module.attached_to(network),
        module.connected().len() >= 1,
        network.stores()[module.connected()[0] as int].contains_key(id.key()),
    ensures
        first_match(network.stores(), module.connected(), id.key()) == Some(
            network.stores()[module.connected()[0] as int][id.key()],
        ),
{
}

/// After a send, every connected switch holds the value sent under its
/// identifier, and every other switch is as it was.
pub proof fn lemma_broadcast_reaches_every_switch(
    module: &CoreProcessingInputOutputModule,
    before: &AvionicsDataCommunicationNetwork,
    after: &AvionicsDataCommunicationNetwork,
    id: AvionicsDataCommunicationNetworkMessageIdentifier,
    value: AvionicsDataCommunicationNetworkMessageData,
)
    requires
        module.attached_to(before),
        after.stores() == broadcast(before.stores(), module.connected(), id.key(), value),
    ensures
        after.stores().len() == before.stores().len(),
        forall|j: int|
            0 <= j < module.connected().len() ==> {
                let store = #[trigger] after.stores()[module.connected()[j] as int];
                store.contains_key(id.key()) && store[id.key()] == value
            },
        forall|k: int|
            0 <= k < before.stores().len() && !connects(module.connected(), k) ==> after.stores()[k]
                == before.stores()[k],
{
    assert forall|j: int| 0 <= j < module.connected().len() implies {
        let store = #[trigger] after.stores()[module.connected()[j] as int];
        store.contains_key(id.key()) && store[id.key()] == value
    } by {
        assert(connects(module.connected(), module.connected()[j] as int));
    }
}

/// A module without switches receives nothing and sends without effect.
pub proof fn lemma_unconnected_module_is_inert(
    module: &CoreProcessingInputOutputModule,
    network: &AvionicsDataCommunicationNetwork,
    id: AvionicsDataCommunicationNetworkMessageIdentifier,
    value: AvionicsDataCommunicationNetworkMessageData,
)
    requires
        module.connected().len() == 0,
    ensures
        first_match(network.stores(), module.connected(), id.key()) == None::<
            AvionicsDataCommunicationNetworkMessageData,
        >,
        broadcast(network.stores(), module.connected(), id.key(), value) == network.stores(),
{
    assert(broadcast(network.stores(), module.connected(), id.key(), value) =~= network.stores());
}

/// With power present, a failure indication set in the registry makes the
/// module unavailable at the next read, reading the same registry again keeps
/// it so, and clearing the indication makes it available again at the next
/// read and the ones after it.
pub proof fn lemma_failure_indication_round_trip(
    powered: &CoreProcessingInputOutputModule,
    failed: &CoreProcessingInputOutputModule,
    still_failed: &CoreProcessingInputOutputModule,
    recovered: &CoreProcessingInputOutputModule,
    still_recovered: &CoreProcessingInputOutputModule,
    set: &SimulatorVariables,
    cleared: &SimulatorVariables,
)
    requires
        powered.powered(),
        set.value(powered.failure_indication_id()),
        !cleared.value(powered.failure_indication_id()),
        failed.read_from(powered, set),
        still_failed.read_from(failed, set),
        recovered.read_from(still_failed, cleared),
        still_recovered.read_from(recovered, cleared),
    ensures
        !failed.available(),
        !still_failed.available(),
        still_failed.failure_indicated() == failed.failure_indicated(),
        recovered.available(),
        still_recovered.available(),
{
}

} // verus!
