use std::collections::HashMap;
use vstd::prelude::*;

verus! {

broadcast use vstd::std_specs::hash::group_hash_axioms;

/// The identifier under which a message is published on the network.
#[derive(Clone, Copy, Debug, PartialEq, Eq, Structural)]
pub struct AvionicsDataCommunicationNetworkMessageIdentifier {
    value: u64,
}

impl AvionicsDataCommunicationNetworkMessageIdentifier {
    pub fn new(value: u64) -> (r: Self)
        ensures
            r.key() == value,
    {
        AvionicsDataCommunicationNetworkMessageIdentifier { value }
    }

    /// The number that names this message.
    pub closed spec fn key(&self) -> u64 {
        self.value
    }

    pub fn value(&self) -> (r: u64)
        ensures
            r == self.key(),
    {
        self.value
    }
}

/// The payload of a message.
#[derive(Clone, Copy, Debug, PartialEq, Eq, Structural)]
pub enum AvionicsDataCommunicationNetworkMessageData {
    Discrete(bool),
    Unsigned(u64),
    Signed(i64),
}

/// A switch of the network: it keeps, for each message identifier, the last
/// value published under it.
pub struct AvionicsFullDuplexSwitch {
    messages: HashMap<u64, AvionicsDataCommunicationNetworkMessageData>,
}

impl AvionicsFullDuplexSwitch {
    /// The messages held, by identifier key.
    pub closed spec fn stored(&self) -> Map<u64, AvionicsDataCommunicationNetworkMessageData> {
        self.messages@
    }

    /// What a receive of `id` on this switch yields.
    pub open spec fn lookup(
        &self,
        id: AvionicsDataCommunicationNetworkMessageIdentifier,
    ) -> Option<AvionicsDataCommunicationNetworkMessageData> {
        if self.stored().contains_key(id.key()) {
            Some(self.stored()[id.key()])
        } else {
            None
        }
    }

    /// A switch that holds no message.
    pub fn new() -> (r: Self)
        ensures
            r.stored() == Map::<u64, AvionicsDataCommunicationNetworkMessageData>::empty(),
    {
        AvionicsFullDuplexSwitch { messages: HashMap::new() }
    }

    pub fn recv_value(&self, id: &AvionicsDataCommunicationNetworkMessageIdentifier) -> (r: Option<
        AvionicsDataCommunicationNetworkMessageData,
    >)
        ensures
            r == self.lookup(*id),
    {
        match self.messages.get(&id.value) {
            Some(v) => Some(*v),
            None => None,
        }
    }

    pub fn send_value(
        &mut self,
        id: &AvionicsDataCommunicationNetworkMessageIdentifier,
        value: AvionicsDataCommunicationNetworkMessageData,
    )
        ensures
            final(self).stored() == old(self).stored().insert(id.key(), value),
    {
        self.messages.insert(id.value, value);
    }
}

/// The switches of the network, each addressed by its position. Units attached
/// to a switch hold its position; the network is handed to them whenever they
/// send or receive.
pub struct AvionicsDataCommunicationNetwork {
    switches: Vec<AvionicsFullDuplexSwitch>,
}

impl AvionicsDataCommunicationNetwork {
    /// What each switch holds, by position.
    pub closed spec fn stores(&self) -> Seq<Map<u64, AvionicsDataCommunicationNetworkMessageData>> {
        self.switches@.map_values(|s: AvionicsFullDuplexSwitch| s.stored())
    }

    /// A network without switches.
    pub fn new() -> (r: Self)
        ensures
            r.stores() == Seq::<Map<u64, AvionicsDataCommunicationNetworkMessageData>>::empty(),
    {
        let r = AvionicsDataCommunicationNetwork { switches: Vec::new() };
        assert(r.stores() =~= Seq::<Map<u64, AvionicsDataCommunicationNetworkMessageData>>::empty());
        r
    }

    /// Adds an empty switch and returns its position.
    pub fn add_switch(&mut self) -> (r: usize)
        requires
            old(self).stores().len() < usize::MAX,
        ensures
            r == old(self).stores().len(),
            final(self).stores() == old(self).stores().push(
                Map::<u64, AvionicsDataCommunicationNetworkMessageData>::empty(),
            ),
    {
        let ghost before = self.stores();
        let r = self.switches.len();
        self.switches.push(AvionicsFullDuplexSwitch::new());
        assert(self.stores() =~= before.push(
            Map::<u64, AvionicsDataCommunicationNetworkMessageData>::empty(),
        ));
        r
    }

    pub fn switch_count(&self) -> (r: usize)
        ensures
            r == self.stores().len(),
    {
        self.switches.len()
    }

    /// The switch at position `index`.
    pub fn switch(&self, index: usize) -> (r: &AvionicsFullDuplexSwitch)
        requires
            index < self.stores().len(),
        ensures
            r.stored() == self.stores()[index as int],
    {
        &self.switches[index]
    }

    /// Publishes `value` under `id` on the switch at position `index`.
    pub fn send_value_to(
        &mut self,
        index: usize,
        id: &AvionicsDataCommunicationNetworkMessageIdentifier,
        value: AvionicsDataCommunicationNetworkMessageData,
    )
        requires
            index < old(self).stores().len(),
        ensures
            final(self).stores() == old(self).stores().update(
                index as int,
                old(self).stores()[index as int].insert(id.key(), value),
            ),
    {
        let ghost before = self.stores();
        self.switches[index].send_value(id, value);
        assert(self.stores() =~= before.update(
            index as int,
            before[index as int].insert(id.key(), value),
        ));
    }
}

} // verus!
