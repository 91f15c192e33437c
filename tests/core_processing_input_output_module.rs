use cpiom::{
    AvionicsDataCommunicationNetwork, AvionicsDataCommunicationNetworkMessageData,
    AvionicsDataCommunicationNetworkMessageIdentifier, CoreProcessingInputOutputModule,
    ElectricalBusType, ElectricalBuses, InitContext, PoweredBuses, SimulatorVariables,
};

fn buses_with(powered: bool, bus: ElectricalBusType) -> PoweredBuses {
    let mut buses = PoweredBuses::new();
    if powered {
        buses.power(bus);
    }
    buses
}

fn message(key: u64) -> AvionicsDataCommunicationNetworkMessageIdentifier {
    AvionicsDataCommunicationNetworkMessageIdentifier::new(key)
}

#[test]
fn availability_follows_power_and_failure_table() {
    for &powered in &[false, true] {
        for &failed in &[false, true] {
            let mut context = InitContext::new();
            let mut module = CoreProcessingInputOutputModule::new(
                &mut context,
                "1",
                ElectricalBusType::DirectCurrent(1),
                vec![],
            );
            let failure_id = context.get_identifier("CPIOM_1_FAILURE".to_string());
            let mut vars = SimulatorVariables::new();
            vars.write(&failure_id, failed);
            module.receive_power(&buses_with(powered, ElectricalBusType::DirectCurrent(1)));
            module.read(&vars);
            assert_eq!(module.is_available(), powered && !failed);
        }
    }
}

#[test]
fn fresh_module_is_unavailable() {
    let mut context = InitContext::new();
    let module = CoreProcessingInputOutputModule::new(
        &mut context,
        "1",
        ElectricalBusType::DirectCurrentEssential,
        vec![],
    );
    assert!(!module.is_available());
}

#[test]
fn send_then_recv_on_single_switch() {
    let mut context = InitContext::new();
    let mut network = AvionicsDataCommunicationNetwork::new();
    let switch = network.add_switch();
    let module = CoreProcessingInputOutputModule::new(
        &mut context,
        "1",
        ElectricalBusType::DirectCurrent(1),
        vec![switch],
    );
    let value = AvionicsDataCommunicationNetworkMessageData::Unsigned(42);
    module.send_value(&mut network, &message(5), value);
    assert_eq!(module.recv_value(&network, &message(5)), Some(value));
    assert_eq!(module.recv_value(&network, &message(6)), None);
}

#[test]
fn last_written_value_is_received() {
    let mut context = InitContext::new();
    let mut network = AvionicsDataCommunicationNetwork::new();
    let switch = network.add_switch();
    let module = CoreProcessingInputOutputModule::new(
        &mut context,
        "1",
        ElectricalBusType::DirectCurrent(1),
        vec![switch],
    );
    module.send_value(&mut network, &message(5), AvionicsDataCommunicationNetworkMessageData::Signed(-1));
    module.send_value(&mut network, &message(5), AvionicsDataCommunicationNetworkMessageData::Signed(9));
    assert_eq!(
        module.recv_value(&network, &message(5)),
        Some(AvionicsDataCommunicationNetworkMessageData::Signed(9))
    );
}

#[test]
fn first_switch_in_list_wins() {
    let mut context = InitContext::new();
    let mut network = AvionicsDataCommunicationNetwork::new();
    let a = network.add_switch();
    let b = network.add_switch();
    let writer_a =
        CoreProcessingInputOutputModule::new(&mut context, "A", ElectricalBusType::DirectCurrent(1), vec![a]);
    let writer_b =
        CoreProcessingInputOutputModule::new(&mut context, "B", ElectricalBusType::DirectCurrent(2), vec![b]);
    // B's value is written last, yet A comes first in the reader's list.
    writer_a.send_value(&mut network, &message(3), AvionicsDataCommunicationNetworkMessageData::Unsigned(1));
    writer_b.send_value(&mut network, &message(3), AvionicsDataCommunicationNetworkMessageData::Unsigned(2));
    let reader_ab =
        CoreProcessingInputOutputModule::new(&mut context, "AB", ElectricalBusType::DirectCurrent(1), vec![a, b]);
    let reader_ba =
        CoreProcessingInputOutputModule::new(&mut context, "BA", ElectricalBusType::DirectCurrent(1), vec![b, a]);
    assert_eq!(
        reader_ab.recv_value(&network, &message(3)),
        Some(AvionicsDataCommunicationNetworkMessageData::Unsigned(1))
    );
    assert_eq!(
        reader_ba.recv_value(&network, &message(3)),
        Some(AvionicsDataCommunicationNetworkMessageData::Unsigned(2))
    );
}

#[test]
fn later_switch_answers_when_first_lacks_value() {
    let mut context = InitContext::new();
    let mut network = AvionicsDataCommunicationNetwork::new();
    let a = network.add_switch();
    let b = network.add_switch();
    let writer_b =
        CoreProcessingInputOutputModule::new(&mut context, "B", ElectricalBusType::DirectCurrent(2), vec![b]);
    writer_b.send_value(&mut network, &message(3), AvionicsDataCommunicationNetworkMessageData::Discrete(true));
    let reader =
        CoreProcessingInputOutputModule::new(&mut context, "R", ElectricalBusType::DirectCurrent(1), vec![a, b]);
    assert_eq!(
        reader.recv_value(&network, &message(3)),
        Some(AvionicsDataCommunicationNetworkMessageData::Discrete(true))
    );
}

#[test]
fn send_reaches_every_connected_switch() {
    let mut context = InitContext::new();
    let mut network = AvionicsDataCommunicationNetwork::new();
    let switches: Vec<usize> = (0..4).map(|_| network.add_switch()).collect();
    let outside = network.add_switch();
    let module = CoreProcessingInputOutputModule::new(
        &mut context,
        "1",
        ElectricalBusType::DirectCurrent(1),
        switches.clone(),
    );
    let value = AvionicsDataCommunicationNetworkMessageData::Unsigned(77);
    module.send_value(&mut network, &message(11), value);
    for &s in &switches {
        assert_eq!(network.switch(s).recv_value(&message(11)), Some(value));
    }
    assert_eq!(network.switch(outside).recv_value(&message(11)), None);
    assert_eq!(network.switch_count(), 5);
}

#[test]
fn failure_indication_round_trip() {
    let mut context = InitContext::new();
    let mut module = CoreProcessingInputOutputModule::new(
        &mut context,
        "1",
        ElectricalBusType::DirectCurrent(1),
        vec![],
    );
    let failure_id = context.get_identifier("CPIOM_1_FAILURE".to_string());
    let buses = buses_with(true, ElectricalBusType::DirectCurrent(1));
    let mut vars = SimulatorVariables::new();
    module.receive_power(&buses);
    vars.write(&failure_id, true);
    module.read(&vars);
    assert!(!module.is_available());
    module.read(&vars);
    assert!(!module.is_available());
    vars.write(&failure_id, false);
    module.read(&vars);
    assert!(module.is_available());
    module.read(&vars);
    assert!(module.is_available());
}

#[test]
fn unconnected_fcu_scenario() {
    let mut context = InitContext::new();
    let network_before = AvionicsDataCommunicationNetwork::new();
    let mut network = AvionicsDataCommunicationNetwork::new();
    let mut module = CoreProcessingInputOutputModule::new(
        &mut context,
        "FCU1",
        ElectricalBusType::DirectCurrentEssential,
        vec![],
    );
    for key in [0u64, 1, u64::MAX] {
        assert_eq!(module.recv_value(&network, &message(key)), None);
    }
    module.send_value(&mut network, &message(1), AvionicsDataCommunicationNetworkMessageData::Unsigned(1));
    assert_eq!(network.switch_count(), network_before.switch_count());
    assert_eq!(module.recv_value(&network, &message(1)), None);

    assert!(!module.is_available());
    module.receive_power(&buses_with(true, ElectricalBusType::DirectCurrentEssential));
    assert!(module.is_available());
    module.receive_power(&buses_with(false, ElectricalBusType::DirectCurrentEssential));
    assert!(!module.is_available());
    module.receive_power(&buses_with(true, ElectricalBusType::DirectCurrent(1)));
    assert!(!module.is_available());
}

#[test]
fn registry_names_follow_convention() {
    let mut context = InitContext::new();
    let mut module = CoreProcessingInputOutputModule::new(
        &mut context,
        "FCU1",
        ElectricalBusType::DirectCurrentEssential,
        vec![],
    );
    let available_id = context.get_identifier("CPIOM_FCU1_AVAIL".to_string());
    let failure_id = context.get_identifier("CPIOM_FCU1_FAILURE".to_string());
    assert_ne!(available_id, failure_id);
    assert_eq!(available_id.index(), 0);
    assert_eq!(failure_id.index(), 1);

    let mut vars = SimulatorVariables::new();
    vars.write(&available_id, true);
    module.write(&mut vars);
    assert!(!vars.read(&available_id));

    module.receive_power(&buses_with(true, ElectricalBusType::DirectCurrentEssential));
    module.write(&mut vars);
    assert!(vars.read(&available_id));
    assert!(!vars.read(&failure_id));
}

#[test]
fn two_modules_get_distinct_identifiers() {
    let mut context = InitContext::new();
    let _first =
        CoreProcessingInputOutputModule::new(&mut context, "1", ElectricalBusType::DirectCurrent(1), vec![]);
    let _second =
        CoreProcessingInputOutputModule::new(&mut context, "2", ElectricalBusType::DirectCurrent(2), vec![]);
    let ids = [
        context.get_identifier("CPIOM_1_AVAIL".to_string()),
        context.get_identifier("CPIOM_1_FAILURE".to_string()),
        context.get_identifier("CPIOM_2_AVAIL".to_string()),
        context.get_identifier("CPIOM_2_FAILURE".to_string()),
    ];
    let indices: Vec<usize> = ids.iter().map(|id| id.index()).collect();
    assert_eq!(indices, vec![0, 1, 2, 3]);
}

#[test]
fn unwritten_variables_read_false_and_writes_stay_apart() {
    let mut context = InitContext::new();
    let a = context.get_identifier("A".to_string());
    let b = context.get_identifier("B".to_string());
    let mut vars = SimulatorVariables::new();
    assert!(!vars.read(&a));
    vars.write(&b, true);
    assert!(vars.read(&b));
    assert!(!vars.read(&a));
    vars.write(&a, true);
    vars.write(&b, false);
    assert!(vars.read(&a));
    assert!(!vars.read(&b));
}

#[test]
fn powered_buses_report_only_powered() {
    let mut buses = PoweredBuses::new();
    assert!(!buses.is_powered(ElectricalBusType::AlternatingCurrent(1)));
    buses.power(ElectricalBusType::AlternatingCurrent(1));
    assert!(buses.is_powered(ElectricalBusType::AlternatingCurrent(1)));
    assert!(!buses.is_powered(ElectricalBusType::AlternatingCurrent(2)));
    assert!(!buses.is_powered(ElectricalBusType::DirectCurrentEssential));
}
