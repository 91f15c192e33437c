//! A Core Processing Input/Output Module (CPIOM): an avionics unit that draws
//! power from one electrical bus, publishes an availability signal, and acts as
//! an endpoint of the avionics data communication network over redundant
//! switches.

pub mod core_processing_input_output_module;
pub mod electrical;
pub mod network;
pub mod simulation;

pub use core_processing_input_output_module::CoreProcessingInputOutputModule;
pub use electrical::{ElectricalBusType, ElectricalBuses, PoweredBuses};
pub use network::{
    AvionicsDataCommunicationNetwork, AvionicsDataCommunicationNetworkMessageData,
    AvionicsDataCommunicationNetworkMessageIdentifier, AvionicsFullDuplexSwitch,
};
pub use simulation::{InitContext, SimulatorVariables, VariableIdentifier};
