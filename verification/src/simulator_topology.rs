//! The SOVD topology that the gateway publishes for the simulator.
//!
//! Component ids and data ids are the SOVD-facing contract; the signal ids name
//! what the backend reads, so that another signal source can replace the
//! simulator without changing the published ids.

use vstd::prelude::*;

use crate::simulator_backend::{string_route_of, vin_signal};

verus! {

/// The kind of SOVD data a resource belongs to.
#[derive(Clone, Copy, Debug, PartialEq, Eq, Structural)]
pub enum Category {
    IdentData,
    CurrentData,
    StoredData,
}

/// The SOVD data category that a published resource is listed under.
#[derive(Clone, Copy, Debug, PartialEq, Eq, Structural)]
pub enum DataCategory {
    IdentData,
    CurrentData,
    StoredData,
}

/// The SOVD data category of a resource category.
pub open spec fn data_category_of(category: Category) -> DataCategory {
    match category {
        Category::IdentData => DataCategory::IdentData,
        Category::CurrentData => DataCategory::CurrentData,
        Category::StoredData => DataCategory::StoredData,
    }
}

impl Category {
    /// The SOVD data category this resource category is published under.
    pub fn as_data_category(self) -> (category: DataCategory)
        ensures
            category == data_category_of(self),
    {
        match self {
            Category::IdentData => DataCategory::IdentData,
            Category::CurrentData => DataCategory::CurrentData,
            Category::StoredData => DataCategory::StoredData,
        }
    }
}

/// The type of value a signal delivers.
#[derive(Clone, Copy, Debug, PartialEq, Eq, Structural)]
pub enum DataType {
    Number,
    Integer,
    String,
}

/// One published data resource and the signal that serves it.
pub struct ResourceSpec {
    pub data_id: &'static str,
    pub name: &'static str,
    pub category: Category,
    pub groups: Vec<&'static str>,
    pub tags: Vec<&'static str>,
    pub signal_id: &'static str,
    pub datatype: DataType,
}

/// The abstract content of a [`ResourceSpec`].
pub struct ResourceView {
    pub data_id: Seq<char>,
    pub name: Seq<char>,
    pub category: Category,
    pub groups: Seq<Seq<char>>,
    pub tags: Seq<Seq<char>>,
    pub signal_id: Seq<char>,
    pub datatype: DataType,
}

/// The characters of each text in `texts`.
pub open spec fn texts_of(texts: Seq<&'static str>) -> Seq<Seq<char>> {
    texts.map_values(|text: &'static str| text@)
}

impl View for ResourceSpec {
    type V = ResourceView;

    open spec fn view(&self) -> ResourceView {
        ResourceView {
            data_id: self.data_id@,
            name: self.name@,
            category: self.category,
            groups: texts_of(self.groups@),
            tags: texts_of(self.tags@),
            signal_id: self.signal_id@,
            datatype: self.datatype,
        }
    }
}

/// The views of a sequence of resources.
pub open spec fn views_of(resources: Seq<ResourceSpec>) -> Seq<ResourceView> {
    resources.map_values(|resource: ResourceSpec| resource@)
}

/// The tags that every resource backed by the live simulator carries.
pub open spec fn live_tag_texts() -> Seq<Seq<char>> {
    seq!["live"@, "simulator"@]
}

/// A resource backed by the live simulator.
pub open spec fn resource_view(
    data_id: Seq<char>,
    name: Seq<char>,
    category: Category,
    groups: Seq<Seq<char>>,
    signal_id: Seq<char>,
    datatype: DataType,
) -> ResourceView {
    ResourceView {
        data_id,
        name,
        category,
        groups,
        tags: live_tag_texts(),
        signal_id,
        datatype,
    }
}

fn live_tags() -> (tags: Vec<&'static str>)
    ensures
        texts_of(tags@) == live_tag_texts(),
{
    let tags = vec!["live", "simulator"];
    assert(texts_of(tags@) =~= live_tag_texts());
    tags
}

fn one_text(text: &'static str) -> (texts: Vec<&'static str>)
    ensures
        texts_of(texts@) == seq![text@],
{
    let texts = vec![text];
    assert(texts_of(texts@) =~= seq![text@]);
    texts
}

fn two_texts(first: &'static str, second: &'static str) -> (texts: Vec<&'static str>)
    ensures
        texts_of(texts@) == seq![first@, second@],
{
    let texts = vec![first, second];
    assert(texts_of(texts@) =~= seq![first@, second@]);
    texts
}

fn four_texts(
    first: &'static str,
    second: &'static str,
    third: &'static str,
    fourth: &'static str,
) -> (texts: Vec<&'static str>)
    ensures
        texts_of(texts@) == seq![first@, second@, third@, fourth@],
{
    let texts = vec![first, second, third, fourth];
    assert(texts_of(texts@) =~= seq![first@, second@, third@, fourth@]);
    texts
}

fn live_resource(
    data_id: &'static str,
    name: &'static str,
    category: Category,
    groups: Vec<&'static str>,
    signal_id: &'static str,
    datatype: DataType,
) -> (resource: ResourceSpec)
    ensures
        resource@ == resource_view(data_id@, name@, category, texts_of(groups@), signal_id@, datatype),
{
    ResourceSpec { data_id, name, category, groups, tags: live_tags(), signal_id, datatype }
}

/// The data resources of the `hpc2` component.
pub open spec fn hpc2_table() -> Seq<ResourceView> {
    seq![
        resource_view(
            "vehicle_speed"@,
            "Vehicle Speed"@,
            Category::CurrentData,
            seq!["currentTrip"@, "powertrain"@],
            "vehicle.speed"@,
            DataType::Number,
        ),
        resource_view(
            "total_distance"@,
            "Odometer"@,
            Category::StoredData,
            seq!["lifetime"@],
            "vehicle.odometer"@,
            DataType::Number,
        ),
        resource_view(
            "trip_time"@,
            "Trip Time"@,
            Category::StoredData,
            seq!["currentTrip"@],
            "vehicle.trip_time"@,
            DataType::Number,
        ),
        resource_view(
            "propulsion_active_time"@,
            "Propulsion Active Time"@,
            Category::StoredData,
            seq!["currentTrip"@],
            "vehicle.propulsion_active_time"@,
            DataType::Number,
        ),
        resource_view(
            "accelerator_pedal"@,
            "Accelerator Pedal Position"@,
            Category::CurrentData,
            seq!["currentTrip"@, "powertrain"@],
            "vehicle.accelerator_pedal"@,
            DataType::Number,
        ),
        resource_view(
            "motor_speed"@,
            "Motor Speed"@,
            Category::CurrentData,
            seq!["currentTrip"@, "powertrain"@],
            "powertrain.motor_speed"@,
            DataType::Number,
        ),
        resource_view(
            "distance_since_fault_clear"@,
            "Distance since fault memory cleared"@,
            Category::StoredData,
            seq!["lifetime"@],
            "vehicle.distance_since_fault_clear_km"@,
            DataType::Number,
        ),
        resource_view(
            "propulsion_trips_since_fault_clear"@,
            "Propulsion trips since fault memory cleared"@,
            Category::StoredData,
            seq!["lifetime"@],
            "vehicle.propulsion_trips_since_fault_clear"@,
            DataType::Integer,
        ),
        resource_view(
            "vin"@,
            "VIN"@,
            Category::IdentData,
            seq!["identification"@],
            "vehicle.vin"@,
            DataType::String,
        ),
    ]
}

/// The data resources of the `hpc2` component, in the order they are published.
pub fn hpc2_resources() -> (resources: Vec<ResourceSpec>)
    ensures
        views_of(resources@) == hpc2_table(),
{
    let resources = vec![
        live_resource(
            "vehicle_speed",
            "Vehicle Speed",
            Category::CurrentData,
            two_texts("currentTrip", "powertrain"),
            "vehicle.speed",
            DataType::Number,
        ),
        live_resource(
            "total_distance",
            "Odometer",
            Category::StoredData,
            one_text("lifetime"),
            "vehicle.odometer",
            DataType::Number,
        ),
        live_resource(
            "trip_time",
            "Trip Time",
            Category::StoredData,
            one_text("currentTrip"),
            "vehicle.trip_time",
            DataType::Number,
        ),
        live_resource(
            "propulsion_active_time",
            "Propulsion Active Time",
            Category::StoredData,
            one_text("currentTrip"),
            "vehicle.propulsion_active_time",
            DataType::Number,
        ),
        live_resource(
            "accelerator_pedal",
            "Accelerator Pedal Position",
            Category::CurrentData,
            two_texts("currentTrip", "powertrain"),
            "vehicle.accelerator_pedal",
            DataType::Number,
        ),
        live_resource(
            "motor_speed",
            "Motor Speed",
            Category::CurrentData,
            two_texts("currentTrip", "powertrain"),
            "powertrain.motor_speed",
            DataType::Number,
        ),
        live_resource(
            "distance_since_fault_clear",
            "Distance since fault memory cleared",
            Category::StoredData,
            one_text("lifetime"),
            "vehicle.distance_since_fault_clear_km",
            DataType::Number,
        ),
        live_resource(
            "propulsion_trips_since_fault_clear",
            "Propulsion trips since fault memory cleared",
            Category::StoredData,
            one_text("lifetime"),
            "vehicle.propulsion_trips_since_fault_clear",
            DataType::Integer,
        ),
        live_resource(
            "vin",
            "VIN",
            Category::IdentData,
            one_text("identification"),
            "vehicle.vin",
            DataType::String,
        ),
    ];
    assert(views_of(resources@) =~= hpc2_table());
    resources
}

/// The data resources of the `bms` component.
pub open spec fn bms_table() -> Seq<ResourceView> {
    seq![
        resource_view(
            "hv_battery_soc"@,
            "Battery SOC"@,
            Category::CurrentData,
            seq!["hvBattery"@],
            "bms.soc"@,
            DataType::Number,
        ),
        resource_view(
            "hv_battery_voltage"@,
            "Battery Voltage"@,
            Category::CurrentData,
            seq!["hvBattery"@],
            "bms.voltage"@,
            DataType::Number,
        ),
        resource_view(
            "hv_battery_current"@,
            "Battery Current"@,
            Category::CurrentData,
            seq!["hvBattery"@],
            "bms.current"@,
            DataType::Number,
        ),
        resource_view(
            "hv_battery_power"@,
            "Battery Power"@,
            Category::CurrentData,
            seq!["hvBattery"@],
            "bms.power"@,
            DataType::Number,
        ),
        resource_view(
            "hv_battery_system_voltage"@,
            "Battery System Voltage"@,
            Category::CurrentData,
            seq!["hvBattery"@],
            "bms.system_voltage"@,
            DataType::Number,
        ),
        resource_view(
            "hv_battery_max_cell_v"@,
            "Max Cell Voltage"@,
            Category::CurrentData,
            seq!["hvBattery"@],
            "bms.max_cell_voltage"@,
            DataType::Number,
        ),
        resource_view(
            "hv_battery_min_cell_v"@,
            "Min Cell Voltage"@,
            Category::CurrentData,
            seq!["hvBattery"@],
            "bms.min_cell_voltage"@,
            DataType::Number,
        ),
        resource_view(
            "hv_battery_current_1s"@,
            "Battery Current (1s)"@,
            Category::CurrentData,
            seq!["hvBattery"@],
            "bms.current_1s"@,
            DataType::Number,
        ),
        resource_view(
            "hv_battery_energy_1s"@,
            "Battery Energy (1s)"@,
            Category::CurrentData,
            seq!["hvBattery"@],
            "bms.energy_1s_wh"@,
            DataType::Number,
        ),
        resource_view(
            "hv_battery_consumption_1s"@,
            "Consumption (1s)"@,
            Category::CurrentData,
            seq!["hvBattery"@],
            "bms.consumption_1s_wh"@,
            DataType::Number,
        ),
        resource_view(
            "hv_battery_soh"@,
            "Battery SOH"@,
            Category::StoredData,
            seq!["hvBattery"@, "health"@],
            "bms.soh"@,
            DataType::Number,
        ),
        resource_view(
            "distance_since_soh_reset"@,
            "Distance since SOH reset"@,
            Category::StoredData,
            seq!["hvBattery"@, "health"@],
            "bms.distance_since_soh_reset_km"@,
            DataType::Number,
        ),
    ]
}

/// The data resources of the `bms` component, in the order they are published.
pub fn bms_resources() -> (resources: Vec<ResourceSpec>)
    ensures
        views_of(resources@) == bms_table(),
{
    let resources = vec![
        live_resource(
            "hv_battery_soc",
            "Battery SOC",
            Category::CurrentData,
            one_text("hvBattery"),
            "bms.soc",
            DataType::Number,
        ),
        live_resource(
            "hv_battery_voltage",
            "Battery Voltage",
            Category::CurrentData,
            one_text("hvBattery"),
            "bms.voltage",
            DataType::Number,
        ),
        live_resource(
            "hv_battery_current",
            "Battery Current",
            Category::CurrentData,
            one_text("hvBattery"),
            "bms.current",
            DataType::Number,
        ),
        live_resource(
            "hv_battery_power",
            "Battery Power",
            Category::CurrentData,
            one_text("hvBattery"),
            "bms.power",
            DataType::Number,
        ),
        live_resource(
            "hv_battery_system_voltage",
            "Battery System Voltage",
            Category::CurrentData,
            one_text("hvBattery"),
            "bms.system_voltage",
            DataType::Number,
        ),
        live_resource(
            "hv_battery_max_cell_v",
            "Max Cell Voltage",
            Category::CurrentData,
            one_text("hvBattery"),
            "bms.max_cell_voltage",
            DataType::Number,
        ),
        live_resource(
            "hv_battery_min_cell_v",
            "Min Cell Voltage",
            Category::CurrentData,
            one_text("hvBattery"),
            "bms.min_cell_voltage",
            DataType::Number,
        ),
        live_resource(
            "hv_battery_current_1s",
            "Battery Current (1s)",
            Category::CurrentData,
            one_text("hvBattery"),
            "bms.current_1s",
            DataType::Number,
        ),
        live_resource(
            "hv_battery_energy_1s",
            "Battery Energy (1s)",
            Category::CurrentData,
            one_text("hvBattery"),
            "bms.energy_1s_wh",
            DataType::Number,
        ),
        live_resource(
            "hv_battery_consumption_1s",
            "Consumption (1s)",
            Category::CurrentData,
            one_text("hvBattery"),
            "bms.consumption_1s_wh",
            DataType::Number,
        ),
        live_resource(
            "hv_battery_soh",
            "Battery SOH",
            Category::StoredData,
            two_texts("hvBattery", "health"),
            "bms.soh",
            DataType::Number,
        ),
        live_resource(
            "distance_since_soh_reset",
            "Distance since SOH reset",
            Category::StoredData,
            two_texts("hvBattery", "health"),
            "bms.distance_since_soh_reset_km",
            DataType::Number,
        ),
    ];
    assert(views_of(resources@) =~= bms_table());
    resources
}

/// The data resources of the `hydraulics` component.
pub open spec fn hydraulics_table() -> Seq<ResourceView> {
    seq![
        resource_view(
            "main_pressure"@,
            "Main Hydraulic Pressure"@,
            Category::CurrentData,
            seq!["hydraulics"@],
            "hydraulic.main_pressure"@,
            DataType::Number,
        ),
        resource_view(
            "hydraulic_pump_speed"@,
            "Hydraulic Pump Speed"@,
            Category::CurrentData,
            seq!["hydraulics"@],
            "hydraulic.pump_speed"@,
            DataType::Number,
        ),
        resource_view(
            "hydraulic_valve_position"@,
            "Hydraulic Valve Position"@,
            Category::CurrentData,
            seq!["hydraulics"@],
            "hydraulic.valve_position"@,
            DataType::Number,
        ),
    ]
}

/// The data resources of the `hydraulics` component, in the order they are published.
pub fn hydraulics_resources() -> (resources: Vec<ResourceSpec>)
    ensures
        views_of(resources@) == hydraulics_table(),
{
    let resources = vec![
        live_resource(
            "main_pressure",
            "Main Hydraulic Pressure",
            Category::CurrentData,
            one_text("hydraulics"),
            "hydraulic.main_pressure",
            DataType::Number,
        ),
        live_resource(
            "hydraulic_pump_speed",
            "Hydraulic Pump Speed",
            Category::CurrentData,
            one_text("hydraulics"),
            "hydraulic.pump_speed",
            DataType::Number,
        ),
        live_resource(
            "hydraulic_valve_position",
            "Hydraulic Valve Position",
            Category::CurrentData,
            one_text("hydraulics"),
            "hydraulic.valve_position",
            DataType::Number,
        ),
    ];
    assert(views_of(resources@) =~= hydraulics_table());
    resources
}

/// The data resources of the `infotainment` component.
pub open spec fn infotainment_table() -> Seq<ResourceView> {
    seq![
        resource_view(
            "hu_uptime"@,
            "System Uptime"@,
            Category::CurrentData,
            seq!["system"@, "lifecycle"@],
            "hu.system.uptime"@,
            DataType::Number,
        ),
        resource_view(
            "hu_restart_counter"@,
            "Restart Counter"@,
            Category::StoredData,
            seq!["lifetime"@, "system"@],
            "hu.system.restart_counter"@,
            DataType::Integer,
        ),
        resource_view(
            "hu_cpu_usage"@,
            "CPU Load"@,
            Category::CurrentData,
            seq!["system"@, "performance"@],
            "hu.system.cpu_usage"@,
            DataType::Number,
        ),
        resource_view(
            "hu_memory_usage"@,
            "Memory Utilization"@,
            Category::CurrentData,
            seq!["system"@, "performance"@],
            "hu.system.memory_usage"@,
            DataType::Number,
        ),
        resource_view(
            "hu_temperature"@,
            "SoC Temperature"@,
            Category::CurrentData,
            seq!["system"@, "thermal"@],
            "hu.hardware.temperature"@,
            DataType::Number,
        ),
        resource_view(
            "hu_supply_voltage"@,
            "KL30 Supply Voltage"@,
            Category::CurrentData,
            seq!["hardware"@, "electrical"@],
            "hu.hardware.supply_voltage"@,
            DataType::Number,
        ),
        resource_view(
            "hu_reboot_in_progress"@,
            "Reboot In Progress"@,
            Category::CurrentData,
            seq!["system"@, "lifecycle"@],
            "hu.system.reboot_in_progress"@,
            DataType::Number,
        ),
        resource_view(
            "hu_undervoltage_active"@,
            "Undervoltage Active"@,
            Category::CurrentData,
            seq!["hardware"@, "electrical"@],
            "hu.hardware.undervoltage_active"@,
            DataType::Number,
        ),
        resource_view(
            "hu_thermal_protection_active"@,
            "Thermal Protection Active"@,
            Category::CurrentData,
            seq!["hardware"@, "thermal"@],
            "hu.hardware.thermal_protection_active"@,
            DataType::Number,
        ),
        resource_view(
            "hu_low_memory_active"@,
            "Low Memory Active"@,
            Category::CurrentData,
            seq!["system"@, "performance"@],
            "hu.system.low_memory_active"@,
            DataType::Number,
        ),
        resource_view(
            "hu_ui_stall_active"@,
            "UI Stall Active"@,
            Category::CurrentData,
            seq!["system"@, "performance"@],
            "hu.system.ui_stall_active"@,
            DataType::Number,
        ),
        resource_view(
            "hu_telemetry_stale"@,
            "Telemetry Stale"@,
            Category::CurrentData,
            seq!["system"@, "network"@],
            "hu.system.telemetry_stale"@,
            DataType::Number,
        ),
    ]
}

/// The data resources of the `infotainment` component, in the order they are published.
pub fn infotainment_resources() -> (resources: Vec<ResourceSpec>)
    ensures
        views_of(resources@) == infotainment_table(),
{
    let resources = vec![
        live_resource(
            "hu_uptime",
            "System Uptime",
            Category::CurrentData,
            two_texts("system", "lifecycle"),
            "hu.system.uptime",
            DataType::Number,
        ),
        live_resource(
            "hu_restart_counter",
            "Restart Counter",
            Category::StoredData,
            two_texts("lifetime", "system"),
            "hu.system.restart_counter",
            DataType::Integer,
        ),
        live_resource(
            "hu_cpu_usage",
            "CPU Load",
            Category::CurrentData,
            two_texts("system", "performance"),
            "hu.system.cpu_usage",
            DataType::Number,
        ),
        live_resource(
            "hu_memory_usage",
            "Memory Utilization",
            Category::CurrentData,
            two_texts("system", "performance"),
            "hu.system.memory_usage",
            DataType::Number,
        ),
        live_resource(
            "hu_temperature",
            "SoC Temperature",
            Category::CurrentData,
            two_texts("system", "thermal"),
            "hu.hardware.temperature",
            DataType::Number,
        ),
        live_resource(
            "hu_supply_voltage",
            "KL30 Supply Voltage",
            Category::CurrentData,
            two_texts("hardware", "electrical"),
            "hu.hardware.supply_voltage",
            DataType::Number,
        ),
        live_resource(
            "hu_reboot_in_progress",
            "Reboot In Progress",
            Category::CurrentData,
            two_texts("system", "lifecycle"),
            "hu.system.reboot_in_progress",
            DataType::Number,
        ),
        live_resource(
            "hu_undervoltage_active",
            "Undervoltage Active",
            Category::CurrentData,
            two_texts("hardware", "electrical"),
            "hu.hardware.undervoltage_active",
            DataType::Number,
        ),
        live_resource(
            "hu_thermal_protection_active",
            "Thermal Protection Active",
            Category::CurrentData,
            two_texts("hardware", "thermal"),
            "hu.hardware.thermal_protection_active",
            DataType::Number,
        ),
        live_resource(
            "hu_low_memory_active",
            "Low Memory Active",
            Category::CurrentData,
            two_texts("system", "performance"),
            "hu.system.low_memory_active",
            DataType::Number,
        ),
        live_resource(
            "hu_ui_stall_active",
            "UI Stall Active",
            Category::CurrentData,
            two_texts("system", "performance"),
            "hu.system.ui_stall_active",
            DataType::Number,
        ),
        live_resource(
            "hu_telemetry_stale",
            "Telemetry Stale",
            Category::CurrentData,
            two_texts("system", "network"),
            "hu.system.telemetry_stale",
            DataType::Number,
        ),
    ];
    assert(views_of(resources@) =~= infotainment_table());
    resources
}

/// A published SOVD component and its data resources.
pub struct ComponentSpec {
    pub id: &'static str,
    pub name: &'static str,
    pub tags: Vec<&'static str>,
    pub resources: Vec<ResourceSpec>,
}

/// The abstract content of a [`ComponentSpec`].
pub struct ComponentView {
    pub id: Seq<char>,
    pub name: Seq<char>,
    pub tags: Seq<Seq<char>>,
    pub resources: Seq<ResourceView>,
}

impl View for ComponentSpec {
    type V = ComponentView;

    open spec fn view(&self) -> ComponentView {
        ComponentView {
            id: self.id@,
            name: self.name@,
            tags: texts_of(self.tags@),
            resources: views_of(self.resources@),
        }
    }
}

/// The views of a sequence of components.
pub open spec fn component_views(components: Seq<ComponentSpec>) -> Seq<ComponentView> {
    components.map_values(|component: ComponentSpec| component@)
}

/// The components of the simulator topology, in the order they are published.
pub open spec fn topology_table() -> Seq<ComponentView> {
    seq![
        ComponentView {
            id: "hydraulics"@,
            name: "Hydraulic Control System"@,
            tags: seq!["sim"@, "hydraulics"@],
            resources: hydraulics_table(),
        },
        ComponentView {
            id: "hpc2"@,
            name: "HPC2 Simulated Powertrain"@,
            tags: seq!["sim"@, "powertrain"@],
            resources: hpc2_table(),
        },
        ComponentView {
            id: "infotainment"@,
            name: "Head Unit Infotainment"@,
            tags: seq!["sim"@, "hu"@, "infotainment"@, "opensovd"@],
            resources: infotainment_table(),
        },
        ComponentView {
            id: "bms"@,
            name: "Battery Management System"@,
            tags: seq!["sim"@, "battery"@],
            resources: bms_table(),
        },
    ]
}

/// The components of the simulator topology, in the order they are published.
pub fn components() -> (components: Vec<ComponentSpec>)
    ensures
        component_views(components@) == topology_table(),
{
    let components = vec![
        ComponentSpec {
            id: "hydraulics",
            name: "Hydraulic Control System",
            tags: two_texts("sim", "hydraulics"),
            resources: hydraulics_resources(),
        },
        ComponentSpec {
            id: "hpc2",
            name: "HPC2 Simulated Powertrain",
            tags: two_texts("sim", "powertrain"),
            resources: hpc2_resources(),
        },
        ComponentSpec {
            id: "infotainment",
            name: "Head Unit Infotainment",
            tags: four_texts("sim", "hu", "infotainment", "opensovd"),
            resources: infotainment_resources(),
        },
        ComponentSpec {
            id: "bms",
            name: "Battery Management System",
            tags: two_texts("sim", "battery"),
            resources: bms_resources(),
        },
    ];
    assert(component_views(components@) =~= topology_table());
    components
}

/// Which typed resource reads a signal for the data provider.
#[derive(Clone, Copy, Debug, PartialEq, Eq, Structural)]
pub enum SignalReader {
    /// Reads the signal as a floating-point number.
    Float,
    /// Reads the signal as a number rounded to an integer.
    Integer,
    /// Reads the signal as text.
    Text,
}

/// The reader that serves a signal of type `datatype`.
pub open spec fn reader_for(datatype: DataType) -> SignalReader {
    match datatype {
        DataType::Number => SignalReader::Float,
        DataType::Integer => SignalReader::Integer,
        DataType::String => SignalReader::Text,
    }
}

/// One readable data entry that the data provider registers.
pub struct DataBinding {
    pub data_id: &'static str,
    pub name: &'static str,
    pub category: DataCategory,
    pub reader: SignalReader,
    pub signal_id: &'static str,
    pub groups: Vec<&'static str>,
    pub tags: Vec<&'static str>,
}

/// The abstract content of a [`DataBinding`].
pub struct BindingView {
    pub data_id: Seq<char>,
    pub name: Seq<char>,
    pub category: DataCategory,
    pub reader: SignalReader,
    pub signal_id: Seq<char>,
    pub groups: Seq<Seq<char>>,
    pub tags: Seq<Seq<char>>,
}

impl View for DataBinding {
    type V = BindingView;

    open spec fn view(&self) -> BindingView {
        BindingView {
            data_id: self.data_id@,
            name: self.name@,
            category: self.category,
            reader: self.reader,
            signal_id: self.signal_id@,
            groups: texts_of(self.groups@),
            tags: texts_of(self.tags@),
        }
    }
}

/// The entry that the data provider registers for `resource`.
pub open spec fn binding_of(resource: ResourceView) -> BindingView {
    BindingView {
        data_id: resource.data_id,
        name: resource.name,
        category: data_category_of(resource.category),
        reader: reader_for(resource.datatype),
        signal_id: resource.signal_id,
        groups: resource.groups,
        tags: resource.tags,
    }
}

fn copy_texts(texts: &Vec<&'static str>) -> (copy: Vec<&'static str>)
    ensures
        copy@ == texts@,
{
    let mut copy: Vec<&'static str> = Vec::new();
    let mut i: usize = 0;
    while i < texts.len()
        invariant
            i <= texts.len(),
            copy@ == texts@.subrange(0, i as int),
        decreases texts.len() - i,
    {
        copy.push(texts[i]);
        i = i + 1;
        assert(copy@ =~= texts@.subrange(0, i as int));
    }
    assert(texts@.subrange(0, texts.len() as int) =~= texts@);
    copy
}

/// The entries that the data provider of a component registers, one per
/// resource and in the resources' order: each keeps the resource's ids, name,
/// groups and tags, is listed under the resource's SOVD data category, and is
/// read by the reader that matches the resource's data type.
pub fn provider_bindings(resources: &Vec<ResourceSpec>) -> (bindings: Vec<DataBinding>)
    ensures
        bindings.len() == resources.len(),
        forall|i: int| 0 <= i < resources.len() ==> #[trigger] bindings[i]@ == binding_of(resources[i]@),
        forall|i: int|
            0 <= i < resources.len() ==> {
                &&& (resources[i].datatype == DataType::Number <==> #[trigger] bindings[i].reader
                    == SignalReader::Float)
                &&& (resources[i].datatype == DataType::Integer <==> bindings[i].reader
                    == SignalReader::Integer)
                &&& (resources[i].datatype == DataType::String <==> bindings[i].reader
                    == SignalReader::Text)
                &&& bindings[i].data_id@ == resources[i].data_id@
                &&& bindings[i].signal_id@ == resources[i].signal_id@
            },
{
    let mut bindings: Vec<DataBinding> = Vec::new();
    let mut i: usize = 0;
    while i < resources.len()
        invariant
            i <= resources.len(),
            bindings.len() == i,
            forall|j: int| 0 <= j < i ==> #[trigger] bindings[j]@ == binding_of(resources[j]@),
        decreases resources.len() - i,
    {
        let resource = &resources[i];
        let reader = match resource.datatype {
            DataType::Number => SignalReader::Float,
            DataType::Integer => SignalReader::Integer,
            DataType::String => SignalReader::Text,
        };
        bindings.push(
            DataBinding {
                data_id: resource.data_id,
                name: resource.name,
                category: resource.category.as_data_category(),
                reader,
                signal_id: resource.signal_id,
                groups: copy_texts(&resource.groups),
                tags: copy_texts(&resource.tags),
            },
        );
        i = i + 1;
    }
    assert forall|i: int| 0 <= i < resources.len() implies {
        &&& (resources[i].datatype == DataType::Number <==> #[trigger] bindings[i].reader
            == SignalReader::Float)
        &&& (resources[i].datatype == DataType::Integer <==> bindings[i].reader
            == SignalReader::Integer)
        &&& (resources[i].datatype == DataType::String <==> bindings[i].reader
            == SignalReader::Text)
        &&& bindings[i].data_id@ == resources[i].data_id@
        &&& bindings[i].signal_id@ == resources[i].signal_id@
    } by {
        assert(bindings[i]@ == binding_of(resources[i]@));
    }
    bindings
}

/// The data ids of a sequence of resources.
pub open spec fn data_ids_of(resources: Seq<ResourceView>) -> Seq<Seq<char>> {
    resources.map_values(|resource: ResourceView| resource.data_id)
}

/// The ids of a sequence of components.
pub open spec fn component_ids_of(components: Seq<ComponentView>) -> Seq<Seq<char>> {
    components.map_values(|component: ComponentView| component.id)
}

/// No text occurs twice in `texts`.
pub open spec fn pairwise_distinct(texts: Seq<Seq<char>>) -> bool {
    forall|i: int, j: int| 0 <= i < j < texts.len() ==> texts[i] != texts[j]
}

/// No two resources of the `hpc2` component share a data id.
proof fn lemma_hpc2_data_ids_distinct()
    ensures
        pairwise_distinct(data_ids_of(hpc2_table())),
{
    broadcast use vstd::string::group_string_axioms;

    let ids = data_ids_of(hpc2_table());
    reveal_strlit("vehicle_speed");
    reveal_strlit("total_distance");
    reveal_strlit("trip_time");
    reveal_strlit("propulsion_active_time");
    reveal_strlit("accelerator_pedal");
    reveal_strlit("motor_speed");
    reveal_strlit("distance_since_fault_clear");
    reveal_strlit("propulsion_trips_since_fault_clear");
    reveal_strlit("vin");
    assert(ids[0].len() == 13);
    assert(ids[1].len() == 14);
    assert(ids[2].len() == 9);
    assert(ids[3].len() == 22);
    assert(ids[4].len() == 17);
    assert(ids[5].len() == 11);
    assert(ids[6].len() == 26);
    assert(ids[7].len() == 34);
    assert(ids[8].len() == 3);
}

/// No two resources of the `bms` component share a data id.
proof fn lemma_bms_data_ids_distinct()
    ensures
        pairwise_distinct(data_ids_of(bms_table())),
{
    broadcast use vstd::string::group_string_axioms;

    let ids = data_ids_of(bms_table());
    reveal_strlit("hv_battery_soc");
    reveal_strlit("hv_battery_voltage");
    reveal_strlit("hv_battery_current");
    reveal_strlit("hv_battery_power");
    reveal_strlit("hv_battery_system_voltage");
    reveal_strlit("hv_battery_max_cell_v");
    reveal_strlit("hv_battery_min_cell_v");
    reveal_strlit("hv_battery_current_1s");
    reveal_strlit("hv_battery_energy_1s");
    reveal_strlit("hv_battery_consumption_1s");
    reveal_strlit("hv_battery_soh");
    reveal_strlit("distance_since_soh_reset");
    assert(ids[0].len() == 14);
    assert(ids[1].len() == 18);
    assert(ids[2].len() == 18);
    assert(ids[3].len() == 16);
    assert(ids[4].len() == 25);
    assert(ids[5].len() == 21);
    assert(ids[6].len() == 21);
    assert(ids[7].len() == 21);
    assert(ids[8].len() == 20);
    assert(ids[9].len() == 25);
    assert(ids[10].len() == 14);
    assert(ids[11].len() == 24);
    assert(ids[0][13] != ids[10][13]);
    assert(ids[1][11] != ids[2][11]);
    assert(ids[4][11] != ids[9][11]);
    assert(ids[5][12] != ids[6][12]);
    assert(ids[5][11] != ids[7][11]);
    assert(ids[6][11] != ids[7][11]);
}

/// No two resources of the `hydraulics` component share a data id.
proof fn lemma_hydraulics_data_ids_distinct()
    ensures
        pairwise_distinct(data_ids_of(hydraulics_table())),
{
    broadcast use vstd::string::group_string_axioms;

    let ids = data_ids_of(hydraulics_table());
    reveal_strlit("main_pressure");
    reveal_strlit("hydraulic_pump_speed");
    reveal_strlit("hydraulic_valve_position");
    assert(ids[0].len() == 13);
    assert(ids[1].len() == 20);
    assert(ids[2].len() == 24);
}

/// No two resources of the `infotainment` component share a data id.
proof fn lemma_infotainment_data_ids_distinct()
    ensures
        pairwise_distinct(data_ids_of(infotainment_table())),
{
    broadcast use vstd::string::group_string_axioms;

    let ids = data_ids_of(infotainment_table());
    reveal_strlit("hu_uptime");
    reveal_strlit("hu_restart_counter");
    reveal_strlit("hu_cpu_usage");
    reveal_strlit("hu_memory_usage");
    reveal_strlit("hu_temperature");
    reveal_strlit("hu_supply_voltage");
    reveal_strlit("hu_reboot_in_progress");
    reveal_strlit("hu_undervoltage_active");
    reveal_strlit("hu_thermal_protection_active");
    reveal_strlit("hu_low_memory_active");
    reveal_strlit("hu_ui_stall_active");
    reveal_strlit("hu_telemetry_stale");
    assert(ids[0].len() == 9);
    assert(ids[1].len() == 18);
    assert(ids[2].len() == 12);
    assert(ids[3].len() == 15);
    assert(ids[4].len() == 14);
    assert(ids[5].len() == 17);
    assert(ids[6].len() == 21);
    assert(ids[7].len() == 22);
    assert(ids[8].len() == 28);
    assert(ids[9].len() == 20);
    assert(ids[10].len() == 18);
    assert(ids[11].len() == 18);
    assert(ids[1][3] != ids[10][3]);
    assert(ids[1][3] != ids[11][3]);
    assert(ids[10][3] != ids[11][3]);
}

/// No two components share an id.
proof fn lemma_component_ids_distinct()
    ensures
        pairwise_distinct(component_ids_of(topology_table())),
{
    broadcast use vstd::string::group_string_axioms;

    let ids = component_ids_of(topology_table());
    reveal_strlit("hydraulics");
    reveal_strlit("hpc2");
    reveal_strlit("infotainment");
    reveal_strlit("bms");
    assert(ids[0].len() == 10);
    assert(ids[1].len() == 4);
    assert(ids[2].len() == 12);
    assert(ids[3].len() == 3);
}

/// The components are published in the fixed order hydraulics, hpc2,
/// infotainment, bms, and no two of them share an id.
pub proof fn lemma_component_order()
    ensures
        component_ids_of(topology_table()) == seq!["hydraulics"@, "hpc2"@, "infotainment"@, "bms"@],
        pairwise_distinct(component_ids_of(topology_table())),
{
    assert(component_ids_of(topology_table()) =~= seq!["hydraulics"@, "hpc2"@, "infotainment"@, "bms"@]);
    lemma_component_ids_distinct();
}

/// Within every component, no two data resources share a data id.
pub proof fn lemma_data_ids_distinct_per_component()
    ensures
        forall|c: int|
            0 <= c < topology_table().len() ==> pairwise_distinct(
                #[trigger] data_ids_of(topology_table()[c].resources),
            ),
{
    lemma_hydraulics_data_ids_distinct();
    lemma_hpc2_data_ids_distinct();
    lemma_infotainment_data_ids_distinct();
    lemma_bms_data_ids_distinct();
    assert(topology_table()[0].resources == hydraulics_table());
    assert(topology_table()[1].resources == hpc2_table());
    assert(topology_table()[2].resources == infotainment_table());
    assert(topology_table()[3].resources == bms_table());
}

/// Every published data resource carries the live-simulator tags.
pub proof fn lemma_resources_carry_live_tags()
    ensures
        forall|c: int, r: int|
            0 <= c < topology_table().len() && 0 <= r < topology_table()[c].resources.len()
                ==> #[trigger] topology_table()[c].resources[r].tags == seq!["live"@, "simulator"@],
{
    assert(topology_table()[0].resources == hydraulics_table());
    assert(topology_table()[1].resources == hpc2_table());
    assert(topology_table()[2].resources == infotainment_table());
    assert(topology_table()[3].resources == bms_table());
}

/// Every string-typed resource is served by the signal that the simulator
/// answers on its string endpoint, so reading it never meets the
/// "no string endpoint" error.
pub proof fn lemma_string_resources_have_string_endpoint()
    ensures
        forall|c: int, r: int|
            0 <= c < topology_table().len() && 0 <= r < topology_table()[c].resources.len()
                && (#[trigger] topology_table()[c].resources[r]).datatype == DataType::String
                ==> topology_table()[c].resources[r].signal_id == vin_signal()
                && string_route_of(topology_table()[c].resources[r].signal_id) is Ok,
{
    assert(topology_table()[0].resources == hydraulics_table());
    assert(topology_table()[1].resources == hpc2_table());
    assert(topology_table()[2].resources == infotainment_table());
    assert(topology_table()[3].resources == bms_table());
}

/// The signal ids of a sequence of resources.
pub open spec fn signal_ids_of(resources: Seq<ResourceView>) -> Seq<Seq<char>> {
    resources.map_values(|resource: ResourceView| resource.signal_id)
}

/// The data id and the signal id of each resource, in order.
pub open spec fn signal_pairs_of(resources: Seq<ResourceView>) -> Seq<(Seq<char>, Seq<char>)> {
    resources.map_values(|resource: ResourceView| (resource.data_id, resource.signal_id))
}

/// No two resources of the `hpc2` component read the same signal.
proof fn lemma_hpc2_signal_ids_distinct()
    ensures
        pairwise_distinct(signal_ids_of(hpc2_table())),
{
    broadcast use vstd::string::group_string_axioms;

    let ids = signal_ids_of(hpc2_table());
    reveal_strlit("vehicle.speed");
    reveal_strlit("vehicle.odometer");
    reveal_strlit("vehicle.trip_time");
    reveal_strlit("vehicle.propulsion_active_time");
    reveal_strlit("vehicle.accelerator_pedal");
    reveal_strlit("powertrain.motor_speed");
    reveal_strlit("vehicle.distance_since_fault_clear_km");
    reveal_strlit("vehicle.propulsion_trips_since_fault_clear");
    reveal_strlit("vehicle.vin");
    assert(ids[0].len() == 13);
    assert(ids[1].len() == 16);
    assert(ids[2].len() == 17);
    assert(ids[3].len() == 30);
    assert(ids[4].len() == 25);
    assert(ids[5].len() == 22);
    assert(ids[6].len() == 37);
    assert(ids[7].len() == 42);
    assert(ids[8].len() == 11);
}

/// No two resources of the `bms` component read the same signal.
proof fn lemma_bms_signal_ids_distinct()
    ensures
        pairwise_distinct(signal_ids_of(bms_table())),
{
    broadcast use vstd::string::group_string_axioms;

    let ids = signal_ids_of(bms_table());
    reveal_strlit("bms.soc");
    reveal_strlit("bms.voltage");
    reveal_strlit("bms.current");
    reveal_strlit("bms.power");
    reveal_strlit("bms.system_voltage");
    reveal_strlit("bms.max_cell_voltage");
    reveal_strlit("bms.min_cell_voltage");
    reveal_strlit("bms.current_1s");
    reveal_strlit("bms.energy_1s_wh");
    reveal_strlit("bms.consumption_1s_wh");
    reveal_strlit("bms.soh");
    reveal_strlit("bms.distance_since_soh_reset_km");
    assert(ids[0].len() == 7);
    assert(ids[1].len() == 11);
    assert(ids[2].len() == 11);
    assert(ids[3].len() == 9);
    assert(ids[4].len() == 18);
    assert(ids[5].len() == 20);
    assert(ids[6].len() == 20);
    assert(ids[7].len() == 14);
    assert(ids[8].len() == 16);
    assert(ids[9].len() == 21);
    assert(ids[10].len() == 7);
    assert(ids[11].len() == 31);
    assert(ids[0][6] != ids[10][6]);
    assert(ids[1][4] != ids[2][4]);
    assert(ids[5][5] != ids[6][5]);
}

/// No two resources of the `hydraulics` component read the same signal.
proof fn lemma_hydraulics_signal_ids_distinct()
    ensures
        pairwise_distinct(signal_ids_of(hydraulics_table())),
{
    broadcast use vstd::string::group_string_axioms;

    let ids = signal_ids_of(hydraulics_table());
    reveal_strlit("hydraulic.main_pressure");
    reveal_strlit("hydraulic.pump_speed");
    reveal_strlit("hydraulic.valve_position");
    assert(ids[0].len() == 23);
    assert(ids[1].len() == 20);
    assert(ids[2].len() == 24);
}

/// No two resources of the `infotainment` component read the same signal.
proof fn lemma_infotainment_signal_ids_distinct()
    ensures
        pairwise_distinct(signal_ids_of(infotainment_table())),
{
    broadcast use vstd::string::group_string_axioms;

    let ids = signal_ids_of(infotainment_table());
    reveal_strlit("hu.system.uptime");
    reveal_strlit("hu.system.restart_counter");
    reveal_strlit("hu.system.cpu_usage");
    reveal_strlit("hu.system.memory_usage");
    reveal_strlit("hu.hardware.temperature");
    reveal_strlit("hu.hardware.supply_voltage");
    reveal_strlit("hu.system.reboot_in_progress");
    reveal_strlit("hu.hardware.undervoltage_active");
    reveal_strlit("hu.hardware.thermal_protection_active");
    reveal_strlit("hu.system.low_memory_active");
    reveal_strlit("hu.system.ui_stall_active");
    reveal_strlit("hu.system.telemetry_stale");
    assert(ids[0].len() == 16);
    assert(ids[1].len() == 25);
    assert(ids[2].len() == 19);
    assert(ids[3].len() == 22);
    assert(ids[4].len() == 23);
    assert(ids[5].len() == 26);
    assert(ids[6].len() == 28);
    assert(ids[7].len() == 31);
    assert(ids[8].len() == 37);
    assert(ids[9].len() == 27);
    assert(ids[10].len() == 25);
    assert(ids[11].len() == 25);
    assert(ids[1][10] != ids[10][10]);
    assert(ids[1][10] != ids[11][10]);
    assert(ids[10][10] != ids[11][10]);
}

/// Within every component, no two data resources read the same signal, so
/// every published data id is served by a signal of its own.
pub proof fn lemma_signal_ids_distinct_per_component()
    ensures
        forall|c: int|
            0 <= c < topology_table().len() ==> pairwise_distinct(
                #[trigger] signal_ids_of(topology_table()[c].resources),
            ),
{
    lemma_hydraulics_signal_ids_distinct();
    lemma_hpc2_signal_ids_distinct();
    lemma_infotainment_signal_ids_distinct();
    lemma_bms_signal_ids_distinct();
    assert(topology_table()[0].resources == hydraulics_table());
    assert(topology_table()[1].resources == hpc2_table());
    assert(topology_table()[2].resources == infotainment_table());
    assert(topology_table()[3].resources == bms_table());
}

/// The signal that serves each published data id, component by component
/// (hydraulics, hpc2, infotainment, bms): the SOVD data ids stay fixed while
/// the backend reads these signals.
pub proof fn lemma_signal_of_each_data_id()
    ensures
        signal_pairs_of(topology_table()[0].resources) == seq![
            ("main_pressure"@, "hydraulic.main_pressure"@),
            ("hydraulic_pump_speed"@, "hydraulic.pump_speed"@),
            ("hydraulic_valve_position"@, "hydraulic.valve_position"@),
        ],
        signal_pairs_of(topology_table()[1].resources) == seq![
            ("vehicle_speed"@, "vehicle.speed"@),
            ("total_distance"@, "vehicle.odometer"@),
            ("trip_time"@, "vehicle.trip_time"@),
            ("propulsion_active_time"@, "vehicle.propulsion_active_time"@),
            ("accelerator_pedal"@, "vehicle.accelerator_pedal"@),
            ("motor_speed"@, "powertrain.motor_speed"@),
            ("distance_since_fault_clear"@, "vehicle.distance_since_fault_clear_km"@),
            ("propulsion_trips_since_fault_clear"@, "vehicle.propulsion_trips_since_fault_clear"@),
            ("vin"@, "vehicle.vin"@),
        ],
        signal_pairs_of(topology_table()[2].resources) == seq![
            ("hu_uptime"@, "hu.system.uptime"@),
            ("hu_restart_counter"@, "hu.system.restart_counter"@),
            ("hu_cpu_usage"@, "hu.system.cpu_usage"@),
            ("hu_memory_usage"@, "hu.system.memory_usage"@),
            ("hu_temperature"@, "hu.hardware.temperature"@),
            ("hu_supply_voltage"@, "hu.hardware.supply_voltage"@),
            ("hu_reboot_in_progress"@, "hu.system.reboot_in_progress"@),
            ("hu_undervoltage_active"@, "hu.hardware.undervoltage_active"@),
            ("hu_thermal_protection_active"@, "hu.hardware.thermal_protection_active"@),
            ("hu_low_memory_active"@, "hu.system.low_memory_active"@),
            ("hu_ui_stall_active"@, "hu.system.ui_stall_active"@),
            ("hu_telemetry_stale"@, "hu.system.telemetry_stale"@),
        ],
        signal_pairs_of(topology_table()[3].resources) == seq![
            ("hv_battery_soc"@, "bms.soc"@),
            ("hv_battery_voltage"@, "bms.voltage"@),
            ("hv_battery_current"@, "bms.current"@),
            ("hv_battery_power"@, "bms.power"@),
            ("hv_battery_system_voltage"@, "bms.system_voltage"@),
            ("hv_battery_max_cell_v"@, "bms.max_cell_voltage"@),
            ("hv_battery_min_cell_v"@, "bms.min_cell_voltage"@),
            ("hv_battery_current_1s"@, "bms.current_1s"@),
            ("hv_battery_energy_1s"@, "bms.energy_1s_wh"@),
            ("hv_battery_consumption_1s"@, "bms.consumption_1s_wh"@),
            ("hv_battery_soh"@, "bms.soh"@),
            ("distance_since_soh_reset"@, "bms.distance_since_soh_reset_km"@),
        ],
{
    assert(signal_pairs_of(topology_table()[0].resources) =~= seq![
        ("main_pressure"@, "hydraulic.main_pressure"@),
        ("hydraulic_pump_speed"@, "hydraulic.pump_speed"@),
        ("hydraulic_valve_position"@, "hydraulic.valve_position"@),
    ]);
    assert(signal_pairs_of(topology_table()[1].resources) =~= seq![
        ("vehicle_speed"@, "vehicle.speed"@),
        ("total_distance"@, "vehicle.odometer"@),
        ("trip_time"@, "vehicle.trip_time"@),
        ("propulsion_active_time"@, "vehicle.propulsion_active_time"@),
        ("accelerator_pedal"@, "vehicle.accelerator_pedal"@),
        ("motor_speed"@, "powertrain.motor_speed"@),
        ("distance_since_fault_clear"@, "vehicle.distance_since_fault_clear_km"@),
        ("propulsion_trips_since_fault_clear"@, "vehicle.propulsion_trips_since_fault_clear"@),
        ("vin"@, "vehicle.vin"@),
    ]);
    assert(signal_pairs_of(topology_table()[2].resources) =~= seq![
        ("hu_uptime"@, "hu.system.uptime"@),
        ("hu_restart_counter"@, "hu.system.restart_counter"@),
        ("hu_cpu_usage"@, "hu.system.cpu_usage"@),
        ("hu_memory_usage"@, "hu.system.memory_usage"@),
        ("hu_temperature"@, "hu.hardware.temperature"@),
        ("hu_supply_voltage"@, "hu.hardware.supply_voltage"@),
        ("hu_reboot_in_progress"@, "hu.system.reboot_in_progress"@),
        ("hu_undervoltage_active"@, "hu.hardware.undervoltage_active"@),
        ("hu_thermal_protection_active"@, "hu.hardware.thermal_protection_active"@),
        ("hu_low_memory_active"@, "hu.system.low_memory_active"@),
        ("hu_ui_stall_active"@, "hu.system.ui_stall_active"@),
        ("hu_telemetry_stale"@, "hu.system.telemetry_stale"@),
    ]);
    assert(signal_pairs_of(topology_table()[3].resources) =~= seq![
        ("hv_battery_soc"@, "bms.soc"@),
        ("hv_battery_voltage"@, "bms.voltage"@),
        ("hv_battery_current"@, "bms.current"@),
        ("hv_battery_power"@, "bms.power"@),
        ("hv_battery_system_voltage"@, "bms.system_voltage"@),
        ("hv_battery_max_cell_v"@, "bms.max_cell_voltage"@),
        ("hv_battery_min_cell_v"@, "bms.min_cell_voltage"@),
        ("hv_battery_current_1s"@, "bms.current_1s"@),
        ("hv_battery_energy_1s"@, "bms.energy_1s_wh"@),
        ("hv_battery_consumption_1s"@, "bms.consumption_1s_wh"@),
        ("hv_battery_soh"@, "bms.soh"@),
        ("distance_since_soh_reset"@, "bms.distance_since_soh_reset_km"@),
    ]);
}

/// What the data provider registers for a resource: the reader is chosen by
/// the resource's data type alone (numbers are read as floats, integers as
/// rounded integers, strings as text), whatever its category; the SOVD category
/// is the namesake of the resource's category; ids, name, groups and tags are
/// kept.
pub proof fn lemma_binding_follows_resource(resource: ResourceView)
    ensures
        resource.datatype == DataType::Number ==> binding_of(resource).reader == SignalReader::Float,
        resource.datatype == DataType::Integer ==> binding_of(resource).reader
            == SignalReader::Integer,
        resource.datatype == DataType::String ==> binding_of(resource).reader == SignalReader::Text,
        resource.category == Category::IdentData ==> binding_of(resource).category
            == DataCategory::IdentData,
        resource.category == Category::CurrentData ==> binding_of(resource).category
            == DataCategory::CurrentData,
        resource.category == Category::StoredData ==> binding_of(resource).category
            == DataCategory::StoredData,
        binding_of(resource).data_id == resource.data_id,
        binding_of(resource).name == resource.name,
        binding_of(resource).signal_id == resource.signal_id,
        binding_of(resource).groups == resource.groups,
        binding_of(resource).tags == resource.tags,
{
}

/// Two resources of the same data type are read by the same kind of reader,
/// whatever their categories.
pub proof fn lemma_reader_ignores_category(first: ResourceView, second: ResourceView)
    requires
        first.datatype == second.datatype,
    ensures
        binding_of(first).reader == binding_of(second).reader,
{
}

/// What a resource publishes: its data id, name, category, groups and data type.
pub open spec fn published_entries_of(resources: Seq<ResourceView>) -> Seq<
    (Seq<char>, Seq<char>, Category, Seq<Seq<char>>, DataType),
> {
    resources.map_values(
        |resource: ResourceView|
            (resource.data_id, resource.name, resource.category, resource.groups, resource.datatype),
    )
}

/// What each component publishes, component by component (hydraulics, hpc2,
/// infotainment, bms): the data id, display name, category, groups and data
/// type of every resource, in order.
pub proof fn lemma_published_resources()
    ensures
        published_entries_of(topology_table()[0].resources) == seq![
            ("main_pressure"@, "Main Hydraulic Pressure"@, Category::CurrentData, seq!["hydraulics"@], DataType::Number),
            ("hydraulic_pump_speed"@, "Hydraulic Pump Speed"@, Category::CurrentData, seq!["hydraulics"@], DataType::Number),
            ("hydraulic_valve_position"@, "Hydraulic Valve Position"@, Category::CurrentData, seq!["hydraulics"@], DataType::Number),
        ],
        published_entries_of(topology_table()[1].resources) == seq![
            ("vehicle_speed"@, "Vehicle Speed"@, Category::CurrentData, seq!["currentTrip"@, "powertrain"@], DataType::Number),
            ("total_distance"@, "Odometer"@, Category::StoredData, seq!["lifetime"@], DataType::Number),
            ("trip_time"@, "Trip Time"@, Category::StoredData, seq!["currentTrip"@], DataType::Number),
            ("propulsion_active_time"@, "Propulsion Active Time"@, Category::StoredData, seq!["currentTrip"@], DataType::Number),
            ("accelerator_pedal"@, "Accelerator Pedal Position"@, Category::CurrentData, seq!["currentTrip"@, "powertrain"@], DataType::Number),
            ("motor_speed"@, "Motor Speed"@, Category::CurrentData, seq!["currentTrip"@, "powertrain"@], DataType::Number),
            ("distance_since_fault_clear"@, "Distance since fault memory cleared"@, Category::StoredData, seq!["lifetime"@], DataType::Number),
            ("propulsion_trips_since_fault_clear"@, "Propulsion trips since fault memory cleared"@, Category::StoredData, seq!["lifetime"@], DataType::Integer),
            ("vin"@, "VIN"@, Category::IdentData, seq!["identification"@], DataType::String),
        ],
        published_entries_of(topology_table()[2].resources) == seq![
            ("hu_uptime"@, "System Uptime"@, Category::CurrentData, seq!["system"@, "lifecycle"@], DataType::Number),
            ("hu_restart_counter"@, "Restart Counter"@, Category::StoredData, seq!["lifetime"@, "system"@], DataType::Integer),
            ("hu_cpu_usage"@, "CPU Load"@, Category::CurrentData, seq!["system"@, "performance"@], DataType::Number),
            ("hu_memory_usage"@, "Memory Utilization"@, Category::CurrentData, seq!["system"@, "performance"@], DataType::Number),
            ("hu_temperature"@, "SoC Temperature"@, Category::CurrentData, seq!["system"@, "thermal"@], DataType::Number),
            ("hu_supply_voltage"@, "KL30 Supply Voltage"@, Category::CurrentData, seq!["hardware"@, "electrical"@], DataType::Number),
            ("hu_reboot_in_progress"@, "Reboot In Progress"@, Category::CurrentData, seq!["system"@, "lifecycle"@], DataType::Number),
            ("hu_undervoltage_active"@, "Undervoltage Active"@, Category::CurrentData, seq!["hardware"@, "electrical"@], DataType::Number),
            ("hu_thermal_protection_active"@, "Thermal Protection Active"@, Category::CurrentData, seq!["hardware"@, "thermal"@], DataType::Number),
            ("hu_low_memory_active"@, "Low Memory Active"@, Category::CurrentData, seq!["system"@, "performance"@], DataType::Number),
            ("hu_ui_stall_active"@, "UI Stall Active"@, Category::CurrentData, seq!["system"@, "performance"@], DataType::Number),
            ("hu_telemetry_stale"@, "Telemetry Stale"@, Category::CurrentData, seq!["system"@, "network"@], DataType::Number),
        ],
        published_entries_of(topology_table()[3].resources) == seq![
            ("hv_battery_soc"@, "Battery SOC"@, Category::CurrentData, seq!["hvBattery"@], DataType::Number),
            ("hv_battery_voltage"@, "Battery Voltage"@, Category::CurrentData, seq!["hvBattery"@], DataType::Number),
            ("hv_battery_current"@, "Battery Current"@, Category::CurrentData, seq!["hvBattery"@], DataType::Number),
            ("hv_battery_power"@, "Battery Power"@, Category::CurrentData, seq!["hvBattery"@], DataType::Number),
            ("hv_battery_system_voltage"@, "Battery System Voltage"@, Category::CurrentData, seq!["hvBattery"@], DataType::Number),
            ("hv_battery_max_cell_v"@, "Max Cell Voltage"@, Category::CurrentData, seq!["hvBattery"@], DataType::Number),
            ("hv_battery_min_cell_v"@, "Min Cell Voltage"@, Category::CurrentData, seq!["hvBattery"@], DataType::Number),
            ("hv_battery_current_1s"@, "Battery Current (1s)"@, Category::CurrentData, seq!["hvBattery"@], DataType::Number),
            ("hv_battery_energy_1s"@, "Battery Energy (1s)"@, Category::CurrentData, seq!["hvBattery"@], DataType::Number),
            ("hv_battery_consumption_1s"@, "Consumption (1s)"@, Category::CurrentData, seq!["hvBattery"@], DataType::Number),
            ("hv_battery_soh"@, "Battery SOH"@, Category::StoredData, seq!["hvBattery"@, "health"@], DataType::Number),
            ("distance_since_soh_reset"@, "Distance since SOH reset"@, Category::StoredData, seq!["hvBattery"@, "health"@], DataType::Number),
        ],
{
    assert(published_entries_of(topology_table()[0].resources) =~= seq![
        ("main_pressure"@, "Main Hydraulic Pressure"@, Category::CurrentData, seq!["hydraulics"@], DataType::Number),
        ("hydraulic_pump_speed"@, "Hydraulic Pump Speed"@, Category::CurrentData, seq!["hydraulics"@], DataType::Number),
        ("hydraulic_valve_position"@, "Hydraulic Valve Position"@, Category::CurrentData, seq!["hydraulics"@], DataType::Number),
    ]);
    assert(published_entries_of(topology_table()[1].resources) =~= seq![
        ("vehicle_speed"@, "Vehicle Speed"@, Category::CurrentData, seq!["currentTrip"@, "powertrain"@], DataType::Number),
        ("total_distance"@, "Odometer"@, Category::StoredData, seq!["lifetime"@], DataType::Number),
        ("trip_time"@, "Trip Time"@, Category::StoredData, seq!["currentTrip"@], DataType::Number),
        ("propulsion_active_time"@, "Propulsion Active Time"@, Category::StoredData, seq!["currentTrip"@], DataType::Number),
        ("accelerator_pedal"@, "Accelerator Pedal Position"@, Category::CurrentData, seq!["currentTrip"@, "powertrain"@], DataType::Number),
        ("motor_speed"@, "Motor Speed"@, Category::CurrentData, seq!["currentTrip"@, "powertrain"@], DataType::Number),
        ("distance_since_fault_clear"@, "Distance since fault memory cleared"@, Category::StoredData, seq!["lifetime"@], DataType::Number),
        ("propulsion_trips_since_fault_clear"@, "Propulsion trips since fault memory cleared"@, Category::StoredData, seq!["lifetime"@], DataType::Integer),
        ("vin"@, "VIN"@, Category::IdentData, seq!["identification"@], DataType::String),
    ]);
    assert(published_entries_of(topology_table()[2].resources) =~= seq![
        ("hu_uptime"@, "System Uptime"@, Category::CurrentData, seq!["system"@, "lifecycle"@], DataType::Number),
        ("hu_restart_counter"@, "Restart Counter"@, Category::StoredData, seq!["lifetime"@, "system"@], DataType::Integer),
        ("hu_cpu_usage"@, "CPU Load"@, Category::CurrentData, seq!["system"@, "performance"@], DataType::Number),
        ("hu_memory_usage"@, "Memory Utilization"@, Category::CurrentData, seq!["system"@, "performance"@], DataType::Number),
        ("hu_temperature"@, "SoC Temperature"@, Category::CurrentData, seq!["system"@, "thermal"@], DataType::Number),
        ("hu_supply_voltage"@, "KL30 Supply Voltage"@, Category::CurrentData, seq!["hardware"@, "electrical"@], DataType::Number),
        ("hu_reboot_in_progress"@, "Reboot In Progress"@, Category::CurrentData, seq!["system"@, "lifecycle"@], DataType::Number),
        ("hu_undervoltage_active"@, "Undervoltage Active"@, Category::CurrentData, seq!["hardware"@, "electrical"@], DataType::Number),
        ("hu_thermal_protection_active"@, "Thermal Protection Active"@, Category::CurrentData, seq!["hardware"@, "thermal"@], DataType::Number),
        ("hu_low_memory_active"@, "Low Memory Active"@, Category::CurrentData, seq!["system"@, "performance"@], DataType::Number),
        ("hu_ui_stall_active"@, "UI Stall Active"@, Category::CurrentData, seq!["system"@, "performance"@], DataType::Number),
        ("hu_telemetry_stale"@, "Telemetry Stale"@, Category::CurrentData, seq!["system"@, "network"@], DataType::Number),
    ]);
    assert(published_entries_of(topology_table()[3].resources) =~= seq![
        ("hv_battery_soc"@, "Battery SOC"@, Category::CurrentData, seq!["hvBattery"@], DataType::Number),
        ("hv_battery_voltage"@, "Battery Voltage"@, Category::CurrentData, seq!["hvBattery"@], DataType::Number),
        ("hv_battery_current"@, "Battery Current"@, Category::CurrentData, seq!["hvBattery"@], DataType::Number),
        ("hv_battery_power"@, "Battery Power"@, Category::CurrentData, seq!["hvBattery"@], DataType::Number),
        ("hv_battery_system_voltage"@, "Battery System Voltage"@, Category::CurrentData, seq!["hvBattery"@], DataType::Number),
        ("hv_battery_max_cell_v"@, "Max Cell Voltage"@, Category::CurrentData, seq!["hvBattery"@], DataType::Number),
        ("hv_battery_min_cell_v"@, "Min Cell Voltage"@, Category::CurrentData, seq!["hvBattery"@], DataType::Number),
        ("hv_battery_current_1s"@, "Battery Current (1s)"@, Category::CurrentData, seq!["hvBattery"@], DataType::Number),
        ("hv_battery_energy_1s"@, "Battery Energy (1s)"@, Category::CurrentData, seq!["hvBattery"@], DataType::Number),
        ("hv_battery_consumption_1s"@, "Consumption (1s)"@, Category::CurrentData, seq!["hvBattery"@], DataType::Number),
        ("hv_battery_soh"@, "Battery SOH"@, Category::StoredData, seq!["hvBattery"@, "health"@], DataType::Number),
        ("distance_since_soh_reset"@, "Distance since SOH reset"@, Category::StoredData, seq!["hvBattery"@, "health"@], DataType::Number),
    ]);
}

/// The id, display name and tags of each published component, in order.
pub proof fn lemma_published_components()
    ensures
        topology_table().map_values(
            |component: ComponentView| (component.id, component.name, component.tags),
        ) == seq![
            ("hydraulics"@, "Hydraulic Control System"@, seq!["sim"@, "hydraulics"@]),
            ("hpc2"@, "HPC2 Simulated Powertrain"@, seq!["sim"@, "powertrain"@]),
            ("infotainment"@, "Head Unit Infotainment"@, seq!["sim"@, "hu"@, "infotainment"@, "opensovd"@]),
            ("bms"@, "Battery Management System"@, seq!["sim"@, "battery"@]),
        ],
{
    assert(topology_table().map_values(
        |component: ComponentView| (component.id, component.name, component.tags),
    ) =~= seq![
        ("hydraulics"@, "Hydraulic Control System"@, seq!["sim"@, "hydraulics"@]),
        ("hpc2"@, "HPC2 Simulated Powertrain"@, seq!["sim"@, "powertrain"@]),
        ("infotainment"@, "Head Unit Infotainment"@, seq!["sim"@, "hu"@, "infotainment"@, "opensovd"@]),
        ("bms"@, "Battery Management System"@, seq!["sim"@, "battery"@]),
    ]);
}

} // verus!
