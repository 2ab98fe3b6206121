use std::collections::HashSet;

use sovd_gateway::simulator_topology::{
    bms_resources, components, hpc2_resources, hydraulics_resources, infotainment_resources,
    provider_bindings, Category, DataCategory, DataType, SignalReader,
};

#[test]
fn components_keep_published_order() {
    let ids: Vec<&str> = components().iter().map(|c| c.id).collect();
    assert_eq!(ids, vec!["hydraulics", "hpc2", "infotainment", "bms"]);
    let names: Vec<&str> = components().iter().map(|c| c.name).collect();
    assert_eq!(
        names,
        vec![
            "Hydraulic Control System",
            "HPC2 Simulated Powertrain",
            "Head Unit Infotainment",
            "Battery Management System"
        ]
    );
}

#[test]
fn component_tags() {
    let all = components();
    assert_eq!(all[0].tags, vec!["sim", "hydraulics"]);
    assert_eq!(all[1].tags, vec!["sim", "powertrain"]);
    assert_eq!(all[2].tags, vec!["sim", "hu", "infotainment", "opensovd"]);
    assert_eq!(all[3].tags, vec!["sim", "battery"]);
}

#[test]
fn hpc2_data_ids_mirror_simulator_mapping() {
    let ids: Vec<&str> = hpc2_resources().iter().map(|r| r.data_id).collect();
    assert_eq!(
        ids,
        vec![
            "vehicle_speed",
            "total_distance",
            "trip_time",
            "propulsion_active_time",
            "accelerator_pedal",
            "motor_speed",
            "distance_since_fault_clear",
            "propulsion_trips_since_fault_clear",
            "vin"
        ]
    );
}

#[test]
fn hydraulics_resources_and_signals() {
    let pairs: Vec<(&str, &str)> =
        hydraulics_resources().iter().map(|r| (r.data_id, r.signal_id)).collect();
    assert_eq!(
        pairs,
        vec![
            ("main_pressure", "hydraulic.main_pressure"),
            ("hydraulic_pump_speed", "hydraulic.pump_speed"),
            ("hydraulic_valve_position", "hydraulic.valve_position")
        ]
    );
}

#[test]
fn resource_counts() {
    assert_eq!(hydraulics_resources().len(), 3);
    assert_eq!(hpc2_resources().len(), 9);
    assert_eq!(infotainment_resources().len(), 12);
    assert_eq!(bms_resources().len(), 12);
}

#[test]
fn data_ids_are_unique_within_each_component() {
    for component in components() {
        let ids: HashSet<&str> = component.resources.iter().map(|r| r.data_id).collect();
        assert_eq!(ids.len(), component.resources.len());
    }
}

#[test]
fn every_resource_is_tagged_live() {
    for component in components() {
        for resource in &component.resources {
            assert_eq!(resource.tags, vec!["live", "simulator"]);
        }
    }
}

#[test]
fn only_vin_is_a_string_and_it_reads_the_vin_signal() {
    let strings: Vec<(&str, &str)> = components()
        .iter()
        .flat_map(|c| c.resources.iter())
        .filter(|r| r.datatype == DataType::String)
        .map(|r| (r.data_id, r.signal_id))
        .collect();
    assert_eq!(strings, vec![("vin", "vehicle.vin")]);
}

#[test]
fn integer_resources() {
    let ints: Vec<&str> = components()
        .iter()
        .flat_map(|c| c.resources.iter())
        .filter(|r| r.datatype == DataType::Integer)
        .map(|r| r.data_id)
        .collect();
    assert_eq!(ints, vec!["propulsion_trips_since_fault_clear", "hu_restart_counter"]);
}

#[test]
fn vin_resource_is_identification_data() {
    let vin = hpc2_resources().into_iter().find(|r| r.data_id == "vin").unwrap();
    assert_eq!(vin.name, "VIN");
    assert_eq!(vin.category, Category::IdentData);
    assert_eq!(vin.groups, vec!["identification"]);
}

#[test]
fn category_maps_to_data_category() {
    assert_eq!(Category::IdentData.as_data_category(), DataCategory::IdentData);
    assert_eq!(Category::CurrentData.as_data_category(), DataCategory::CurrentData);
    assert_eq!(Category::StoredData.as_data_category(), DataCategory::StoredData);
}

#[test]
fn bindings_follow_resources() {
    let resources = hpc2_resources();
    let bindings = provider_bindings(&resources);
    assert_eq!(bindings.len(), resources.len());
    for (binding, resource) in bindings.iter().zip(resources.iter()) {
        assert_eq!(binding.data_id, resource.data_id);
        assert_eq!(binding.name, resource.name);
        assert_eq!(binding.signal_id, resource.signal_id);
        assert_eq!(binding.groups, resource.groups);
        assert_eq!(binding.tags, resource.tags);
        assert_eq!(binding.category, resource.category.as_data_category());
    }
    assert_eq!(bindings[0].reader, SignalReader::Float);
    assert_eq!(bindings[7].reader, SignalReader::Integer);
    assert_eq!(bindings[8].reader, SignalReader::Text);
    assert_eq!(bindings[8].category, DataCategory::IdentData);
    assert_eq!(bindings[1].category, DataCategory::StoredData);
}

#[test]
fn bindings_of_empty_list() {
    assert!(provider_bindings(&Vec::new()).is_empty());
}
