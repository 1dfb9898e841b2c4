use nmos_core::types::{all_types, resource_type_from_type, type_from_resource_type, ResourceType};

#[test]
fn test_resource_type_enum() {
    assert_eq!(ResourceType::Node, ResourceType::Node);
    assert_ne!(ResourceType::Node, ResourceType::Device);
}

#[test]
fn test_all_types() {
    assert_eq!(all_types().len(), 19);
    assert_eq!(ResourceType::Node.name(), "node");
    assert_eq!(ResourceType::Device.name(), "device");
    assert_eq!(ResourceType::Source.name(), "source");
    assert_eq!(ResourceType::Flow.name(), "flow");
    assert_eq!(ResourceType::Sender.name(), "sender");
    assert_eq!(ResourceType::Receiver.name(), "receiver");
    assert_eq!(ResourceType::Subscription.name(), "subscription");
    assert_eq!(ResourceType::Grain.name(), "grain");
    assert_eq!(ResourceType::Input.name(), "input");
    assert_eq!(ResourceType::Output.name(), "output");
    assert_eq!(ResourceType::Global.name(), "global");
    assert_eq!(ResourceType::NcBlock.name(), "nc_block");
    assert_eq!(ResourceType::NcWorker.name(), "nc_worker");
    assert_eq!(ResourceType::NcManager.name(), "nc_manager");
    assert_eq!(ResourceType::NcDeviceManager.name(), "nc_device_manager");
    assert_eq!(ResourceType::NcClassManager.name(), "nc_class_manager");
    assert_eq!(ResourceType::NcReceieverMonitor.name(), "nc_receiver_monitor");
    assert_eq!(
        ResourceType::NcReceieverMonitorProtected.name(),
        "nc_receiver_monitor_protected"
    );
    assert_eq!(ResourceType::NcIdentBeacon.name(), "nc_ident_beacon");
}

#[test]
fn all_types_holds_each_type_once() {
    let types = all_types();
    for (i, a) in types.iter().enumerate() {
        for b in types.iter().skip(i + 1) {
            assert_ne!(a, b);
        }
    }
    assert!(types.contains(&ResourceType::Grain));
    assert!(types.contains(&ResourceType::NcIdentBeacon));
}

#[test]
fn route_names_map_to_types() {
    assert_eq!(type_from_resource_type("self"), Ok(ResourceType::Node));
    assert_eq!(type_from_resource_type("nodes"), Ok(ResourceType::Node));
    assert_eq!(type_from_resource_type("devices"), Ok(ResourceType::Device));
    assert_eq!(type_from_resource_type("sources"), Ok(ResourceType::Source));
    assert_eq!(type_from_resource_type("flows"), Ok(ResourceType::Flow));
    assert_eq!(type_from_resource_type("senders"), Ok(ResourceType::Sender));
    assert_eq!(type_from_resource_type("receivers"), Ok(ResourceType::Receiver));
    assert_eq!(
        type_from_resource_type("subscriptions"),
        Ok(ResourceType::Subscription)
    );
    assert_eq!(type_from_resource_type("inputs"), Ok(ResourceType::Input));
    assert_eq!(type_from_resource_type("outputs"), Ok(ResourceType::Output));
    assert_eq!(type_from_resource_type("nc_block"), Ok(ResourceType::NcBlock));
    assert_eq!(
        type_from_resource_type("nc_receiver_monitor_protected"),
        Ok(ResourceType::NcReceieverMonitorProtected)
    );
}

#[test]
fn unknown_route_names_are_refused() {
    assert_eq!(type_from_resource_type("node"), Err("Unknown resource type"));
    assert_eq!(type_from_resource_type(""), Err("Unknown resource type"));
    assert_eq!(type_from_resource_type("grains"), Err("Unknown resource type"));
    assert_eq!(type_from_resource_type("Nodes"), Err("Unknown resource type"));
}

#[test]
fn types_map_to_route_names() {
    assert_eq!(resource_type_from_type(ResourceType::Node), Some("nodes"));
    assert_eq!(resource_type_from_type(ResourceType::Device), Some("devices"));
    assert_eq!(resource_type_from_type(ResourceType::Source), Some("sources"));
    assert_eq!(resource_type_from_type(ResourceType::Flow), Some("flows"));
    assert_eq!(resource_type_from_type(ResourceType::Sender), Some("senders"));
    assert_eq!(resource_type_from_type(ResourceType::Receiver), Some("receivers"));
    assert_eq!(
        resource_type_from_type(ResourceType::Subscription),
        Some("subscriptions")
    );
    assert_eq!(resource_type_from_type(ResourceType::Input), Some("inputs"));
    assert_eq!(resource_type_from_type(ResourceType::Output), Some("outputs"));
    assert_eq!(
        resource_type_from_type(ResourceType::NcClassManager),
        Some("nc_class_manager")
    );
    assert_eq!(resource_type_from_type(ResourceType::Grain), None);
    assert_eq!(resource_type_from_type(ResourceType::Global), None);
}

#[test]
fn a_route_name_leads_back_to_its_type() {
    for t in all_types() {
        if let Some(name) = resource_type_from_type(t) {
            assert_eq!(type_from_resource_type(name), Ok(t));
        }
    }
}

#[test]
fn inputs_and_outputs_belong_to_channel_mapping() {
    for t in all_types() {
        assert_eq!(
            t.is_channel_mapping(),
            t == ResourceType::Input || t == ResourceType::Output
        );
    }
}
