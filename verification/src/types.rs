//! Resource types, their names, and the plural names that API routes use for them.

use vstd::prelude::*;
use vstd::string::*;
use crate::text::str_eq;

verus! {

/// The kinds of resource that a node holds.
#[derive(Debug, Clone, Copy, PartialEq, Eq, Structural, Hash)]
pub enum ResourceType {
    Node,
    Device,
    Source,
    Flow,
    Sender,
    Receiver,
    Subscription,
    Grain,
    Input,
    Output,
    Global,
    NcBlock,
    NcWorker,
    NcManager,
    NcDeviceManager,
    NcClassManager,
    NcReceieverMonitor,
    NcReceieverMonitorProtected,
    NcIdentBeacon,
}

/// The name of a resource type, as it is written in a resource.
pub open spec fn type_name_text(t: ResourceType) -> Seq<char> {
    match t {
        ResourceType::Node => "node"@,
        ResourceType::Device => "device"@,
        ResourceType::Source => "source"@,
        ResourceType::Flow => "flow"@,
        ResourceType::Sender => "sender"@,
        ResourceType::Receiver => "receiver"@,
        ResourceType::Subscription => "subscription"@,
        ResourceType::Grain => "grain"@,
        ResourceType::Input => "input"@,
        ResourceType::Output => "output"@,
        ResourceType::Global => "global"@,
        ResourceType::NcBlock => "nc_block"@,
        ResourceType::NcWorker => "nc_worker"@,
        ResourceType::NcManager => "nc_manager"@,
        ResourceType::NcDeviceManager => "nc_device_manager"@,
        ResourceType::NcClassManager => "nc_class_manager"@,
        ResourceType::NcReceieverMonitor => "nc_receiver_monitor"@,
        ResourceType::NcReceieverMonitorProtected => "nc_receiver_monitor_protected"@,
        ResourceType::NcIdentBeacon => "nc_ident_beacon"@,
    }
}

/// The name under which API routes list resources of a type. Grains and the
/// global resource have no route of their own.
pub open spec fn route_text(t: ResourceType) -> Option<Seq<char>> {
    match t {
        ResourceType::Node => Some("nodes"@),
        ResourceType::Device => Some("devices"@),
        ResourceType::Source => Some("sources"@),
        ResourceType::Flow => Some("flows"@),
        ResourceType::Sender => Some("senders"@),
        ResourceType::Receiver => Some("receivers"@),
        ResourceType::Subscription => Some("subscriptions"@),
        ResourceType::Grain => None,
        ResourceType::Input => Some("inputs"@),
        ResourceType::Output => Some("outputs"@),
        ResourceType::Global => None,
        ResourceType::NcBlock => Some("nc_block"@),
        ResourceType::NcWorker => Some("nc_worker"@),
        ResourceType::NcManager => Some("nc_manager"@),
        ResourceType::NcDeviceManager => Some("nc_device_manager"@),
        ResourceType::NcClassManager => Some("nc_class_manager"@),
        ResourceType::NcReceieverMonitor => Some("nc_receiver_monitor"@),
        ResourceType::NcReceieverMonitorProtected => Some("nc_receiver_monitor_protected"@),
        ResourceType::NcIdentBeacon => Some("nc_ident_beacon"@),
    }
}

/// The resource type that a route name stands for. `self` is the node itself.
pub open spec fn route_type(s: Seq<char>) -> Option<ResourceType> {
    if s == "self"@ {
        Some(ResourceType::Node)
    } else if s == "nodes"@ {
        Some(ResourceType::Node)
    } else if s == "devices"@ {
        Some(ResourceType::Device)
    } else if s == "sources"@ {
        Some(ResourceType::Source)
    } else if s == "flows"@ {
        Some(ResourceType::Flow)
    } else if s == "senders"@ {
        Some(ResourceType::Sender)
    } else if s == "receivers"@ {
        Some(ResourceType::Receiver)
    } else if s == "subscriptions"@ {
        Some(ResourceType::Subscription)
    } else if s == "inputs"@ {
        Some(ResourceType::Input)
    } else if s == "outputs"@ {
        Some(ResourceType::Output)
    } else if s == "nc_block"@ {
        Some(ResourceType::NcBlock)
    } else if s == "nc_worker"@ {
        Some(ResourceType::NcWorker)
    } else if s == "nc_manager"@ {
        Some(ResourceType::NcManager)
    } else if s == "nc_device_manager"@ {
        Some(ResourceType::NcDeviceManager)
    } else if s == "nc_class_manager"@ {
        Some(ResourceType::NcClassManager)
    } else if s == "nc_receiver_monitor"@ {
        Some(ResourceType::NcReceieverMonitor)
    } else if s == "nc_receiver_monitor_protected"@ {
        Some(ResourceType::NcReceieverMonitorProtected)
    } else if s == "nc_ident_beacon"@ {
        Some(ResourceType::NcIdentBeacon)
    } else {
        None
    }
}

/// Every resource type, each once, in declaration order.
pub open spec fn all_types_seq() -> Seq<ResourceType> {
    seq![
        ResourceType::Node,
        ResourceType::Device,
        ResourceType::Source,
        ResourceType::Flow,
        ResourceType::Sender,
        ResourceType::Receiver,
        ResourceType::Subscription,
        ResourceType::Grain,
        ResourceType::Input,
        ResourceType::Output,
        ResourceType::Global,
        ResourceType::NcBlock,
        ResourceType::NcWorker,
        ResourceType::NcManager,
        ResourceType::NcDeviceManager,
        ResourceType::NcClassManager,
        ResourceType::NcReceieverMonitor,
        ResourceType::NcReceieverMonitorProtected,
        ResourceType::NcIdentBeacon,
    ]
}

/// A route name leads back to the type it was taken from.
pub proof fn lemma_route_round_trip(t: ResourceType)
    requires
        route_text(t) is Some,
    ensures
        route_type(route_text(t)->0) == Some(t),
{
    reveal_strlit("self");
    reveal_strlit("nodes");
    reveal_strlit("devices");
    reveal_strlit("sources");
    reveal_strlit("flows");
    reveal_strlit("senders");
    reveal_strlit("receivers");
    reveal_strlit("subscriptions");
    reveal_strlit("inputs");
    reveal_strlit("outputs");
    reveal_strlit("nc_block");
    reveal_strlit("nc_worker");
    reveal_strlit("nc_manager");
    reveal_strlit("nc_device_manager");
    reveal_strlit("nc_class_manager");
    reveal_strlit("nc_receiver_monitor");
    reveal_strlit("nc_receiver_monitor_protected");
    reveal_strlit("nc_ident_beacon");
    // The names differ in length, in their first letter or, for two of them, in their second.
    assert("self"@.len() == 4 && "self"@[0] == 's');
    assert("nodes"@.len() == 5 && "nodes"@[0] == 'n');
    assert("devices"@.len() == 7 && "devices"@[0] == 'd');
    assert("sources"@.len() == 7 && "sources"@[0] == 's' && "sources"@[1] == 'o');
    assert("flows"@.len() == 5 && "flows"@[0] == 'f');
    assert("senders"@.len() == 7 && "senders"@[0] == 's' && "senders"@[1] == 'e');
    assert("receivers"@.len() == 9 && "receivers"@[0] == 'r');
    assert("subscriptions"@.len() == 13 && "subscriptions"@[0] == 's');
    assert("inputs"@.len() == 6 && "inputs"@[0] == 'i');
    assert("outputs"@.len() == 7 && "outputs"@[0] == 'o');
    assert("nc_block"@.len() == 8 && "nc_block"@[0] == 'n');
    assert("nc_worker"@.len() == 9 && "nc_worker"@[0] == 'n');
    assert("nc_manager"@.len() == 10 && "nc_manager"@[0] == 'n');
    assert("nc_device_manager"@.len() == 17 && "nc_device_manager"@[0] == 'n');
    assert("nc_class_manager"@.len() == 16 && "nc_class_manager"@[0] == 'n');
    assert("nc_receiver_monitor"@.len() == 19 && "nc_receiver_monitor"@[0] == 'n');
    assert("nc_receiver_monitor_protected"@.len() == 29 && "nc_receiver_monitor_protected"@[0] == 'n');
    assert("nc_ident_beacon"@.len() == 15 && "nc_ident_beacon"@[0] == 'n');
}

impl ResourceType {
    /// Whether resources of this type belong to the channel mapping API rather
    /// than to the connection API: inputs and outputs do.
    pub fn is_channel_mapping(&self) -> (r: bool)
        ensures
            r == (*self == ResourceType::Input || *self == ResourceType::Output),
    {
        match self {
            ResourceType::Input => true,
            ResourceType::Output => true,
            _ => false,
        }
    }

    /// The name of the resource type.
    pub fn name(&self) -> (r: &'static str)
        ensures
            r@ == type_name_text(*self),
    {
        match self {
            ResourceType::Node => "node",
            ResourceType::Device => "device",
            ResourceType::Source => "source",
            ResourceType::Flow => "flow",
            ResourceType::Sender => "sender",
            ResourceType::Receiver => "receiver",
            ResourceType::Subscription => "subscription",
            ResourceType::Grain => "grain",
            ResourceType::Input => "input",
            ResourceType::Output => "output",
            ResourceType::Global => "global",
            ResourceType::NcBlock => "nc_block",
            ResourceType::NcWorker => "nc_worker",
            ResourceType::NcManager => "nc_manager",
            ResourceType::NcDeviceManager => "nc_device_manager",
            ResourceType::NcClassManager => "nc_class_manager",
            ResourceType::NcReceieverMonitor => "nc_receiver_monitor",
            ResourceType::NcReceieverMonitorProtected => "nc_receiver_monitor_protected",
            ResourceType::NcIdentBeacon => "nc_ident_beacon",
        }
    }
}

/// Every resource type, each once.
pub fn all_types() -> (r: Vec<ResourceType>)
    ensures
        r@ == all_types_seq(),
        forall|t: ResourceType| r@.contains(t),
        r@.no_duplicates(),
{
    let r = vec![
        ResourceType::Node,
        ResourceType::Device,
        ResourceType::Source,
        ResourceType::Flow,
        ResourceType::Sender,
        ResourceType::Receiver,
        ResourceType::Subscription,
        ResourceType::Grain,
        ResourceType::Input,
        ResourceType::Output,
        ResourceType::Global,
        ResourceType::NcBlock,
        ResourceType::NcWorker,
        ResourceType::NcManager,
        ResourceType::NcDeviceManager,
        ResourceType::NcClassManager,
        ResourceType::NcReceieverMonitor,
        ResourceType::NcReceieverMonitorProtected,
        ResourceType::NcIdentBeacon,
    ];
    proof {
        assert(r@ =~= all_types_seq());
        assert forall|t: ResourceType| r@.contains(t) by {
            match t {
                ResourceType::Node => assert(r@[0] == t),
                ResourceType::Device => assert(r@[1] == t),
                ResourceType::Source => assert(r@[2] == t),
                ResourceType::Flow => assert(r@[3] == t),
                ResourceType::Sender => assert(r@[4] == t),
                ResourceType::Receiver => assert(r@[5] == t),
                ResourceType::Subscription => assert(r@[6] == t),
                ResourceType::Grain => assert(r@[7] == t),
                ResourceType::Input => assert(r@[8] == t),
                ResourceType::Output => assert(r@[9] == t),
                ResourceType::Global => assert(r@[10] == t),
                ResourceType::NcBlock => assert(r@[11] == t),
                ResourceType::NcWorker => assert(r@[12] == t),
                ResourceType::NcManager => assert(r@[13] == t),
                ResourceType::NcDeviceManager => assert(r@[14] == t),
                ResourceType::NcClassManager => assert(r@[15] == t),
                ResourceType::NcReceieverMonitor => assert(r@[16] == t),
                ResourceType::NcReceieverMonitorProtected => assert(r@[17] == t),
                ResourceType::NcIdentBeacon => assert(r@[18] == t),
            }
        }
    }
    r
}

/// Maps the plural name used in API routes to the resource type, and fails on a
/// name that no type has.
pub fn type_from_resource_type(resource_type: &str) -> (r: Result<ResourceType, &'static str>)
    ensures
        match route_type(resource_type@) {
            Some(t) => r == Ok::<ResourceType, &'static str>(t),
            None => r is Err && r->Err_0@ == "Unknown resource type"@,
        },
{
    if str_eq(resource_type, "self") {
        Ok(ResourceType::Node)
    } else if str_eq(resource_type, "nodes") {
        Ok(ResourceType::Node)
    } else if str_eq(resource_type, "devices") {
        Ok(ResourceType::Device)
    } else if str_eq(resource_type, "sources") {
        Ok(ResourceType::Source)
    } else if str_eq(resource_type, "flows") {
        Ok(ResourceType::Flow)
    } else if str_eq(resource_type, "senders") {
        Ok(ResourceType::Sender)
    } else if str_eq(resource_type, "receivers") {
        Ok(ResourceType::Receiver)
    } else if str_eq(resource_type, "subscriptions") {
        Ok(ResourceType::Subscription)
    } else if str_eq(resource_type, "inputs") {
        Ok(ResourceType::Input)
    } else if str_eq(resource_type, "outputs") {
        Ok(ResourceType::Output)
    } else if str_eq(resource_type, "nc_block") {
        Ok(ResourceType::NcBlock)
    } else if str_eq(resource_type, "nc_worker") {
        Ok(ResourceType::NcWorker)
    } else if str_eq(resource_type, "nc_manager") {
        Ok(ResourceType::NcManager)
    } else if str_eq(resource_type, "nc_device_manager") {
        Ok(ResourceType::NcDeviceManager)
    } else if str_eq(resource_type, "nc_class_manager") {
        Ok(ResourceType::NcClassManager)
    } else if str_eq(resource_type, "nc_receiver_monitor") {
        Ok(ResourceType::NcReceieverMonitor)
    } else if str_eq(resource_type, "nc_receiver_monitor_protected") {
        Ok(ResourceType::NcReceieverMonitorProtected)
    } else if str_eq(resource_type, "nc_ident_beacon") {
        Ok(ResourceType::NcIdentBeacon)
    } else {
        Err("Unknown resource type")
    }
}

/// Maps a resource type to the plural name used in API routes, where it has one.
pub fn resource_type_from_type(type_: ResourceType) -> (r: Option<&'static str>)
    ensures
        r is Some == route_text(type_) is Some,
        r is Some ==> r->0@ == route_text(type_)->0,
{
    match type_ {
        ResourceType::Node => Some("nodes"),
        ResourceType::Device => Some("devices"),
        ResourceType::Source => Some("sources"),
        ResourceType::Flow => Some("flows"),
        ResourceType::Sender => Some("senders"),
        ResourceType::Receiver => Some("receivers"),
        ResourceType::Subscription => Some("subscriptions"),
        ResourceType::Grain => None,
        ResourceType::Input => Some("inputs"),
        ResourceType::Output => Some("outputs"),
        ResourceType::Global => None,
        ResourceType::NcBlock => Some("nc_block"),
        ResourceType::NcWorker => Some("nc_worker"),
        ResourceType::NcManager => Some("nc_manager"),
        ResourceType::NcDeviceManager => Some("nc_device_manager"),
        ResourceType::NcClassManager => Some("nc_class_manager"),
        ResourceType::NcReceieverMonitor => Some("nc_receiver_monitor"),
        ResourceType::NcReceieverMonitorProtected => Some("nc_receiver_monitor_protected"),
        ResourceType::NcIdentBeacon => Some("nc_ident_beacon"),
    }
}

} // verus!
