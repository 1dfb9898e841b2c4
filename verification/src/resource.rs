//! Resources and the settings from which their core fields are made.

use vstd::prelude::*;
use vstd::string::*;
use crate::activation::{Activation, ActivationView};
use crate::api_version::ApiVersion;
use crate::document::Document;
use crate::tai::Tai;
use crate::types::ResourceType;

verus! {

/// A resource of the node.
///
/// `version` is the API version at which the resource was made and
/// `downgrade_version` the lowest API version at which it may be served.
/// `updated` is the token that changes with every mutation. `staged` is the
/// activation of the staged endpoint; it stays null for a resource without one.
#[derive(Debug, Clone, PartialEq, Eq)]
pub struct Resource {
    pub id: String,
    pub type_: ResourceType,
    pub version: ApiVersion,
    pub downgrade_version: ApiVersion,
    pub updated: Tai,
    pub data: Document,
    pub staged: Activation,
}

/// A resource as contracts speak of it: its texts as sequences of characters and
/// its data as a mapping from names to values.
pub struct ResourceView {
    pub id: Seq<char>,
    pub type_: ResourceType,
    pub version: ApiVersion,
    pub downgrade_version: ApiVersion,
    pub updated: Tai,
    pub data: Map<Seq<char>, Seq<char>>,
    pub staged: ActivationView,
}

impl View for Resource {
    type V = ResourceView;

    open spec fn view(&self) -> ResourceView {
        ResourceView {
            id: self.id@,
            type_: self.type_,
            version: self.version,
            downgrade_version: self.downgrade_version,
            updated: self.updated,
            data: self.data@,
            staged: self.staged@,
        }
    }
}

impl Resource {
    /// A resource with the given data and no activation staged.
    pub fn new(
        id: String,
        type_: ResourceType,
        version: ApiVersion,
        downgrade_version: ApiVersion,
        updated: Tai,
        data: Document,
    ) -> (r: Resource)
        ensures
            r@ == (ResourceView {
                id: id@,
                type_,
                version,
                downgrade_version,
                updated,
                data: data@,
                staged: crate::activation::null_activation(),
            }),
    {
        Resource {
            id,
            type_,
            version,
            downgrade_version,
            updated,
            data,
            staged: crate::activation::make_activation(),
        }
    }
}

/// The label and the description that new resources are given.
#[derive(Debug, Clone, PartialEq, Eq)]
pub struct Settings {
    label: String,
    description: String,
}

impl Settings {
    /// The label of the settings.
    pub closed spec fn label(self) -> Seq<char> {
        self.label@
    }

    /// The description of the settings.
    pub closed spec fn description(self) -> Seq<char> {
        self.description@
    }

    /// Settings with the given label and description.
    pub fn new(label: &str, description: &str) -> (r: Settings)
        ensures
            r.label() == label@,
            r.description() == description@,
    {
        Settings { label: label.to_owned(), description: description.to_owned() }
    }

    /// The label that new resources are given.
    pub fn get_label(&self) -> (r: String)
        ensures
            r@ == self.label(),
    {
        self.label.clone()
    }

    /// The description that new resources are given.
    pub fn get_description(&self) -> (r: String)
        ensures
            r@ == self.description(),
    {
        self.description.clone()
    }
}

/// The fields that every resource has.
#[derive(Debug, Clone, PartialEq, Eq)]
pub struct ResourceCore {
    pub id: String,
    pub version: ApiVersion,
    pub label: String,
    pub description: String,
    pub tags: Document,
}

/// The core fields of a resource as contracts speak of them.
pub struct ResourceCoreView {
    pub id: Seq<char>,
    pub version: ApiVersion,
    pub label: Seq<char>,
    pub description: Seq<char>,
    pub tags: Map<Seq<char>, Seq<char>>,
}

impl View for ResourceCore {
    type V = ResourceCoreView;

    open spec fn view(&self) -> ResourceCoreView {
        ResourceCoreView {
            id: self.id@,
            version: self.version,
            label: self.label@,
            description: self.description@,
            tags: self.tags@,
        }
    }
}

/// The API version at which this node makes its resources.
pub open spec fn node_version() -> ApiVersion {
    ApiVersion { major: 1, minor: 2 }
}

fn make_version() -> (r: ApiVersion)
    ensures
        r == node_version(),
{
    ApiVersion::new(1, 2)
}

/// Makes the core fields of a resource.
pub fn make_resource_core(id: &str, label: &str, description: &str, tags: Document) -> (r:
    ResourceCore)
    ensures
        r@ == (ResourceCoreView {
            id: id@,
            version: node_version(),
            label: label@,
            description: description@,
            tags: tags@,
        }),
{
    ResourceCore {
        id: id.to_owned(),
        version: make_version(),
        label: label.to_owned(),
        description: description.to_owned(),
        tags,
    }
}

/// Makes the core fields of a resource with the label and the description of
/// the settings, and without tags.
pub fn make_resource_core_from_settings(id: &str, settings: &Settings) -> (r: ResourceCore)
    ensures
        r@ == (ResourceCoreView {
            id: id@,
            version: node_version(),
            label: settings.label(),
            description: settings.description(),
            tags: Map::empty(),
        }),
{
    let label = settings.get_label();
    let description = settings.get_description();
    make_resource_core(id, label.as_str(), description.as_str(), Document::new())
}

} // verus!
