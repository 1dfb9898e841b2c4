//! Serving a resource at an older API version: whether that is permitted, and
//! which of its fields the older version shows.

use vstd::prelude::*;
use vstd::string::*;
use crate::api_version::{version_text, ApiVersion};
use crate::document::Document;
use crate::resource::{Resource, ResourceView};
use crate::types::ResourceType;

verus! {

/// Why a resource is not served.
#[derive(Debug, Clone, PartialEq, Eq)]
pub enum ApiDowngradeError {
    /// The resource may not be served at the version asked for; the text says
    /// which request met which resource.
    NotPermitted(String),
}

/// The names of the fields that a resource type gained at an API version, in
/// the order of the schema. A type gains fields at a few versions only.
pub open spec fn introduced_fields(t: ResourceType, version: ApiVersion) -> Seq<&'static str> {
    match t {
        ResourceType::Node => if version.major == 1 && version.minor == 0 {
            seq!["id", "version", "label", "href", "hostname", "caps", "services"]
        } else if version.major == 1 && version.minor == 1 {
            seq!["description", "tags", "api", "clocks"]
        } else if version.major == 1 && version.minor == 2 {
            seq!["interfaces"]
        } else {
            Seq::empty()
        },
        ResourceType::Device => if version.major == 1 && version.minor == 0 {
            seq!["id", "version", "label", "type", "node_id", "senders", "receivers"]
        } else if version.major == 1 && version.minor == 1 {
            seq!["description", "tags", "controls"]
        } else {
            Seq::empty()
        },
        ResourceType::Source => if version.major == 1 && version.minor == 0 {
            seq![
                "id", "version", "label", "description", "format", "caps", "tags", "device_id",
                "parents",
            ]
        } else if version.major == 1 && version.minor == 1 {
            seq!["grain_rate", "clock_name", "channels"]
        } else if version.major == 1 && version.minor == 3 {
            seq!["event_type"]
        } else {
            Seq::empty()
        },
        ResourceType::Flow => if version.major == 1 && version.minor == 0 {
            seq!["id", "version", "label", "description", "format", "tags", "source_id", "parents"]
        } else if version.major == 1 && version.minor == 1 {
            seq![
                "grain_rate", "device_id", "media_type", "sample_rate", "bit_depth", "DID_SDID",
                "frame_width", "frame_height", "interlace_mode", "colorspace",
                "transfer_characteristic", "components",
            ]
        } else if version.major == 1 && version.minor == 3 {
            seq!["event_type"]
        } else {
            Seq::empty()
        },
        ResourceType::Sender => if version.major == 1 && version.minor == 0 {
            seq![
                "id", "version", "label", "description", "flow_id", "transport", "tags",
                "device_id", "manifest_href",
            ]
        } else if version.major == 1 && version.minor == 2 {
            seq!["caps", "interface_bindings", "subscription"]
        } else {
            Seq::empty()
        },
        ResourceType::Receiver => if version.major == 1 && version.minor == 0 {
            seq![
                "id", "version", "label", "description", "format", "caps", "tags", "device_id",
                "transport", "subscription",
            ]
        } else if version.major == 1 && version.minor == 2 {
            seq!["interface_bindings"]
        } else {
            Seq::empty()
        },
        ResourceType::Subscription => if version.major == 1 && version.minor == 0 {
            seq!["id", "ws_href", "max_updates_rate_ms", "persist", "resource_path", "params"]
        } else if version.major == 1 && version.minor == 1 {
            seq!["secure"]
        } else if version.major == 1 && version.minor == 3 {
            seq!["authorization"]
        } else {
            Seq::empty()
        },
        _ => Seq::empty(),
    }
}

/// The names of the fields that a resource type gained at an API version.
pub fn fields_introduced_at(t: ResourceType, version: ApiVersion) -> (r: Vec<&'static str>)
    ensures
        r@ == introduced_fields(t, version),
{
    match t {
        ResourceType::Node => if version.major == 1 && version.minor == 0 {
            vec!["id", "version", "label", "href", "hostname", "caps", "services"]
        } else if version.major == 1 && version.minor == 1 {
            vec!["description", "tags", "api", "clocks"]
        } else if version.major == 1 && version.minor == 2 {
            vec!["interfaces"]
        } else {
            Vec::new()
        },
        ResourceType::Device => if version.major == 1 && version.minor == 0 {
            vec!["id", "version", "label", "type", "node_id", "senders", "receivers"]
        } else if version.major == 1 && version.minor == 1 {
            vec!["description", "tags", "controls"]
        } else {
            Vec::new()
        },
        ResourceType::Source => if version.major == 1 && version.minor == 0 {
            vec![
                "id", "version", "label", "description", "format", "caps", "tags", "device_id",
                "parents",
            ]
        } else if version.major == 1 && version.minor == 1 {
            vec!["grain_rate", "clock_name", "channels"]
        } else if version.major == 1 && version.minor == 3 {
            vec!["event_type"]
        } else {
            Vec::new()
        },
        ResourceType::Flow => if version.major == 1 && version.minor == 0 {
            vec!["id", "version", "label", "description", "format", "tags", "source_id", "parents"]
        } else if version.major == 1 && version.minor == 1 {
            vec![
                "grain_rate", "device_id", "media_type", "sample_rate", "bit_depth", "DID_SDID",
                "frame_width", "frame_height", "interlace_mode", "colorspace",
                "transfer_characteristic", "components",
            ]
        } else if version.major == 1 && version.minor == 3 {
            vec!["event_type"]
        } else {
            Vec::new()
        },
        ResourceType::Sender => if version.major == 1 && version.minor == 0 {
            vec![
                "id", "version", "label", "description", "flow_id", "transport", "tags",
                "device_id", "manifest_href",
            ]
        } else if version.major == 1 && version.minor == 2 {
            vec!["caps", "interface_bindings", "subscription"]
        } else {
            Vec::new()
        },
        ResourceType::Receiver => if version.major == 1 && version.minor == 0 {
            vec![
                "id", "version", "label", "description", "format", "caps", "tags", "device_id",
                "transport", "subscription",
            ]
        } else if version.major == 1 && version.minor == 2 {
            vec!["interface_bindings"]
        } else {
            Vec::new()
        },
        ResourceType::Subscription => if version.major == 1 && version.minor == 0 {
            vec!["id", "ws_href", "max_updates_rate_ms", "persist", "resource_path", "params"]
        } else if version.major == 1 && version.minor == 1 {
            vec!["secure"]
        } else if version.major == 1 && version.minor == 3 {
            vec!["authorization"]
        } else {
            Vec::new()
        },
        _ => Vec::new(),
    }
}

/// The API versions at which some resource type gained fields, in increasing order.
pub open spec fn field_versions() -> Seq<ApiVersion> {
    seq![
        ApiVersion { major: 1, minor: 0 },
        ApiVersion { major: 1, minor: 1 },
        ApiVersion { major: 1, minor: 2 },
        ApiVersion { major: 1, minor: 3 },
    ]
}

/// The names that a list holds.
pub open spec fn name_set(names: Seq<&'static str>) -> Set<Seq<char>> {
    Set::new(|name: Seq<char>| exists|i: int| 0 <= i < names.len() && #[trigger] names[i]@ == name)
}

/// The field called `name` came to resource type `t` at `at`.
pub open spec fn introduced_at(t: ResourceType, at: ApiVersion, name: Seq<char>) -> bool {
    name_set(introduced_fields(t, at)).contains(name)
}

/// The names of the fields that a resource of type `t` shows at `version`: those
/// that the type gained at that version or before.
pub open spec fn visible_fields(t: ResourceType, version: ApiVersion) -> Set<Seq<char>> {
    Set::new(
        |name: Seq<char>|
            exists|at: ApiVersion| at.spec_le(version) && #[trigger] introduced_at(t, at, name),
    )
}

/// Whether a resource may be served to a request at `version` that accepts
/// resources down to `downgrade_version`.
pub open spec fn permitted_downgrade(
    resource: ResourceView,
    version: ApiVersion,
    downgrade_version: ApiVersion,
) -> bool {
    &&& resource.downgrade_version.spec_le(downgrade_version)
    &&& version.major == downgrade_version.major
    &&& resource.version.major == version.major
    &&& resource.version.minor >= downgrade_version.minor
    &&& (resource.type_ == ResourceType::Subscription ==> version == resource.version)
}

/// The fields of a resource as a request at `version` sees them: all of them
/// where the resource is no newer than the request, otherwise those that its
/// type had at `version`. Fields are only ever hidden, and their values stay.
pub open spec fn projected_data(resource: ResourceView, version: ApiVersion) -> Map<
    Seq<char>,
    Seq<char>,
> {
    if resource.version.spec_le(version) {
        resource.data
    } else {
        resource.data.restrict(visible_fields(resource.type_, version))
    }
}

/// The text that says why a request was refused.
pub open spec fn downgrade_error_text(
    resource_version: ApiVersion,
    version: ApiVersion,
    downgrade_version: ApiVersion,
) -> Seq<char> {
    if version == downgrade_version {
        version_text(version) + " request is not permitted for a "@ + version_text(
            resource_version,
        ) + " resource"@
    } else {
        version_text(downgrade_version) + " downgrade request is not permitted for a "@
            + version_text(resource_version) + " resource"@
    }
}

/// Whether the resource may be served to a request at `version` that accepts
/// resources down to `downgrade_version`.
pub fn is_permitted_downgrade(
    resource: &Resource,
    version: ApiVersion,
    downgrade_version: ApiVersion,
) -> (r: bool)
    ensures
        r == permitted_downgrade(resource@, version, downgrade_version),
{
    if downgrade_version.before(&resource.downgrade_version) {
        return false;
    }
    if version.major != downgrade_version.major {
        return false;
    }
    if resource.version.major != version.major {
        return false;
    }
    if resource.version.minor < downgrade_version.minor {
        return false;
    }
    if resource.type_ == ResourceType::Subscription && version != resource.version {
        return false;
    }
    true
}

/// The fields gained at the first `k` of the versions in `field_versions`, as
/// far as those versions are no later than `version`.
spec fn scanned_fields(t: ResourceType, version: ApiVersion, k: int) -> Set<Seq<char>> {
    Set::new(
        |name: Seq<char>|
            exists|i: int|
                0 <= i < k && field_versions()[i].spec_le(version) && #[trigger] introduced_at(
                    t,
                    field_versions()[i],
                    name,
                ),
    )
}

/// Fields are gained at the versions in `field_versions` only, so a scan of
/// all of them finds every visible field.
proof fn lemma_scanned_all(t: ResourceType, version: ApiVersion)
    ensures
        scanned_fields(t, version, 4) == visible_fields(t, version),
{
    let scanned = scanned_fields(t, version, 4);
    let visible = visible_fields(t, version);
    assert forall|name: Seq<char>| visible.contains(name) implies scanned.contains(name) by {
        let at = choose|at: ApiVersion| at.spec_le(version) && #[trigger] introduced_at(t, at, name);
        let i = choose|i: int|
            0 <= i < introduced_fields(t, at).len() && #[trigger] introduced_fields(t, at)[i]@
                == name;
        assert(at.major == 1 && at.minor <= 3);
        assert(field_versions()[at.minor as int] == at);
        assert(introduced_at(t, field_versions()[at.minor as int], name));
    }
    assert forall|name: Seq<char>| scanned.contains(name) implies visible.contains(name) by {
        let i = choose|i: int|
            0 <= i < 4 && field_versions()[i].spec_le(version) && #[trigger] introduced_at(
                t,
                field_versions()[i],
                name,
            );
        assert(introduced_at(t, field_versions()[i], name));
    }
    assert(scanned =~= visible);
}

/// Copies into `result` each field of `data` whose name is in `names`.
fn copy_fields(data: &Document, names: &Vec<&'static str>, result: &mut Document)
    ensures
        final(result)@ == old(result)@.union_prefer_right(data@.restrict(name_set(names@))),
{
    let ghost before = result@;
    let mut j: usize = 0;
    proof {
        assert(name_set(names@.subrange(0, 0)) =~= Set::<Seq<char>>::empty());
        assert(before.union_prefer_right(data@.restrict(Set::<Seq<char>>::empty())) =~= before);
    }
    while j < names.len()
        invariant
            j <= names@.len(),
            result@ == before.union_prefer_right(
                data@.restrict(name_set(names@.subrange(0, j as int))),
            ),
        decreases names@.len() - j,
    {
        let name: &'static str = names[j];
        let ghost done = name_set(names@.subrange(0, j as int));
        let ghost next = name_set(names@.subrange(0, j + 1));
        proof {
            assert(names@.subrange(0, j + 1)[j as int]@ == name@);
            assert forall|n: Seq<char>| next.contains(n) <==> (done.contains(n) || n == name@) by {
                if done.contains(n) {
                    let i = choose|i: int|
                        0 <= i < j && #[trigger] names@.subrange(0, j as int)[i]@ == n;
                    assert(names@.subrange(0, j + 1)[i]@ == n);
                }
                if next.contains(n) && n != name@ {
                    let i = choose|i: int|
                        0 <= i < j + 1 && #[trigger] names@.subrange(0, j + 1)[i]@ == n;
                    assert(names@.subrange(0, j as int)[i]@ == n);
                }
            }
        }
        match data.get(name) {
            Some(value) => {
                result.insert(name.to_owned(), value.clone());
                assert(result@ =~= before.union_prefer_right(data@.restrict(next)));
            },
            None => {
                assert(data@.restrict(next) =~= data@.restrict(done));
            },
        }
        j = j + 1;
    }
    assert(names@.subrange(0, names@.len() as int) =~= names@);
}

/// The fields of `data` that a resource of type `t` shows at `version`.
fn visible_data(data: &Document, t: ResourceType, version: ApiVersion) -> (r: Document)
    ensures
        r@ == data@.restrict(visible_fields(t, version)),
{
    let versions = vec![
        ApiVersion::new(1, 0),
        ApiVersion::new(1, 1),
        ApiVersion::new(1, 2),
        ApiVersion::new(1, 3),
    ];
    assert(versions@ =~= field_versions());
    let mut result = Document::new();
    let mut k: usize = 0;
    proof {
        assert(scanned_fields(t, version, 0) =~= Set::<Seq<char>>::empty());
        assert(data@.restrict(Set::<Seq<char>>::empty()) =~= Map::<Seq<char>, Seq<char>>::empty());
    }
    while k < versions.len()
        invariant
            k <= 4,
            versions@ == field_versions(),
            result@ == data@.restrict(scanned_fields(t, version, k as int)),
        decreases 4 - k,
    {
        let at = versions[k];
        let ghost done = scanned_fields(t, version, k as int);
        let ghost next = scanned_fields(t, version, k + 1);
        if at.at_most(&version) {
            let names = fields_introduced_at(t, at);
            copy_fields(data, &names, &mut result);
            proof {
                assert forall|n: Seq<char>| next.contains(n) <==> (done.contains(n) || name_set(
                    names@,
                ).contains(n)) by {
                    if name_set(names@).contains(n) {
                        assert(introduced_at(t, field_versions()[k as int], n));
                    }
                    if done.contains(n) {
                        let i = choose|i: int|
                            0 <= i < k && field_versions()[i].spec_le(version)
                                && #[trigger] introduced_at(t, field_versions()[i], n);
                        assert(introduced_at(t, field_versions()[i], n));
                    }
                }
                assert(result@ =~= data@.restrict(next));
            }
        } else {
            proof {
                assert forall|n: Seq<char>| next.contains(n) <==> done.contains(n) by {
                    if done.contains(n) {
                        let i = choose|i: int|
                            0 <= i < k && field_versions()[i].spec_le(version)
                                && #[trigger] introduced_at(t, field_versions()[i], n);
                        assert(introduced_at(t, field_versions()[i], n));
                    }
                }
                assert(next =~= done);
            }
        }
        k = k + 1;
    }
    proof {
        lemma_scanned_all(t, version);
    }
    result
}

/// The fields of the resource as a request at `version` sees them, or no fields
/// at all where the resource may not be served to that request. The resource
/// itself stays as it is.
pub fn downgrade_data(resource: &Resource, version: ApiVersion, downgrade_version: ApiVersion) -> (r:
    Document)
    ensures
        r@ == if permitted_downgrade(resource@, version, downgrade_version) {
            projected_data(resource@, version)
        } else {
            Map::empty()
        },
{
    if !is_permitted_downgrade(resource, version, downgrade_version) {
        Document::new()
    } else if resource.version.at_most(&version) {
        resource.data.clone()
    } else {
        visible_data(&resource.data, resource.type_, version)
    }
}

/// Says why a request at `version`, accepting resources down to
/// `downgrade_version`, was refused a resource made at `resource_version`.
pub fn make_permitted_downgrade_error(
    resource_version: ApiVersion,
    version: ApiVersion,
    downgrade_version: ApiVersion,
) -> (r: String)
    ensures
        r@ == downgrade_error_text(resource_version, version, downgrade_version),
{
    let mut text = if version == downgrade_version {
        let mut text = version.to_string();
        text.append(" request is not permitted for a ");
        text
    } else {
        let mut text = downgrade_version.to_string();
        text.append(" downgrade request is not permitted for a ");
        text
    };
    text.append(resource_version.to_string().as_str());
    text.append(" resource");
    text
}

/// Serves the resource to a request at `version` that accepts resources down
/// to `downgrade_version`: its fields as that version sees them, or the reason
/// why it may not be served.
pub fn downgrade(resource: &Resource, version: ApiVersion, downgrade_version: ApiVersion) -> (r:
    Result<Document, ApiDowngradeError>)
    ensures
        match r {
            Ok(data) => permitted_downgrade(resource@, version, downgrade_version) && data@
                == projected_data(resource@, version),
            Err(ApiDowngradeError::NotPermitted(reason)) => !permitted_downgrade(
                resource@,
                version,
                downgrade_version,
            ) && reason@ == downgrade_error_text(resource.version, version, downgrade_version),
        },
{
    if !is_permitted_downgrade(resource, version, downgrade_version) {
        return Err(
            ApiDowngradeError::NotPermitted(
                make_permitted_downgrade_error(resource.version, version, downgrade_version),
            ),
        );
    }
    Ok(downgrade_data(resource, version, downgrade_version))
}

/// At v1.0 a node shows the seven fields it had from the start and no others.
pub proof fn lemma_node_fields_at_v1_0()
    ensures
        visible_fields(ResourceType::Node, ApiVersion { major: 1, minor: 0 }) == set![
            "id"@,
            "version"@,
            "label"@,
            "href"@,
            "hostname"@,
            "caps"@,
            "services"@,
        ],
{
    let v1_0 = ApiVersion { major: 1, minor: 0 };
    let visible = visible_fields(ResourceType::Node, v1_0);
    let names = introduced_fields(ResourceType::Node, v1_0);
    let expected = set![
        "id"@,
        "version"@,
        "label"@,
        "href"@,
        "hostname"@,
        "caps"@,
        "services"@,
    ];
    assert forall|name: Seq<char>| visible.contains(name) implies expected.contains(name) by {
        let at = choose|at: ApiVersion|
            at.spec_le(v1_0) && #[trigger] introduced_at(ResourceType::Node, at, name);
        assert(at == v1_0);
    }
    assert forall|name: Seq<char>| expected.contains(name) implies visible.contains(name) by {
        assert(names[0]@ == "id"@ && names[1]@ == "version"@ && names[2]@ == "label"@ && names[3]@
            == "href"@ && names[4]@ == "hostname"@ && names[5]@ == "caps"@ && names[6]@
            == "services"@);
        assert(introduced_at(ResourceType::Node, v1_0, name));
    }
    assert(visible =~= expected);
}

/// A node made at a later version and served at v1.0 keeps exactly those of
/// its stored fields that v1.0 knows, each with its stored value.
pub proof fn lemma_node_served_at_v1_0(resource: ResourceView)
    requires
        resource.type_ == ResourceType::Node,
        (ApiVersion { major: 1, minor: 0 }).spec_lt(resource.version),
    ensures
        projected_data(resource, ApiVersion { major: 1, minor: 0 }) == resource.data.restrict(
            set![
                "id"@,
                "version"@,
                "label"@,
                "href"@,
                "hostname"@,
                "caps"@,
                "services"@,
            ],
        ),
{
    lemma_node_fields_at_v1_0();
}

/// A resource is never served below its floor: where a request is permitted
/// and accepts nothing newer than it asks for, the version it asks for is no
/// lower than the lowest version at which the resource may be served.
pub proof fn lemma_floor_respected(
    resource: ResourceView,
    version: ApiVersion,
    downgrade_version: ApiVersion,
)
    requires
        permitted_downgrade(resource, version, downgrade_version),
        downgrade_version.spec_le(version),
    ensures
        resource.downgrade_version.spec_le(version),
{
}

/// Serving a resource at another version only hides fields: every field that
/// is shown is a stored field, with its stored value.
pub proof fn lemma_projection_only_hides(resource: ResourceView, version: ApiVersion)
    ensures
        projected_data(resource, version).submap_of(resource.data),
{
}

/// A subscription is served at the version at which it was made, and at no other.
pub proof fn lemma_subscription_pinned(
    resource: ResourceView,
    version: ApiVersion,
    downgrade_version: ApiVersion,
)
    requires
        resource.type_ == ResourceType::Subscription,
        permitted_downgrade(resource, version, downgrade_version),
    ensures
        version == resource.version,
        projected_data(resource, version) == resource.data,
{
}

} // verus!
