use nmos_core::api_version::ApiVersion;
use nmos_core::document::Document;
use nmos_core::resource::{
    make_resource_core, make_resource_core_from_settings, ResourceCore, Settings,
};

#[test]
fn test_make_resource_core() {
    let id = "resource_id";
    let label = "resource_label";
    let description = "resource_description";
    let tags = Document::new();
    let result = make_resource_core(id, label, description, tags);
    let expected = ResourceCore {
        id: "resource_id".to_string(),
        version: ApiVersion { major: 1, minor: 2 },
        label: "resource_label".to_string(),
        description: "resource_description".to_string(),
        tags: Document::new(),
    };
    assert_eq!(result, expected);
}

#[test]
fn test_make_resource_core_from_settings() {
    let id = "resource_id";
    let settings = Settings::new("label_from_settings", "description_from_settings");
    let result = make_resource_core_from_settings(id, &settings);
    let expected = ResourceCore {
        id: "resource_id".to_string(),
        version: ApiVersion { major: 1, minor: 2 },
        label: "label_from_settings".to_string(),
        description: "description_from_settings".to_string(),
        tags: Document::new(),
    };
    assert_eq!(result, expected);
}

#[test]
fn settings_give_back_what_they_were_made_with() {
    let settings = Settings::new("a label", "");
    assert_eq!(settings.get_label(), "a label");
    assert_eq!(settings.get_description(), "");
}

#[test]
fn tags_pass_through() {
    let mut tags = Document::new();
    tags.insert("location".to_string(), "[\"studio\"]".to_string());
    let core = make_resource_core("id", "l", "d", tags.clone());
    assert_eq!(core.tags, tags);
    assert_eq!(core.tags.get("location"), Some(&"[\"studio\"]".to_string()));
}
