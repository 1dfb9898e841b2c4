use nmos_core::activation::{
    make_activation, Activation, ActivationError, ActivationMode, ActivationRequest,
};
use nmos_core::api_version::ApiVersion;
use nmos_core::coordinator::{
    activation_modified, handle_immediate_activation_pending, immediate_activation_not_pending,
    stage_activation, wait_activation_modified, wait_for, wait_immediate_activation_not_pending,
    WaitStep,
};
use nmos_core::document::Document;
use nmos_core::resource::Resource;
use nmos_core::store::ResourceStore;
use nmos_core::tai::Tai;
use nmos_core::types::ResourceType;

const SENDER: ResourceType = ResourceType::Sender;

fn tai(seconds: u64, nanoseconds: u32) -> Tai {
    Tai { seconds, nanoseconds }
}

fn store_with_sender() -> ResourceStore {
    let mut store = ResourceStore::new(30);
    let mut data = Document::new();
    data.insert("label".to_string(), "\"a sender\"".to_string());
    store.insert(Resource::new(
        "a".to_string(),
        SENDER,
        ApiVersion::new(1, 2),
        ApiVersion::new(1, 0),
        tai(100, 0),
        data,
    ));
    store
}

fn immediate() -> ActivationRequest {
    ActivationRequest { mode: Some("activate_immediate".to_string()), requested_time: None }
}

fn effect(store: &mut ResourceStore, at: Tai) {
    assert!(store.modify("a", SENDER, &at, move |mut r| {
        r.staged.activation_time = Some(at);
        r
    }));
}

#[test]
fn wait_for_with_no_time_at_all() {
    assert_eq!(wait_for(true, false, 0, 0), WaitStep::Done(true));
    assert_eq!(wait_for(false, false, 0, 0), WaitStep::Done(false));
}

#[test]
fn wait_for_sleeps_no_longer_than_the_time_left() {
    assert_eq!(wait_for(false, false, 0, 1000), WaitStep::Wait(1000));
    assert_eq!(wait_for(false, false, 400, 1000), WaitStep::Wait(600));
    assert_eq!(wait_for(false, false, 999, 1000), WaitStep::Wait(1));
    assert_eq!(wait_for(false, false, 1000, 1000), WaitStep::Done(false));
    assert_eq!(wait_for(false, false, 5000, 1000), WaitStep::Done(false));
    assert_eq!(wait_for(true, false, 5000, 1000), WaitStep::Done(true));
}

#[test]
fn wait_for_ends_on_shutdown() {
    assert_eq!(wait_for(false, true, 0, 1000), WaitStep::Done(false));
    assert_eq!(wait_for(true, true, 0, 1000), WaitStep::Done(true));
}

#[test]
fn nothing_is_pending_at_first() {
    let store = store_with_sender();
    assert!(immediate_activation_not_pending(&store, "a", SENDER));
    assert!(immediate_activation_not_pending(&store, "nobody", SENDER));
    assert!(immediate_activation_not_pending(&store, "a", ResourceType::Receiver));
    assert_eq!(
        wait_immediate_activation_not_pending(&store, "a", SENDER, 0),
        WaitStep::Done(true)
    );
}

#[test]
fn an_immediate_activation_goes_from_staging_to_completion() {
    let mut store = store_with_sender();
    let mut response =
        stage_activation(&mut store, "a", SENDER, Some(&immediate()), &tai(200, 7), &tai(200, 9))
            .unwrap();
    assert_eq!(response.mode, Some(ActivationMode::ActivateImmediate));
    assert_eq!(response.requested_time, Some("200:7".to_string()));
    assert_eq!(response.activation_time, None);
    {
        let stored = store.find("a", SENDER).unwrap();
        assert_eq!(stored.staged, response);
        assert_eq!(stored.updated, tai(200, 9));
        assert_eq!(stored.data.get("label"), Some(&"\"a sender\"".to_string()));
    }
    assert!(!immediate_activation_not_pending(&store, "a", SENDER));
    assert!(!activation_modified(&store, "a", SENDER, &response));
    assert_eq!(wait_activation_modified(&store, "a", SENDER, &response, 10), WaitStep::Wait(29_990));

    effect(&mut store, tai(201, 0));
    assert!(activation_modified(&store, "a", SENDER, &response));
    assert_eq!(wait_activation_modified(&store, "a", SENDER, &response, 10), WaitStep::Done(true));

    assert_eq!(
        handle_immediate_activation_pending(&mut store, "a", SENDER, &mut response, true, &tai(202, 0)),
        Ok(())
    );
    assert_eq!(response.mode, Some(ActivationMode::ActivateImmediate));
    assert_eq!(response.requested_time, None);
    assert_eq!(response.activation_time, Some(tai(201, 0)));
    let stored = store.find("a", SENDER).unwrap();
    assert_eq!(stored.staged, make_activation());
    assert_eq!(stored.updated, tai(202, 0));
    assert_eq!(stored.data.get("label"), Some(&"\"a sender\"".to_string()));
    assert!(immediate_activation_not_pending(&store, "a", SENDER));
}

#[test]
fn a_second_request_waits_and_cannot_overwrite() {
    let mut store = store_with_sender();
    let mut first =
        stage_activation(&mut store, "a", SENDER, Some(&immediate()), &tai(200, 0), &tai(200, 0))
            .unwrap();
    // the second request is told to wait, and is refused when its time is up
    assert_eq!(
        wait_immediate_activation_not_pending(&store, "a", SENDER, 0),
        WaitStep::Wait(30_000)
    );
    assert_eq!(
        wait_immediate_activation_not_pending(&store, "a", SENDER, 12_500),
        WaitStep::Wait(17_500)
    );
    assert_eq!(
        wait_immediate_activation_not_pending(&store, "a", SENDER, 30_000),
        WaitStep::Done(false)
    );
    // and if it went on all the same, nothing would be staged
    effect(&mut store, tai(201, 0));
    let before = store.find("a", SENDER).unwrap().clone();
    assert_eq!(
        stage_activation(&mut store, "a", SENDER, Some(&immediate()), &tai(300, 0), &tai(300, 0)),
        Err(ActivationError::ActivationTimeout)
    );
    assert_eq!(
        stage_activation(&mut store, "a", SENDER, None, &tai(300, 0), &tai(300, 0)),
        Err(ActivationError::ActivationTimeout)
    );
    assert_eq!(store.find("a", SENDER), Some(&before));
    // the first request completes with its own activation time
    assert_eq!(
        handle_immediate_activation_pending(&mut store, "a", SENDER, &mut first, true, &tai(202, 0)),
        Ok(())
    );
    assert_eq!(first.activation_time, Some(tai(201, 0)));
    // now the second may go on
    assert_eq!(
        wait_immediate_activation_not_pending(&store, "a", SENDER, 12_500),
        WaitStep::Done(true)
    );
    let second =
        stage_activation(&mut store, "a", SENDER, Some(&immediate()), &tai(300, 0), &tai(300, 0))
            .unwrap();
    assert_eq!(second.requested_time, Some("300:0".to_string()));
    assert_eq!(second.activation_time, None);
}

#[test]
fn a_wait_that_ran_out_is_a_timeout() {
    let mut store = store_with_sender();
    let mut response =
        stage_activation(&mut store, "a", SENDER, Some(&immediate()), &tai(200, 0), &tai(200, 0))
            .unwrap();
    let before = store.find("a", SENDER).unwrap().clone();
    let asked = response.clone();
    assert_eq!(
        handle_immediate_activation_pending(&mut store, "a", SENDER, &mut response, false, &tai(9, 0)),
        Err(ActivationError::ActivationTimeout)
    );
    assert_eq!(response, asked);
    assert_eq!(store.find("a", SENDER), Some(&before));
}

#[test]
fn a_shutdown_ends_the_completion() {
    let mut store = store_with_sender();
    let mut response =
        stage_activation(&mut store, "a", SENDER, Some(&immediate()), &tai(200, 0), &tai(200, 0))
            .unwrap();
    effect(&mut store, tai(201, 0));
    store.shut_down();
    let before = store.find("a", SENDER).unwrap().clone();
    let asked = response.clone();
    assert!(activation_modified(&store, "a", SENDER, &response));
    assert!(immediate_activation_not_pending(&store, "a", SENDER));
    assert_eq!(
        handle_immediate_activation_pending(&mut store, "a", SENDER, &mut response, true, &tai(9, 0)),
        Err(ActivationError::StoreShuttingDown)
    );
    assert_eq!(response, asked);
    assert_eq!(store.find("a", SENDER), Some(&before));
    assert_eq!(
        stage_activation(&mut store, "a", SENDER, None, &tai(300, 0), &tai(300, 0)),
        Err(ActivationError::StoreShuttingDown)
    );
}

#[test]
fn another_token_in_the_store_is_a_conflict() {
    let mut store = store_with_sender();
    let mut response =
        stage_activation(&mut store, "a", SENDER, Some(&immediate()), &tai(200, 0), &tai(200, 0))
            .unwrap();
    assert!(store.modify("a", SENDER, &tai(201, 0), |mut r| {
        r.staged.requested_time = Some("199:0".to_string());
        r.staged.activation_time = Some(Tai { seconds: 201, nanoseconds: 0 });
        r
    }));
    let before = store.find("a", SENDER).unwrap().clone();
    let asked = response.clone();
    assert_eq!(
        handle_immediate_activation_pending(&mut store, "a", SENDER, &mut response, true, &tai(9, 0)),
        Err(ActivationError::ActivationConflict)
    );
    assert_eq!(response, asked);
    assert_eq!(store.find("a", SENDER), Some(&before));
}

#[test]
fn a_resource_that_has_gone_is_a_conflict() {
    let mut store = store_with_sender();
    let mut response =
        stage_activation(&mut store, "a", SENDER, Some(&immediate()), &tai(200, 0), &tai(200, 0))
            .unwrap();
    assert!(store.erase("a", SENDER).is_some());
    assert!(activation_modified(&store, "a", SENDER, &response));
    assert_eq!(
        handle_immediate_activation_pending(&mut store, "a", SENDER, &mut response, true, &tai(9, 0)),
        Err(ActivationError::ActivationConflict)
    );
}

#[test]
fn staging_needs_the_resource_and_a_good_request() {
    let mut store = store_with_sender();
    assert_eq!(
        stage_activation(&mut store, "b", SENDER, None, &tai(1, 0), &tai(1, 0)),
        Err(ActivationError::ResourceNotFound)
    );
    assert_eq!(
        stage_activation(&mut store, "a", ResourceType::Receiver, None, &tai(1, 0), &tai(1, 0)),
        Err(ActivationError::ResourceNotFound)
    );
    let bad = ActivationRequest { mode: Some("sometime".to_string()), requested_time: None };
    assert_eq!(
        stage_activation(&mut store, "a", SENDER, Some(&bad), &tai(1, 0), &tai(1, 0)),
        Err(ActivationError::InvalidActivationMode)
    );
    assert_eq!(store.find("a", SENDER).unwrap().updated, tai(100, 0));
}

#[test]
fn a_scheduled_activation_is_recorded() {
    let mut store = store_with_sender();
    let request = ActivationRequest {
        mode: Some("activate_scheduled_relative".to_string()),
        requested_time: Some("10:0".to_string()),
    };
    let response =
        stage_activation(&mut store, "a", SENDER, Some(&request), &tai(200, 5), &tai(200, 6))
            .unwrap();
    assert_eq!(
        response,
        Activation {
            mode: Some(ActivationMode::ActivateScheduledRelative),
            requested_time: Some("10:0".to_string()),
            activation_time: Some(tai(210, 5)),
        }
    );
    assert_eq!(store.find("a", SENDER).unwrap().staged, response);
    // a scheduled activation does not hold other requests back
    assert!(immediate_activation_not_pending(&store, "a", SENDER));
    let cleared = stage_activation(&mut store, "a", SENDER, None, &tai(201, 0), &tai(201, 0));
    assert_eq!(cleared, Ok(make_activation()));
}

#[test]
fn the_longest_wait_is_capped() {
    let mut store = ResourceStore::new(u64::MAX);
    store.insert(Resource::new(
        "a".to_string(),
        SENDER,
        ApiVersion::new(1, 2),
        ApiVersion::new(1, 0),
        tai(100, 0),
        Document::new(),
    ));
    stage_activation(&mut store, "a", SENDER, Some(&immediate()), &tai(200, 0), &tai(200, 0))
        .unwrap();
    assert_eq!(
        wait_immediate_activation_not_pending(&store, "a", SENDER, 1),
        WaitStep::Wait(u64::MAX - 1)
    );
}
