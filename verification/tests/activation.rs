use nmos_core::activation::{
    get_absolute_requested_time, get_activation_state, make_activation, merge_activation,
    parse_mode, Activation, ActivationError, ActivationMode, ActivationRequest, ActivationState,
};
use nmos_core::tai::Tai;

fn tai(seconds: u64, nanoseconds: u32) -> Tai {
    Tai { seconds, nanoseconds }
}

fn request(mode: Option<&str>, requested_time: Option<&str>) -> ActivationRequest {
    ActivationRequest {
        mode: mode.map(|m| m.to_string()),
        requested_time: requested_time.map(|t| t.to_string()),
    }
}

fn busy() -> Activation {
    Activation {
        mode: Some(ActivationMode::ActivateScheduledAbsolute),
        requested_time: Some("5:0".to_string()),
        activation_time: Some(tai(5, 0)),
    }
}

#[test]
fn a_request_without_activation_is_staging_only() {
    assert_eq!(get_activation_state(None), Ok(ActivationState::StagingOnly));
}

#[test]
fn a_null_mode_is_not_pending() {
    assert_eq!(
        get_activation_state(Some(&request(None, None))),
        Ok(ActivationState::ActivationNotPending)
    );
    assert_eq!(
        get_activation_state(Some(&request(None, Some("1:0")))),
        Ok(ActivationState::ActivationNotPending)
    );
}

#[test]
fn the_mode_decides_between_immediate_and_scheduled() {
    assert_eq!(
        get_activation_state(Some(&request(Some("activate_immediate"), None))),
        Ok(ActivationState::ImmediateActivationPending)
    );
    assert_eq!(
        get_activation_state(Some(&request(Some("activate_scheduled_absolute"), Some("1:0")))),
        Ok(ActivationState::ScheduledActivationPending)
    );
    assert_eq!(
        get_activation_state(Some(&request(Some("activate_scheduled_relative"), Some("1:0")))),
        Ok(ActivationState::ScheduledActivationPending)
    );
}

#[test]
fn any_other_mode_is_invalid() {
    for mode in ["", "activate", "activate_now", "ACTIVATE_IMMEDIATE", "activate_immediate "] {
        assert_eq!(
            get_activation_state(Some(&request(Some(mode), None))),
            Err(ActivationError::InvalidActivationMode)
        );
    }
}

#[test]
fn parse_mode_knows_three_names() {
    assert_eq!(parse_mode("activate_immediate"), Some(ActivationMode::ActivateImmediate));
    assert_eq!(
        parse_mode("activate_scheduled_absolute"),
        Some(ActivationMode::ActivateScheduledAbsolute)
    );
    assert_eq!(
        parse_mode("activate_scheduled_relative"),
        Some(ActivationMode::ActivateScheduledRelative)
    );
    assert_eq!(parse_mode("null"), None);
}

#[test]
fn an_absolute_time_is_returned_unchanged() {
    let r = request(Some("activate_scheduled_absolute"), Some("1441704616:890020555"));
    assert_eq!(get_absolute_requested_time(&r, &tai(7, 7)), Ok(tai(1441704616, 890020555)));
}

#[test]
fn a_relative_time_is_added_to_the_receipt_time() {
    let r = request(Some("activate_scheduled_relative"), Some("2:500000000"));
    assert_eq!(
        get_absolute_requested_time(&r, &tai(100, 600_000_000)),
        Ok(tai(103, 100_000_000))
    );
    let zero = request(Some("activate_scheduled_relative"), Some("0:0"));
    assert_eq!(get_absolute_requested_time(&zero, &tai(100, 1)), Ok(tai(100, 1)));
}

#[test]
fn other_modes_have_no_time_to_resolve() {
    assert_eq!(
        get_absolute_requested_time(&request(Some("activate_immediate"), Some("1:0")), &tai(0, 0)),
        Err(ActivationError::UnsupportedModeForTimeResolution)
    );
    assert_eq!(
        get_absolute_requested_time(&request(None, Some("1:0")), &tai(0, 0)),
        Err(ActivationError::UnsupportedModeForTimeResolution)
    );
    assert_eq!(
        get_absolute_requested_time(&request(Some("later"), Some("1:0")), &tai(0, 0)),
        Err(ActivationError::InvalidActivationMode)
    );
}

#[test]
fn a_bad_requested_time_is_refused() {
    let missing = request(Some("activate_scheduled_absolute"), None);
    assert_eq!(
        get_absolute_requested_time(&missing, &tai(0, 0)),
        Err(ActivationError::InvalidRequestedTime)
    );
    let garbled = request(Some("activate_scheduled_relative"), Some("soon"));
    assert_eq!(
        get_absolute_requested_time(&garbled, &tai(0, 0)),
        Err(ActivationError::InvalidRequestedTime)
    );
    let far = request(Some("activate_scheduled_relative"), Some("18446744073709551615:0"));
    assert_eq!(
        get_absolute_requested_time(&far, &tai(1, 0)),
        Err(ActivationError::InvalidRequestedTime)
    );
}

#[test]
fn make_activation_is_all_null() {
    assert_eq!(
        make_activation(),
        Activation { mode: None, requested_time: None, activation_time: None }
    );
}

#[test]
fn merging_staging_only_clears_everything() {
    let mut staged = busy();
    assert_eq!(merge_activation(&mut staged, None, &tai(9, 9)), Ok(()));
    assert_eq!(staged, make_activation());
    let mut fresh = make_activation();
    assert_eq!(merge_activation(&mut fresh, None, &tai(9, 9)), Ok(()));
    assert_eq!(fresh, make_activation());
}

#[test]
fn merging_a_null_mode_unlocks() {
    let mut staged = busy();
    assert_eq!(
        merge_activation(&mut staged, Some(&request(None, Some("77:0"))), &tai(9, 9)),
        Ok(())
    );
    assert_eq!(staged, make_activation());
}

#[test]
fn merging_an_immediate_request_sets_the_token() {
    let mut staged = busy();
    let r = request(Some("activate_immediate"), None);
    assert_eq!(merge_activation(&mut staged, Some(&r), &tai(1441704616, 890020555)), Ok(()));
    assert_eq!(staged.mode, Some(ActivationMode::ActivateImmediate));
    assert_eq!(staged.requested_time, Some("1441704616:890020555".to_string()));
    assert_eq!(staged.activation_time, None);
}

#[test]
fn merging_an_absolute_request_keeps_the_time() {
    let mut staged = make_activation();
    let r = request(Some("activate_scheduled_absolute"), Some("0020:5"));
    assert_eq!(merge_activation(&mut staged, Some(&r), &tai(1, 1)), Ok(()));
    assert_eq!(staged.mode, Some(ActivationMode::ActivateScheduledAbsolute));
    assert_eq!(staged.requested_time, Some("0020:5".to_string()));
    assert_eq!(staged.activation_time, Some(tai(20, 5)));
}

#[test]
fn merging_a_relative_request_adds_the_duration() {
    let mut staged = make_activation();
    let r = request(Some("activate_scheduled_relative"), Some("3:999999999"));
    assert_eq!(merge_activation(&mut staged, Some(&r), &tai(10, 2)), Ok(()));
    assert_eq!(staged.mode, Some(ActivationMode::ActivateScheduledRelative));
    assert_eq!(staged.requested_time, Some("3:999999999".to_string()));
    assert_eq!(staged.activation_time, Some(tai(14, 1)));
}

#[test]
fn a_refused_merge_leaves_the_staged_activation() {
    let mut staged = busy();
    assert_eq!(
        merge_activation(&mut staged, Some(&request(Some("whenever"), None)), &tai(1, 1)),
        Err(ActivationError::InvalidActivationMode)
    );
    assert_eq!(staged, busy());
    assert_eq!(
        merge_activation(
            &mut staged,
            Some(&request(Some("activate_scheduled_absolute"), Some("x"))),
            &tai(1, 1)
        ),
        Err(ActivationError::InvalidRequestedTime)
    );
    assert_eq!(staged, busy());
}

#[test]
fn same_as_compares_all_three_fields() {
    let a = busy();
    assert!(a.same_as(&busy()));
    assert!(a.same_as(&a.clone()));
    let mut b = busy();
    b.activation_time = None;
    assert!(!a.same_as(&b));
    let mut c = busy();
    c.requested_time = Some("5:1".to_string());
    assert!(!a.same_as(&c));
    let mut d = busy();
    d.mode = Some(ActivationMode::ActivateImmediate);
    assert!(!a.same_as(&d));
    assert!(!a.same_as(&make_activation()));
}
