use mistralrs_core::{DeviceMapError, DeviceMapMetadata};

#[test]
fn from_num_device_layers_asks_for_the_accelerator_share_only() {
    let metadata = DeviceMapMetadata::from_num_device_layers(20);
    assert_eq!(metadata.device_layers(), Some(20));
    assert_eq!(metadata.host_layers(), None);
    assert!(!metadata.is_dummy());
}

#[test]
fn from_num_device_layers_of_zero_is_still_a_request() {
    let metadata = DeviceMapMetadata::from_num_device_layers(0);
    assert_eq!(metadata.device_layers(), Some(0));
    assert!(!metadata.is_dummy());
}

#[test]
fn dummy_asks_for_nothing() {
    let metadata = DeviceMapMetadata::dummy();
    assert_eq!(metadata.device_layers(), None);
    assert_eq!(metadata.host_layers(), None);
    assert!(metadata.is_dummy());
}

#[test]
fn default_is_the_dummy_request() {
    let metadata = DeviceMapMetadata::default();
    assert_eq!(metadata.device_layers(), None);
    assert_eq!(metadata.host_layers(), None);
    assert!(metadata.is_dummy());
}

#[test]
fn new_keeps_both_counts() {
    let metadata = DeviceMapMetadata::new(Some(20), Some(12));
    assert_eq!(metadata.device_layers(), Some(20));
    assert_eq!(metadata.host_layers(), Some(12));
    assert!(!metadata.is_dummy());
}

#[test]
fn a_host_count_alone_is_no_request() {
    let metadata = DeviceMapMetadata::new(None, Some(12));
    assert_eq!(metadata.device_layers(), None);
    assert_eq!(metadata.host_layers(), Some(12));
    assert!(metadata.is_dummy());
}

#[test]
fn metadata_has_a_debug_form() {
    let text = format!("{:?}", DeviceMapMetadata::new(Some(3), None));
    assert!(text.contains("DeviceMapMetadata"));
    assert!(text.contains("Some(3)"));
}

#[test]
fn layer_split_infers_the_host_share() {
    let metadata = DeviceMapMetadata::from_num_device_layers(20);
    assert!(matches!(metadata.layer_split(32), Ok(Some((20, 12)))));
    assert!(matches!(metadata.layer_split(20), Ok(Some((20, 0)))));
}

#[test]
fn layer_split_takes_a_host_share_that_fits() {
    let metadata = DeviceMapMetadata::new(Some(7), Some(3));
    assert!(matches!(metadata.layer_split(10), Ok(Some((7, 3)))));
}

#[test]
fn layer_split_of_no_request_is_nothing() {
    assert!(matches!(DeviceMapMetadata::dummy().layer_split(10), Ok(None)));
    assert!(matches!(DeviceMapMetadata::new(None, Some(4)).layer_split(10), Ok(None)));
}

#[test]
fn layer_split_reports_the_three_numbers() {
    let metadata = DeviceMapMetadata::new(Some(20), Some(10));
    assert!(matches!(
        metadata.layer_split(32),
        Err(DeviceMapError::Configuration { device_layers: 20, host_layers: 10, model_layers: 32 })
    ));
}

#[test]
fn layer_split_rejects_a_share_beyond_the_model() {
    let metadata = DeviceMapMetadata::from_num_device_layers(33);
    assert!(matches!(
        metadata.layer_split(32),
        Err(DeviceMapError::Configuration { device_layers: 33, host_layers: 0, model_layers: 32 })
    ));
}

#[test]
fn layer_split_rejects_shares_beyond_the_machine_word() {
    let metadata = DeviceMapMetadata::new(Some(usize::MAX), Some(usize::MAX));
    assert!(matches!(
        metadata.layer_split(usize::MAX - 1),
        Err(DeviceMapError::Configuration {
            device_layers: usize::MAX,
            host_layers: usize::MAX,
            model_layers: _,
        })
    ));
}
