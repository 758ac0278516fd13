use vkbootstrap::builder::{
    default_descriptor, full_coverage_messenger, interpret_driver_result, plan_instance_creation,
};
use vkbootstrap::errors::BootstrapError;
use vkbootstrap::version::{ApiVersion, pack_version};

#[test]
fn packed_versions() {
    assert_eq!(pack_version(1, 0, 0), 0x400000);
    assert_eq!(pack_version(0, 0, 0), 0);
    assert_eq!(pack_version(1, 3, 216), (1 << 22) | (3 << 12) | 216);
    assert_eq!(pack_version(1023, 1023, 4095), u32::MAX);
}

#[test]
fn descriptor_metadata() {
    let d = default_descriptor();
    assert_eq!(d.application_name, "Vulkan Tutorial");
    assert_eq!(d.engine_name, "No Engine");
    assert_eq!(d.application_version, 0x400000);
    assert_eq!(d.engine_version, 0x400000);
    assert_eq!(d.api_version, 0x400000);
}

#[test]
fn messenger_covers_everything() {
    let m = full_coverage_messenger();
    assert_eq!(m.severity_mask, 0x1111);
    assert_eq!(m.category_mask, 0x7);
}

#[test]
fn plan_validation_on_layer_present_off_platform() {
    let window = vec!["VK_KHR_surface".to_owned()];
    let avail = vec!["VK_LAYER_KHRONOS_validation".to_owned()];
    let plan = plan_instance_creation(
        default_descriptor(),
        window,
        true,
        false,
        &ApiVersion::new(1, 2, 0),
        &avail,
    )
    .unwrap();
    assert_eq!(
        plan.request.extensions,
        vec!["VK_KHR_surface".to_owned(), "VK_EXT_debug_utils".to_owned()]
    );
    assert_eq!(plan.request.layers, vec!["VK_LAYER_KHRONOS_validation".to_owned()]);
    assert!(!plan.request.portability_flag);
    let m = plan.debug_messenger.expect("validation chains a messenger");
    assert_eq!(m.severity_mask, 0x1111);
    assert_eq!(m.category_mask, 0x7);
    assert_eq!(plan.descriptor.application_name, "Vulkan Tutorial");
}

#[test]
fn plan_validation_off_has_no_messenger() {
    let window = vec!["VK_KHR_surface".to_owned()];
    let avail: Vec<String> = Vec::new();
    let plan = plan_instance_creation(
        default_descriptor(),
        window,
        false,
        true,
        &ApiVersion::new(1, 3, 216),
        &avail,
    )
    .unwrap();
    assert!(plan.debug_messenger.is_none());
    assert_eq!(
        plan.request.extensions,
        vec![
            "VK_KHR_surface".to_owned(),
            "VK_KHR_get_physical_device_properties2".to_owned(),
            "VK_KHR_portability_enumeration".to_owned(),
        ]
    );
    assert!(plan.request.portability_flag);
}

#[test]
fn plan_refused_without_layer() {
    let window = vec!["VK_KHR_surface".to_owned()];
    let avail: Vec<String> = Vec::new();
    let r = plan_instance_creation(
        default_descriptor(),
        window,
        true,
        false,
        &ApiVersion::new(1, 0, 0),
        &avail,
    );
    assert_eq!(r.unwrap_err(), BootstrapError::LayerUnavailable);
}

#[test]
fn driver_result_interpretation() {
    assert!(interpret_driver_result(0).is_ok());
    assert_eq!(
        interpret_driver_result(-1).unwrap_err(),
        BootstrapError::DriverCreationFailed(-1)
    );
    assert_eq!(
        interpret_driver_result(-9).unwrap_err(),
        BootstrapError::DriverCreationFailed(-9)
    );
    assert_eq!(
        interpret_driver_result(5).unwrap_err().native_code(),
        Some(5)
    );
}

#[test]
fn error_descriptions() {
    assert_eq!(
        BootstrapError::LoaderUnavailable.describe(),
        "graphics driver entry points could not be resolved"
    );
    assert_eq!(
        BootstrapError::LayerUnavailable.describe(),
        "validation layers requested but not supported"
    );
    assert_eq!(
        BootstrapError::DriverCreationFailed(-3).describe(),
        "the driver rejected the instance creation request"
    );
    assert_eq!(
        BootstrapError::UnsupportedCapability.describe(),
        "a required platform capability was not available"
    );
    assert_eq!(BootstrapError::LayerUnavailable.native_code(), None);
    assert_eq!(BootstrapError::DriverCreationFailed(-3).native_code(), Some(-3));
}
