//! The Instance Builder: assembles application metadata, the negotiated
//! capability request and the optional chained debug-messenger description
//! into the single creation plan the host hands to the driver, and
//! interprets the driver's answer.

use vstd::prelude::*;

use crate::caps::{
    CapabilityRequest, assemble_request, spec_contains_name, spec_enabled_extensions,
    spec_enabled_layers, spec_portability_required, spec_validation_layer_name,
};
use crate::diag::{ALL_CATEGORIES, ALL_SEVERITIES};
use crate::errors::BootstrapError;
use crate::version::{ApiVersion, pack_version, spec_pack_version};

verus! {

/// Immutable application metadata, created once at bootstrap and carried by
/// the creation request. Versions are in packed form.
#[derive(Debug)]
pub struct ApplicationDescriptor {
    pub application_name: String,
    pub application_version: u32,
    pub engine_name: String,
    pub engine_version: u32,
    pub api_version: u32,
}

/// The metadata this application registers under.
pub fn default_descriptor() -> (r: ApplicationDescriptor)
    ensures
        r.application_name@ == "Vulkan Tutorial"@,
        r.application_version == spec_pack_version(1, 0, 0),
        r.engine_name@ == "No Engine"@,
        r.engine_version == spec_pack_version(1, 0, 0),
        r.api_version == spec_pack_version(1, 0, 0),
{
    let packed = pack_version(1, 0, 0);
    ApplicationDescriptor {
        application_name: "Vulkan Tutorial".to_owned(),
        application_version: packed,
        engine_name: "No Engine".to_owned(),
        engine_version: packed,
        api_version: packed,
    }
}

/// What the chained debug messenger registers with the driver: the
/// severity tiers and categories it asks to receive. The callback itself
/// is the Diagnostics Bridge's entry point, which the host supplies.
#[derive(Debug)]
pub struct DebugMessengerConfig {
    pub severity_mask: u32,
    pub category_mask: u32,
}

/// The messenger configuration validation mode uses: every severity tier
/// and every category.
pub fn full_coverage_messenger() -> (r: DebugMessengerConfig)
    ensures
        r.severity_mask == ALL_SEVERITIES,
        r.category_mask == ALL_CATEGORIES,
{
    DebugMessengerConfig { severity_mask: ALL_SEVERITIES, category_mask: ALL_CATEGORIES }
}

/// Everything the single driver creation call needs: the metadata, the
/// negotiated capability request, and — exactly when validation is on —
/// the debug-messenger description to chain onto the request, so that
/// instance creation itself is already covered by diagnostics.
#[derive(Debug)]
pub struct CreationPlan {
    pub descriptor: ApplicationDescriptor,
    pub request: CapabilityRequest,
    pub debug_messenger: Option<DebugMessengerConfig>,
}

/// Plans the one driver creation call, or refuses before any driver call:
/// `LayerUnavailable` exactly when validation is on but the validation
/// layer is absent from the driver's enumerated list. On success the plan
/// carries the descriptor unchanged, the assembled capability request, and
/// a full-coverage debug messenger exactly when validation is on.
pub fn plan_instance_creation(
    descriptor: ApplicationDescriptor,
    window_extensions: Vec<String>,
    validation: bool,
    portability_os: bool,
    driver_version: &ApiVersion,
    available_layers: &Vec<String>,
) -> (r: Result<CreationPlan, BootstrapError>)
    ensures
        r is Ok <==> (validation ==> spec_contains_name(
            available_layers.deep_view(),
            spec_validation_layer_name(),
        )),
        r matches Err(e) ==> e == BootstrapError::LayerUnavailable,
        r matches Ok(plan) ==> {
            &&& plan.descriptor == descriptor
            &&& plan.request.extensions.deep_view() == spec_enabled_extensions(
                window_extensions.deep_view(),
                validation,
                spec_portability_required(portability_os, *driver_version),
            )
            &&& plan.request.layers.deep_view() == spec_enabled_layers(validation)
            &&& plan.request.portability_flag == spec_portability_required(
                portability_os,
                *driver_version,
            )
            &&& (plan.debug_messenger is Some <==> validation)
            &&& (plan.debug_messenger matches Some(m) ==> m.severity_mask == ALL_SEVERITIES
                && m.category_mask == ALL_CATEGORIES)
        },
{
    let request = match assemble_request(
        window_extensions,
        validation,
        portability_os,
        driver_version,
        available_layers,
    ) {
        Ok(req) => req,
        Err(e) => {
            return Err(e);
        },
    };
    let debug_messenger = if validation {
        Some(full_coverage_messenger())
    } else {
        None
    };
    Ok(CreationPlan { descriptor, request, debug_messenger })
}

/// Interprets the driver's native answer to the creation call: the zero
/// result code is success; any other code is the preserved failure. The
/// host performs the call; this decides what its answer means.
pub fn interpret_driver_result(code: i32) -> (r: Result<(), BootstrapError>)
    ensures
        r is Ok <==> code == 0,
        code != 0 ==> r == Err::<(), BootstrapError>(BootstrapError::DriverCreationFailed(code)),
{
    if code == 0 {
        Ok(())
    } else {
        Err(BootstrapError::DriverCreationFailed(code))
    }
}

} // verus!
