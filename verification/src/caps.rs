//! The Capability Catalog: the known optional layer and extension names, and
//! the assembly of the capability request from the window's mandatory
//! extensions, the active validation mode and the host platform identity.

use vstd::prelude::*;

use crate::errors::BootstrapError;
use crate::version::{ApiVersion, portability_threshold, spec_version_ge};

verus! {

/// View of the standard validation layer's name.
pub open spec fn spec_validation_layer_name() -> Seq<char> {
    "VK_LAYER_KHRONOS_validation"@
}

/// The standard validation layer, enabled when validation mode is active.
pub fn validation_layer_name() -> (r: String)
    ensures
        r@ == spec_validation_layer_name(),
{
    "VK_LAYER_KHRONOS_validation".to_owned()
}

/// View of the debug-instrumentation extension's name.
pub open spec fn spec_debug_extension_name() -> Seq<char> {
    "VK_EXT_debug_utils"@
}

/// The debug-instrumentation extension, enabled when validation mode is
/// active.
pub fn debug_extension_name() -> (r: String)
    ensures
        r@ == spec_debug_extension_name(),
{
    "VK_EXT_debug_utils".to_owned()
}

/// View of the physical-device-properties-query extension's name.
pub open spec fn spec_properties2_extension_name() -> Seq<char> {
    "VK_KHR_get_physical_device_properties2"@
}

/// The physical-device-properties-query extension, the first half of the
/// portability pair.
pub fn properties2_extension_name() -> (r: String)
    ensures
        r@ == spec_properties2_extension_name(),
{
    "VK_KHR_get_physical_device_properties2".to_owned()
}

/// View of the portability-enumeration extension's name.
pub open spec fn spec_portability_extension_name() -> Seq<char> {
    "VK_KHR_portability_enumeration"@
}

/// The portability-enumeration extension, the second half of the
/// portability pair.
pub fn portability_extension_name() -> (r: String)
    ensures
        r@ == spec_portability_extension_name(),
{
    "VK_KHR_portability_enumeration".to_owned()
}

/// The four known capability names are pairwise distinct.
pub proof fn lemma_known_names_distinct()
    ensures
        spec_validation_layer_name() != spec_debug_extension_name(),
        spec_validation_layer_name() != spec_properties2_extension_name(),
        spec_validation_layer_name() != spec_portability_extension_name(),
        spec_debug_extension_name() != spec_properties2_extension_name(),
        spec_debug_extension_name() != spec_portability_extension_name(),
        spec_properties2_extension_name() != spec_portability_extension_name(),
{
    reveal_strlit("VK_LAYER_KHRONOS_validation");
    reveal_strlit("VK_EXT_debug_utils");
    reveal_strlit("VK_KHR_get_physical_device_properties2");
    reveal_strlit("VK_KHR_portability_enumeration");
    assert(spec_validation_layer_name().len() == 27);
    assert(spec_debug_extension_name().len() == 18);
    assert(spec_properties2_extension_name().len() == 38);
    assert(spec_portability_extension_name().len() == 30);
}

/// Whether `name` occurs among `names`.
pub open spec fn spec_contains_name(names: Seq<Seq<char>>, name: Seq<char>) -> bool {
    exists|i: int| 0 <= i < names.len() && names[i] == name
}

/// Linear scan for `name` in `names`.
pub fn contains_name(names: &Vec<String>, name: &String) -> (r: bool)
    ensures
        r == spec_contains_name(names.deep_view(), name@),
{
    let mut i: usize = 0;
    while i < names.len()
        invariant
            0 <= i <= names.len(),
            forall|j: int| 0 <= j < i ==> names.deep_view()[j] != name@,
        decreases names.len() - i,
    {
        let hit = names[i] == *name;
        assert(names.deep_view()[i as int] == names@[i as int]@);
        if hit {
            return true;
        }
        i = i + 1;
    }
    false
}

/// The build-time capability request: the ordered extension and layer name
/// lists, and whether the portability-enumeration creation flag is set.
#[derive(Debug)]
pub struct CapabilityRequest {
    pub extensions: Vec<String>,
    pub layers: Vec<String>,
    pub portability_flag: bool,
}

/// Whether the (operating system, driver version) pair demands the
/// portability extension set: only on the portability operating system, for
/// driver versions at or above the threshold.
pub open spec fn spec_portability_required(portability_os: bool, driver: ApiVersion) -> bool {
    portability_os && spec_version_ge(driver, ApiVersion { major: 1, minor: 3, patch: 216 })
}

/// Evaluates the portability predicate on the host platform identity.
pub fn portability_required(portability_os: bool, driver_version: &ApiVersion) -> (r: bool)
    ensures
        r == spec_portability_required(portability_os, *driver_version),
{
    portability_os && driver_version.at_least(&portability_threshold())
}

/// The extension list the request carries: the window's mandatory extensions
/// in their given order, then the debug extension when validation is on,
/// then the portability pair when the platform demands it.
pub open spec fn spec_enabled_extensions(
    window: Seq<Seq<char>>,
    validation: bool,
    portability: bool,
) -> Seq<Seq<char>> {
    window + (if validation {
        seq![spec_debug_extension_name()]
    } else {
        Seq::<Seq<char>>::empty()
    }) + (if portability {
        seq![spec_properties2_extension_name(), spec_portability_extension_name()]
    } else {
        Seq::<Seq<char>>::empty()
    })
}

/// The layer list the request carries: the validation layer alone, and only
/// when validation is on.
pub open spec fn spec_enabled_layers(validation: bool) -> Seq<Seq<char>> {
    if validation {
        seq![spec_validation_layer_name()]
    } else {
        Seq::<Seq<char>>::empty()
    }
}

/// What assembly yields: the refusal when validation is on but the layer is
/// unavailable, else the three request components.
pub open spec fn spec_assemble(
    window: Seq<Seq<char>>,
    validation: bool,
    portability: bool,
    available_layers: Seq<Seq<char>>,
) -> Result<(Seq<Seq<char>>, Seq<Seq<char>>, bool), BootstrapError> {
    if validation && !spec_contains_name(available_layers, spec_validation_layer_name()) {
        Err(BootstrapError::LayerUnavailable)
    } else {
        Ok((spec_enabled_extensions(window, validation, portability), spec_enabled_layers(validation), portability))
    }
}

/// Produces the capability request, or refuses it.
///
/// The window's mandatory extensions are always carried, in their given
/// order. Validation appends the debug extension and the validation layer,
/// and is refused with `LayerUnavailable` when that layer is absent from the
/// driver's enumerated list. The portability platform appends the
/// portability pair and sets the creation flag.
pub fn assemble_request(
    window_extensions: Vec<String>,
    validation: bool,
    portability_os: bool,
    driver_version: &ApiVersion,
    available_layers: &Vec<String>,
) -> (r: Result<CapabilityRequest, BootstrapError>)
    ensures
        r matches Ok(req) ==> spec_assemble(
            window_extensions.deep_view(),
            validation,
            spec_portability_required(portability_os, *driver_version),
            available_layers.deep_view(),
        ) == Ok::<_, BootstrapError>((req.extensions.deep_view(), req.layers.deep_view(), req.portability_flag)),
        r matches Err(e) ==> spec_assemble(
            window_extensions.deep_view(),
            validation,
            spec_portability_required(portability_os, *driver_version),
            available_layers.deep_view(),
        ) == Err::<(Seq<Seq<char>>, Seq<Seq<char>>, bool), _>(e),
        r is Ok <==> (validation ==> spec_contains_name(available_layers.deep_view(), spec_validation_layer_name())),
{
    if validation && !contains_name(available_layers, &validation_layer_name()) {
        return Err(BootstrapError::LayerUnavailable);
    }

    let ghost window_view = window_extensions.deep_view();
    let mut extensions = window_extensions;

    if validation {
        extensions.push(debug_extension_name());
        assert(extensions.deep_view() =~= window_view + seq![spec_debug_extension_name()]);
    } else {
        assert(extensions.deep_view() =~= window_view + Seq::<Seq<char>>::empty());
    }
    let ghost mid_view = extensions.deep_view();

    let portability = portability_required(portability_os, driver_version);
    if portability {
        extensions.push(properties2_extension_name());
        extensions.push(portability_extension_name());
        assert(extensions.deep_view() =~= mid_view + seq![
            spec_properties2_extension_name(),
            spec_portability_extension_name(),
        ]);
    } else {
        assert(extensions.deep_view() =~= mid_view + Seq::<Seq<char>>::empty());
    }

    let mut layers: Vec<String> = Vec::new();
    if validation {
        layers.push(validation_layer_name());
        assert(layers.deep_view() =~= seq![spec_validation_layer_name()]);
    } else {
        assert(layers.deep_view() =~= Seq::<Seq<char>>::empty());
    }

    Ok(CapabilityRequest { extensions, layers, portability_flag: portability })
}

/// How many times `name` occurs among `names`.
pub open spec fn spec_name_count(names: Seq<Seq<char>>, name: Seq<char>) -> nat
    decreases names.len(),
{
    if names.len() == 0 {
        0
    } else {
        spec_name_count(names.drop_last(), name) + (if names.last() == name {
            1nat
        } else {
            0nat
        })
    }
}

/// Occurrence counts add over concatenation.
pub proof fn lemma_name_count_add(a: Seq<Seq<char>>, b: Seq<Seq<char>>, name: Seq<char>)
    ensures
        spec_name_count(a + b, name) == spec_name_count(a, name) + spec_name_count(b, name),
    decreases b.len(),
{
    if b.len() == 0 {
        assert(a + b =~= a);
    } else {
        assert((a + b).drop_last() =~= a + b.drop_last());
        assert((a + b).last() == b.last());
        lemma_name_count_add(a, b.drop_last(), name);
    }
}

/// A name that occurs nowhere has count zero.
pub proof fn lemma_name_count_absent(names: Seq<Seq<char>>, name: Seq<char>)
    requires
        !spec_contains_name(names, name),
    ensures
        spec_name_count(names, name) == 0,
    decreases names.len(),
{
    if names.len() > 0 {
        assert(names.last() != name) by {
            if names.last() == name {
                assert(names[names.len() - 1] == name);
                assert(spec_contains_name(names, name));
            }
        }
        assert(!spec_contains_name(names.drop_last(), name)) by {
            if spec_contains_name(names.drop_last(), name) {
                let i = choose|i: int|
                    0 <= i < names.drop_last().len() && names.drop_last()[i] == name;
                assert(names[i] == name);
                assert(spec_contains_name(names, name));
            }
        }
        lemma_name_count_absent(names.drop_last(), name);
    }
}

/// Count of a one-element list, by unfolding.
proof fn lemma_name_count_singleton(x: Seq<char>, name: Seq<char>)
    ensures
        spec_name_count(seq![x], name) == (if x == name {
            1nat
        } else {
            0nat
        }),
{
    assert(seq![x].drop_last() =~= Seq::<Seq<char>>::empty());
    assert(seq![x].last() == x);
    assert(spec_name_count(Seq::<Seq<char>>::empty(), name) == 0);
}

/// Count of a two-element list, by unfolding.
proof fn lemma_name_count_pair(x: Seq<char>, y: Seq<char>, name: Seq<char>)
    ensures
        spec_name_count(seq![x, y], name) == (if x == name {
            1nat
        } else {
            0nat
        }) + (if y == name {
            1nat
        } else {
            0nat
        }),
{
    assert(seq![x, y] =~= seq![x] + seq![y]);
    lemma_name_count_add(seq![x], seq![y], name);
    lemma_name_count_singleton(x, name);
    lemma_name_count_singleton(y, name);
}

/// With validation off, the assembled request never names the debug
/// extension nor the validation layer, in either of its two lists —
/// provided the window's own mandatory extensions do not smuggle them in.
pub proof fn lemma_validation_off_excludes_diagnostics(window: Seq<Seq<char>>, portability: bool)
    requires
        !spec_contains_name(window, spec_debug_extension_name()),
        !spec_contains_name(window, spec_validation_layer_name()),
    ensures
        !spec_contains_name(
            spec_enabled_extensions(window, false, portability),
            spec_debug_extension_name(),
        ),
        !spec_contains_name(
            spec_enabled_extensions(window, false, portability),
            spec_validation_layer_name(),
        ),
        !spec_contains_name(spec_enabled_layers(false), spec_validation_layer_name()),
{
    lemma_known_names_distinct();
    let ext = spec_enabled_extensions(window, false, portability);
    assert forall|i: int| 0 <= i < ext.len() implies ext[i] != spec_debug_extension_name()
        && ext[i] != spec_validation_layer_name() by {
        if i < window.len() {
            assert(ext[i] == window[i]);
            if window[i] == spec_debug_extension_name() {
                assert(spec_contains_name(window, spec_debug_extension_name()));
            }
            if window[i] == spec_validation_layer_name() {
                assert(spec_contains_name(window, spec_validation_layer_name()));
            }
        } else {
            assert(portability);
            assert(ext[i] == spec_properties2_extension_name() || ext[i]
                == spec_portability_extension_name());
        }
    }
}

/// With validation on and the validation layer absent from the driver's
/// enumerated list, assembly refuses with `LayerUnavailable`: no request
/// value exists, so no driver creation call can be issued from it.
pub proof fn lemma_missing_layer_refused(
    window: Seq<Seq<char>>,
    portability: bool,
    available_layers: Seq<Seq<char>>,
)
    requires
        !spec_contains_name(available_layers, spec_validation_layer_name()),
    ensures
        spec_assemble(window, true, portability, available_layers) == Err::<
            (Seq<Seq<char>>, Seq<Seq<char>>, bool),
            BootstrapError,
        >(BootstrapError::LayerUnavailable),
{
}

/// Exactly when the platform demands portability, the portability pair is
/// present exactly once each in the enabled extensions; otherwise neither
/// occurs — provided the window's own mandatory extensions do not name them.
pub proof fn lemma_portability_pair_exactly_once(
    window: Seq<Seq<char>>,
    validation: bool,
    portability: bool,
)
    requires
        !spec_contains_name(window, spec_properties2_extension_name()),
        !spec_contains_name(window, spec_portability_extension_name()),
    ensures
        spec_name_count(
            spec_enabled_extensions(window, validation, portability),
            spec_properties2_extension_name(),
        ) == (if portability {
            1nat
        } else {
            0nat
        }),
        spec_name_count(
            spec_enabled_extensions(window, validation, portability),
            spec_portability_extension_name(),
        ) == (if portability {
            1nat
        } else {
            0nat
        }),
{
    lemma_known_names_distinct();
    let dbg = if validation {
        seq![spec_debug_extension_name()]
    } else {
        Seq::<Seq<char>>::empty()
    };
    let pair = if portability {
        seq![spec_properties2_extension_name(), spec_portability_extension_name()]
    } else {
        Seq::<Seq<char>>::empty()
    };
    lemma_name_count_add(window + dbg, pair, spec_properties2_extension_name());
    lemma_name_count_add(window, dbg, spec_properties2_extension_name());
    lemma_name_count_add(window + dbg, pair, spec_portability_extension_name());
    lemma_name_count_add(window, dbg, spec_portability_extension_name());
    lemma_name_count_absent(window, spec_properties2_extension_name());
    lemma_name_count_absent(window, spec_portability_extension_name());
    if validation {
        lemma_name_count_singleton(spec_debug_extension_name(), spec_properties2_extension_name());
        lemma_name_count_singleton(spec_debug_extension_name(), spec_portability_extension_name());
    }
    if portability {
        lemma_name_count_pair(
            spec_properties2_extension_name(),
            spec_portability_extension_name(),
            spec_properties2_extension_name(),
        );
        lemma_name_count_pair(
            spec_properties2_extension_name(),
            spec_portability_extension_name(),
            spec_portability_extension_name(),
        );
    }
}

} // verus!
