//! The instance descriptor: application metadata, extensions, layers and
//! creation flags, as they are handed to the driver's instance creation.
use crate::error::StartupError;
use crate::layers::{
    all_layers_supported, all_names_storable, buffer_views, c_string, c_strings,
    check_validation_layer_support, first_unsupported, get_layer_names_and_pointers,
    is_nul_free, names_storable, no_nul, LayerNameTable,
};
use crate::vulkan::{
    api_version, enumerate_portability, enumerate_portability_flag, make_api_version,
    portability_enumeration_name, PORTABILITY_ENUMERATION_EXTENSION,
};
use vstd::prelude::*;
use vstd::slice::slice_to_vec;
use vstd::string::StringSliceAdditionalSpecFns;

verus! {

/// How startup is configured: whether validation layers and the debug
/// messenger are requested, and whether the target is an Apple platform.
#[derive(Clone, Copy, Debug, PartialEq, Eq, Structural)]
pub struct StartupConfig {
    pub enable_validation: bool,
    pub apple_target: bool,
}

/// Application metadata; names are NUL-terminated.
pub struct ApplicationInfo {
    pub application_name: Vec<u8>,
    pub application_version: u32,
    pub engine_name: Vec<u8>,
    pub engine_version: u32,
    pub api_version: u32,
}

/// Everything instance creation reads. It owns the storage of every name,
/// so the views handed to the driver live as long as the descriptor.
pub struct InstanceDescriptor {
    pub application_info: ApplicationInfo,
    pub extension_names: Vec<Vec<u8>>,
    pub layers: LayerNameTable,
    pub flags: u32,
}

/// Version given to the application and to the engine: 0.1.0.
pub open spec fn app_version() -> u32 {
    api_version(0, 0, 1, 0)
}

/// Vulkan API version requested: 1.3.290.
pub open spec fn target_api_version() -> u32 {
    api_version(0, 1, 3, 290)
}

/// Extensions enabled on the target: the portability enumeration extension
/// on Apple platforms, none elsewhere.
pub open spec fn platform_extensions(apple_target: bool) -> Seq<Seq<u8>> {
    if apple_target {
        seq![c_string(PORTABILITY_ENUMERATION_EXTENSION.spec_bytes())]
    } else {
        Seq::empty()
    }
}

/// Creation flags on the target: portability enumeration on Apple
/// platforms, none elsewhere.
pub open spec fn platform_flags(apple_target: bool) -> u32 {
    if apple_target {
        enumerate_portability()
    } else {
        0
    }
}

/// Layers enabled: the required ones when validation is on, none otherwise.
pub open spec fn enabled_layers(enable_validation: bool, required: Seq<&str>) -> Seq<Seq<u8>> {
    if enable_validation {
        c_strings(required)
    } else {
        Seq::empty()
    }
}

impl InstanceDescriptor {
    /// This descriptor is the one built for the given configuration, names
    /// and required layers.
    pub open spec fn describes(
        &self,
        config: StartupConfig,
        app_name: Seq<u8>,
        engine_name: Seq<u8>,
        required: Seq<&str>,
    ) -> bool {
        &&& self.application_info.application_name@ == c_string(app_name)
        &&& self.application_info.application_version == app_version()
        &&& self.application_info.engine_name@ == c_string(engine_name)
        &&& self.application_info.engine_version == app_version()
        &&& self.application_info.api_version == target_api_version()
        &&& buffer_views(self.extension_names@) == platform_extensions(config.apple_target)
        &&& self.layers@ == enabled_layers(config.enable_validation, required)
        &&& self.flags == platform_flags(config.apple_target)
    }
}

/// The application name, the engine name and the required layer names can
/// all be stored as C strings.
pub open spec fn names_valid(app_name: Seq<u8>, engine_name: Seq<u8>, required: Seq<&str>) -> bool {
    no_nul(app_name) && no_nul(engine_name) && names_storable(required)
}

/// NUL-terminated copy of the bytes of `s`.
fn c_string_of(s: &str) -> (r: Vec<u8>)
    ensures
        r@ == c_string(s.spec_bytes()),
{
    let mut r = slice_to_vec(s.as_bytes());
    r.push(0u8);
    r
}

/// Builds the instance descriptor. Fails if a name holds a NUL byte. With validation on, `supported` holds the
/// name buffers of the layers the driver reports, and every required layer
/// must be among them; with validation off, `supported` is not read.
pub fn create_instance_descriptor(
    config: StartupConfig,
    app_name: &str,
    engine_name: &str,
    required: &[&str],
    supported: &Vec<Vec<u8>>,
) -> (r: Result<InstanceDescriptor, StartupError>)
    ensures
        !names_valid(app_name.spec_bytes(), engine_name.spec_bytes(), required@) <==> r matches Err(
            StartupError::NameHoldsNul,
        ),
        names_valid(app_name.spec_bytes(), engine_name.spec_bytes(), required@) ==> (r is Err
            <==> config.enable_validation && !all_layers_supported(required@, buffer_views(supported@))),
        names_valid(app_name.spec_bytes(), engine_name.spec_bytes(), required@) && r is Err
            ==> exists|i: int|
            first_unsupported(required@, buffer_views(supported@), i) && r->Err_0 is LayerUnsupported
                && r->Err_0->name@ == required@[i]@,
        r is Ok ==> r->Ok_0.describes(config, app_name.spec_bytes(), engine_name.spec_bytes(), required@),
{
    if !is_nul_free(app_name.as_bytes()) || !is_nul_free(engine_name.as_bytes())
        || !all_names_storable(required) {
        return Err(StartupError::NameHoldsNul);
    }
    let application_info = ApplicationInfo {
        application_name: c_string_of(app_name),
        application_version: make_api_version(0, 0, 1, 0),
        engine_name: c_string_of(engine_name),
        engine_version: make_api_version(0, 0, 1, 0),
        api_version: make_api_version(0, 1, 3, 290),
    };
    let mut extension_names: Vec<Vec<u8>> = Vec::new();
    let mut flags: u32 = 0;
    if config.apple_target {
        extension_names.push(portability_enumeration_name());
        flags = enumerate_portability_flag();
    }
    assert(buffer_views(extension_names@) =~= platform_extensions(config.apple_target));
    let layers = if config.enable_validation {
        match check_validation_layer_support(required, supported) {
            Ok(()) => get_layer_names_and_pointers(required),
            Err(e) => return Err(e),
        }
    } else {
        LayerNameTable::empty()
    };
    Ok(InstanceDescriptor { application_info, extension_names, layers, flags })
}

} // verus!

verus! {

/// The platform's extension list and creation flags: on an Apple target the
/// extension list is the portability enumeration name alone, once, and the
/// flags have the portability bit set; on any other target the list is empty
/// and the flags are zero. Two descriptors built for the same target agree
/// on both, whatever else differs.
pub proof fn platform_choice_by_target(
    d1: InstanceDescriptor,
    config1: StartupConfig,
    app1: Seq<u8>,
    engine1: Seq<u8>,
    required1: Seq<&str>,
    d2: InstanceDescriptor,
    config2: StartupConfig,
    app2: Seq<u8>,
    engine2: Seq<u8>,
    required2: Seq<&str>,
)
    requires
        d1.describes(config1, app1, engine1, required1),
        d2.describes(config2, app2, engine2, required2),
        config1.apple_target == config2.apple_target,
    ensures
        buffer_views(d1.extension_names@) == buffer_views(d2.extension_names@),
        d1.flags == d2.flags,
        config1.apple_target ==> {
            &&& buffer_views(d1.extension_names@) == seq![c_string(PORTABILITY_ENUMERATION_EXTENSION.spec_bytes())]
            &&& d1.flags & enumerate_portability() == enumerate_portability()
        },
        !config1.apple_target ==> d1.extension_names@.len() == 0 && d1.flags == 0,
{
    if config1.apple_target {
        assert(1u32 & 1u32 == 1u32) by (bit_vector);
    }
    assert(buffer_views(d1.extension_names@).len() == d1.extension_names@.len());
}

} // verus!
