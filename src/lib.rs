//! Bootstrapping a Vulkan instance, modelled on plain values.
//!
//! The library decides everything that happens before and around the driver
//! calls: which layer names are enabled and whether the driver supports them,
//! what the instance descriptor holds on each platform, whether a debug
//! messenger is set up, and how a diagnostic message is routed to a log
//! level. The driver calls themselves are made by the caller.
mod debug;
mod error;
mod instance;
mod layers;
mod vulkan;

pub use debug::{
    debug_callback_outcome, debug_messenger_config, log_level_for, validation_messenger,
    DebugCallbackOutcome, DebugMessengerConfig, LogLevel,
};
pub use error::StartupError;
pub use instance::{
    app_version, create_instance_descriptor, enabled_layers, names_valid, platform_choice_by_target,
    platform_extensions, platform_flags, target_api_version, ApplicationInfo, InstanceDescriptor,
    StartupConfig,
};
pub use layers::{
    all_layers_supported, buffer_holds, buffer_views, c_string, c_strings,
    check_validation_layer_support, first_unsupported, get_layer_names_and_pointers, layer_pointers_align, layer_supported,
    listed_layers_are_supported, missing_layer_fails_check, names_storable, no_nul,
    LayerNameTable, KHRONOS_VALIDATION_LAYER,
};
pub use vulkan::{
    api_version, enumerate_portability, message_type_general, message_type_performance,
    message_type_validation, severity_error, severity_info, severity_verbose, severity_warning,
    PORTABILITY_ENUMERATION_EXTENSION,
};
