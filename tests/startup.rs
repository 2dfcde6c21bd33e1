use vulkan_tutorial::{
    check_validation_layer_support, create_instance_descriptor, debug_callback_outcome,
    debug_messenger_config, get_layer_names_and_pointers, DebugMessengerConfig, LayerNameTable,
    LogLevel, StartupConfig, StartupError, KHRONOS_VALIDATION_LAYER,
    PORTABILITY_ENUMERATION_EXTENSION,
};

/// A driver-style fixed-size name buffer: the name, then NUL padding.
fn buffer(name: &str) -> Vec<u8> {
    let mut b = name.as_bytes().to_vec();
    b.resize(256, 0);
    b
}

fn c_bytes(name: &str) -> Vec<u8> {
    let mut b = name.as_bytes().to_vec();
    b.push(0);
    b
}

const DESKTOP: StartupConfig = StartupConfig { enable_validation: false, apple_target: false };
const DEBUG_DESKTOP: StartupConfig = StartupConfig { enable_validation: true, apple_target: false };
const APPLE: StartupConfig = StartupConfig { enable_validation: false, apple_target: true };

#[test]
fn layer_table_aligns_names_and_views() {
    let required = ["VK_LAYER_KHRONOS_validation", "VK_LAYER_LUNARG_api_dump", "X"];
    let table = get_layer_names_and_pointers(&required);
    assert_eq!(table.len(), 3);
    let pointers = table.pointers();
    assert_eq!(pointers.len(), 3);
    for (i, name) in required.iter().enumerate() {
        assert_eq!(pointers[i], c_bytes(name).as_slice());
        assert_eq!(*pointers[i].last().unwrap(), 0u8);
    }
}

#[test]
fn layer_table_of_no_names_is_empty() {
    let table = get_layer_names_and_pointers(&[]);
    assert_eq!(table.len(), 0);
    assert!(table.pointers().is_empty());
    assert_eq!(LayerNameTable::empty().len(), 0);
}

#[test]
fn layer_check_passes_when_all_supported() {
    let supported = vec![buffer("VK_LAYER_MESA_device_select"), buffer(KHRONOS_VALIDATION_LAYER)];
    assert!(check_validation_layer_support(&[KHRONOS_VALIDATION_LAYER], &supported).is_ok());
    assert!(check_validation_layer_support(&[], &Vec::new()).is_ok());
}

#[test]
fn layer_check_accepts_buffer_without_padding() {
    let supported = vec![KHRONOS_VALIDATION_LAYER.as_bytes().to_vec()];
    assert!(check_validation_layer_support(&[KHRONOS_VALIDATION_LAYER], &supported).is_ok());
}

#[test]
fn layer_check_names_first_missing_layer() {
    let supported = vec![buffer("A")];
    let r = check_validation_layer_support(&["A", "B", "C"], &supported);
    match r {
        Err(StartupError::LayerUnsupported { name }) => assert_eq!(name, "B"),
        other => panic!("unexpected {:?}", other),
    }
}

#[test]
fn layer_check_is_exact_and_case_sensitive() {
    let prefix = vec![buffer("VK_LAYER_KHRONOS")];
    assert!(check_validation_layer_support(&[KHRONOS_VALIDATION_LAYER], &prefix).is_err());
    let longer = vec![buffer("VK_LAYER_KHRONOS_validation2")];
    assert!(check_validation_layer_support(&[KHRONOS_VALIDATION_LAYER], &longer).is_err());
    let upper = vec![buffer("VK_LAYER_KHRONOS_VALIDATION")];
    assert!(check_validation_layer_support(&[KHRONOS_VALIDATION_LAYER], &upper).is_err());
    assert!(check_validation_layer_support(&[KHRONOS_VALIDATION_LAYER], &Vec::new()).is_err());
}

#[test]
fn descriptor_without_validation_on_desktop() {
    let d = create_instance_descriptor(DESKTOP, "Vulkan Application", "No Engine", &[KHRONOS_VALIDATION_LAYER], &Vec::new())
        .unwrap();
    assert_eq!(d.application_info.application_name, b"Vulkan Application\0".to_vec());
    assert_eq!(d.application_info.engine_name, b"No Engine\0".to_vec());
    let api = d.application_info.api_version;
    assert_eq!(api, 4206882);
    assert_eq!(ash::vk::api_version_variant(api), 0);
    assert_eq!(ash::vk::api_version_major(api), 1);
    assert_eq!(ash::vk::api_version_minor(api), 3);
    assert_eq!(ash::vk::api_version_patch(api), 290);
    assert_eq!(d.application_info.application_version, 4096);
    assert_eq!(d.application_info.engine_version, 4096);
    assert!(d.extension_names.is_empty());
    assert_eq!(d.layers.len(), 0);
    assert_eq!(d.flags, 0);
}

#[test]
fn descriptor_on_apple_adds_portability() {
    for _ in 0..2 {
        let d = create_instance_descriptor(APPLE, "App", "Engine", &[], &Vec::new()).unwrap();
        assert_eq!(d.extension_names, vec![b"VK_KHR_portability_enumeration\0".to_vec()]);
        assert_eq!(d.extension_names[0], c_bytes(PORTABILITY_ENUMERATION_EXTENSION));
        assert_eq!(d.flags & 1, 1);
        assert_eq!(d.flags, ash::vk::InstanceCreateFlags::ENUMERATE_PORTABILITY_KHR.as_raw());
    }
}

#[test]
fn descriptor_with_validation_enables_layers() {
    let supported = vec![buffer(KHRONOS_VALIDATION_LAYER)];
    let d = create_instance_descriptor(DEBUG_DESKTOP, "App", "Engine", &[KHRONOS_VALIDATION_LAYER], &supported)
        .unwrap();
    assert_eq!(d.layers.pointers(), vec![b"VK_LAYER_KHRONOS_validation\0".as_slice()]);
    assert!(d.extension_names.is_empty());
    assert_eq!(d.flags, 0);
}

#[test]
fn descriptor_fails_on_missing_layer() {
    let supported = vec![buffer("VK_LAYER_MESA_overlay")];
    let r = create_instance_descriptor(DEBUG_DESKTOP, "App", "Engine", &[KHRONOS_VALIDATION_LAYER], &supported);
    match r {
        Err(StartupError::LayerUnsupported { name }) => assert_eq!(name, KHRONOS_VALIDATION_LAYER),
        _ => panic!("expected a missing layer"),
    }
}

#[test]
fn messenger_only_with_validation() {
    assert_eq!(debug_messenger_config(DESKTOP), None);
    assert_eq!(debug_messenger_config(APPLE), None);
    let c = debug_messenger_config(DEBUG_DESKTOP).unwrap();
    assert_eq!(c, DebugMessengerConfig { flags: 0, message_severity: 0x1110, message_type: 0x7 });
}

#[test]
fn callback_routes_severities() {
    assert_eq!(debug_callback_outcome(0x1).level, LogLevel::Debug);
    assert_eq!(debug_callback_outcome(0x10).level, LogLevel::Info);
    assert_eq!(debug_callback_outcome(0x100).level, LogLevel::Warn);
    assert_eq!(debug_callback_outcome(0x1000).level, LogLevel::Error);
    assert_eq!(debug_callback_outcome(0x11).level, LogLevel::Error);
    assert_eq!(debug_callback_outcome(0).level, LogLevel::Error);
    for s in [0u32, 0x1, 0x10, 0x100, 0x1000, 0x1111, u32::MAX] {
        assert_eq!(debug_callback_outcome(s).result, 0);
    }
}

#[test]
fn descriptor_rejects_names_with_nul() {
    let r = create_instance_descriptor(DESKTOP, "Vulkan\0Application", "No Engine", &[], &Vec::new());
    assert!(matches!(r, Err(StartupError::NameHoldsNul)));
    let r = create_instance_descriptor(DESKTOP, "App", "No\0Engine", &[], &Vec::new());
    assert!(matches!(r, Err(StartupError::NameHoldsNul)));
    let r = create_instance_descriptor(DESKTOP, "App", "Engine", &["VK_LAYER\0X"], &Vec::new());
    assert!(matches!(r, Err(StartupError::NameHoldsNul)));
}
