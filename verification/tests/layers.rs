use ash_urn::names::{check_convertible, read_native_name, same_bytes};
use ash_urn::validation::{
    check_validation_layer_support, describe_layers, is_reported, verify_enumeration,
    verify_layers, LayerDescriptor, Validation, STANDARD_VALIDATION_LAYER,
};
use ash_urn::UrnError;

fn layers(names: &[&str]) -> Vec<LayerDescriptor> {
    names.iter().map(|name| LayerDescriptor::from_name(name)).collect()
}

/// A name as the driver hands it out: in a buffer of 256 bytes, NUL behind it.
fn name_buffer(name: &str) -> Vec<u8> {
    let mut buffer = vec![0u8; 256];
    buffer[..name.len()].copy_from_slice(name.as_bytes());
    buffer
}

fn enabled(required: &'static [&'static str]) -> Validation {
    Validation { is_enabled: true, required_layer_names: required }
}

fn disabled(required: &'static [&'static str]) -> Validation {
    Validation { is_enabled: false, required_layer_names: required }
}

#[test]
fn disabled_validation_passes_on_any_enumeration() {
    let config = disabled(&["standard-validation"]);
    assert_eq!(verify_layers(&config, &layers(&[])), Ok(()));
    assert_eq!(verify_layers(&config, &layers(&["other-layer"])), Ok(()));
    assert_eq!(verify_layers(&config, &layers(&["standard-validation"])), Ok(()));
    assert_eq!(verify_layers(&disabled(&[]), &layers(&[])), Ok(()));
}

#[test]
fn disabled_validation_passes_on_any_reply() {
    let config = disabled(&["standard-validation"]);
    assert_eq!(verify_enumeration(&config, &Ok(vec![])), Ok(()));
    assert_eq!(verify_enumeration(&config, &Err(-3)), Ok(()));
    assert_eq!(verify_enumeration(&config, &Ok(vec![name_buffer("other-layer")])), Ok(()));
}

#[test]
fn empty_enumeration_fails_with_no_layers_available() {
    let config = enabled(&["standard-validation"]);
    assert_eq!(verify_layers(&config, &layers(&[])), Err(UrnError::NoLayersAvailable));
    let two = enabled(&["a", "b"]);
    assert_eq!(verify_layers(&two, &layers(&[])), Err(UrnError::NoLayersAvailable));
}

#[test]
fn empty_enumeration_fails_even_where_nothing_is_required() {
    assert_eq!(verify_layers(&enabled(&[]), &layers(&[])), Err(UrnError::NoLayersAvailable));
}

#[test]
fn nothing_required_passes_on_a_non_empty_enumeration() {
    assert_eq!(verify_layers(&enabled(&[]), &layers(&["other-layer"])), Ok(()));
}

#[test]
fn passes_when_every_required_layer_is_enumerated() {
    let config = enabled(&["a", "b"]);
    assert_eq!(verify_layers(&config, &layers(&["a", "b"])), Ok(()));
    assert_eq!(verify_layers(&config, &layers(&["b", "c", "a"])), Ok(()));
    assert_eq!(verify_layers(&config, &layers(&["a", "a", "b", "b"])), Ok(()));
    assert_eq!(verify_layers(&enabled(&["a", "a"]), &layers(&["a"])), Ok(()));
}

#[test]
fn fails_when_a_required_layer_is_not_enumerated() {
    let config = enabled(&["a", "b"]);
    assert_eq!(
        verify_layers(&config, &layers(&["a"])),
        Err(UrnError::LayerNotFound("b".to_string()))
    );
    assert_eq!(
        verify_layers(&config, &layers(&["b"])),
        Err(UrnError::LayerNotFound("a".to_string()))
    );
    assert_eq!(
        verify_layers(&config, &layers(&["c"])),
        Err(UrnError::LayerNotFound("a".to_string()))
    );
}

#[test]
fn the_first_missing_layer_in_list_order_is_named() {
    let config = enabled(&["a", "b", "c", "d"]);
    assert_eq!(
        verify_layers(&config, &layers(&["d", "a"])),
        Err(UrnError::LayerNotFound("b".to_string()))
    );
    let reversed = enabled(&["d", "c", "b", "a"]);
    assert_eq!(
        verify_layers(&reversed, &layers(&["d", "a"])),
        Err(UrnError::LayerNotFound("c".to_string()))
    );
}

#[test]
fn matching_is_case_sensitive() {
    let config = enabled(&["VK_LAYER_KHRONOS_validation"]);
    assert_eq!(
        verify_layers(&config, &layers(&["vk_layer_khronos_validation"])),
        Err(UrnError::LayerNotFound("VK_LAYER_KHRONOS_validation".to_string()))
    );
    assert_eq!(verify_layers(&config, &layers(&["VK_LAYER_KHRONOS_validation"])), Ok(()));
}

#[test]
fn matching_is_not_by_substring_or_prefix() {
    let config = enabled(&["layer"]);
    for other in ["layer2", "my-layer", "laye", " layer", "layer "] {
        assert_eq!(
            verify_layers(&config, &layers(&[other])),
            Err(UrnError::LayerNotFound("layer".to_string()))
        );
    }
}

#[test]
fn matching_takes_names_beyond_ascii() {
    let config = enabled(&["schicht-ä"]);
    assert_eq!(verify_layers(&config, &layers(&["schicht-ä"])), Ok(()));
    assert_eq!(
        verify_layers(&config, &layers(&["schicht-a"])),
        Err(UrnError::LayerNotFound("schicht-ä".to_string()))
    );
}

#[test]
fn verifying_twice_gives_the_same_answer() {
    let available = layers(&["a", "c"]);
    for config in [enabled(&["a", "b"]), enabled(&["a"]), disabled(&["b"])] {
        let first = verify_layers(&config, &available);
        let second = verify_layers(&config, &available);
        assert_eq!(first, second);
    }
    let reply = Ok(vec![name_buffer("a")]);
    let config = enabled(&["b"]);
    assert_eq!(verify_enumeration(&config, &reply), verify_enumeration(&config, &reply));
}

#[test]
fn a_failed_enumeration_is_passed_on_with_its_code() {
    let config = enabled(&["a"]);
    assert_eq!(verify_enumeration(&config, &Err(-1)), Err(UrnError::AshError(-1)));
    assert_eq!(verify_enumeration(&config, &Err(5)), Err(UrnError::AshError(5)));
    assert_eq!(verify_enumeration(&config, &Err(i32::MIN)), Err(UrnError::AshError(i32::MIN)));
}

#[test]
fn a_reply_is_read_buffer_by_buffer() {
    let config = enabled(&["standard-validation"]);
    let reply = Ok(vec![name_buffer("other-layer"), name_buffer("standard-validation")]);
    assert_eq!(verify_enumeration(&config, &reply), Ok(()));
    let without = Ok(vec![name_buffer("other-layer")]);
    assert_eq!(
        verify_enumeration(&config, &without),
        Err(UrnError::LayerNotFound("standard-validation".to_string()))
    );
    assert_eq!(verify_enumeration(&config, &Ok(vec![])), Err(UrnError::NoLayersAvailable));
}

#[test]
fn bytes_behind_the_terminator_do_not_count() {
    let mut buffer = name_buffer("layer");
    buffer[6] = b'x';
    buffer[255] = b'y';
    let config = enabled(&["layer"]);
    assert_eq!(verify_enumeration(&config, &Ok(vec![buffer])), Ok(()));
}

#[test]
fn native_names_end_at_the_first_nul() {
    assert_eq!(read_native_name(b"abc\0def\0"), b"abc".to_vec());
    assert_eq!(read_native_name(b"abc"), b"abc".to_vec());
    assert_eq!(read_native_name(b"\0abc"), Vec::<u8>::new());
    assert_eq!(read_native_name(b""), Vec::<u8>::new());
    assert_eq!(read_native_name(&name_buffer("VK_LAYER_KHRONOS_validation")).len(), 27);
}

#[test]
fn descriptors_hold_the_names_of_the_buffers() {
    let described = describe_layers(&vec![name_buffer("a"), b"bc".to_vec(), vec![0u8; 4]]);
    assert_eq!(described.len(), 3);
    assert_eq!(described[0].name, b"a".to_vec());
    assert_eq!(described[1].name, b"bc".to_vec());
    assert_eq!(described[2].name, Vec::<u8>::new());
    assert_eq!(LayerDescriptor::from_raw(b"xy\0z").name, b"xy".to_vec());
    assert_eq!(LayerDescriptor::from_name("xy").name, b"xy".to_vec());
}

#[test]
fn a_descriptor_knows_its_name() {
    let layer = LayerDescriptor::from_name("layer");
    assert!(layer.has_name("layer"));
    assert!(!layer.has_name("Layer"));
    assert!(!layer.has_name("layers"));
    assert!(!layer.has_name(""));
    assert!(is_reported("b", &layers(&["a", "b"])));
    assert!(!is_reported("c", &layers(&["a", "b"])));
    assert!(!is_reported("a", &layers(&[])));
}

#[test]
fn byte_strings_compare_whole() {
    assert!(same_bytes(b"", b""));
    assert!(same_bytes(b"abc", b"abc"));
    assert!(!same_bytes(b"abc", b"abd"));
    assert!(!same_bytes(b"abc", b"ab"));
    assert!(!same_bytes(b"ab", b"abc"));
}

#[test]
fn a_name_with_a_nul_has_no_native_form() {
    assert!(check_convertible("Test"));
    assert!(check_convertible(""));
    assert!(check_convertible("schicht-ä"));
    assert!(!check_convertible("a\0b"));
    assert!(!check_convertible("\0"));
    assert!(!check_convertible("ab\0"));
}

#[test]
fn the_standard_configuration_names_the_khronos_layer() {
    let on = Validation::standard(true);
    assert!(on.is_enabled);
    assert_eq!(on.required_layer_names, &["VK_LAYER_KHRONOS_validation"]);
    let off = Validation::standard(false);
    assert!(!off.is_enabled);
    assert_eq!(off.required_layer_names, &[STANDARD_VALIDATION_LAYER]);
    assert_eq!(
        verify_layers(&on, &layers(&["VK_LAYER_KHRONOS_validation"])),
        Ok(())
    );
}

#[test]
fn a_disabled_check_does_not_ask_the_driver() {
    for reply in [Ok(vec![]), Err(-3), Ok(vec![name_buffer("other-layer")])] {
        let mut asked = 0;
        let checked = check_validation_layer_support(&disabled(&["standard-validation"]), || {
            asked += 1;
            reply
        });
        assert_eq!(checked, Ok(()));
        assert_eq!(asked, 0);
    }
}

#[test]
fn an_enabled_check_asks_once_and_decides_on_the_reply() {
    let config = enabled(&["standard-validation"]);
    let cases = [
        (Ok(vec![name_buffer("standard-validation"), name_buffer("other-layer")]), Ok(())),
        (
            Ok(vec![name_buffer("other-layer")]),
            Err(UrnError::LayerNotFound("standard-validation".to_string())),
        ),
        (Ok(vec![]), Err(UrnError::NoLayersAvailable)),
        (Err(-1), Err(UrnError::AshError(-1))),
    ];
    for (reply, expected) in cases {
        let mut asked = 0;
        let checked = check_validation_layer_support(&config, || {
            asked += 1;
            reply
        });
        assert_eq!(checked, expected);
        assert_eq!(asked, 1);
    }
}

#[test]
fn checking_twice_on_the_same_reply_gives_the_same_answer() {
    let config = enabled(&["a", "b"]);
    let reply = || Ok(vec![name_buffer("a")]);
    let first = check_validation_layer_support(&config, reply);
    let second = check_validation_layer_support(&config, reply);
    assert_eq!(first, second);
    assert_eq!(first, Err(UrnError::LayerNotFound("b".to_string())));
}
