use wasm_streams::util::checked_cast_to_u32;
use wasm_streams::util::checked_cast_to_usize;
use wasm_streams::util::clamp_to_u32;
use wasm_streams::util::clamp_to_usize;
use wasm_streams::util::error_message;

#[test]
fn clamp_to_u32_keeps_lengths_in_range() {
    assert_eq!(clamp_to_u32(0), 0);
    assert_eq!(clamp_to_u32(3), 3);
    assert_eq!(clamp_to_u32(u32::MAX as usize), u32::MAX);
}

#[test]
fn clamp_to_u32_saturates() {
    if usize::BITS > 32 {
        assert_eq!(clamp_to_u32(u32::MAX as usize + 1), u32::MAX);
        assert_eq!(clamp_to_u32(usize::MAX), u32::MAX);
    }
}

#[test]
fn clamp_to_usize_is_exact_on_wide_targets() {
    assert_eq!(clamp_to_usize(0), 0);
    assert_eq!(clamp_to_usize(7), 7);
    assert_eq!(clamp_to_usize(u32::MAX), u32::MAX as usize);
}

#[test]
fn checked_casts_keep_the_value() {
    assert_eq!(checked_cast_to_u32(65_536), 65_536u32);
    assert_eq!(checked_cast_to_usize(65_536), 65_536usize);
}

#[test]
fn error_message_prefers_the_string_value() {
    assert_eq!(
        error_message(Some("boom".to_string()), Some("Error: boom".to_string())),
        "boom"
    );
}

#[test]
fn error_message_falls_back_to_the_rendered_object() {
    assert_eq!(
        error_message(None, Some("TypeError: locked".to_string())),
        "TypeError: locked"
    );
}

#[test]
fn error_message_of_an_opaque_value() {
    assert_eq!(error_message(None, None), "Unknown error");
}
