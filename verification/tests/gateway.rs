use rustdemangle::demangle;
use rustdemangle::release;

fn call(input: &[u8]) -> Option<Vec<u8>> {
    demangle(Some(input))
}

#[test]
fn absent_input_yields_absent_output() {
    assert_eq!(demangle(None), None);
}

#[test]
fn demangles_legacy_symbol() {
    assert_eq!(call(b"_ZN4testE"), Some(b"test".to_vec()));
    assert_eq!(call(b"_ZN4test1a2bcE"), Some(b"test::a::bc".to_vec()));
}

#[test]
fn demangles_nested_path() {
    assert_eq!(call(b"_ZN3foo3barE"), Some(b"foo::bar".to_vec()));
}

#[test]
fn keeps_hash_suffix_in_default_rendering() {
    assert_eq!(
        call(b"_ZN3foo17h05af221e174051e9E"),
        Some(b"foo::h05af221e174051e9".to_vec())
    );
}

#[test]
fn invalid_utf8_input_yields_absent_output() {
    assert_eq!(call(&[0xff, 0x5f, 0x5a]), None);
    assert_eq!(call(&[b'_', b'Z', 0xc3, 0x28]), None);
}

#[test]
fn unrecognized_text_passes_through_unchanged() {
    assert_eq!(call(b"test"), Some(b"test".to_vec()));
    assert_eq!(call(b"not_a_mangled_name"), Some(b"not_a_mangled_name".to_vec()));
    assert_eq!(call(b""), Some(b"".to_vec()));
}

#[test]
fn interior_nul_in_rendering_yields_absent_output() {
    assert_eq!(call(b"has\0nul"), None);
}

#[test]
fn equal_inputs_yield_equal_contents() {
    let first = call(b"_ZN4test1a2bcE");
    let second = call(b"_ZN4test1a2bcE");
    assert!(first.is_some());
    assert_eq!(first, second);
}

#[test]
fn release_of_absent_handle_is_a_no_op() {
    release(None);
}

#[test]
fn release_of_a_fresh_handle_round_trips() {
    release(demangle(Some(b"_ZN4testE")));
    release(demangle(Some(b"not_a_mangled_name")));
}
