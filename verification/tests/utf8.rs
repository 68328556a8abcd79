use alloc_profiling::utf8::ddtrace_strip_invalid_utf8;
use rand::RngExt;

#[test]
fn ascii_is_unchanged() {
    let input = b"plain ascii text".to_vec();
    assert_eq!(ddtrace_strip_invalid_utf8(&input), None);
}

#[test]
fn empty_is_unchanged() {
    assert_eq!(ddtrace_strip_invalid_utf8(&Vec::new()), None);
}

#[test]
fn well_formed_multibyte_is_unchanged() {
    // Two, three and four byte sequences.
    let input = "aé€😀".as_bytes().to_vec();
    assert_eq!(ddtrace_strip_invalid_utf8(&input), None);
}

#[test]
fn boundary_code_points_are_unchanged() {
    // U+07FF, U+0800, U+D7FF, U+E000, U+FFFF, U+10000, U+10FFFF.
    let text = "\u{7ff}\u{800}\u{d7ff}\u{e000}\u{ffff}\u{10000}\u{10ffff}";
    let input = text.as_bytes().to_vec();
    assert_eq!(ddtrace_strip_invalid_utf8(&input), None);
}

#[test]
fn stray_continuation_byte_is_replaced() {
    let input = vec![b'a', 0x80, b'b'];
    let sanitized = ddtrace_strip_invalid_utf8(&input).expect("ill-formed input");
    assert_eq!(sanitized, vec![b'a', 0xEF, 0xBF, 0xBD, b'b']);
    assert_eq!(String::from_utf8(sanitized).unwrap(), "a\u{fffd}b");
}

#[test]
fn truncated_sequence_is_one_maximal_subpart() {
    // The first two bytes of the euro sign, then end of input: the lead and
    // its admissible continuation form one maximal subpart, replaced by a
    // single replacement character.
    let input = vec![0xE2, 0x82];
    let sanitized = ddtrace_strip_invalid_utf8(&input).expect("ill-formed input");
    assert_eq!(sanitized, vec![0xEF, 0xBF, 0xBD]);
    assert_eq!(sanitized, String::from_utf8_lossy(&input).as_bytes().to_vec());
}

#[test]
fn broken_sequence_resumes_at_next_byte() {
    // A four-byte lead with two admissible continuations broken off by an
    // ASCII byte: one replacement character, then the ASCII byte itself.
    let input = vec![0xF0, 0x90, 0x80, b'x'];
    let sanitized = ddtrace_strip_invalid_utf8(&input).expect("ill-formed input");
    assert_eq!(sanitized, vec![0xEF, 0xBF, 0xBD, b'x']);
    assert_eq!(sanitized, String::from_utf8_lossy(&input).as_bytes().to_vec());
}

#[test]
fn overlong_encoding_is_replaced_per_byte() {
    // 0xC0 0x80 is an overlong encoding of NUL: 0xC0 can never lead a
    // sequence, so it and the stray continuation are separate subparts.
    let input = vec![0xC0, 0x80];
    let sanitized = ddtrace_strip_invalid_utf8(&input).expect("ill-formed input");
    assert_eq!(sanitized, vec![0xEF, 0xBF, 0xBD, 0xEF, 0xBF, 0xBD]);
    assert_eq!(sanitized, String::from_utf8_lossy(&input).as_bytes().to_vec());
}

#[test]
fn surrogate_encoding_is_replaced() {
    // 0xED 0xA0 0x80 would encode the surrogate U+D800: 0xA0 is outside
    // 0xED's admissible range, so all three bytes are separate subparts.
    let input = vec![0xED, 0xA0, 0x80];
    let sanitized = ddtrace_strip_invalid_utf8(&input).expect("ill-formed input");
    assert_eq!(sanitized.len(), 9);
    assert_eq!(sanitized, String::from_utf8_lossy(&input).as_bytes().to_vec());
}

#[test]
fn beyond_max_code_point_is_replaced() {
    // 0xF5 can never lead a well-formed sequence.
    let input = vec![0xF5, 0x80, 0x80, 0x80];
    let sanitized = ddtrace_strip_invalid_utf8(&input).expect("ill-formed input");
    assert_eq!(sanitized.len(), 12);
    assert_eq!(sanitized, String::from_utf8_lossy(&input).as_bytes().to_vec());
}

#[test]
fn invalid_tail_keeps_valid_prefix() {
    let mut input = "héllo".as_bytes().to_vec();
    input.push(0xFF);
    let sanitized = ddtrace_strip_invalid_utf8(&input).expect("ill-formed input");
    let mut expected = "héllo".as_bytes().to_vec();
    expected.extend_from_slice(&[0xEF, 0xBF, 0xBD]);
    assert_eq!(sanitized, expected);
}

fn assert_matches_std(input: &Vec<u8>) {
    let expected = String::from_utf8_lossy(input);
    match ddtrace_strip_invalid_utf8(input) {
        None => {
            assert!(
                std::str::from_utf8(input).is_ok(),
                "kept unchanged though ill-formed: {:?}",
                input
            );
        }
        Some(sanitized) => {
            assert!(std::str::from_utf8(input).is_err(), "replaced though well-formed: {:?}", input);
            assert_eq!(sanitized, expected.as_bytes().to_vec(), "divergent output on {:?}", input);
        }
    }
}

#[test]
fn matches_std_lossy_conversion_for_all_two_byte_inputs() {
    for a in 0..=255u8 {
        for b in 0..=255u8 {
            assert_matches_std(&vec![a, b]);
        }
    }
}

#[test]
fn matches_std_lossy_conversion_for_all_three_byte_suffixes() {
    // Every lead byte against every continuation pair: covers the maximal
    // subpart lengths of broken three- and four-byte sequences.
    for a in 0x80..=255u8 {
        for b in [0x00, 0x7F, 0x80, 0x8F, 0x90, 0x9F, 0xA0, 0xBF, 0xC0, 0xE5, 0xFF] {
            for c in [0x00, 0x7F, 0x80, 0x8F, 0x90, 0x9F, 0xA0, 0xBF, 0xC0, 0xE5, 0xFF] {
                assert_matches_std(&vec![a, b, c]);
            }
        }
    }
}

#[test]
fn matches_std_lossy_conversion_for_random_inputs() {
    let mut rng = rand::rng();
    for _ in 0..50_000 {
        let len: usize = rng.random_range(0..12);
        let input: Vec<u8> = (0..len).map(|_| rng.random::<u8>()).collect();
        assert_matches_std(&input);
    }
}

#[test]
fn sanitized_output_is_always_well_formed_for_random_inputs() {
    let mut rng = rand::rng();
    for _ in 0..50_000 {
        let len: usize = rng.random_range(0..12);
        let input: Vec<u8> = (0..len).map(|_| rng.random::<u8>()).collect();
        if let Some(sanitized) = ddtrace_strip_invalid_utf8(&input) {
            assert!(String::from_utf8(sanitized).is_ok(), "ill-formed output for {:?}", input);
        }
    }
}
