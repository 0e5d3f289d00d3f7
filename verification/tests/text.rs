use luminal_rocm_lite::host::hipblaslt::names::try_parse_hipblaslt_op;
use luminal_rocm_lite::host::hipblaslt::types::hipblasOperation_t;
use luminal_rocm_lite::host::rocblas::{rocblas_operation, try_parse_rocblas_op};
use luminal_rocm_lite::numeral::{
    parse_u32, push_decimal, push_hex_fixed, push_radix, push_signed,
};
use luminal_rocm_lite::text::{
    chars_of, has_text, owned, position_from, same_text, split_on, string_of, trimmed,
    trimmed_end, trimmed_start, CharClass,
};

fn text(chars: &[char]) -> String {
    chars.iter().collect()
}

#[test]
fn texts_are_taken_apart_and_put_together() {
    assert_eq!(string_of(&chars_of("añ→")), "añ→");
    assert_eq!(owned("abc"), "abc");
    assert!(same_text("abc", "abc"));
    assert!(!same_text("abc", "abd"));
    assert!(!same_text("ab", "abc"));
}

#[test]
fn trimming_agrees_with_the_standard_library() {
    for s in ["", " ", "\t a b \u{2003}\n", "a", "\u{85}x\u{3000}", "\u{200b}x", "\"\"q\"\""] {
        assert_eq!(text(&trimmed(s, CharClass::WhiteSpace)), s.trim());
        assert_eq!(text(&trimmed(s, CharClass::One('"'))), s.trim_matches('"'));
        assert_eq!(
            text(&trimmed_end(chars_of(s), CharClass::WhiteSpace)),
            s.trim_end()
        );
        assert_eq!(
            text(&trimmed_start(&chars_of(s), CharClass::WhiteSpace)),
            s.trim_start()
        );
    }
    for code in 0..=0x10ffffu32 {
        if let Some(c) = char::from_u32(code) {
            let alone = c.to_string();
            assert_eq!(
                trimmed(&alone, CharClass::WhiteSpace).is_empty(),
                c.is_whitespace()
            );
        }
    }
}

#[test]
fn searching_finds_the_first_place() {
    let s = chars_of("abcabc");
    assert_eq!(position_from(&s, &chars_of("bc"), 0), Some(1));
    assert_eq!(position_from(&s, &chars_of("bc"), 2), Some(4));
    assert_eq!(position_from(&s, &chars_of("bc"), 5), None);
    assert_eq!(position_from(&s, &chars_of("x"), 0), None);
    assert_eq!(position_from(&s, &chars_of("abcabcd"), 0), None);
    assert!(has_text("abcabc", "cab"));
    assert!(!has_text("abcabc", "cb"));
    assert!(has_text("abc", ""));
}

#[test]
fn splitting_agrees_with_the_standard_library() {
    for s in ["", ".", "a", "a.b", "a..b.", "...", "11.0.0"] {
        let parts: Vec<String> = split_on(&chars_of(s), '.').iter().map(|p| text(p)).collect();
        let expected: Vec<&str> = s.split('.').collect();
        assert_eq!(parts, expected);
    }
}

#[test]
fn numerals_agree_with_the_standard_library() {
    for n in [0u64, 7, 10, 99, 100, 12345, u64::MAX] {
        let mut out = String::new();
        push_decimal(&mut out, n);
        assert_eq!(out, n.to_string());
        let mut out = String::from("x");
        push_radix(&mut out, n, 16);
        assert_eq!(out, format!("x{n:x}"));
        let mut out = String::new();
        push_hex_fixed(&mut out, n, 16);
        assert_eq!(out, format!("{n:016x}"));
    }
    for i in [0i64, -1, 42, -1000, i64::MIN, i64::MAX] {
        let mut out = String::new();
        push_signed(&mut out, i);
        assert_eq!(out, i.to_string());
    }
    for s in ["", "+", "0", "+7", "007", "4294967295", "4294967296", "99999999999999999999999", "-1", "1 ", "x", "1+"] {
        assert_eq!(parse_u32(&chars_of(s)), s.parse::<u32>().ok(), "{s}");
    }
}

#[test]
fn both_blas_libraries_read_the_same_operations() {
    for s in ["T", "\"N\"", "\"C\"", "t", ""] {
        let expected = try_parse_hipblaslt_op(s).map(|op| match op {
            hipblasOperation_t::HIPBLAS_OP_N => rocblas_operation::rocblas_operation_none,
            hipblasOperation_t::HIPBLAS_OP_T => rocblas_operation::rocblas_operation_transpose,
            hipblasOperation_t::HIPBLAS_OP_C => {
                rocblas_operation::rocblas_operation_conjugate_transpose
            }
        });
        assert_eq!(try_parse_rocblas_op(s), expected);
    }
}
