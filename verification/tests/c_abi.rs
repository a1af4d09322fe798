use libass::cint::{c_bool, c_int_len, override_bits_arg};
use libass::cstr::{contains_nul, to_c_string, to_c_string_list, to_opt_c_string};
use libass::error::{check_handle, Error};

#[test]
fn null_handle_is_an_error() {
    assert_eq!(check_handle(0), Err(Error));
}

#[test]
fn non_null_handle_is_kept() {
    assert_eq!(check_handle(0x1000), Ok(0x1000));
    assert_eq!(check_handle(1), Ok(1));
}

#[test]
fn strings_without_nul_are_c_compatible() {
    assert!(!contains_nul(""));
    assert!(!contains_nul("Arial"));
    assert!(!contains_nul("UTF-8"));
}

#[test]
fn strings_with_nul_are_detected() {
    assert!(contains_nul("\0"));
    assert!(contains_nul("a\0b"));
    assert!(contains_nul("abc\0"));
}

#[test]
fn c_string_appends_one_nul() {
    assert_eq!(to_c_string("abc"), b"abc\0".to_vec());
    assert_eq!(to_c_string(""), vec![0u8]);
    assert_eq!(to_c_string("é"), vec![0xc3, 0xa9, 0]);
}

#[test]
fn c_string_reads_back_as_the_input() {
    let s = "fonts/dir";
    let c = to_c_string(s);
    let end = c.iter().position(|b| *b == 0).unwrap();
    assert_eq!(&c[..end], s.as_bytes());
    assert_eq!(end, s.len());
    assert_eq!(c.len(), s.len() + 1);
}

#[test]
fn optional_c_string() {
    assert_eq!(to_opt_c_string(None), None);
    assert_eq!(to_opt_c_string(Some("x")), Some(b"x\0".to_vec()));
}

#[test]
fn c_string_list_keeps_order() {
    let list = vec!["Fontname=Arial", "", "Fontsize=20"];
    let out = to_c_string_list(&list);
    assert_eq!(out.len(), 3);
    assert_eq!(out[0], b"Fontname=Arial\0".to_vec());
    assert_eq!(out[1], vec![0u8]);
    assert_eq!(out[2], b"Fontsize=20\0".to_vec());
    assert!(to_c_string_list(&Vec::new()).is_empty());
}

#[test]
fn c_bool_values() {
    assert_eq!(c_bool(true), 1);
    assert_eq!(c_bool(false), 0);
}

#[test]
fn c_int_len_small_lengths_pass_unchanged() {
    assert_eq!(c_int_len(0), 0);
    assert_eq!(c_int_len(5), 5);
    assert_eq!(c_int_len(i32::MAX as usize), i32::MAX);
}

#[test]
fn c_int_len_large_lengths_wrap() {
    assert_eq!(c_int_len(1usize << 31), i32::MIN);
    assert_eq!(c_int_len(u32::MAX as usize), -1);
    if usize::BITS == 64 {
        assert_eq!(c_int_len(((1u64 << 32) + 5) as usize), 5);
    }
}

#[test]
fn override_bits_keep_their_bits() {
    assert_eq!(override_bits_arg(0), 0);
    assert_eq!(override_bits_arg(1 << 3), 8);
    assert_eq!(override_bits_arg(0x8000_0000), i32::MIN);
    assert_eq!(override_bits_arg(u32::MAX), -1);
    assert_eq!(override_bits_arg(0x8000_0001) as u32, 0x8000_0001);
}
