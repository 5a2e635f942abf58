use lxi_lifecycle::PicmlxError;
use lxi_lifecycle::PiplxError;
use lxi_lifecycle::decimal_digits;
use lxi_lifecycle::decode_message_lookup;
use lxi_lifecycle::picmlx_error_wrapper;
use lxi_lifecycle::piplx_error_wrapper;
use lxi_lifecycle::render_picmlx_error;
use lxi_lifecycle::render_piplx_error;
use lxi_lifecycle::text_before_nul;
use lxi_lifecycle::unknown_code_text;

#[test]
fn picmlx_wrapper_passes_success() {
    assert_eq!(picmlx_error_wrapper(0), Ok(()));
}

#[test]
fn picmlx_wrapper_carries_code() {
    assert_eq!(picmlx_error_wrapper(5), Err(PicmlxError { err_num: 5 }));
}

#[test]
fn piplx_wrapper_passes_success() {
    assert_eq!(piplx_error_wrapper(0), Ok(()));
}

#[test]
fn piplx_wrapper_carries_code() {
    assert_eq!(piplx_error_wrapper(12), Err(PiplxError { err_num: 12 }));
}

#[test]
fn decimal_of_zero() {
    assert_eq!(decimal_digits(0), b"0".to_vec());
}

#[test]
fn decimal_of_small() {
    assert_eq!(decimal_digits(7), b"7".to_vec());
}

#[test]
fn decimal_of_multi_digit() {
    assert_eq!(decimal_digits(105), b"105".to_vec());
}

#[test]
fn decimal_of_largest() {
    assert_eq!(decimal_digits(u32::MAX), b"4294967295".to_vec());
}

#[test]
fn text_stops_at_first_nul() {
    let buf = b"40-160-001\0garbage after".to_vec();
    assert_eq!(text_before_nul(&buf), b"40-160-001".to_vec());
}

#[test]
fn text_of_empty_buffer() {
    let buf: Vec<u8> = Vec::new();
    assert_eq!(text_before_nul(&buf), Vec::<u8>::new());
}

#[test]
fn text_of_leading_nul() {
    let buf = b"\0hidden".to_vec();
    assert_eq!(text_before_nul(&buf), Vec::<u8>::new());
}

#[test]
fn text_without_nul_is_whole_buffer() {
    let buf = b"full".to_vec();
    assert_eq!(text_before_nul(&buf), b"full".to_vec());
}

#[test]
fn lookup_success_truncates_buffer() {
    let mut buf = b"Timeout expired".to_vec();
    buf.resize(256, 0);
    assert_eq!(decode_message_lookup(0, &buf), Ok(b"Timeout expired".to_vec()));
}

#[test]
fn lookup_failure_returns_lookup_code() {
    let buf = vec![0u8; 256];
    assert_eq!(decode_message_lookup(33, &buf), Err(33));
}

#[test]
fn fallback_text_is_fixed() {
    assert_eq!(unknown_code_text(), b"Unknown error code".to_vec());
}

#[test]
fn picmlx_render_with_resolved_text() {
    let r = render_picmlx_error(5, Ok(b"X".to_vec()));
    assert_eq!(r, b"PICMLX5: X".to_vec());
}

#[test]
fn picmlx_render_falls_back_on_unknown_code() {
    let r = render_picmlx_error(7, Err(2));
    assert_eq!(r, b"PICMLX7: Unknown error code".to_vec());
}

#[test]
fn piplx_render_with_resolved_text() {
    let r = render_piplx_error(12, Ok(b"Card not present".to_vec()));
    assert_eq!(r, b"PIPLX12: Card not present".to_vec());
}

#[test]
fn piplx_render_falls_back_on_unknown_code() {
    let r = render_piplx_error(9, Err(1));
    assert_eq!(r, b"PIPLX9: Unknown error code".to_vec());
}
