//! Status codes of the two driver subsystems and their translation into
//! diagnostic text.
//!
//! The session-level subsystem (PICMLX) and the card-level subsystem (PIPLX)
//! each return an unsigned status code from every call: zero for success,
//! anything else a subsystem-specific failure. The two code spaces are
//! disjoint and must never be cross-resolved. Resolving a code into text is
//! itself a fallible driver call; when it fails, the renderer falls back to a
//! fixed message instead of surfacing a second error.

use vstd::prelude::*;

use crate::text::decimal_digits;
use crate::text::spec_decimal_digits;
use crate::text::spec_text_before_nul;
use crate::text::text_before_nul;

verus! {

/// A failure reported by the session-level (PICMLX) subsystem.
#[derive(Clone, Copy, Debug, PartialEq, Eq, Structural)]
pub struct PicmlxError {
    pub err_num: u32,
}

/// A failure reported by the card-level (PIPLX) subsystem.
#[derive(Clone, Copy, Debug, PartialEq, Eq, Structural)]
pub struct PiplxError {
    pub err_num: u32,
}

/// Turn a raw session-subsystem status code into a `Result`: zero is
/// success, anything else carries the code as a `PicmlxError`.
pub fn picmlx_error_wrapper(err_code: u32) -> (r: Result<(), PicmlxError>)
    ensures
        r is Ok <==> err_code == 0,
        r is Err ==> r->Err_0 == (PicmlxError { err_num: err_code }),
{
    if err_code != 0 {
        Err(PicmlxError { err_num: err_code })
    } else {
        Ok(())
    }
}

/// Turn a raw card-subsystem status code into a `Result`: zero is success,
/// anything else carries the code as a `PiplxError`.
pub fn piplx_error_wrapper(err_code: u32) -> (r: Result<(), PiplxError>)
    ensures
        r is Ok <==> err_code == 0,
        r is Err ==> r->Err_0 == (PiplxError { err_num: err_code }),
{
    if err_code != 0 {
        Err(PiplxError { err_num: err_code })
    } else {
        Ok(())
    }
}

/// Outcome of a driver text lookup (error-message or identity query): the
/// lookup's own status code, and the fixed buffer it filled.
///
/// When the lookup succeeded, the text is what stands in the buffer before
/// its first NUL byte; when it failed, the failure code of the lookup itself
/// is handed back, never mixed up with the code that was being resolved.
pub fn decode_message_lookup(res: u32, buffer: &Vec<u8>) -> (r: Result<Vec<u8>, u32>)
    ensures
        res == 0 <==> r is Ok,
        r matches Ok(t) ==> t@ == spec_text_before_nul(buffer@),
        r matches Err(c) ==> c == res,
{
    if res != 0 {
        Err(res)
    } else {
        Ok(text_before_nul(buffer))
    }
}

/// The fixed fallback text shown when resolving a code fails: `Unknown error code`.
pub open spec fn spec_unknown_code_text() -> Seq<u8> {
    seq![85u8, 110u8, 107u8, 110u8, 111u8, 119u8, 110u8, 32u8, 101u8, 114u8, 114u8, 111u8, 114u8,
        32u8, 99u8, 111u8, 100u8, 101u8]
}

/// The `PICMLX` subsystem prefix.
pub open spec fn spec_picmlx_prefix() -> Seq<u8> {
    seq![80u8, 73u8, 67u8, 77u8, 76u8, 88u8]
}

/// The `PIPLX` subsystem prefix.
pub open spec fn spec_piplx_prefix() -> Seq<u8> {
    seq![80u8, 73u8, 80u8, 76u8, 88u8]
}

/// The text a resolution outcome is shown as: the resolved text itself, or
/// the fallback when the lookup failed.
pub open spec fn spec_resolution_text(lookup: Result<Vec<u8>, u32>) -> Seq<u8> {
    match lookup {
        Ok(t) => t@,
        Err(_) => spec_unknown_code_text(),
    }
}

/// The full rendering of a failure: subsystem prefix, the code in decimal,
/// `": "`, then the resolution text.
pub open spec fn spec_rendered_error(prefix: Seq<u8>, err_num: u32, lookup: Result<Vec<u8>, u32>) -> Seq<u8> {
    prefix + spec_decimal_digits(err_num as nat) + seq![58u8, 32u8] + spec_resolution_text(lookup)
}

fn render_error_message(prefix: Vec<u8>, err_num: u32, lookup: Result<Vec<u8>, u32>) -> (r: Vec<u8>)
    ensures
        r@ == spec_rendered_error(prefix@, err_num, lookup),
{
    let ghost goal = spec_rendered_error(prefix@, err_num, lookup);
    let mut r = prefix;
    let mut digits = decimal_digits(err_num);
    r.append(&mut digits);
    r.push(58);
    r.push(32);
    match lookup {
        Ok(mut t) => {
            r.append(&mut t);
        }
        Err(_) => {
            let mut f = unknown_code_text();
            r.append(&mut f);
        }
    }
    proof {
        assert(r@ =~= goal);
    }
    r
}

/// The fallback text as bytes, for display when a lookup fails.
pub fn unknown_code_text() -> (r: Vec<u8>)
    ensures
        r@ == spec_unknown_code_text(),
{
    let mut r: Vec<u8> = Vec::new();
    r.push(85);
    r.push(110);
    r.push(107);
    r.push(110);
    r.push(111);
    r.push(119);
    r.push(110);
    r.push(32);
    r.push(101);
    r.push(114);
    r.push(114);
    r.push(111);
    r.push(114);
    r.push(32);
    r.push(99);
    r.push(111);
    r.push(100);
    r.push(101);
    proof {
        assert(r@ =~= spec_unknown_code_text());
    }
    r
}

/// Render a session-subsystem failure as `PICMLX<code>: <text>`, where the
/// text is the given resolution outcome, or the fallback when that lookup
/// itself failed: a resolution failure never raises a second error.
pub fn render_picmlx_error(err_num: u32, lookup: Result<Vec<u8>, u32>) -> (r: Vec<u8>)
    ensures
        r@ == spec_rendered_error(spec_picmlx_prefix(), err_num, lookup),
{
    let mut prefix: Vec<u8> = Vec::new();
    prefix.push(80);
    prefix.push(73);
    prefix.push(67);
    prefix.push(77);
    prefix.push(76);
    prefix.push(88);
    proof {
        assert(prefix@ =~= spec_picmlx_prefix());
    }
    render_error_message(prefix, err_num, lookup)
}

/// Render a card-subsystem failure as `PIPLX<code>: <text>`, with the same
/// fallback policy as the session renderer.
pub fn render_piplx_error(err_num: u32, lookup: Result<Vec<u8>, u32>) -> (r: Vec<u8>)
    ensures
        r@ == spec_rendered_error(spec_piplx_prefix(), err_num, lookup),
{
    let mut prefix: Vec<u8> = Vec::new();
    prefix.push(80);
    prefix.push(73);
    prefix.push(80);
    prefix.push(76);
    prefix.push(88);
    proof {
        assert(prefix@ =~= spec_piplx_prefix());
    }
    render_error_message(prefix, err_num, lookup)
}

} // verus!
