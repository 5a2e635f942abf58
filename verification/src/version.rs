//! Structured driver version numbers, as both subsystems report them, and
//! their diagnostic rendering. Querying the versions is a stateless,
//! infallible driver call made by the front end; the values themselves are
//! plain data.

use vstd::prelude::*;

use crate::text::decimal_digits;
use crate::text::spec_decimal_digits;

verus! {

/// A structured driver version: major, minor and patch components.
#[derive(Clone, Copy, Debug, PartialEq, Eq, Structural)]
pub struct VersionInfo {
    pub major: u32,
    pub minor: u32,
    pub patch: u32,
}

/// The diagnostic rendering of a version: `major.minor.patch` in decimal.
pub open spec fn spec_rendered_version(v: VersionInfo) -> Seq<u8> {
    spec_decimal_digits(v.major as nat) + seq![46u8] + spec_decimal_digits(v.minor as nat)
        + seq![46u8] + spec_decimal_digits(v.patch as nat)
}

/// Render a version as `major.minor.patch`.
pub fn render_version(v: &VersionInfo) -> (r: Vec<u8>)
    ensures
        r@ == spec_rendered_version(*v),
{
    let mut r = decimal_digits(v.major);
    r.push(46);
    let mut minor = decimal_digits(v.minor);
    r.append(&mut minor);
    r.push(46);
    let mut patch = decimal_digits(v.patch);
    r.append(&mut patch);
    proof {
        assert(r@ =~= spec_rendered_version(*v));
    }
    r
}

} // verus!
