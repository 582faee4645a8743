//! Schema types, lenient enumeration decoding, and exhaustive path-tagged
//! validation for the material-extension slice of a glTF document.
//!
//! Decoding from raw text to a structured [`value::Value`] tree is delegated
//! to a generic serialization layer outside this crate; everything from the
//! structured tree to the schema types, and the whole validation pass, is
//! verified here.

pub mod checked;
pub mod codec;
pub mod material;
pub mod path;
pub mod validation;
pub mod value;

use vstd::prelude::*;

verus! {

/// The IEEE-754 binary64 bit pattern of the number one.
///
/// Numeric wire values are carried as bit patterns so that range rules can be
/// stated and checked exactly, without floating-point arithmetic.
pub const F64_ONE_BITS: u64 = 0x3FF0_0000_0000_0000;

} // verus!
