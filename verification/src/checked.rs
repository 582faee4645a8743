//! The checked-value wrapper for closed string enumerations.
//!
//! A field whose wire form is a closed set of strings decodes into a
//! [`Checked`] value: a recognized string becomes `Valid`, any other string
//! becomes `Invalid`, and decoding itself never fails on string-typed input.
//! Whether an `Invalid` value is acceptable is decided later, by the
//! validation pass.

use crate::path::{Path, StepView};
use crate::validation::{report, ErrorKind, ErrorView, Validate, ValidationError, error_views};
use vstd::prelude::*;

verus! {

/// A value of a closed string enumeration, as decoded from the wire.
///
/// `Valid` holds a recognized value; `Invalid` records that the wire string
/// was well shaped but not part of the enumeration's vocabulary.
#[derive(Clone, Copy, Debug, PartialEq, Eq)]
pub enum Checked<T> {
    Valid(T),
    Invalid,
}

/// A checked enumeration reports `InvalidEnumeration` exactly once if it
/// holds `Invalid`, and nothing if it holds `Valid`.
impl<T> Validate for Checked<T> {
    open spec fn spec_validate(&self, path: Seq<StepView>) -> Seq<ErrorView> {
        match self {
            Checked::Valid(_) => Seq::empty(),
            Checked::Invalid => seq![ErrorView { path, kind: ErrorKind::InvalidEnumeration }],
        }
    }

    fn validate(&self, path: &mut Path, errors: &mut Vec<ValidationError>) {
        match self {
            Checked::Valid(_) => {
                proof {
                    assert(error_views(errors@) =~= error_views(errors@)
                        + Seq::<ErrorView>::empty());
                }
            },
            Checked::Invalid => {
                report(path, ErrorKind::InvalidEnumeration, errors);
                proof {
                    assert(error_views(errors@) =~= error_views(old(errors)@)
                        + self.spec_validate(path@));
                }
            },
        }
    }
}

} // verus!
