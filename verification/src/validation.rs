//! The validate-completely protocol.
//!
//! Every schema node implements [`Validate`]: given the node's own location,
//! append to an error list one entry per problem found in the node and its
//! children, without stopping at the first problem. The contract pins the
//! exact sequence of findings, so the reported order is deterministic for a
//! fixed document.

use crate::path::{Path, StepView};
use vstd::prelude::*;

verus! {

/// What kind of problem a validation finding reports.
#[derive(Clone, Copy, Debug, PartialEq, Eq)]
pub enum ErrorKind {
    /// A checked enumeration field holds a wire value outside its vocabulary.
    InvalidEnumeration,
    /// A numeric factor has a component outside the closed interval [0, 1].
    OutOfRange,
}

/// One validation finding: the exact location, and the kind of problem.
#[derive(Debug, PartialEq, Eq)]
pub struct ValidationError {
    pub path: Path,
    pub kind: ErrorKind,
}

/// The mathematical form of a finding.
pub struct ErrorView {
    pub path: Seq<StepView>,
    pub kind: ErrorKind,
}

impl View for ValidationError {
    type V = ErrorView;

    open spec fn view(&self) -> ErrorView {
        ErrorView { path: self.path@, kind: self.kind }
    }
}

/// The views of a sequence of findings, in order.
pub open spec fn error_views(errors: Seq<ValidationError>) -> Seq<ErrorView> {
    errors.map_values(|e: ValidationError| e@)
}

/// Appends one finding at the given location.
pub fn report(path: &Path, kind: ErrorKind, errors: &mut Vec<ValidationError>)
    ensures
        error_views(final(errors)@) == error_views(old(errors)@).push(
            ErrorView { path: path@, kind },
        ),
{
    errors.push(ValidationError { path: path.clone(), kind });
    proof {
        assert(error_views(errors@) =~= error_views(old(errors)@).push(
            ErrorView { path: path@, kind },
        ));
    }
}

/// The validation capability of a schema node.
///
/// `spec_validate` is the node's complete list of findings when it sits at
/// `path`; `validate` appends exactly that list to `errors` and leaves the
/// path as it found it. Sibling fields are visited in declaration order, so
/// the list is the same on every run over the same document.
pub trait Validate {
    /// Every finding in this node and its children, tagged with its location.
    spec fn spec_validate(&self, path: Seq<StepView>) -> Seq<ErrorView>;

    /// Appends every finding to `errors`; never stops at the first one.
    fn validate(&self, path: &mut Path, errors: &mut Vec<ValidationError>)
        ensures
            final(path)@ == old(path)@,
            error_views(final(errors)@) == error_views(old(errors)@) + self.spec_validate(
                old(path)@,
            ),
    ;
}

/// An optional child: validate the contained value if present, nothing if
/// absent.
impl<T: Validate> Validate for Option<T> {
    open spec fn spec_validate(&self, path: Seq<StepView>) -> Seq<ErrorView> {
        match self {
            Some(x) => x.spec_validate(path),
            None => Seq::empty(),
        }
    }

    fn validate(&self, path: &mut Path, errors: &mut Vec<ValidationError>) {
        match self {
            Some(x) => x.validate(path, errors),
            None => {
                proof {
                    assert(error_views(errors@) =~= error_views(errors@)
                        + Seq::<ErrorView>::empty());
                }
            },
        }
    }
}

/// Law: for a fixed document and location the list of findings is a single,
/// fully determined sequence, so validating twice yields identical (path,
/// kind) sequences in identical order.
pub proof fn lemma_validation_deterministic<T: Validate>(
    node: &T,
    path: Seq<StepView>,
    first: Seq<ErrorView>,
    second: Seq<ErrorView>,
)
    requires
        first == node.spec_validate(path),
        second == node.spec_validate(path),
    ensures
        first == second,
{
}

} // verus!
