//! The two marshalling capabilities that every codable type provides.

use vstd::prelude::*;
use crate::error::MarshalError;
use crate::value::{well_formed, Tree, Value};

verus! {

/// The outcome of a decode, with the decoded value replaced by its model.
pub open spec fn modeled<T: DeepView>(r: Result<T, MarshalError>) -> Result<T::V, MarshalError> {
    match r {
        Ok(x) => Ok(x.deep_view()),
        Err(e) => Err(e),
    }
}

/// A type whose values can be read back from a JSON value.
pub trait FromJsonnable: Sized + DeepView {
    /// What decoding `t` yields, stated over models.
    spec fn decoded(t: Tree) -> Result<Self::V, MarshalError>;

    /// Decodes `json`, failing at the first member or element that does not fit.
    fn from_json(json: Value) -> (r: Result<Self, MarshalError>)
        ensures
            modeled(r) == Self::decoded(json@),
    ;
}

/// A type whose values can be written as a JSON value.
pub trait ToJsonnable: Sized + DeepView {
    /// The tree that a value with model `m` is written as.
    spec fn encoded(m: Self::V) -> Tree;

    /// Writes `self` as JSON; this never fails, and no object written has a key twice.
    fn to_json(&self) -> (r: Value)
        ensures
            r@ == Self::encoded(self.deep_view()),
            well_formed(r@),
    ;
}

/// Decoding what a value with model `m` is written as gives `m` back.
pub open spec fn round_trips<T: ToJsonnable + FromJsonnable>(m: <T as DeepView>::V) -> bool {
    T::decoded(T::encoded(m)) == Ok::<<T as DeepView>::V, MarshalError>(m)
}

} // verus!
