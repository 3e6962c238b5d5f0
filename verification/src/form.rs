//! What a text field of a form holds.

use vstd::prelude::*;

verus! {

/// The content of a field, and whether that content is acceptable.
#[derive(Debug, PartialEq, Eq)]
pub struct Value<T> {
    pub value: T,
    pub valid: bool,
}

impl Clone for Value<String> {
    fn clone(&self) -> (copy: Self)
        ensures
            copy == *self,
    {
        Value { value: self.value.clone(), valid: self.valid }
    }
}

} // verus!
