//! The result of one processing step.

use vstd::prelude::*;

verus! {

/// What one call of a processing step produced: nothing (a filter), one item
/// (a map) or an ordered run of items (a flat map).
pub enum ProcRes<T> {
    Nothing,
    One(T),
    Many(Vec<T>),
}

impl<T> From<Option<T>> for ProcRes<T> {
    fn from(opt: Option<T>) -> (r: Self) {
        match opt {
            Some(v) => ProcRes::One(v),
            None => ProcRes::Nothing,
        }
    }
}

impl<T> vstd::std_specs::convert::FromSpecImpl<Option<T>> for ProcRes<T> {
    open spec fn obeys_from_spec() -> bool {
        true
    }

    open spec fn from_spec(opt: Option<T>) -> Self {
        match opt {
            Some(v) => ProcRes::One(v),
            None => ProcRes::Nothing,
        }
    }
}

} // verus!
