//! The envelopes of the API's answers.
use vstd::prelude::*;

verus! {

/// One item, under `data`.
#[derive(Debug, PartialEq, Eq)]
pub struct ApiResponse<T> {
    pub data: T,
}

/// How many items a list holds.
#[derive(Debug, PartialEq, Eq)]
pub struct Meta {
    pub total: usize,
}

/// A list of items, under `data`, with their number under `meta`.
#[derive(Debug, PartialEq, Eq)]
pub struct ApiListResponse<T> {
    pub data: Vec<T>,
    pub meta: Meta,
}

impl<T> ApiResponse<T> {
    /// Wraps one item.
    pub fn new(data: T) -> (r: Self)
        ensures
            r.data == data,
    {
        Self { data }
    }
}

impl<T> ApiListResponse<T> {
    /// Wraps a list; `meta.total` is its length.
    pub fn new(data: Vec<T>) -> (r: Self)
        ensures
            r.data@ == data@,
            r.meta.total == data@.len(),
    {
        let total = data.len();
        Self { data, meta: Meta { total } }
    }
}

} // verus!
