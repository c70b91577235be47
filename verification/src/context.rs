//! The token that a handler receives with each request.

use core::marker::PhantomData;
use vstd::prelude::*;

verus! {

/// The execution context of one request: a value without data, tied by its
/// type to the handler `H` that it is made for.
#[derive(Debug, PartialEq, Eq)]
pub struct HttpContext<H>(pub PhantomData<H>);

impl<H> HttpContext<H> {
    /// A fresh context for the next call of the handler.
    pub fn new() -> (cx: Self)
        ensures
            cx == HttpContext::<H>(PhantomData),
    {
        HttpContext(PhantomData)
    }
}

} // verus!
