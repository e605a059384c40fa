pub mod rewrite;

use vstd::prelude::*;

verus! {

/// Shorthand alias for a future that resolves to `Ret` and lives for `'fut`,
/// so that a signature can spell out the future type it returns.
pub trait Fut<'fut, Ret> where Self: 'fut + core::future::Future<Output = Ret> {
}

impl<'fut, Ret, F: ?Sized> Fut<'fut, Ret> for F where Self: 'fut + core::future::Future<
    Output = Ret,
> {
}

} // verus!
