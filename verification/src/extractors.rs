use vstd::prelude::*;

use crate::db::{Store, Stored};
use crate::error::AppError;

verus! {

/// A record extracted by the identifier a request named. The transport
/// layer reads the identifier out of the request path; resolving it
/// against the store happens here.
pub struct ExtractById<T>(pub T);

impl<T: Stored> ExtractById<T> {
    /// Resolve the identifier. Fails with `NotFound` exactly when no
    /// record carries it.
    pub fn from_store(store: &Store, id: u64) -> (r: Result<ExtractById<T>, AppError>)
        ensures
            r is Ok <==> T::spec_find(*store, id) is Some,
            r matches Ok(e) ==> T::spec_find(*store, id) == Some(e.0),
            r is Err ==> r == Err::<ExtractById<T>, AppError>(AppError::NotFound),
    {
        match crate::db::find_by_id_error::<T>(store, id) {
            Ok(t) => Ok(ExtractById(t)),
            Err(e) => Err(e),
        }
    }
}

} // verus!
