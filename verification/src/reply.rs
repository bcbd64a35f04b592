//! What an exchange with the monitoring service comes to: a document, an
//! empty body, or a failure.

use vstd::prelude::*;
use crate::err::{ErrorView, SensuError};
use crate::json::{Json, JsonView};

verus! {

/// The model of what an exchange with the service came to.
pub open spec fn reply_view(reply: Result<Option<Json>, SensuError>) -> Result<
    Option<JsonView>,
    ErrorView,
> {
    match reply {
        Ok(Some(j)) => Ok(Some(j@)),
        Ok(None) => Ok(None),
        Err(e) => Err(e@),
    }
}

/// The entries of a reply that holds a list; `None` for a failure, an empty
/// body, or a document that is no array.
pub open spec fn listed(reply: Result<Option<JsonView>, ErrorView>) -> Option<Seq<JsonView>> {
    match reply {
        Ok(Some(JsonView::Array(items))) => Some(items),
        _ => None,
    }
}

} // verus!
