//! The handle under which the application shares its session store.

use actix_web::web::Data;
use vstd::prelude::*;

verus! {

/// `actix_web::web::Data<T>`, the shared handle that the framework hands to
/// a route. It is declared so that routes can receive one; nothing is
/// claimed of what it holds or does.
#[verifier::external_type_specification]
#[verifier::external_body]
#[verifier::reject_recursive_types(T)]
pub struct ExData<T: ?Sized>(Data<T>);

} // verus!
