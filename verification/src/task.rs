//! The task types of the poll contract, declared for Verus.

use futures_core::task::{Context, Poll};
use vstd::prelude::*;

verus! {

/// `core::task::Poll`, under the path `futures_core::task::Poll`: what one poll reports,
/// either `Ready` with a value or `Pending`. Declared with its two variants as the standard
/// library defines them, so that verified code can build and match on it.
#[verifier::external_type_specification]
pub struct ExPoll<T>(Poll<T>);

/// `core::task::Context`, under the path `futures_core::task::Context`: the handle through
/// which a computation asks to be polled again. Nothing is known of what it holds; the
/// adapters only pass it on.
#[verifier::external_type_specification]
#[verifier::external_body]
pub struct ExContext<'a>(Context<'a>);

} // verus!
