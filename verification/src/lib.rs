//! Small utility crate: date and time formatting over plain calendar values,
//! a semantic-version comparator, and the decision logic of a JSON-over-HTTP
//! client (request target, header list, response classification and error
//! messages).

use vstd::prelude::*;

pub mod texto;
pub mod tiempo;
pub mod utilidades;
pub mod ws;

verus! {

/// Result alias used across the crate: every failure is a descriptive message.
pub type Resultado<T> = Result<T, String>;

} // verus!
