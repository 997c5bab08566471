//! Plain value shapes exchanged with the web-facing layer.

use vstd::prelude::*;

verus! {

/// The credentials a login request carries.
#[derive(Clone, Debug, PartialEq, Eq)]
pub struct LoginModel {
    pub username: String,
    pub password: String,
}

/// A portable reference to a stored document: the collection it lives in and
/// its identifier, both as text.
#[derive(Clone, Debug, PartialEq, Eq)]
pub struct TSLink {
    pub collection: String,
    pub id: String,
}

} // verus!
