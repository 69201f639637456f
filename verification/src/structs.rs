//! The bodies of the JSON requests the API accepts.

use vstd::prelude::*;

verus! {

/// A request to add a short link.
#[derive(Clone, Debug)]
pub struct Add {
    pub link: String,
    pub destination: String,
}

/// A request to point an existing short link somewhere else.
#[derive(Clone, Debug)]
pub struct Edit {
    pub destination: String,
}

/// A request for the QR code of an address.
#[derive(Clone, Debug)]
pub struct Qr {
    pub destination: String,
}

/// The credentials of a new account.
#[derive(Clone, Debug)]
pub struct AddUser {
    pub username: String,
    pub password: String,
}

/// The credentials of a login, or of the first account's creation.
#[derive(Clone, Debug)]
pub struct LogIn {
    pub username: String,
    pub password: String,
}

} // verus!
