//! A minimal custody vault: a deterministically derived custody account is
//! bound to an owner identity, and only that identity can move funds out of
//! it. The address derivation doubles as the authorization proof, so the
//! custody account needs no private key of its own.

pub mod bytes;
pub mod derivation;
pub mod laws;
pub mod ops;
pub mod state;
