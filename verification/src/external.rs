//! Declarations of the outside types that values of this crate carry.
//! Verus sees none of their insides: they are only moved and stored.

use vstd::prelude::*;
use std::io::Error as StreamFailure;
use serde_json::Error as JsonFailure;

verus! {

/// `std::task::Waker`: the handle by which a pending reply is signalled.
#[verifier::external_type_specification]
#[verifier::external_body]
pub struct ExWaker(std::task::Waker);

/// `std::io::Error`: an error of the byte stream.
#[verifier::external_type_specification]
#[verifier::external_body]
pub struct ExIoError(StreamFailure);

/// `serde_json::Error`: an error of encoding or decoding JSON.
#[verifier::external_type_specification]
#[verifier::external_body]
pub struct ExJsonError(JsonFailure);

/// `serde_json::Value`: a decoded JSON document, carried as the result of a call.
#[verifier::external_type_specification]
#[verifier::external_body]
pub struct ExJsonValue(serde_json::Value);

} // verus!
