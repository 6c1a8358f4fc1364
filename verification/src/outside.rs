//! Declarations of the types from `std` and from the `uuid` crate that
//! appear in the library's signatures and fields. Each one is opaque:
//! the library only carries such values through.

use std::io;
use std::path::PathBuf;
use std::time::Instant;
use uuid::Uuid;

use vstd::prelude::*;

verus! {

#[verifier::external_type_specification]
#[verifier::external_body]
pub struct ExInstant(Instant);

#[verifier::external_type_specification]
#[verifier::external_body]
pub struct ExPathBuf(PathBuf);

#[verifier::external_type_specification]
#[verifier::external_body]
pub struct ExIoError(io::Error);

#[verifier::external_type_specification]
#[verifier::external_body]
pub struct ExUuid(Uuid);

#[verifier::external_type_specification]
#[verifier::external_body]
pub struct ExUuidError(uuid::Error);

} // verus!
