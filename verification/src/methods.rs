//! Resolution of a method name through the backend's registry.

use vstd::prelude::*;

use core::str::FromStr;
use zero_pass_backend::Methods;
use zero_pass_backend::error::Error as MethodsError;

use crate::error::Error;

verus! {

#[verifier::external_type_specification]
#[verifier::external_body]
pub struct ExMethods(Methods);

#[verifier::external_type_specification]
#[verifier::external_body]
pub struct ExBackendError(MethodsError);

/// Whether the backend's registry accepts a method name.
pub uninterp spec fn known_method(s: Seq<char>) -> bool;

/// Relies on zero_pass_backend's `Methods::from_str`: it lowercases the
/// name and accepts exactly the registered methods, so the lowercase
/// spellings and the variant spellings themselves succeed.
#[verifier::external_body]
fn backend_method_from_str(name: &str) -> (r: Result<Methods, MethodsError>)
    ensures
        r.is_ok() <==> known_method(name@),
        (name@ == "vigenere"@ || name@ == "base64"@ || name@ == "xor"@) ==> r.is_ok(),
        (name@ == "Vigenere"@ || name@ == "Base64"@ || name@ == "Xor"@) ==> r.is_ok(),
{
    Methods::from_str(name)
}

/// Look a method name up. A name the backend does not know is reported
/// as an error, never replaced by a default.
pub fn resolve_method(name: &str) -> (r: Result<Methods, Error>)
    ensures
        r.is_ok() <==> known_method(name@),
        !known_method(name@) ==> r == Err::<Methods, Error>(Error::UnknownMethod),
        (name@ == "vigenere"@ || name@ == "base64"@ || name@ == "xor"@) ==> r.is_ok(),
        (name@ == "Vigenere"@ || name@ == "Base64"@ || name@ == "Xor"@) ==> r.is_ok(),
{
    match backend_method_from_str(name) {
        Ok(m) => Ok(m),
        Err(_) => Err(Error::UnknownMethod),
    }
}

} // verus!
