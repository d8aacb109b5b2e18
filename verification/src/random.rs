use vstd::prelude::*;

verus! {

/// Evidence that the operating system's random source failed. Only a failed
/// draw from the source makes one, so a value of this type shows that such a
/// draw really failed.
#[derive(Debug, PartialEq, Eq, Structural)]
pub struct RandomSourceFailure {
    failed: bool,
}

/// `len` bytes from the operating system's random source
/// (`RngCore::try_fill_bytes` on `rand::rngs::OsRng`), or the evidence that
/// the source failed. Which bytes, is not stated.
#[verifier::external_body]
pub(crate) fn random_bytes(len: usize) -> (bytes: Result<Vec<u8>, RandomSourceFailure>)
    ensures
        bytes matches Ok(b) ==> b@.len() == len,
{
    let mut bytes = vec![0u8; len];
    match rand::RngCore::try_fill_bytes(&mut rand::rngs::OsRng, &mut bytes[..]) {
        Ok(()) => Ok(bytes),
        Err(_) => Err(RandomSourceFailure { failed: true }),
    }
}

} // verus!
