//! Principals and the authorization guard.

use vstd::prelude::*;
use std::str::FromStr;
use anchor_lang::prelude::Pubkey;

verus! {

/// Base58 text of the single principal that may mint and exchange.
pub const TRUSTED_PRINCIPAL: &'static str = "F5BVciapAXfL6YiiFgDtLNDwL96drBVZCqrKnkzpWd5V";

/// An opaque identity that the host has verified: thirty-two bytes.
#[derive(Clone, Copy, Debug, PartialEq, Eq, Hash)]
pub struct PrincipalId {
    pub bytes: [u8; 32],
}

impl View for PrincipalId {
    type V = Seq<u8>;

    open spec fn view(&self) -> Seq<u8> {
        self.bytes@
    }
}

/// Why the guard turned a caller away.
#[derive(Clone, Copy, Debug, PartialEq, Eq, Structural)]
pub enum AuthorizationError {
    /// The caller is not the trusted principal.
    IllegalOwner,
}

/// The bytes of a principal that may be absent.
pub open spec fn key_bytes(key: Option<PrincipalId>) -> Option<Seq<u8>> {
    match key {
        Some(k) => Some(k@),
        None => None,
    }
}

/// What `Pubkey::from_str` makes of a text: the thirty-two bytes of the key
/// that the text encodes in base58, or nothing where the decoder reports an
/// error.
pub uninterp spec fn decoded_key(text: Seq<char>) -> Option<Seq<u8>>;

/// Decodes a base58 text with `anchor_lang::prelude::Pubkey::from_str`.
///
/// Not proved: that the result is what that function returns for `text`, a
/// key as its bytes and every error of the decoder as `None`. The decoder
/// reads nothing but the text, so one text always gives one result.
#[verifier::external_body]
fn decode_key(text: &str) -> (key: Option<PrincipalId>)
    ensures
        key_bytes(key) == decoded_key(text@),
{
    match Pubkey::from_str(text) {
        Ok(key) => Some(PrincipalId { bytes: key.to_bytes() }),
        Err(_) => None,
    }
}

impl PrincipalId {
    /// The principal with the given bytes.
    pub fn new(bytes: [u8; 32]) -> (id: PrincipalId)
        ensures
            id.bytes == bytes,
    {
        PrincipalId { bytes }
    }

    /// Whether two principals are the same identity.
    pub fn same(&self, other: &PrincipalId) -> (equal: bool)
        ensures
            equal == (self@ == other@),
    {
        let mut i: usize = 0;
        while i < 32
            invariant
                i <= 32,
                forall|j: int| 0 <= j < i ==> self.bytes[j] == other.bytes[j],
            decreases 32 - i,
        {
            if self.bytes[i] != other.bytes[i] {
                return false;
            }
            i += 1;
        }
        assert(self@ =~= other@);
        true
    }
}

/// The bytes of the trusted principal, as far as its text encodes a key.
pub open spec fn trusted_key() -> Option<Seq<u8>> {
    decoded_key(TRUSTED_PRINCIPAL@)
}

/// Whether `caller` is the trusted principal.
pub open spec fn is_trusted(caller: PrincipalId) -> bool {
    trusted_key() == Some(caller@)
}

/// Whether a guard that trusts `trusted`, and nobody where it is `None`,
/// lets `caller` pass.
pub open spec fn permits(trusted: Option<PrincipalId>, caller: PrincipalId) -> bool {
    key_bytes(trusted) == Some(caller@)
}

/// What the guard answers a caller who is, or is not, permitted.
pub open spec fn verdict(permitted: bool) -> Result<(), AuthorizationError> {
    if permitted {
        Ok(())
    } else {
        Err(AuthorizationError::IllegalOwner)
    }
}

/// The trusted principal, decoded from its text.
pub fn trusted_principal() -> (trusted: Option<PrincipalId>)
    ensures
        key_bytes(trusted) == trusted_key(),
{
    decode_key(TRUSTED_PRINCIPAL)
}

/// Compares `caller` with the principal that is trusted: succeeds exactly
/// when there is one and it is `caller`. Nothing is changed either way.
pub fn check_caller(trusted: &Option<PrincipalId>, caller: &PrincipalId) -> (r: Result<
    (),
    AuthorizationError,
>)
    ensures
        r == verdict(permits(*trusted, *caller)),
{
    match trusted {
        Some(t) => {
            if t.same(caller) {
                Ok(())
            } else {
                Err(AuthorizationError::IllegalOwner)
            }
        },
        None => Err(AuthorizationError::IllegalOwner),
    }
}

/// The authorization guard: succeeds exactly when `caller` is the trusted
/// principal, and fails with `IllegalOwner` for everyone else.
pub fn authorize(caller: &PrincipalId) -> (r: Result<(), AuthorizationError>)
    ensures
        r == verdict(is_trusted(*caller)),
{
    let trusted = trusted_principal();
    check_caller(&trusted, caller)
}

} // verus!
