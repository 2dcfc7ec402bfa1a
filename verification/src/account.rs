use vstd::prelude::*;
use vstd::utf8::encode_utf8;
use crate::error::AuthenticationError;

verus! {

/// Largest number of bytes that a stored commitment may have.
pub const MAX_HASH_LENGTH: usize = 100;

/// Bytes that the storage layer puts in front of every record to tell its
/// kind.
pub const DISCRIMINATOR: usize = 8;

/// Bytes of the length prefix that a stored text carries.
pub const LENGTH_PREFIX: usize = 4;

/// Bytes set aside for the record of one identity.
pub const ACCOUNT_SPACE: usize = DISCRIMINATOR + LENGTH_PREFIX + MAX_HASH_LENGTH;

/// Number of bytes of a text in UTF-8, which is how a commitment is measured
/// and stored.
pub open spec fn byte_len(text: Seq<char>) -> nat {
    encode_utf8(text).len()
}

/// The record of one identity: the commitment to its secret.
#[derive(Clone, Debug)]
pub struct UserData {
    pub hash: String,
}

impl UserData {
    /// Whether the commitment respects the size bound of a stored record.
    pub open spec fn well_formed(&self) -> bool {
        byte_len(self.hash@) <= MAX_HASH_LENGTH
    }

    /// Makes the record that holds `hash`, or refuses with `HashTooLong` a
    /// commitment of more than `MAX_HASH_LENGTH` bytes.
    pub fn new(hash: String) -> (r: Result<UserData, AuthenticationError>)
        ensures
            r is Ok <==> byte_len(hash@) <= MAX_HASH_LENGTH,
            r matches Ok(data) ==> data.hash@ == hash@ && data.well_formed(),
            r matches Err(e) ==> e == AuthenticationError::HashTooLong,
    {
        if hash.as_str().as_bytes().len() > MAX_HASH_LENGTH {
            return Err(AuthenticationError::HashTooLong);
        }
        Ok(UserData { hash })
    }

    /// Number of bytes that the record takes in storage: discriminator,
    /// length prefix and the commitment itself. A well-formed record fits
    /// the space set aside for it.
    pub fn stored_size(&self) -> (size: usize)
        requires
            self.well_formed(),
        ensures
            size == DISCRIMINATOR + LENGTH_PREFIX + byte_len(self.hash@),
            size <= ACCOUNT_SPACE,
    {
        DISCRIMINATOR + LENGTH_PREFIX + self.hash.as_str().as_bytes().len()
    }
}

/// The key that a record is filed under: the public key of its owner.
#[derive(Clone, Copy, Debug)]
pub struct Identity {
    pub key: [u8; 32],
}

impl View for Identity {
    type V = Seq<u8>;

    open spec fn view(&self) -> Seq<u8> {
        self.key@
    }
}

impl Identity {
    /// Whether two identities are the same key.
    pub fn same_as(&self, other: &Identity) -> (same: bool)
        ensures
            same == (self@ == other@),
    {
        let mut i: usize = 0;
        while i < 32
            invariant
                i <= 32,
                forall|j: int| 0 <= j < i ==> self.key@[j] == other.key@[j],
            decreases 32 - i,
        {
            if self.key[i] != other.key[i] {
                return false;
            }
            i = i + 1;
        }
        assert(self.key@ =~= other.key@);
        true
    }
}

} // verus!
