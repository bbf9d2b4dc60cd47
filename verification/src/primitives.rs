use crate::errors::KontError;
use vstd::prelude::*;

verus! {

/// A wrapper around a 32-byte array representing a public key.
#[derive(Clone, Copy, Debug, PartialEq, Eq)]
pub struct RawPubKey(pub [u8; 32]);

impl View for RawPubKey {
    type V = Seq<u8>;

    /// A key is seen as the sequence of its 32 bytes.
    open spec fn view(&self) -> Seq<u8> {
        self.0@
    }
}

impl RawPubKey {
    /// Creates a new `RawPubKey` by copying a 32-byte array.
    pub fn new(bytes: &[u8; 32]) -> (key: Self)
        ensures
            key.0 == *bytes,
            key@ == bytes@,
    {
        Self(*bytes)
    }

    /// Returns a reference to the underlying 32-byte array.
    pub fn as_bytes(&self) -> (bytes: &[u8; 32])
        ensures
            *bytes == self.0,
    {
        &self.0
    }

    /// Checks two keys for equality, byte by byte.
    pub fn eq(&self, other: &RawPubKey) -> (same: bool)
        ensures
            same <==> self@ == other@,
    {
        let mut i: usize = 0;
        while i < 32
            invariant
                0 <= i <= 32,
                self@.len() == 32,
                other@.len() == 32,
                forall|k: int| 0 <= k < i ==> self@[k] == other@[k],
            decreases 32 - i,
        {
            if self.0[i] != other.0[i] {
                assert(self@[i as int] != other@[i as int]);
                return false;
            }
            i = i + 1;
        }
        assert(self@ =~= other@);
        true
    }
}

/// A borrowed view of an account: its key, its owner and its data payload.
#[derive(Clone, Copy, Debug, PartialEq, Eq)]
pub struct RawAccount<'a> {
    /// The public key identifier of this account.
    pub key: &'a RawPubKey,
    /// The public key of the program that owns this account.
    pub owner: &'a RawPubKey,
    /// The raw byte slice holding the account's state data.
    pub data: &'a [u8],
}

impl<'a> RawAccount<'a> {
    /// Constructs a new `RawAccount` from borrowed parts.
    pub fn new(key: &'a RawPubKey, owner: &'a RawPubKey, data: &'a [u8]) -> (account: Self)
        ensures
            *account.key == *key,
            *account.owner == *owner,
            account.data@ == data@,
    {
        Self { key, owner, data }
    }

    /// Returns the account's public key.
    pub fn key(&self) -> (key: &RawPubKey)
        ensures
            *key == *self.key,
    {
        self.key
    }

    /// Returns the public key of the account's owner.
    pub fn owner(&self) -> (owner: &RawPubKey)
        ensures
            *owner == *self.owner,
    {
        self.owner
    }

    /// Borrows the account's data slice; this always succeeds.
    pub fn borrow_data(&self) -> (data: Result<&'a [u8], KontError>)
        ensures
            data matches Ok(d) && d@ == self.data@,
    {
        Ok(self.data)
    }
}

} // verus!
