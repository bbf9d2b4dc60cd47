//! Zero-copy views over SPL token account bytes and fixed-layout builders of
//! SPL token instructions.
pub mod constant;
pub mod encoding;
pub mod errors;
pub mod primitives;
pub mod templates;
pub mod views;

use crate::primitives::RawPubKey;
use vstd::prelude::*;
use vstd::slice::slice_subrange;

verus! {

/// Maximum number of accounts any single instruction template needs
/// (currently `TransferCheckedTemplate`, at 4 accounts).
pub const MAX_INSTRUCTION_ACCOUNTS: usize = 4;

/// Capacity in bytes of an instruction's data buffer.
pub const MAX_INSTRUCTION_DATA: usize = 105;

/// An account reference of an instruction: the key and its access flags.
#[derive(Clone, Copy, Debug, PartialEq, Eq)]
pub struct RawAccountMeta {
    pub pubkey: RawPubKey,
    pub is_signer: bool,
    pub is_writable: bool,
}

/// `m` names the key `key` with the given signer and writable flags.
pub open spec fn meta_is(m: RawAccountMeta, key: Seq<u8>, signer: bool, writable: bool) -> bool {
    m.pubkey@ == key && m.is_signer == signer && m.is_writable == writable
}

/// The all-zero placeholder meta that pads unused account slots.
pub open spec fn placeholder_meta(m: RawAccountMeta) -> bool {
    meta_is(m, Seq::new(32, |i: int| 0u8), false, false)
}

impl Default for RawAccountMeta {
    /// An inert, all-zero placeholder used to pad unused slots in a
    /// fixed-size `[RawAccountMeta; N]` array. Never a valid account meta
    /// on its own: callers only read the first `account_count` slots.
    fn default() -> (m: Self)
        ensures
            placeholder_meta(m),
    {
        let m = Self { pubkey: RawPubKey([0u8; 32]), is_signer: false, is_writable: false };
        assert(m.pubkey@ =~= Seq::new(32, |i: int| 0u8));
        m
    }
}

impl RawAccountMeta {
    /// The 32 bytes of the meta's public key.
    pub fn as_bytes(self) -> (bytes: [u8; 32])
        ensures
            bytes == self.pubkey.0,
    {
        self.pubkey.0
    }

    /// Same as `as_bytes`.
    pub fn to_bytes(self) -> (bytes: [u8; 32])
        ensures
            bytes == self.pubkey.0,
    {
        self.as_bytes()
    }
}

/// A transport-agnostic instruction: the program to call, up to
/// `MAX_INSTRUCTION_ACCOUNTS` account metas (the first `account_count` are in
/// use) and up to 105 bytes of instruction data (the first `data_len` are in use).
pub struct KontInstruction {
    pub program_id: RawPubKey,
    pub accounts: [RawAccountMeta; MAX_INSTRUCTION_ACCOUNTS],
    pub account_count: usize,
    pub data: [u8; 105],
    pub data_len: usize,
}

impl KontInstruction {
    /// The key of the program the instruction calls.
    pub fn program_id(&self) -> (id: &RawPubKey)
        ensures
            *id == self.program_id,
    {
        &self.program_id
    }

    /// The number of account metas in use.
    pub fn account_count(&self) -> (count: usize)
        ensures
            count == self.account_count,
    {
        self.account_count
    }

    /// The account metas in use (the padding slots beyond `account_count` are left out).
    pub fn accounts(&self) -> (accounts: &[RawAccountMeta])
        requires
            self.account_count <= MAX_INSTRUCTION_ACCOUNTS,
        ensures
            accounts@ == self.accounts@.take(self.account_count as int),
    {
        slice_subrange(self.accounts.as_slice(), 0, self.account_count)
    }

    /// The instruction data bytes in use.
    pub fn as_bytes(&self) -> (bytes: &[u8])
        requires
            self.data_len <= MAX_INSTRUCTION_DATA,
        ensures
            bytes@ == self.data@.take(self.data_len as int),
    {
        slice_subrange(self.data.as_slice(), 0, self.data_len)
    }
}

} // verus!
