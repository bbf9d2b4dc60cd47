use crate::constant::TOKEN_PROGRAM_ID;
use crate::encoding::{
    copy_into, copy_key_out, le_bytes, le_value, lemma_splice_read_back, lemma_u64_le_roundtrip,
    splice, write_le_u64,
};
use crate::primitives::RawPubKey;
use crate::{meta_is, placeholder_meta, KontInstruction, RawAccountMeta};
use vstd::prelude::*;

verus! {

// Both templates below fill one 105-byte buffer, which is also the instruction data:
//   0          instruction discriminant
//   [1, 33)    first account key
//   [33, 65)   second account key
//   [65, 97)   authority key
//   [97, 105)  amount (u64, little endian)
/// The bytes of a freshly stamped 105-byte template with discriminant `tag`.
pub open spec fn stamped_buffer(tag: u8) -> Seq<u8> {
    Seq::new(105, |i: int| if i == 0 { tag } else { 0u8 })
}

/// The bytes of a 105-byte template stamped with `tag` whose three key fields
/// were set to `k1`, `k2`, `k3` and whose amount was set to `amount`.
pub open spec fn filled_buffer(tag: u8, k1: Seq<u8>, k2: Seq<u8>, k3: Seq<u8>, amount: u64) -> Seq<u8> {
    splice(
        splice(splice(splice(stamped_buffer(tag), 1, k1), 33, k2), 65, k3),
        97,
        le_bytes(amount as nat, 8),
    )
}

/// A filled `MintTo` or `Burn` template holds its discriminant at byte 0, each
/// key in its field, and an amount field that decodes to the amount set: what
/// the setters write is what the instruction data and metas carry.
pub proof fn lemma_filled_buffer_fields(
    tag: u8,
    k1: RawPubKey,
    k2: RawPubKey,
    k3: RawPubKey,
    amount: u64,
)
    ensures
        ({
            let b = filled_buffer(tag, k1@, k2@, k3@, amount);
            &&& b.len() == 105
            &&& b[0] == tag
            &&& b.subrange(1, 33) == k1@
            &&& b.subrange(33, 65) == k2@
            &&& b.subrange(65, 97) == k3@
            &&& le_value(b.subrange(97, 105)) == amount
        }),
{
    let b0 = stamped_buffer(tag);
    let b1 = splice(b0, 1, k1@);
    lemma_splice_read_back(b0, 1, k1@);
    let b2 = splice(b1, 33, k2@);
    lemma_splice_read_back(b1, 33, k2@);
    let b3 = splice(b2, 65, k3@);
    lemma_splice_read_back(b2, 65, k3@);
    lemma_u64_le_roundtrip(amount);
    let b4 = splice(b3, 97, le_bytes(amount as nat, 8));
    lemma_splice_read_back(b3, 97, le_bytes(amount as nat, 8));
    assert(b4.subrange(1, 33) =~= b1.subrange(1, 33));
    assert(b4.subrange(33, 65) =~= b2.subrange(33, 65));
    assert(b4.subrange(65, 97) =~= b3.subrange(65, 97));
    assert(b4[0] == b0[0]);
}

/// Builds a `MintTo` instruction: mint, destination, mint authority and amount.
pub struct MintToTemplate {
    buffer: [u8; 105],
}

impl View for MintToTemplate {
    type V = Seq<u8>;

    /// The template's 105 bytes, which are the instruction data.
    closed spec fn view(&self) -> Seq<u8> {
        self.buffer@
    }
}

impl MintToTemplate {
    /// Every template holds exactly 105 bytes.
    pub proof fn lemma_len(&self)
        ensures
            self@.len() == 105,
    {
    }

    /// A template stamped with the `MintTo` discriminant 7, all other bytes zero.
    pub fn new() -> (t: Self)
        ensures
            t@ == stamped_buffer(7),
    {
        let mut buffer = [0u8; 105];
        buffer[0] = 7;
        let t = Self { buffer };
        assert(t@ =~= stamped_buffer(7));
        t
    }

    /// Writes the mint key into bytes `[1, 33)`.
    pub fn set_mint(&mut self, key: &RawPubKey)
        ensures
            final(self)@ == splice(old(self)@, 1, key@),
    {
        copy_into(&mut self.buffer, 1, key.0.as_slice());
    }

    /// Writes the destination key into bytes `[33, 65)`.
    pub fn set_destination(&mut self, key: &RawPubKey)
        ensures
            final(self)@ == splice(old(self)@, 33, key@),
    {
        copy_into(&mut self.buffer, 33, key.0.as_slice());
    }

    /// Writes the mint authority key into bytes `[65, 97)`.
    pub fn set_mint_authority(&mut self, key: &RawPubKey)
        ensures
            final(self)@ == splice(old(self)@, 65, key@),
    {
        copy_into(&mut self.buffer, 65, key.0.as_slice());
    }

    /// Writes the amount, little endian, into bytes `[97, 105)`.
    pub fn set_amount(&mut self, amount: u64)
        ensures
            final(self)@ == splice(old(self)@, 97, le_bytes(amount as nat, 8)),
    {
        write_le_u64(&mut self.buffer, 97, amount);
    }

    /// The instruction: the token program, the writable mint and destination,
    /// the signing mint authority, and the whole 105-byte buffer as data.
    pub fn to_kont_instruction(self) -> (ix: KontInstruction)
        ensures
            ix.program_id.0 == TOKEN_PROGRAM_ID,
            ix.account_count == 3,
            meta_is(ix.accounts@[0], self@.subrange(1, 33), false, true),
            meta_is(ix.accounts@[1], self@.subrange(33, 65), false, true),
            meta_is(ix.accounts@[2], self@.subrange(65, 97), true, false),
            placeholder_meta(ix.accounts@[3]),
            ix.data@ == self@,
            ix.data_len == 105,
    {
        let mint_data = copy_key_out(self.buffer.as_slice(), 1);
        let destination_data = copy_key_out(self.buffer.as_slice(), 33);
        let mint_authority_data = copy_key_out(self.buffer.as_slice(), 65);

        let mint_meta = RawAccountMeta {
            pubkey: RawPubKey::new(&mint_data),
            is_signer: false,
            is_writable: true,
        };
        let destination_meta = RawAccountMeta {
            pubkey: RawPubKey::new(&destination_data),
            is_signer: false,
            is_writable: true,
        };
        // The authority signs; it is not written.
        let mint_authority_meta = RawAccountMeta {
            pubkey: RawPubKey::new(&mint_authority_data),
            is_signer: true,
            is_writable: false,
        };

        let accounts = [mint_meta, destination_meta, mint_authority_meta, RawAccountMeta::default()];
        KontInstruction {
            program_id: RawPubKey(TOKEN_PROGRAM_ID),
            accounts,
            account_count: 3,
            data: self.buffer,
            data_len: 105,
        }
    }
}

/// Builds a `Burn` instruction: source, mint, authority and amount.
pub struct BurnTemplate {
    buffer: [u8; 105],
}

impl View for BurnTemplate {
    type V = Seq<u8>;

    /// The template's 105 bytes, which are the instruction data.
    closed spec fn view(&self) -> Seq<u8> {
        self.buffer@
    }
}

impl BurnTemplate {
    /// Every template holds exactly 105 bytes.
    pub proof fn lemma_len(&self)
        ensures
            self@.len() == 105,
    {
    }

    /// A template stamped with the `Burn` discriminant 8, all other bytes zero.
    pub fn new() -> (t: Self)
        ensures
            t@ == stamped_buffer(8),
    {
        let mut buffer = [0u8; 105];
        buffer[0] = 8;
        let t = Self { buffer };
        assert(t@ =~= stamped_buffer(8));
        t
    }

    /// Writes the source key into bytes `[1, 33)`.
    pub fn set_source(&mut self, key: &RawPubKey)
        ensures
            final(self)@ == splice(old(self)@, 1, key@),
    {
        copy_into(&mut self.buffer, 1, key.0.as_slice());
    }

    /// Writes the mint key into bytes `[33, 65)`.
    pub fn set_mint(&mut self, key: &RawPubKey)
        ensures
            final(self)@ == splice(old(self)@, 33, key@),
    {
        copy_into(&mut self.buffer, 33, key.0.as_slice());
    }

    /// Writes the authority key into bytes `[65, 97)`.
    pub fn set_authority(&mut self, key: &RawPubKey)
        ensures
            final(self)@ == splice(old(self)@, 65, key@),
    {
        copy_into(&mut self.buffer, 65, key.0.as_slice());
    }

    /// Writes the amount, little endian, into bytes `[97, 105)`.
    pub fn set_amount(&mut self, amount: u64)
        ensures
            final(self)@ == splice(old(self)@, 97, le_bytes(amount as nat, 8)),
    {
        write_le_u64(&mut self.buffer, 97, amount);
    }

    /// The instruction: the token program, the writable source and mint,
    /// the signing authority, and the whole 105-byte buffer as data.
    pub fn to_kont_instruction(self) -> (ix: KontInstruction)
        ensures
            ix.program_id.0 == TOKEN_PROGRAM_ID,
            ix.account_count == 3,
            meta_is(ix.accounts@[0], self@.subrange(1, 33), false, true),
            meta_is(ix.accounts@[1], self@.subrange(33, 65), false, true),
            meta_is(ix.accounts@[2], self@.subrange(65, 97), true, false),
            placeholder_meta(ix.accounts@[3]),
            ix.data@ == self@,
            ix.data_len == 105,
    {
        let source_data = copy_key_out(self.buffer.as_slice(), 1);
        let mint_data = copy_key_out(self.buffer.as_slice(), 33);
        let authority_data = copy_key_out(self.buffer.as_slice(), 65);

        let source_meta = RawAccountMeta {
            pubkey: RawPubKey::new(&source_data),
            is_signer: false,
            is_writable: true,
        };
        let mint_meta = RawAccountMeta {
            pubkey: RawPubKey::new(&mint_data),
            is_signer: false,
            is_writable: true,
        };
        let authority_meta = RawAccountMeta {
            pubkey: RawPubKey::new(&authority_data),
            is_signer: true,
            is_writable: false,
        };

        let accounts = [source_meta, mint_meta, authority_meta, RawAccountMeta::default()];
        KontInstruction {
            program_id: RawPubKey(TOKEN_PROGRAM_ID),
            accounts,
            account_count: 3,
            data: self.buffer,
            data_len: 105,
        }
    }
}

} // verus!
