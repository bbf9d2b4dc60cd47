use crate::constant::TOKEN_PROGRAM_ID;
use crate::encoding::{
    copy_into, copy_key_out, le_bytes, le_value, lemma_splice_read_back, lemma_u64_le_roundtrip,
    splice, write_le_u64,
};
use crate::primitives::RawPubKey;
use crate::{meta_is, placeholder_meta, KontInstruction, RawAccountMeta, MAX_INSTRUCTION_DATA};
use vstd::prelude::*;

verus! {

/// The 32 zero bytes of an unset key.
pub open spec fn zero_key() -> Seq<u8> {
    Seq::new(32, |i: int| 0u8)
}

/// `m` with its key replaced by `key` and its flags kept.
pub open spec fn with_key(m: RawAccountMeta, key: RawPubKey) -> RawAccountMeta {
    RawAccountMeta { pubkey: key, is_signer: m.is_signer, is_writable: m.is_writable }
}

/// Builds a `Transfer` instruction: source, destination, authority and amount.
/// Instruction data: discriminant 3, then the amount (u64, little endian).
pub struct TransferTemplate {
    accounts: [RawAccountMeta; 3],
    data: [u8; 9],
}

impl TransferTemplate {
    /// Every template holds exactly three metas and nine data bytes.
    pub proof fn lemma_len(&self)
        ensures
            self.metas().len() == 3,
            self.data_bytes().len() == 9,
    {
    }

    /// The three account metas: source, destination, authority.
    pub closed spec fn metas(&self) -> Seq<RawAccountMeta> {
        self.accounts@
    }

    /// The 9 instruction data bytes.
    pub closed spec fn data_bytes(&self) -> Seq<u8> {
        self.data@
    }

    /// A template with zero keys (writable source and destination, signing
    /// authority) and data stamped with the `Transfer` discriminant 3.
    pub fn new() -> (t: Self)
        ensures
            t.metas().len() == 3,
            meta_is(t.metas()[0], zero_key(), false, true),
            meta_is(t.metas()[1], zero_key(), false, true),
            meta_is(t.metas()[2], zero_key(), true, false),
            t.data_bytes() == Seq::new(9, |i: int| if i == 0 { 3u8 } else { 0u8 }),
    {
        let mut d = [0u8; 9];
        d[0] = 3;
        let t = Self {
            accounts: [
                RawAccountMeta { pubkey: RawPubKey([0; 32]), is_signer: false, is_writable: true },
                RawAccountMeta { pubkey: RawPubKey([0; 32]), is_signer: false, is_writable: true },
                RawAccountMeta { pubkey: RawPubKey([0; 32]), is_signer: true, is_writable: false },
            ],
            data: d,
        };
        assert(t.metas()[0].pubkey@ =~= zero_key());
        assert(t.metas()[1].pubkey@ =~= zero_key());
        assert(t.metas()[2].pubkey@ =~= zero_key());
        assert(t.data_bytes() =~= Seq::new(9, |i: int| if i == 0 { 3u8 } else { 0u8 }));
        t
    }

    /// Sets the key of the source account (slot 0).
    pub fn set_source(&mut self, key: &RawPubKey)
        ensures
            final(self).metas() == old(self).metas().update(0, with_key(old(self).metas()[0], *key)),
            final(self).data_bytes() == old(self).data_bytes(),
    {
        let mut m = self.accounts[0];
        m.pubkey = *key;
        self.accounts[0] = m;
    }

    /// Sets the key of the destination account (slot 1).
    pub fn set_destination(&mut self, key: &RawPubKey)
        ensures
            final(self).metas() == old(self).metas().update(1, with_key(old(self).metas()[1], *key)),
            final(self).data_bytes() == old(self).data_bytes(),
    {
        let mut m = self.accounts[1];
        m.pubkey = *key;
        self.accounts[1] = m;
    }

    /// Sets the key of the authority account (slot 2).
    pub fn set_authority(&mut self, key: &RawPubKey)
        ensures
            final(self).metas() == old(self).metas().update(2, with_key(old(self).metas()[2], *key)),
            final(self).data_bytes() == old(self).data_bytes(),
    {
        let mut m = self.accounts[2];
        m.pubkey = *key;
        self.accounts[2] = m;
    }

    /// Writes the amount, little endian, into the last 8 data bytes `[1, 9)`.
    pub fn set_amount(&mut self, amount: u64)
        ensures
            final(self).metas() == old(self).metas(),
            final(self).data_bytes() == splice(old(self).data_bytes(), 1, le_bytes(amount as nat, 8)),
    {
        write_le_u64(&mut self.data, 1, amount);
    }

    /// The instruction: the token program, the three metas, and the 9 data bytes.
    pub fn to_kont_instruction(self) -> (ix: KontInstruction)
        ensures
            ix.program_id.0 == TOKEN_PROGRAM_ID,
            ix.account_count == 3,
            ix.accounts@.take(3) == self.metas(),
            placeholder_meta(ix.accounts@[3]),
            ix.data_len == 9,
            ix.data@.take(9) == self.data_bytes(),
            forall|i: int| 9 <= i < MAX_INSTRUCTION_DATA ==> ix.data@[i] == 0,
    {
        let mut buffer = [0u8; 105];
        copy_into(&mut buffer, 0, self.data.as_slice());
        let accounts = [self.accounts[0], self.accounts[1], self.accounts[2], RawAccountMeta::default()];
        let ix = KontInstruction {
            program_id: RawPubKey(TOKEN_PROGRAM_ID),
            accounts,
            account_count: 3,
            data: buffer,
            data_len: 9,
        };
        assert(ix.accounts@.take(3) =~= self.metas());
        assert(ix.data@.take(9) =~= self.data_bytes());
        ix
    }

    /// Same as `to_kont_instruction`.
    pub fn finish(self) -> (ix: KontInstruction)
        ensures
            ix.program_id.0 == TOKEN_PROGRAM_ID,
            ix.account_count == 3,
            ix.accounts@.take(3) == self.metas(),
            placeholder_meta(ix.accounts@[3]),
            ix.data_len == 9,
            ix.data@.take(9) == self.data_bytes(),
            forall|i: int| 9 <= i < MAX_INSTRUCTION_DATA ==> ix.data@[i] == 0,
    {
        self.to_kont_instruction()
    }
}

/// The data of a `Transfer` template whose amount was set to `amount` is the
/// discriminant 3 followed by the 8 little-endian bytes of the amount, and
/// those bytes decode to the amount.
pub proof fn lemma_transfer_data(amount: u64)
    ensures
        ({
            let d = splice(
                Seq::new(9, |i: int| if i == 0 { 3u8 } else { 0u8 }),
                1,
                le_bytes(amount as nat, 8),
            );
            &&& d == seq![3u8] + le_bytes(amount as nat, 8)
            &&& le_value(d.subrange(1, 9)) == amount
        }),
{
    let d0 = Seq::new(9, |i: int| if i == 0 { 3u8 } else { 0u8 });
    lemma_u64_le_roundtrip(amount);
    lemma_splice_read_back(d0, 1, le_bytes(amount as nat, 8));
    let d = splice(d0, 1, le_bytes(amount as nat, 8));
    assert(d =~= seq![3u8] + le_bytes(amount as nat, 8));
}

// Layout of the `TransferChecked` template buffer (147 bytes):
//   0           instruction discriminant (12)
//   [1, 33)     source key
//   [33, 65)    mint key
//   [65, 97)    destination key
//   [97, 129)   authority key
//   [129, 137)  amount (u64, little endian)
//   137         decimals
/// Builds a `TransferChecked` instruction.
pub struct TransferCheckedTemplate {
    buffer: [u8; 147],
}

impl View for TransferCheckedTemplate {
    type V = Seq<u8>;

    /// The template's 147 bytes.
    closed spec fn view(&self) -> Seq<u8> {
        self.buffer@
    }
}

impl TransferCheckedTemplate {
    /// Every template holds exactly 147 bytes.
    pub proof fn lemma_len(&self)
        ensures
            self@.len() == 147,
    {
    }

    /// A template stamped with the `TransferChecked` discriminant 12, all other bytes zero.
    pub fn new() -> (t: Self)
        ensures
            t@ == Seq::new(147, |i: int| if i == 0 { 12u8 } else { 0u8 }),
    {
        let mut buffer = [0u8; 147];
        buffer[0] = 12;
        let t = Self { buffer };
        assert(t@ =~= Seq::new(147, |i: int| if i == 0 { 12u8 } else { 0u8 }));
        t
    }

    /// Writes the source key into bytes `[1, 33)`.
    pub fn set_source(&mut self, key: &RawPubKey)
        ensures
            final(self)@ == splice(old(self)@, 1, key@),
    {
        copy_into(&mut self.buffer, 1, key.0.as_slice());
    }

    /// Writes the mint key into bytes `[33, 65)`.
    pub fn set_mint(&mut self, key: &RawPubKey)
        ensures
            final(self)@ == splice(old(self)@, 33, key@),
    {
        copy_into(&mut self.buffer, 33, key.0.as_slice());
    }

    /// Writes the destination key into bytes `[65, 97)`.
    pub fn set_destination(&mut self, key: &RawPubKey)
        ensures
            final(self)@ == splice(old(self)@, 65, key@),
    {
        copy_into(&mut self.buffer, 65, key.0.as_slice());
    }

    /// Writes the authority key into bytes `[97, 129)`.
    pub fn set_authority(&mut self, key: &RawPubKey)
        ensures
            final(self)@ == splice(old(self)@, 97, key@),
    {
        copy_into(&mut self.buffer, 97, key.0.as_slice());
    }

    /// Writes the amount, little endian, into bytes `[129, 137)`.
    pub fn set_amount(&mut self, amount: u64)
        ensures
            final(self)@ == splice(old(self)@, 129, le_bytes(amount as nat, 8)),
    {
        write_le_u64(&mut self.buffer, 129, amount);
    }

    /// Writes the mint's decimals into byte 137, right after the amount.
    pub fn set_decimals(&mut self, decimals: u8)
        ensures
            final(self)@ == old(self)@.update(137, decimals),
    {
        self.buffer[137] = decimals;
    }

    /// The instruction: the token program; the writable source, the read-only
    /// mint, the writable destination and the signing authority; and 10 data
    /// bytes: the discriminant, the amount and the decimals.
    pub fn to_kont_instruction(self) -> (ix: KontInstruction)
        ensures
            ix.program_id.0 == TOKEN_PROGRAM_ID,
            ix.account_count == 4,
            meta_is(ix.accounts@[0], self@.subrange(1, 33), false, true),
            meta_is(ix.accounts@[1], self@.subrange(33, 65), false, false),
            meta_is(ix.accounts@[2], self@.subrange(65, 97), false, true),
            meta_is(ix.accounts@[3], self@.subrange(97, 129), true, false),
            ix.data_len == 10,
            ix.data@.take(10) == self@.take(1) + self@.subrange(129, 138),
            forall|i: int| 10 <= i < MAX_INSTRUCTION_DATA ==> ix.data@[i] == 0,
    {
        let source_data = copy_key_out(self.buffer.as_slice(), 1);
        let mint_data = copy_key_out(self.buffer.as_slice(), 33);
        let destination_data = copy_key_out(self.buffer.as_slice(), 65);
        let authority_data = copy_key_out(self.buffer.as_slice(), 97);

        let source_meta = RawAccountMeta {
            pubkey: RawPubKey::new(&source_data),
            is_signer: false,
            is_writable: true,
        };
        let mint_meta = RawAccountMeta {
            pubkey: RawPubKey::new(&mint_data),
            is_signer: false,
            is_writable: false,
        };
        let destination_meta = RawAccountMeta {
            pubkey: RawPubKey::new(&destination_data),
            is_signer: false,
            is_writable: true,
        };
        let authority_meta = RawAccountMeta {
            pubkey: RawPubKey::new(&authority_data),
            is_signer: true,
            is_writable: false,
        };

        let mut data = [0u8; 105];
        data[0] = self.buffer[0];
        let mut i: usize = 0;
        while i < 9
            invariant
                0 <= i <= 9,
                data@.len() == 105,
                data@[0] == self@[0],
                forall|k: int| 1 <= k < 1 + i ==> data@[k] == self@[128 + k],
                forall|k: int| 10 <= k < 105 ==> data@[k] == 0,
            decreases 9 - i,
        {
            data[1 + i] = self.buffer[129 + i];
            i = i + 1;
        }
        let ix = KontInstruction {
            program_id: RawPubKey(TOKEN_PROGRAM_ID),
            accounts: [source_meta, mint_meta, destination_meta, authority_meta],
            account_count: 4,
            data,
            data_len: 10,
        };
        assert(ix.data@.take(10) =~= self@.take(1) + self@.subrange(129, 138));
        ix
    }
}

/// The bytes of a `TransferChecked` template whose source, mint, destination
/// and authority were set to `k1`..`k4`, and whose amount and decimals were set.
pub open spec fn filled_checked_buffer(
    k1: Seq<u8>,
    k2: Seq<u8>,
    k3: Seq<u8>,
    k4: Seq<u8>,
    amount: u64,
    decimals: u8,
) -> Seq<u8> {
    splice(
        splice(
            splice(
                splice(splice(Seq::new(147, |i: int| if i == 0 { 12u8 } else { 0u8 }), 1, k1), 33, k2),
                65,
                k3,
            ),
            97,
            k4,
        ),
        129,
        le_bytes(amount as nat, 8),
    ).update(137, decimals)
}

/// A filled `TransferChecked` template holds each key in its field, and the
/// instruction data taken from it (byte 0 and bytes `[129, 138)`) is the
/// discriminant 12, the 8 little-endian bytes of the amount, and the decimals.
pub proof fn lemma_filled_checked_buffer_fields(
    k1: RawPubKey,
    k2: RawPubKey,
    k3: RawPubKey,
    k4: RawPubKey,
    amount: u64,
    decimals: u8,
)
    ensures
        ({
            let b = filled_checked_buffer(k1@, k2@, k3@, k4@, amount, decimals);
            &&& b.len() == 147
            &&& b.subrange(1, 33) == k1@
            &&& b.subrange(33, 65) == k2@
            &&& b.subrange(65, 97) == k3@
            &&& b.subrange(97, 129) == k4@
            &&& b.take(1) + b.subrange(129, 138) == seq![12u8] + le_bytes(amount as nat, 8) + seq![decimals]
            &&& le_value(b.subrange(129, 137)) == amount
        }),
{
    let b0 = Seq::new(147, |i: int| if i == 0 { 12u8 } else { 0u8 });
    let b1 = splice(b0, 1, k1@);
    lemma_splice_read_back(b0, 1, k1@);
    let b2 = splice(b1, 33, k2@);
    lemma_splice_read_back(b1, 33, k2@);
    let b3 = splice(b2, 65, k3@);
    lemma_splice_read_back(b2, 65, k3@);
    let b4 = splice(b3, 97, k4@);
    lemma_splice_read_back(b3, 97, k4@);
    lemma_u64_le_roundtrip(amount);
    let b5 = splice(b4, 129, le_bytes(amount as nat, 8));
    lemma_splice_read_back(b4, 129, le_bytes(amount as nat, 8));
    let b = b5.update(137, decimals);
    assert(b.subrange(1, 33) =~= b1.subrange(1, 33));
    assert(b.subrange(33, 65) =~= b2.subrange(33, 65));
    assert(b.subrange(65, 97) =~= b3.subrange(65, 97));
    assert(b.subrange(97, 129) =~= b4.subrange(97, 129));
    assert(b.subrange(129, 137) =~= b5.subrange(129, 137));
    assert(b[0] == b0[0]);
    assert(b.take(1) + b.subrange(129, 138) =~= seq![12u8] + le_bytes(amount as nat, 8) + seq![decimals]);
}

} // verus!
