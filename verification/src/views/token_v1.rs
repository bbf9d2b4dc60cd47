use crate::encoding::{
    copy_key_out, le_bytes, le_value, lemma_le_value_4, lemma_le_value_8, lemma_splice_read_back,
    lemma_u64_le_roundtrip, read_le, splice,
};
use crate::errors::KontError;
use crate::primitives::RawPubKey;
use vstd::prelude::*;

verus! {

// Layout of a legacy SPL token account (165 bytes):
//   [0, 32)    mint
//   [32, 64)   owner
//   [64, 72)   amount (u64, little endian)
//   [72, 76)   delegate option tag (u32, little endian; 0 = none)
//   [76, 108)  delegate
//   108        state (0 = uninitialized, 1 = initialized, 2 = frozen)
//   [109, 165) is_native, delegated_amount, close_authority
/// Size in bytes of a legacy SPL token account.
pub const TOKEN_ACCOUNT_LEN: usize = 165;

/// The mint recorded in the account bytes `s`.
pub open spec fn account_mint(s: Seq<u8>) -> Seq<u8> {
    s.subrange(0, 32)
}

/// The owner recorded in the account bytes `s`.
pub open spec fn account_owner(s: Seq<u8>) -> Seq<u8> {
    s.subrange(32, 64)
}

/// The token balance recorded in the account bytes `s`.
pub open spec fn account_amount(s: Seq<u8>) -> nat {
    le_value(s.subrange(64, 72))
}

/// The delegate recorded in the account bytes `s`: none when the option tag is zero.
pub open spec fn account_delegate(s: Seq<u8>) -> Option<Seq<u8>> {
    if le_value(s.subrange(72, 76)) == 0 {
        None
    } else {
        Some(s.subrange(76, 108))
    }
}

/// Whether the state byte of the account bytes `s` says "frozen".
pub open spec fn account_is_frozen(s: Seq<u8>) -> bool {
    s[108] == 2
}

/// A read-only view over the bytes of a legacy SPL token account.
pub struct TokenAccountView<'a> {
    data: &'a [u8],
}

impl<'a> View for TokenAccountView<'a> {
    type V = Seq<u8>;

    /// The viewed account bytes.
    closed spec fn view(&self) -> Seq<u8> {
        self.data@
    }
}

impl<'a> TokenAccountView<'a> {
    /// A view always covers at least a full legacy token account.
    #[verifier::type_invariant]
    closed spec fn inv(self) -> bool {
        self.data@.len() >= TOKEN_ACCOUNT_LEN
    }

    /// Wraps `data`, which must hold at least the 165 bytes of a token account.
    pub fn try_from_slice(data: &'a [u8]) -> (view: Result<Self, KontError>)
        ensures
            data@.len() >= TOKEN_ACCOUNT_LEN <==> view is Ok,
            view matches Ok(v) ==> v@ == data@,
            view matches Err(e) ==> e == KontError::InvalidBufferLength,
    {
        if data.len() < TOKEN_ACCOUNT_LEN {
            return Err(KontError::InvalidBufferLength);
        }
        Ok(Self { data })
    }

    /// The mint of the account, bytes `[0, 32)`.
    pub fn mint(&self) -> (key: RawPubKey)
        ensures
            key@ == account_mint(self@),
            forall|i: int| 0 <= i < 32 ==> key@[i] == self@[i],
    {
        proof {
            use_type_invariant(self);
        }
        RawPubKey(copy_key_out(self.data, 0))
    }

    /// The owner of the account, bytes `[32, 64)`.
    pub fn owner(&self) -> (key: RawPubKey)
        ensures
            key@ == account_owner(self@),
            forall|i: int| 0 <= i < 32 ==> key@[i] == self@[32 + i],
    {
        proof {
            use_type_invariant(self);
        }
        RawPubKey(copy_key_out(self.data, 32))
    }

    /// The token balance, the little-endian `u64` at bytes `[64, 72)`.
    pub fn amount(&self) -> (amount: u64)
        ensures
            amount == account_amount(self@),
            amount == self@[64] + 0x100 * self@[65] + 0x1_0000 * self@[66] + 0x100_0000 * self@[67]
                + 0x1_0000_0000 * self@[68] + 0x100_0000_0000 * self@[69] + 0x1_0000_0000_0000
                * self@[70] + 0x100_0000_0000_0000 * self@[71],
    {
        proof {
            use_type_invariant(self);
            lemma_account_fields_bytes(self@);
        }
        read_le(self.data, 64, 8)
    }

    /// The delegate, bytes `[76, 108)`, when the option tag at `[72, 76)` is non-zero.
    pub fn delegate(&self) -> (delegate: Option<RawPubKey>)
        ensures
            delegate is Some <==> account_delegate(self@) is Some,
            delegate matches Some(k) ==> account_delegate(self@) == Some(k@),
            delegate is None <==> (self@[72] == 0 && self@[73] == 0 && self@[74] == 0 && self@[75]
                == 0),
            delegate matches Some(k) ==> forall|i: int| 0 <= i < 32 ==> k@[i] == self@[76 + i],
    {
        proof {
            use_type_invariant(self);
            lemma_account_fields_bytes(self@);
        }
        let tag = read_le(self.data, 72, 4);
        if tag == 0 {
            return None;
        }
        Some(RawPubKey(copy_key_out(self.data, 76)))
    }

    /// Whether the account state byte (index 108) is 2, frozen.
    pub fn is_frozen(&self) -> (frozen: bool)
        ensures
            frozen == account_is_frozen(self@),
            frozen <==> self@[108] == 2,
    {
        proof {
            use_type_invariant(self);
        }
        self.data[108] == 2
    }
}

/// Each field of a token account is read from its own bytes, in full:
/// the mint is bytes `[0, 32)`, the owner bytes `[32, 64)`, the amount the
/// little-endian sum of bytes `[64, 72)`, the delegate is absent exactly when the
/// four tag bytes `[72, 76)` are zero and otherwise is bytes `[76, 108)`, and the
/// account is frozen exactly when its state byte 108 is 2 (so neither an
/// uninitialized, 0, nor an initialized, 1, account is frozen).
pub proof fn lemma_account_fields_bytes(s: Seq<u8>)
    requires
        s.len() >= TOKEN_ACCOUNT_LEN,
    ensures
        account_mint(s).len() == 32,
        forall|i: int| 0 <= i < 32 ==> #[trigger] account_mint(s)[i] == s[i],
        account_owner(s).len() == 32,
        forall|i: int| 0 <= i < 32 ==> #[trigger] account_owner(s)[i] == s[32 + i],
        account_amount(s) == s[64] + 0x100 * s[65] + 0x1_0000 * s[66] + 0x100_0000 * s[67]
            + 0x1_0000_0000 * s[68] + 0x100_0000_0000 * s[69] + 0x1_0000_0000_0000 * s[70]
            + 0x100_0000_0000_0000 * s[71],
        account_delegate(s) is None <==> (s[72] == 0 && s[73] == 0 && s[74] == 0 && s[75] == 0),
        account_delegate(s) matches Some(d) ==> d.len() == 32 && forall|i: int|
            0 <= i < 32 ==> #[trigger] d[i] == s[76 + i],
        account_is_frozen(s) <==> s[108] == 2,
        s[108] == 0 ==> !account_is_frozen(s),
        s[108] == 1 ==> !account_is_frozen(s),
{
    lemma_le_value_8(s.subrange(64, 72));
    lemma_le_value_4(s.subrange(72, 76));
}

/// The amount reads nothing but bytes `[64, 72)`: two accounts that agree there
/// have the same amount, whatever their other bytes (delegated amount,
/// delegate, state, ...) hold.
pub proof fn lemma_amount_reads_only_its_field(s1: Seq<u8>, s2: Seq<u8>)
    requires
        s1.len() >= TOKEN_ACCOUNT_LEN,
        s2.len() >= TOKEN_ACCOUNT_LEN,
        forall|i: int| 64 <= i < 72 ==> s1[i] == s2[i],
    ensures
        account_amount(s1) == account_amount(s2),
{
    assert(s1.subrange(64, 72) =~= s2.subrange(64, 72));
}

/// An amount written little-endian into bytes `[64, 72)` of an account is read
/// back as that amount, and the other fields stay as they were.
pub proof fn lemma_amount_reads_written(s: Seq<u8>, v: u64)
    requires
        s.len() >= TOKEN_ACCOUNT_LEN,
    ensures
        account_amount(splice(s, 64, le_bytes(v as nat, 8))) == v,
        account_mint(splice(s, 64, le_bytes(v as nat, 8))) == account_mint(s),
        account_owner(splice(s, 64, le_bytes(v as nat, 8))) == account_owner(s),
        account_delegate(splice(s, 64, le_bytes(v as nat, 8))) == account_delegate(s),
        account_is_frozen(splice(s, 64, le_bytes(v as nat, 8))) == account_is_frozen(s),
{
    let b = le_bytes(v as nat, 8);
    let t = splice(s, 64, b);
    lemma_u64_le_roundtrip(v);
    lemma_splice_read_back(s, 64, b);
    assert(t.subrange(64, 72) =~= b);
    assert(account_mint(t) =~= account_mint(s));
    assert(account_owner(t) =~= account_owner(s));
    assert(t.subrange(72, 76) =~= s.subrange(72, 76));
    assert(t.subrange(76, 108) =~= s.subrange(76, 108));
    assert(t[108] == s[108]);
}

} // verus!
