use crate::encoding::{le_value, lemma_le_value_2, read_le};
use crate::errors::KontError;
use crate::views::token_v1::{
    account_amount, account_delegate, account_is_frozen, account_mint, account_owner,
    TokenAccountView, TOKEN_ACCOUNT_LEN,
};
use vstd::prelude::*;
use vstd::slice::slice_subrange;

verus! {

// A Token-2022 account is a legacy token account (165 bytes), followed by an
// account-type byte (index 165) and a sequence of TLV extension entries from
// index 166 on: a 2-byte type, a 2-byte length `l` (both little endian),
// and `l` bytes of value.
/// Index of the first TLV extension entry in a Token-2022 account.
pub const TLV_START: usize = 166;

/// Scans the TLV entries of `s` from `offset` on for the first entry of type `ty`.
/// An entry whose declared value runs past the end of `s` is an error; fewer than
/// four bytes left end the scan without a match.
pub open spec fn tlv_scan(s: Seq<u8>, offset: int, ty: u16) -> Result<Option<Seq<u8>>, KontError>
    decreases s.len() - offset,
{
    if offset < 0 || offset + 4 > s.len() {
        Ok(None)
    } else {
        let t = le_value(s.subrange(offset, offset + 2));
        let l = le_value(s.subrange(offset + 2, offset + 4));
        let start = offset + 4;
        if start + l > s.len() {
            Err(KontError::TlvParsingOverflow)
        } else if t == ty {
            Ok(Some(s.subrange(start, start + l)))
        } else {
            tlv_scan(s, start + l, ty)
        }
    }
}

/// The value of the extension of type `ty` in the account bytes `s`.
/// An account of at most 165 bytes has no extensions.
pub open spec fn account_extension(s: Seq<u8>, ty: u16) -> Result<Option<Seq<u8>>, KontError> {
    if s.len() <= TOKEN_ACCOUNT_LEN {
        Ok(None)
    } else {
        tlv_scan(s, TLV_START as int, ty)
    }
}

/// The byte contents of an extension lookup result.
pub open spec fn extension_bytes(r: Result<Option<&[u8]>, KontError>) -> Result<Option<Seq<u8>>, KontError> {
    match r {
        Ok(Some(b)) => Ok(Some(b@)),
        Ok(None) => Ok(None),
        Err(e) => Err(e),
    }
}

/// A read-only view over the bytes of a Token-2022 account.
pub struct Token2022AccountView<'a> {
    data: &'a [u8],
}

impl<'a> View for Token2022AccountView<'a> {
    type V = Seq<u8>;

    /// The viewed account bytes.
    closed spec fn view(&self) -> Seq<u8> {
        self.data@
    }
}

impl<'a> Token2022AccountView<'a> {
    /// A view always covers at least the base legacy token account.
    #[verifier::type_invariant]
    closed spec fn inv(self) -> bool {
        self.data@.len() >= TOKEN_ACCOUNT_LEN
    }

    /// Wraps `data`, which must hold at least the 165 bytes of the base account.
    pub fn try_from_slice(data: &'a [u8]) -> (view: Result<Self, KontError>)
        ensures
            data@.len() >= TOKEN_ACCOUNT_LEN <==> view is Ok,
            view matches Ok(v) ==> v@ == data@,
            view matches Err(e) ==> e == KontError::InvalidBufferLength,
    {
        if data.len() < TOKEN_ACCOUNT_LEN {
            return Err(KontError::InvalidBufferLength);
        }
        Ok(Self { data })
    }

    /// The legacy view of the first 165 bytes; this always succeeds.
    pub fn base(&self) -> (base: Result<TokenAccountView<'a>, KontError>)
        ensures
            base matches Ok(v) && v@ == self@.subrange(0, TOKEN_ACCOUNT_LEN as int),
    {
        proof {
            use_type_invariant(self);
        }
        TokenAccountView::try_from_slice(slice_subrange(self.data, 0, TOKEN_ACCOUNT_LEN))
    }

    /// Finds the value of the first TLV extension entry of type `extension_type`.
    pub fn get_extension(&self, extension_type: u16) -> (ext: Result<Option<&'a [u8]>, KontError>)
        ensures
            extension_bytes(ext) == account_extension(self@, extension_type),
    {
        proof {
            use_type_invariant(self);
        }
        let n: usize = self.data.len();
        if n <= TOKEN_ACCOUNT_LEN {
            return Ok(None);
        }
        let mut offset: usize = TLV_START;
        while n >= 4 && offset <= n - 4
            invariant
                TLV_START <= offset <= n,
                n == self.data@.len(),
                tlv_scan(self.data@, offset as int, extension_type) == tlv_scan(
                    self.data@,
                    TLV_START as int,
                    extension_type,
                ),
            decreases n - offset,
        {
            let t = read_le(self.data, offset, 2);
            let l = read_le(self.data, offset + 2, 2);
            proof {
                crate::encoding::lemma_le_value_bound(self.data@.subrange(offset + 2, offset + 4));
                reveal_with_fuel(crate::encoding::pow256, 3);
            }
            let l = l as usize;
            offset = offset + 4;
            if l > n - offset {
                return Err(KontError::TlvParsingOverflow);
            }
            if t == extension_type as u64 {
                return Ok(Some(slice_subrange(self.data, offset, offset + l)));
            }
            offset = offset + l;
        }
        Ok(None)
    }
}

/// `s` holds, at `o`, a complete TLV entry of type `ty` whose value is `v`.
pub open spec fn tlv_entry_at(s: Seq<u8>, o: int, ty: u16, v: Seq<u8>) -> bool {
    &&& 0 <= o
    &&& o + 4 + v.len() <= s.len()
    &&& le_value(s.subrange(o, o + 2)) == ty
    &&& le_value(s.subrange(o + 2, o + 4)) == v.len()
    &&& v == s.subrange(o + 4, o + 4 + v.len())
}

/// A found extension value is the payload of a TLV entry of the requested type:
/// it lies inside the account after the base part, the entry's type field is the
/// requested type, and its length field is the payload's length.
pub proof fn lemma_extension_is_entry_payload(s: Seq<u8>, ty: u16, v: Seq<u8>)
    requires
        account_extension(s, ty) == Ok::<Option<Seq<u8>>, KontError>(Some(v)),
    ensures
        exists|o: int| TLV_START <= o && #[trigger] tlv_entry_at(s, o, ty, v),
{
    lemma_scan_is_entry_payload(s, TLV_START as int, ty, v);
}

proof fn lemma_scan_is_entry_payload(s: Seq<u8>, offset: int, ty: u16, v: Seq<u8>)
    requires
        tlv_scan(s, offset, ty) == Ok::<Option<Seq<u8>>, KontError>(Some(v)),
    ensures
        exists|o: int| offset <= o && #[trigger] tlv_entry_at(s, o, ty, v),
    decreases s.len() - offset,
{
    if offset >= 0 && offset + 4 <= s.len() {
        let t = le_value(s.subrange(offset, offset + 2));
        let l = le_value(s.subrange(offset + 2, offset + 4));
        let start = offset + 4;
        if start + l <= s.len() {
            if t == ty {
                assert(tlv_entry_at(s, offset, ty, v));
            } else {
                lemma_scan_is_entry_payload(s, start + l, ty, v);
            }
        }
    }
}

/// One step of the extension scan, in terms of the raw bytes. At offset `o`,
/// with `t = s[o] + 256 s[o+1]` the entry type and `l = s[o+2] + 256 s[o+3]` the
/// full declared length:
/// - fewer than four bytes left: nothing is found;
/// - a value running past the end: `TlvParsingOverflow`;
/// - a matching type: the `l` value bytes right after the header;
/// - another type: the scan goes on at `o + 4 + l`, right after the entry's
///   whole value (however long it is).
pub proof fn lemma_tlv_scan_step(s: Seq<u8>, o: int, ty: u16)
    requires
        0 <= o,
    ensures
        o + 4 > s.len() ==> tlv_scan(s, o, ty) == Ok::<Option<Seq<u8>>, KontError>(None),
        ({
            let t = s[o] + 256 * s[o + 1];
            let l = s[o + 2] + 256 * s[o + 3];
            &&& (o + 4 <= s.len() && o + 4 + l > s.len()) ==> tlv_scan(s, o, ty) == Err::<
                Option<Seq<u8>>,
                KontError,
            >(KontError::TlvParsingOverflow)
            &&& (o + 4 + l <= s.len() && t == ty) ==> tlv_scan(s, o, ty) == Ok::<
                Option<Seq<u8>>,
                KontError,
            >(Some(s.subrange(o + 4, o + 4 + l)))
            &&& (o + 4 + l <= s.len() && t != ty) ==> tlv_scan(s, o, ty) == tlv_scan(
                s,
                o + 4 + l,
                ty,
            )
        }),
{
    if o + 4 <= s.len() {
        let a = s.subrange(o, o + 2);
        let b = s.subrange(o + 2, o + 4);
        lemma_le_value_2(a);
        lemma_le_value_2(b);
        assert(a[0] == s[o] && a[1] == s[o + 1]);
        assert(b[0] == s[o + 2] && b[1] == s[o + 3]);
    }
}

/// The lookup in an account scans the TLV chain from byte 166 on, and finds
/// nothing in an account of at most 165 bytes.
pub proof fn lemma_account_extension_start(s: Seq<u8>, ty: u16)
    ensures
        s.len() <= TOKEN_ACCOUNT_LEN ==> account_extension(s, ty) == Ok::<
            Option<Seq<u8>>,
            KontError,
        >(None),
        s.len() > TOKEN_ACCOUNT_LEN ==> account_extension(s, ty) == tlv_scan(s, 166, ty),
{
}

/// The base view of a Token-2022 account reads the same mint, owner, amount,
/// delegate and frozen state as the full account bytes do.
pub proof fn lemma_base_fields_agree(s: Seq<u8>)
    requires
        s.len() >= TOKEN_ACCOUNT_LEN,
    ensures
        ({
            let b = s.subrange(0, TOKEN_ACCOUNT_LEN as int);
            &&& account_mint(b) == account_mint(s)
            &&& account_owner(b) == account_owner(s)
            &&& account_amount(b) == account_amount(s)
            &&& account_delegate(b) == account_delegate(s)
            &&& account_is_frozen(b) == account_is_frozen(s)
        }),
{
    let b = s.subrange(0, TOKEN_ACCOUNT_LEN as int);
    assert(account_mint(b) =~= account_mint(s));
    assert(account_owner(b) =~= account_owner(s));
    assert(b.subrange(64, 72) =~= s.subrange(64, 72));
    assert(b.subrange(72, 76) =~= s.subrange(72, 76));
    assert(b.subrange(76, 108) =~= s.subrange(76, 108));
}

} // verus!
