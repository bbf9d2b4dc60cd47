use lib::constant::TOKEN_PROGRAM_ID;
use lib::errors::KontError;
use lib::primitives::RawPubKey;
use lib::templates::mint::{BurnTemplate, MintToTemplate};
use lib::templates::transfer::{TransferCheckedTemplate, TransferTemplate};
use lib::views::token_2022::Token2022AccountView;
use lib::views::token_v1::TokenAccountView;
use lib::{KontInstruction, RawAccountMeta, MAX_INSTRUCTION_ACCOUNTS};

fn key(marker: u8) -> RawPubKey {
    let mut bytes = [0u8; 32];
    bytes[0] = marker;
    bytes[31] = marker.wrapping_add(1);
    RawPubKey::new(&bytes)
}

fn mint_to(mint: &RawPubKey, dest: &RawPubKey, auth: &RawPubKey, amount: u64) -> KontInstruction {
    let mut t = MintToTemplate::new();
    t.set_mint(mint);
    t.set_destination(dest);
    t.set_mint_authority(auth);
    t.set_amount(amount);
    t.to_kont_instruction()
}

#[test]
fn amount_written_by_template_is_read_by_view() {
    for amount in [0u64, 1, 255, 256, 0x0102_0304_0506_0708, u64::MAX] {
        let ix = mint_to(&key(1), &key(2), &key(3), amount);
        let mut account = [0u8; 165];
        account[64..72].copy_from_slice(&ix.as_bytes()[97..105]);
        let view = TokenAccountView::try_from_slice(&account).unwrap();
        assert_eq!(view.amount(), amount);
    }
}

#[test]
fn amount_is_little_endian() {
    let ix = mint_to(&key(1), &key(2), &key(3), 0x0102_0304_0506_0708);
    assert_eq!(&ix.as_bytes()[97..105], &[8, 7, 6, 5, 4, 3, 2, 1]);
}

#[test]
fn setter_order_does_not_matter() {
    let a = mint_to(&key(1), &key(2), &key(3), 77);
    let mut t = MintToTemplate::new();
    t.set_amount(77);
    t.set_mint_authority(&key(3));
    t.set_destination(&key(2));
    t.set_mint(&key(1));
    let b = t.to_kont_instruction();
    assert_eq!(a.as_bytes(), b.as_bytes());
    assert_eq!(a.accounts(), b.accounts());
}

#[test]
fn later_setter_overwrites_earlier() {
    let mut t = BurnTemplate::new();
    t.set_source(&key(1));
    t.set_source(&key(9));
    t.set_amount(5);
    t.set_amount(6);
    let ix = t.to_kont_instruction();
    assert_eq!(ix.accounts()[0].pubkey, key(9));
    assert_eq!(ix.as_bytes()[97], 6);
}

#[test]
fn mint_to_metas_and_flags() {
    let ix = mint_to(&key(1), &key(2), &key(3), 10);
    assert_eq!(ix.program_id().as_bytes(), &TOKEN_PROGRAM_ID);
    let metas = ix.accounts();
    assert_eq!(metas.len(), 3);
    assert_eq!(metas[0], RawAccountMeta { pubkey: key(1), is_signer: false, is_writable: true });
    assert_eq!(metas[1], RawAccountMeta { pubkey: key(2), is_signer: false, is_writable: true });
    assert_eq!(metas[2], RawAccountMeta { pubkey: key(3), is_signer: true, is_writable: false });
    assert_eq!(ix.accounts[3], RawAccountMeta::default());
    assert_eq!(&ix.as_bytes()[1..33], key(1).as_bytes());
    assert_eq!(&ix.as_bytes()[33..65], key(2).as_bytes());
    assert_eq!(&ix.as_bytes()[65..97], key(3).as_bytes());
}

#[test]
fn burn_metas_and_discriminant() {
    let mut t = BurnTemplate::new();
    t.set_source(&key(4));
    t.set_mint(&key(5));
    t.set_authority(&key(6));
    let ix = t.to_kont_instruction();
    assert_eq!(ix.as_bytes()[0], 8);
    assert_eq!(&ix.as_bytes()[97..105], &[0u8; 8]);
    assert_eq!(ix.accounts()[0], RawAccountMeta { pubkey: key(4), is_signer: false, is_writable: true });
    assert_eq!(ix.accounts()[1], RawAccountMeta { pubkey: key(5), is_signer: false, is_writable: true });
    assert_eq!(ix.accounts()[2], RawAccountMeta { pubkey: key(6), is_signer: true, is_writable: false });
}

#[test]
fn transfer_data_is_discriminant_and_amount() {
    let mut t = TransferTemplate::new();
    t.set_source(&key(1));
    t.set_destination(&key(2));
    t.set_authority(&key(3));
    t.set_amount(50_000);
    let ix = t.finish();
    assert_eq!(ix.as_bytes(), &[3, 0x50, 0xC3, 0, 0, 0, 0, 0, 0]);
    assert!(ix.data[9..].iter().all(|b| *b == 0));
    assert_eq!(ix.accounts()[0], RawAccountMeta { pubkey: key(1), is_signer: false, is_writable: true });
    assert_eq!(ix.accounts()[1], RawAccountMeta { pubkey: key(2), is_signer: false, is_writable: true });
    assert_eq!(ix.accounts()[2], RawAccountMeta { pubkey: key(3), is_signer: true, is_writable: false });
}

#[test]
fn transfer_checked_data_and_metas() {
    let mut t = TransferCheckedTemplate::new();
    t.set_source(&key(1));
    t.set_mint(&key(2));
    t.set_destination(&key(3));
    t.set_authority(&key(4));
    t.set_amount(750);
    t.set_decimals(9);
    let ix = t.to_kont_instruction();
    assert_eq!(ix.as_bytes(), &[12, 0xEE, 0x02, 0, 0, 0, 0, 0, 0, 9]);
    assert_eq!(ix.account_count(), MAX_INSTRUCTION_ACCOUNTS);
    assert_eq!(ix.accounts()[0], RawAccountMeta { pubkey: key(1), is_signer: false, is_writable: true });
    assert_eq!(ix.accounts()[1], RawAccountMeta { pubkey: key(2), is_signer: false, is_writable: false });
    assert_eq!(ix.accounts()[2], RawAccountMeta { pubkey: key(3), is_signer: false, is_writable: true });
    assert_eq!(ix.accounts()[3], RawAccountMeta { pubkey: key(4), is_signer: true, is_writable: false });
}

#[test]
fn meta_bytes_and_default() {
    let m = RawAccountMeta { pubkey: key(7), is_signer: true, is_writable: true };
    assert_eq!(m.as_bytes(), *key(7).as_bytes());
    assert_eq!(m.to_bytes(), m.as_bytes());
    let d = RawAccountMeta::default();
    assert_eq!(d.as_bytes(), [0u8; 32]);
    assert!(!d.is_signer && !d.is_writable);
}

#[test]
fn pubkey_eq_compares_every_byte() {
    let a = key(1);
    let mut bytes = *a.as_bytes();
    assert!(a.eq(&RawPubKey::new(&bytes)));
    bytes[31] ^= 0x80;
    assert!(!a.eq(&RawPubKey::new(&bytes)));
}

#[test]
fn views_reject_short_buffers() {
    let short = [0u8; 164];
    assert!(matches!(TokenAccountView::try_from_slice(&short), Err(KontError::InvalidBufferLength)));
    assert!(matches!(Token2022AccountView::try_from_slice(&short), Err(KontError::InvalidBufferLength)));
    let exact = [0u8; 165];
    assert!(TokenAccountView::try_from_slice(&exact).is_ok());
    assert!(TokenAccountView::try_from_slice(&[0u8; 300]).is_ok());
}

#[test]
fn token_fields_edge_cases() {
    let mut data = [0u8; 165];
    data[32..64].copy_from_slice(key(8).as_bytes());
    data[72] = 0;
    data[75] = 1; // tag 0x0100_0000 is non-zero
    data[76..108].copy_from_slice(key(9).as_bytes());
    data[108] = 1; // initialized, not frozen
    let view = TokenAccountView::try_from_slice(&data).unwrap();
    assert_eq!(view.owner(), key(8));
    assert_eq!(view.delegate(), Some(key(9)));
    assert!(!view.is_frozen());
    assert_eq!(view.amount(), 0);
}

#[test]
fn token_2022_base_agrees_with_legacy_view() {
    let mut data = [0u8; 180];
    data[0..32].copy_from_slice(key(1).as_bytes());
    data[32..64].copy_from_slice(key(2).as_bytes());
    data[64..72].copy_from_slice(&123u64.to_le_bytes());
    data[108] = 2;
    let view = Token2022AccountView::try_from_slice(&data).unwrap();
    let base = view.base().unwrap();
    let legacy = TokenAccountView::try_from_slice(&data).unwrap();
    assert_eq!(base.mint(), legacy.mint());
    assert_eq!(base.owner(), legacy.owner());
    assert_eq!(base.amount(), 123);
    assert!(base.is_frozen());
}

#[test]
fn extension_absent_on_short_accounts() {
    let view = Token2022AccountView::try_from_slice(&[0u8; 165]).unwrap();
    assert_eq!(view.get_extension(0), Ok(None));
    // Fewer than four bytes after index 166: no entry can be read.
    let view = Token2022AccountView::try_from_slice(&[0u8; 169]).unwrap();
    assert_eq!(view.get_extension(0), Ok(None));
}

#[test]
fn extension_lookup_returns_first_match_and_empty_values() {
    let mut data = [0u8; 200];
    // entry 1: type 5, length 0
    data[166] = 5;
    // entry 2: type 5, length 2
    data[170] = 5;
    data[172] = 2;
    data[174] = 0xAB;
    data[175] = 0xCD;
    // entry 3: type 6, length 1
    data[176] = 6;
    data[178] = 1;
    data[180] = 0x77;
    let view = Token2022AccountView::try_from_slice(&data).unwrap();
    assert_eq!(view.get_extension(5), Ok(Some(&[][..])));
    assert_eq!(view.get_extension(6), Ok(Some(&[0x77u8][..])));
    // Zero-filled bytes after entry 3 read as type 0, length 0 entries.
    assert_eq!(view.get_extension(0), Ok(Some(&[][..])));
}

#[test]
fn extension_overflow_only_when_reached() {
    let mut data = [0u8; 180];
    data[166] = 3;
    data[168] = 1;
    data[170] = 0x42;
    // second entry declares 300 bytes
    data[171] = 4;
    data[173] = 0x2C;
    data[174] = 0x01;
    let view = Token2022AccountView::try_from_slice(&data).unwrap();
    assert_eq!(view.get_extension(3), Ok(Some(&[0x42u8][..])));
    assert_eq!(view.get_extension(4), Err(KontError::TlvParsingOverflow));
    assert_eq!(view.get_extension(9), Err(KontError::TlvParsingOverflow));
}

#[test]
fn extension_value_exactly_at_end() {
    let mut data = [0u8; 173];
    data[166] = 1;
    data[168] = 3;
    data[170..173].copy_from_slice(&[1, 2, 3]);
    let view = Token2022AccountView::try_from_slice(&data).unwrap();
    assert_eq!(view.get_extension(1), Ok(Some(&[1u8, 2, 3][..])));
    assert_eq!(view.get_extension(2), Ok(None));
}
