use anchor_lang::prelude::Pubkey;
use stake_1::derivation::{derive_address, derive_with_bump, verify_derivation};
use stake_1::{Address, Role, StakeError};

fn address(byte: u8) -> Address {
    Address::new([byte; 32])
}

fn pubkey(address: &Address) -> Pubkey {
    Pubkey::new_from_array(address.bytes)
}

#[test]
fn role_tags_are_pool_and_stoken() {
    assert_eq!(Role::Vault.tag(), b"pool".to_vec());
    assert_eq!(Role::Authority.tag(), b"pool".to_vec());
    assert_eq!(Role::ReceiptMint.tag(), b"stoken".to_vec());
}

#[test]
fn addresses_compare_by_their_bytes() {
    let mut bytes = [9u8; 32];
    assert!(Address::new(bytes) == address(9));
    bytes[31] = 8;
    assert!(Address::new(bytes) != address(9));
    bytes[31] = 9;
    bytes[0] = 0;
    assert!(Address::new(bytes) != address(9));
}

#[test]
fn derive_with_bump_is_the_program_address_of_the_three_seeds() {
    let program_id = address(7);
    let base_token = address(1);
    let mut derived = 0;
    let mut refused = 0;
    for bump in 0..=255u8 {
        let vault = Pubkey::create_program_address(&[b"pool", &base_token.bytes, &[bump]], &pubkey(&program_id)).ok();
        let ours = derive_with_bump(&program_id, Role::Vault, &base_token, bump);
        assert_eq!(ours.map(|a| a.bytes), vault.map(|k| k.to_bytes()));
        let mint = Pubkey::create_program_address(&[b"stoken", &base_token.bytes, &[bump]], &pubkey(&program_id)).ok();
        let ours = derive_with_bump(&program_id, Role::ReceiptMint, &base_token, bump);
        assert_eq!(ours.map(|a| a.bytes), mint.map(|k| k.to_bytes()));
        if vault.is_some() {
            derived += 1;
        } else {
            refused += 1;
        }
    }
    // About half of all hashes are points of the curve.
    assert!(derived > 0);
    assert!(refused > 0);
}

#[test]
fn a_derived_address_is_none_of_its_inputs() {
    let program_id = address(7);
    let base_token = address(1);
    let (vault, _) = derive_address(&program_id, Role::Vault, &base_token).unwrap();
    assert!(vault != program_id);
    assert!(vault != base_token);
}

#[test]
fn derive_finds_what_find_program_address_finds() {
    for seed in 0..20u8 {
        let program_id = address(200 - seed);
        let base_token = address(seed);
        let (key, bump) = Pubkey::find_program_address(&[b"pool", &base_token.bytes], &pubkey(&program_id));
        assert_eq!(derive_address(&program_id, Role::Vault, &base_token), Some((Address::new(key.to_bytes()), bump)));
        let (key, bump) = Pubkey::find_program_address(&[b"stoken", &base_token.bytes], &pubkey(&program_id));
        assert_eq!(derive_address(&program_id, Role::ReceiptMint, &base_token), Some((Address::new(key.to_bytes()), bump)));
    }
}

#[test]
fn derive_gives_the_highest_bump_that_derives() {
    for seed in 0..20u8 {
        let program_id = address(7);
        let base_token = address(seed);
        let (found, bump) = derive_address(&program_id, Role::Vault, &base_token).unwrap();
        assert!(bump >= 1);
        assert_eq!(derive_with_bump(&program_id, Role::Vault, &base_token, bump), Some(found));
        for higher in (bump as u16 + 1)..=255 {
            assert_eq!(derive_with_bump(&program_id, Role::Vault, &base_token, higher as u8), None);
        }
    }
}

#[test]
fn deriving_again_gives_the_same() {
    let program_id = address(7);
    let base_token = address(1);
    let first = derive_address(&program_id, Role::ReceiptMint, &base_token);
    let second = derive_address(&program_id, Role::ReceiptMint, &base_token);
    assert!(first.is_some());
    assert_eq!(first, second);
}

#[test]
fn the_authority_is_the_vault() {
    let program_id = address(7);
    let base_token = address(1);
    assert_eq!(
        derive_address(&program_id, Role::Authority, &base_token),
        derive_address(&program_id, Role::Vault, &base_token)
    );
}

#[test]
fn the_vault_and_the_receipt_mint_live_apart() {
    let program_id = address(7);
    let base_token = address(1);
    let (vault, _) = derive_address(&program_id, Role::Vault, &base_token).unwrap();
    let (mint, _) = derive_address(&program_id, Role::ReceiptMint, &base_token).unwrap();
    assert!(vault != mint);
}

#[test]
fn another_base_token_or_program_has_another_vault() {
    let (vault, _) = derive_address(&address(7), Role::Vault, &address(1)).unwrap();
    let (other_token, _) = derive_address(&address(7), Role::Vault, &address(2)).unwrap();
    let (other_program, _) = derive_address(&address(8), Role::Vault, &address(1)).unwrap();
    assert!(vault != other_token);
    assert!(vault != other_program);
}

#[test]
fn verify_derivation_accepts_the_derived_bump() {
    let program_id = address(7);
    let base_token = address(1);
    let (vault, bump) = derive_address(&program_id, Role::Vault, &base_token).unwrap();
    assert_eq!(verify_derivation(&program_id, Role::Vault, &base_token, bump, &vault), Ok(()));
    assert_eq!(verify_derivation(&program_id, Role::Authority, &base_token, bump, &vault), Ok(()));
}

#[test]
fn verify_derivation_rejects_every_other_bump() {
    let program_id = address(7);
    let base_token = address(1);
    let (vault, bump) = derive_address(&program_id, Role::Vault, &base_token).unwrap();
    for other in 0..=255u8 {
        if other != bump {
            assert_eq!(
                verify_derivation(&program_id, Role::Vault, &base_token, other, &vault),
                Err(StakeError::InvalidDerivation)
            );
        }
    }
}

#[test]
fn verify_derivation_rejects_another_address_role_token_or_program() {
    let program_id = address(7);
    let base_token = address(1);
    let (vault, bump) = derive_address(&program_id, Role::Vault, &base_token).unwrap();
    let rejected = Err(StakeError::InvalidDerivation);
    assert_eq!(verify_derivation(&program_id, Role::Vault, &base_token, bump, &address(9)), rejected);
    assert_eq!(verify_derivation(&program_id, Role::ReceiptMint, &base_token, bump, &vault), rejected);
    assert_eq!(verify_derivation(&program_id, Role::Vault, &address(2), bump, &vault), rejected);
    assert_eq!(verify_derivation(&address(8), Role::Vault, &base_token, bump, &vault), rejected);
}
