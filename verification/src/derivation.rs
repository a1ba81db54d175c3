//! Derivation of the pool's addresses from the base token.
//!
//! The vault and the receipt mint of a base token live at addresses that the
//! program derives from a tag, the base token's address and one more byte,
//! the bump. No private key belongs to such an address: only the program
//! that derived it can act in its name, by presenting the seeds again.

use crate::address::Address;
use crate::error::StakeError;
use anchor_lang::prelude::Pubkey;
use anchor_lang::solana_program::pubkey::PubkeyError;
use vstd::prelude::*;

verus! {

/// What an address is derived for.
#[derive(Clone, Copy, Debug, PartialEq, Eq, Structural)]
pub enum Role {
    /// The token account that holds the deposits.
    Vault,
    /// The mint of the receipt token.
    ReceiptMint,
    /// The signer for the vault and the receipt mint. The vault is its own
    /// authority, so this role shares the vault's tag and address.
    Authority,
}

impl Role {
    /// The bytes that open the seeds of this role: `pool` for the vault and
    /// the authority, `stoken` for the receipt mint.
    pub open spec fn tag_spec(self) -> Seq<u8> {
        match self {
            Role::ReceiptMint => seq![0x73u8, 0x74u8, 0x6fu8, 0x6bu8, 0x65u8, 0x6eu8],
            _ => seq![0x70u8, 0x6fu8, 0x6fu8, 0x6cu8],
        }
    }

    /// The tag as bytes.
    pub fn tag(self) -> (tag: Vec<u8>)
        ensures
            tag@ == self.tag_spec(),
    {
        match self {
            Role::ReceiptMint => vec![0x73u8, 0x74u8, 0x6fu8, 0x6bu8, 0x65u8, 0x6eu8],
            _ => vec![0x70u8, 0x6fu8, 0x6fu8, 0x6cu8],
        }
    }
}

/// The address that the program `program_id` derives from `seeds`, or `None`
/// where these seeds derive none.
pub uninterp spec fn program_address(seeds: Seq<Seq<u8>>, program_id: Seq<u8>) -> Option<Seq<u8>>;

/// The seeds of `role` for `base_token`, closed by `bump`.
pub open spec fn seeds(role: Role, base_token: Address, bump: u8) -> Seq<Seq<u8>> {
    seq![role.tag_spec(), base_token@, seq![bump]]
}

/// The bytes of the address derived for `role` and `base_token` with `bump`.
pub open spec fn derived_address(
    program_id: Address,
    role: Role,
    base_token: Address,
    bump: u8,
) -> Option<Seq<u8>> {
    program_address(seeds(role, base_token, bump), program_id@)
}

/// `bump` derives `claimed`.
pub open spec fn derives(
    program_id: Address,
    role: Role,
    base_token: Address,
    bump: u8,
    claimed: Address,
) -> bool {
    derived_address(program_id, role, base_token, bump) == Some(claimed@)
}

/// `bump` is the highest bump that derives an address, and `address` is that
/// address. Bump zero is never searched.
pub open spec fn canonical(
    program_id: Address,
    role: Role,
    base_token: Address,
    address: Address,
    bump: u8,
) -> bool {
    &&& bump >= 1
    &&& derives(program_id, role, base_token, bump, address)
    &&& forall|higher: u8|
        bump < higher ==> derived_address(program_id, role, base_token, higher) is None
}

/// No bump from 255 down to 1 derives an address.
pub open spec fn underivable(program_id: Address, role: Role, base_token: Address) -> bool {
    forall|bump: u8| bump >= 1 ==> derived_address(program_id, role, base_token, bump) is None
}

/// The error of `Pubkey::create_program_address`. Nothing is read from it.
#[verifier::external_type_specification]
#[verifier::external_body]
pub struct ExPubkeyError(anchor_lang::solana_program::pubkey::PubkeyError);

/// Calls `Pubkey::create_program_address` on the three seeds `tag`, the bytes
/// of `base_token` and the one byte `bump`. That function hashes the seeds,
/// the program's address and a marker, and gives the hash as an address
/// unless a seed is too long or the hash is a point of the ed25519 curve.
/// The contract names its result and claims that the same seeds and program
/// give the same result on every call; where the function fails, for either
/// reason, the named result is `None`.
#[verifier::external_body]
fn create_program_address(tag: &[u8], base_token: &Address, bump: u8, program_id: &Address) -> (address:
    Result<Address, PubkeyError>)
    ensures
        match address {
            Ok(a) => program_address(seq![tag@, base_token@, seq![bump]], program_id@) == Some(a@),
            Err(_) => program_address(seq![tag@, base_token@, seq![bump]], program_id@) is None,
        },
{
    let program = Pubkey::new_from_array(program_id.bytes);
    match Pubkey::create_program_address(&[tag, &base_token.bytes, &[bump]], &program) {
        Ok(key) => Ok(Address { bytes: key.to_bytes() }),
        Err(error) => Err(error),
    }
}

/// The address derived for `role` and `base_token` with the given bump, if
/// that bump derives one.
pub fn derive_with_bump(program_id: &Address, role: Role, base_token: &Address, bump: u8) -> (address:
    Option<Address>)
    ensures
        match address {
            Some(a) => derives(*program_id, role, *base_token, bump, a),
            None => derived_address(*program_id, role, *base_token, bump) is None,
        },
{
    let tag = role.tag();
    match create_program_address(tag.as_slice(), base_token, bump, program_id) {
        Ok(address) => Some(address),
        Err(_) => None,
    }
}

/// Derives the address of `role` for `base_token` and the bump that proves
/// it: the search starts at bump 255 and goes down to 1, and the first bump
/// that derives an address wins.
pub fn derive_address(program_id: &Address, role: Role, base_token: &Address) -> (found: Option<(Address, u8)>)
    ensures
        match found {
            Some((address, bump)) => canonical(*program_id, role, *base_token, address, bump),
            None => underivable(*program_id, role, *base_token),
        },
{
    let mut bump: u8 = 255;
    while bump >= 1
        invariant
            forall|higher: u8|
                bump < higher ==> derived_address(*program_id, role, *base_token, higher) is None,
        decreases bump,
    {
        match derive_with_bump(program_id, role, base_token, bump) {
            Some(address) => {
                return Some((address, bump));
            },
            None => {},
        }
        bump -= 1;
    }
    None
}

/// Checks a bump that a caller supplied: it must derive `claimed`, the
/// address that the caller presents for `role` and `base_token`.
pub fn verify_derivation(
    program_id: &Address,
    role: Role,
    base_token: &Address,
    bump: u8,
    claimed: &Address,
) -> (checked: Result<(), StakeError>)
    ensures
        checked is Ok <==> derives(*program_id, role, *base_token, bump, *claimed),
        checked is Err ==> checked == Err::<(), StakeError>(StakeError::InvalidDerivation),
{
    match derive_with_bump(program_id, role, base_token, bump) {
        Some(address) => {
            if address == *claimed {
                Ok(())
            } else {
                proof {
                    if address@ == claimed@ {
                        Address::view_injective(address, *claimed);
                    }
                }
                Err(StakeError::InvalidDerivation)
            }
        },
        None => Err(StakeError::InvalidDerivation),
    }
}

} // verus!
