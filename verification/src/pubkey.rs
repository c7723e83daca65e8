//! Account addresses, their comparison and their derivation.

use vstd::prelude::*;
use crate::constants::{NATIVE_MINT, TOKEN_PROGRAM_ID};

verus! {

/// The number of bytes in an address.
pub const PUBKEY_BYTES: usize = 32;

/// The address of an account: thirty-two bytes.
#[derive(Clone, Copy, Debug, PartialEq, Eq, Hash)]
pub struct Pubkey {
    pub bytes: [u8; 32],
}

impl View for Pubkey {
    type V = Seq<u8>;

    open spec fn view(&self) -> Seq<u8> {
        self.bytes@
    }
}

/// The first `n` bytes of `bytes`.
pub open spec fn leading_bytes(bytes: Seq<u8>, n: usize) -> Seq<u8> {
    bytes.subrange(0, n as int)
}

/// `solana_program::program_memory::sol_memcmp`: compares the first `n`
/// bytes of two slices as C's `memcmp` does. Only this much of the result
/// is claimed: it is zero exactly when the two prefixes are equal. Both
/// slices must hold at least `n` bytes.
#[verifier::external_body]
fn sol_memcmp(s1: &[u8], s2: &[u8], n: usize) -> (result: i32)
    requires
        n <= s1@.len(),
        n <= s2@.len(),
    ensures
        (result == 0) == (leading_bytes(s1@, n) == leading_bytes(s2@, n)),
{
    solana_program::program_memory::sol_memcmp(s1, s2, n)
}

/// Whether two addresses are the same.
pub fn cmp_pubkeys(a: &Pubkey, b: &Pubkey) -> (same: bool)
    ensures
        same == (a@ == b@),
{
    let same = sol_memcmp(a.bytes.as_slice(), b.bytes.as_slice(), PUBKEY_BYTES) == 0;
    proof {
        assert(leading_bytes(a@, PUBKEY_BYTES) =~= a@);
        assert(leading_bytes(b@, PUBKEY_BYTES) =~= b@);
    }
    same
}

/// The address of the mint that stands for the native currency.
pub open spec fn native_mint() -> Seq<u8> {
    NATIVE_MINT@
}

/// `spl_token::native_mint::id`: the address of the mint that stands for
/// the native currency. The contract gives the thirty-two bytes of that
/// address, `So11111111111111111111111111111111111111112`.
#[verifier::external_body]
fn native_mint_id() -> (id: Pubkey)
    ensures
        id@ == native_mint(),
{
    Pubkey { bytes: spl_token::native_mint::id().to_bytes() }
}

/// The address of the token program.
pub open spec fn token_program() -> Seq<u8> {
    TOKEN_PROGRAM_ID@
}

/// `spl_token::id`: the address of the token program, which owns every
/// token account. The contract gives the thirty-two bytes of that address,
/// `TokenkegQfeZyiNwAJbNbGKPFXCWuBvf9Ss623VQ5DA`.
#[verifier::external_body]
pub(crate) fn token_program_id() -> (id: Pubkey)
    ensures
        id@ == token_program(),
{
    Pubkey { bytes: spl_token::id().to_bytes() }
}

/// Whether `mint` is the mint of the native currency, which is held in
/// plain accounts and needs no token account.
pub fn is_native_mint(mint: &Pubkey) -> (native: bool)
    ensures
        native == (mint@ == native_mint()),
{
    let id = native_mint_id();
    cmp_pubkeys(mint, &id)
}

/// The address that `solana_program` derives for a program from a list of
/// seeds, or none where it derives no address from them.
pub uninterp spec fn program_address(seeds: Seq<Seq<u8>>, program_id: Seq<u8>) -> Option<Seq<u8>>;

/// The seeds as sequences of bytes.
pub open spec fn seeds_view(seeds: Seq<&[u8]>) -> Seq<Seq<u8>> {
    Seq::new(seeds.len(), |i: int| seeds[i]@)
}

/// `solana_program::pubkey::Pubkey::create_program_address`: derives the
/// address of an account of the program `program_id` from `seeds`, without
/// searching for a bump seed. It fails where there are more than 16 seeds,
/// where a seed is longer than 32 bytes, and where the bytes derived are a
/// point of the curve. The address is a hash of the arguments; the contract
/// gives it a name and claims no more.
#[verifier::external_body]
pub(crate) fn create_program_address(seeds: &[&[u8]], program_id: &Pubkey) -> (address: Option<Pubkey>)
    ensures
        match address {
            Some(address) => program_address(seeds_view(seeds@), program_id@) == Some(address@),
            None => program_address(seeds_view(seeds@), program_id@) is None,
        },
{
    let program_id = solana_program::pubkey::Pubkey::new_from_array(program_id.bytes);
    match solana_program::pubkey::Pubkey::create_program_address(seeds, &program_id) {
        Ok(address) => Some(Pubkey { bytes: address.to_bytes() }),
        Err(_) => None,
    }
}

/// `bytemuck::bytes_of`, for one byte: the byte as a slice of length one.
#[verifier::external_body]
pub(crate) fn bump_bytes<'a>(bump: &'a u8) -> (bytes: &'a [u8])
    ensures
        bytes@ == seq![*bump],
{
    bytemuck::bytes_of(bump)
}

} // verus!
