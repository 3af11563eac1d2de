//! Request payloads for the external stake-custody service.
//!
//! Each lifecycle operation is a signed request whose payload is a
//! little-endian discriminator followed by fixed-width arguments. The
//! builders here produce exactly the documented byte strings; sending the
//! request, with the account list and the pool's derived signature, is the
//! host's part.

use vstd::prelude::*;

use crate::codec::{append_bytes, int_to_le_bytes, lemma_pow256_values, write_le, write_u64_le};
use crate::keys::Pubkey;

verus! {

/// Request discriminator: initialize a created position.
pub const STAKE_IX_INITIALIZE: u32 = 0;

/// Request discriminator: delegate a position to a validator.
pub const STAKE_IX_DELEGATE: u32 = 2;

/// Request discriminator: split value into a new position.
pub const STAKE_IX_SPLIT: u32 = 3;

/// Request discriminator: pay value out of a deactivated position.
pub const STAKE_IX_WITHDRAW: u32 = 4;

/// Request discriminator: begin deactivating a position.
pub const STAKE_IX_DEACTIVATE: u32 = 5;

/// Request discriminator: merge one position into another.
pub const STAKE_IX_MERGE: u32 = 7;

/// A 32-byte field of zeroes.
pub open spec fn spec_zeros(n: nat) -> Seq<u8> {
    Seq::new(n, |i: int| 0u8)
}

/// The initialize-request payload: the discriminator, the staking and
/// withdrawing authorities, and an all-zero lockup (timestamp, epoch and
/// custodian).
pub open spec fn spec_initialize_request(staker: Seq<u8>, withdrawer: Seq<u8>) -> Seq<u8> {
    int_to_le_bytes(STAKE_IX_INITIALIZE as int, 4) + staker + withdrawer + int_to_le_bytes(0, 8)
        + int_to_le_bytes(0, 8) + spec_zeros(32)
}

/// A payload of a bare discriminator.
pub open spec fn spec_plain_request(discriminator: u32) -> Seq<u8> {
    int_to_le_bytes(discriminator as int, 4)
}

/// A payload of a discriminator followed by a value amount.
pub open spec fn spec_amount_request(discriminator: u32, amount: u64) -> Seq<u8> {
    int_to_le_bytes(discriminator as int, 4) + int_to_le_bytes(amount as int, 8)
}

/// Appends `n` zero bytes.
fn write_zeros(out: &mut Vec<u8>, n: usize)
    ensures
        final(out)@ == old(out)@ + spec_zeros(n as nat),
{
    let mut i: usize = 0;
    while i < n
        invariant
            i <= n,
            out@ == old(out)@ + spec_zeros(i as nat),
        decreases n - i,
    {
        out.push(0);
        proof {
            assert(out@ =~= old(out)@ + spec_zeros((i + 1) as nat));
        }
        i += 1;
    }
}

/// Appends the four-byte little-endian discriminator.
fn write_discriminator(out: &mut Vec<u8>, d: u32)
    ensures
        final(out)@ == old(out)@ + int_to_le_bytes(d as int, 4),
{
    proof {
        lemma_pow256_values();
    }
    write_le(out, d as u64, 4);
}

/// Builds the initialize request: both authorities are the pool itself and
/// the lockup is empty.
pub fn initialize_request(staker: &Pubkey, withdrawer: &Pubkey) -> (r: Vec<u8>)
    ensures
        r@ == spec_initialize_request(staker@, withdrawer@),
        r@.len() == 116,
{
    let mut out: Vec<u8> = Vec::new();
    write_discriminator(&mut out, STAKE_IX_INITIALIZE);
    append_bytes(&mut out, staker.as_slice());
    append_bytes(&mut out, withdrawer.as_slice());
    proof {
        lemma_pow256_values();
        crate::codec::lemma_int_to_le_bytes_len(STAKE_IX_INITIALIZE as int, 4);
        crate::codec::lemma_int_to_le_bytes_len(0, 8);
    }
    write_u64_le(&mut out, 0);
    write_u64_le(&mut out, 0);
    write_zeros(&mut out, 32);
    proof {
        assert(out@ =~= spec_initialize_request(staker@, withdrawer@));
    }
    out
}

/// Builds the delegate request.
pub fn delegate_request() -> (r: Vec<u8>)
    ensures
        r@ == spec_plain_request(STAKE_IX_DELEGATE),
        r@.len() == 4,
{
    plain_request(STAKE_IX_DELEGATE)
}

/// Builds the deactivate request.
pub fn deactivate_request() -> (r: Vec<u8>)
    ensures
        r@ == spec_plain_request(STAKE_IX_DEACTIVATE),
        r@.len() == 4,
{
    plain_request(STAKE_IX_DEACTIVATE)
}

/// Builds the merge request.
pub fn merge_request() -> (r: Vec<u8>)
    ensures
        r@ == spec_plain_request(STAKE_IX_MERGE),
        r@.len() == 4,
{
    plain_request(STAKE_IX_MERGE)
}

/// Builds a bare-discriminator request.
fn plain_request(d: u32) -> (r: Vec<u8>)
    ensures
        r@ == spec_plain_request(d),
        r@.len() == 4,
{
    let mut out: Vec<u8> = Vec::new();
    write_discriminator(&mut out, d);
    proof {
        crate::codec::lemma_int_to_le_bytes_len(d as int, 4);
        assert(out@ =~= spec_plain_request(d));
    }
    out
}

/// Builds the split request carrying the value to split out.
pub fn split_request(amount: u64) -> (r: Vec<u8>)
    ensures
        r@ == spec_amount_request(STAKE_IX_SPLIT, amount),
        r@.len() == 12,
{
    amount_request(STAKE_IX_SPLIT, amount)
}

/// Builds the withdraw request carrying the value to pay out.
pub fn withdraw_request(amount: u64) -> (r: Vec<u8>)
    ensures
        r@ == spec_amount_request(STAKE_IX_WITHDRAW, amount),
        r@.len() == 12,
{
    amount_request(STAKE_IX_WITHDRAW, amount)
}

/// Builds a discriminator-plus-amount request.
fn amount_request(d: u32, amount: u64) -> (r: Vec<u8>)
    ensures
        r@ == spec_amount_request(d, amount),
        r@.len() == 12,
{
    let mut out: Vec<u8> = Vec::new();
    write_discriminator(&mut out, d);
    write_u64_le(&mut out, amount);
    proof {
        crate::codec::lemma_int_to_le_bytes_len(d as int, 4);
        crate::codec::lemma_int_to_le_bytes_len(amount as int, 8);
        assert(out@ =~= spec_amount_request(d, amount));
    }
    out
}

} // verus!
