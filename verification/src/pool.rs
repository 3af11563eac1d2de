//! The pool ledger record.
//!
//! One record per pool: identity discriminator, linked account addresses,
//! derivation salts ("bumps"), the outstanding claim-token supply, a
//! pending-deposit counter and the initialization flag. The record persists
//! as a fixed 190-byte string with documented little-endian field offsets;
//! the accessors here are bounds-checked and proved inverse to the writer.
//!
//! Layout (byte offsets):
//! `0` discriminator, `1..33` claim-token mint, `33..65` authority,
//! `65..97` validator vote, `97..129` primary stake account,
//! `129..161` reserve stake account, `161..169` seed, `169` pool bump,
//! `170` stake bump, `171` mint bump, `172` reserve bump,
//! `173..181` claim-token supply, `181..189` pending deposits,
//! `189` initialization flag.

use vstd::prelude::*;

use crate::codec::{
    append_bytes, int_to_le_bytes, le_bytes_to_int, lemma_le_round_trip, lemma_pow256_values,
    read_u64_le, write_u64_le,
};
use crate::error::PoolError;
use crate::keys::Pubkey;

verus! {

/// Size in bytes of the persisted pool record.
pub const POOL_STATE_LEN: usize = 190;

/// Discriminator byte marking a live pool record.
pub const POOL_DISCRIMINATOR: u8 = 1;

/// The durable record of a pool's identity, linked accounts and counters.
#[derive(Clone, Copy, Debug)]
pub struct PoolState {
    /// Identity discriminator; a live record holds `POOL_DISCRIMINATOR`.
    pub discriminator: u8,
    /// Address of the claim-token mint.
    pub lst_mint: Pubkey,
    /// The pool authority (its creator).
    pub authority: Pubkey,
    /// The bound validator's vote address.
    pub validator_vote: Pubkey,
    /// Address of the primary staked position.
    pub stake_account: Pubkey,
    /// Address of the pending-deposit reserve position.
    pub reserve_stake: Pubkey,
    /// The numeric seed fixing the pool's own derived address.
    pub seed: u64,
    /// Salt of the pool's derived address.
    pub bump: u8,
    /// Salt of the primary stake account's derived address.
    pub stake_bump: u8,
    /// Salt of the mint's derived address.
    pub mint_bump: u8,
    /// Salt of the reserve stake account's derived address.
    pub reserve_bump: u8,
    /// Total outstanding claim-token supply.
    pub lst_supply: u64,
    /// Value deposited but not yet merged into the primary position.
    pub pending_deposits: u64,
    /// Whether the record has been initialized.
    pub is_initialized: bool,
}

/// `p` is the record that the byte string `b` persists.
pub open spec fn spec_pool_matches_bytes(p: PoolState, b: Seq<u8>) -> bool {
    &&& b.len() == POOL_STATE_LEN
    &&& p.discriminator == b[0]
    &&& p.lst_mint@ == b.subrange(1, 33)
    &&& p.authority@ == b.subrange(33, 65)
    &&& p.validator_vote@ == b.subrange(65, 97)
    &&& p.stake_account@ == b.subrange(97, 129)
    &&& p.reserve_stake@ == b.subrange(129, 161)
    &&& p.seed == le_bytes_to_int(b.subrange(161, 169))
    &&& p.bump == b[169]
    &&& p.stake_bump == b[170]
    &&& p.mint_bump == b[171]
    &&& p.reserve_bump == b[172]
    &&& p.lst_supply == le_bytes_to_int(b.subrange(173, 181))
    &&& p.pending_deposits == le_bytes_to_int(b.subrange(181, 189))
    &&& p.is_initialized == (b[189] != 0)
}

/// Copies the 32-byte address at `offset`.
fn read_pubkey(bytes: &[u8], offset: usize) -> (r: Pubkey)
    requires
        offset + 32 <= bytes@.len(),
    ensures
        r@ == bytes@.subrange(offset as int, offset + 32),
{
    let len = bytes.len();
    let mut r: Pubkey = [0; 32];
    let mut i: usize = 0;
    while i < 32
        invariant
            i <= 32,
            offset + 32 <= len == bytes@.len(),
            forall|j: int| 0 <= j < i ==> r@[j] == bytes@[offset + j],
        decreases 32 - i,
    {
        r[i] = bytes[offset + i];
        i += 1;
    }
    proof {
        assert(r@ =~= bytes@.subrange(offset as int, offset + 32));
    }
    r
}

impl PoolState {
    /// Decodes a persisted pool record.
    ///
    /// Succeeds exactly when the byte string has the record's fixed size;
    /// any other size reports `InvalidAccountData`.
    pub fn from_bytes(bytes: &[u8]) -> (r: Result<PoolState, PoolError>)
        ensures
            match r {
                Ok(p) => spec_pool_matches_bytes(p, bytes@),
                Err(e) => e == PoolError::InvalidAccountData && bytes@.len() != POOL_STATE_LEN,
            },
    {
        if bytes.len() != POOL_STATE_LEN {
            return Err(PoolError::InvalidAccountData);
        }
        let p = PoolState {
            discriminator: bytes[0],
            lst_mint: read_pubkey(bytes, 1),
            authority: read_pubkey(bytes, 33),
            validator_vote: read_pubkey(bytes, 65),
            stake_account: read_pubkey(bytes, 97),
            reserve_stake: read_pubkey(bytes, 129),
            seed: read_u64_le(bytes, 161),
            bump: bytes[169],
            stake_bump: bytes[170],
            mint_bump: bytes[171],
            reserve_bump: bytes[172],
            lst_supply: read_u64_le(bytes, 173),
            pending_deposits: read_u64_le(bytes, 181),
            is_initialized: bytes[189] != 0,
        };
        Ok(p)
    }

    /// Encodes the record into its persisted form.
    ///
    /// The result is the unique byte string that decodes back to this
    /// record with a canonical initialization flag.
    pub fn to_bytes(&self) -> (r: Vec<u8>)
        ensures
            spec_pool_matches_bytes(*self, r@),
            r@[189] == (if self.is_initialized {
                1u8
            } else {
                0u8
            }),
    {
        let mut out: Vec<u8> = Vec::new();
        out.push(self.discriminator);
        append_bytes(&mut out, self.lst_mint.as_slice());
        append_bytes(&mut out, self.authority.as_slice());
        append_bytes(&mut out, self.validator_vote.as_slice());
        append_bytes(&mut out, self.stake_account.as_slice());
        append_bytes(&mut out, self.reserve_stake.as_slice());
        write_u64_le(&mut out, self.seed);
        out.push(self.bump);
        out.push(self.stake_bump);
        out.push(self.mint_bump);
        out.push(self.reserve_bump);
        write_u64_le(&mut out, self.lst_supply);
        write_u64_le(&mut out, self.pending_deposits);
        out.push(if self.is_initialized {
            1
        } else {
            0
        });
        proof {
            lemma_pow256_values();
            crate::codec::lemma_int_to_le_bytes_len(self.seed as int, 8);
            crate::codec::lemma_int_to_le_bytes_len(self.lst_supply as int, 8);
            crate::codec::lemma_int_to_le_bytes_len(self.pending_deposits as int, 8);
            lemma_le_round_trip(self.seed as int, 8);
            lemma_le_round_trip(self.lst_supply as int, 8);
            lemma_le_round_trip(self.pending_deposits as int, 8);
            assert(out@.subrange(1, 33) =~= self.lst_mint@);
            assert(out@.subrange(33, 65) =~= self.authority@);
            assert(out@.subrange(65, 97) =~= self.validator_vote@);
            assert(out@.subrange(97, 129) =~= self.stake_account@);
            assert(out@.subrange(129, 161) =~= self.reserve_stake@);
            assert(out@.subrange(161, 169) =~= int_to_le_bytes(self.seed as int, 8));
            assert(out@.subrange(173, 181) =~= int_to_le_bytes(self.lst_supply as int, 8));
            assert(out@.subrange(181, 189) =~= int_to_le_bytes(self.pending_deposits as int, 8));
        }
        out
    }

    /// Fills every field of the record, marking it live.
    ///
    /// The discriminator is set to the live marker and the pending-deposit
    /// counter starts at zero.
    pub fn set_inner(
        &mut self,
        lst_mint: Pubkey,
        authority: Pubkey,
        validator_vote: Pubkey,
        stake_account: Pubkey,
        reserve_stake: Pubkey,
        seed: u64,
        bump: u8,
        stake_bump: u8,
        mint_bump: u8,
        reserve_bump: u8,
        lst_supply: u64,
        is_initialized: bool,
    )
        ensures
            final(self).discriminator == POOL_DISCRIMINATOR,
            final(self).lst_mint == lst_mint,
            final(self).authority == authority,
            final(self).validator_vote == validator_vote,
            final(self).stake_account == stake_account,
            final(self).reserve_stake == reserve_stake,
            final(self).seed == seed,
            final(self).bump == bump,
            final(self).stake_bump == stake_bump,
            final(self).mint_bump == mint_bump,
            final(self).reserve_bump == reserve_bump,
            final(self).lst_supply == lst_supply,
            final(self).pending_deposits == 0,
            final(self).is_initialized == is_initialized,
    {
        self.discriminator = POOL_DISCRIMINATOR;
        self.lst_mint = lst_mint;
        self.authority = authority;
        self.validator_vote = validator_vote;
        self.stake_account = stake_account;
        self.reserve_stake = reserve_stake;
        self.seed = seed;
        self.bump = bump;
        self.stake_bump = stake_bump;
        self.mint_bump = mint_bump;
        self.reserve_bump = reserve_bump;
        self.lst_supply = lst_supply;
        self.pending_deposits = 0;
        self.is_initialized = is_initialized;
    }

    /// The record's identity discriminator.
    pub fn discriminator(&self) -> (r: u8)
        ensures
            r == self.discriminator,
    {
        self.discriminator
    }

    /// Address of the claim-token mint.
    pub fn lst_mint(&self) -> (r: Pubkey)
        ensures
            r == self.lst_mint,
    {
        self.lst_mint
    }

    /// The pool authority.
    pub fn authority(&self) -> (r: Pubkey)
        ensures
            r == self.authority,
    {
        self.authority
    }

    /// The bound validator's vote address.
    pub fn validator_vote(&self) -> (r: Pubkey)
        ensures
            r == self.validator_vote,
    {
        self.validator_vote
    }

    /// Address of the primary staked position.
    pub fn stake_account(&self) -> (r: Pubkey)
        ensures
            r == self.stake_account,
    {
        self.stake_account
    }

    /// Address of the reserve position.
    pub fn reserve_stake(&self) -> (r: Pubkey)
        ensures
            r == self.reserve_stake,
    {
        self.reserve_stake
    }

    /// The pool's numeric seed.
    pub fn seed(&self) -> (r: u64)
        ensures
            r == self.seed,
    {
        self.seed
    }

    /// Salt of the pool's derived address.
    pub fn bump(&self) -> (r: u8)
        ensures
            r == self.bump,
    {
        self.bump
    }

    /// Salt of the primary stake position's derived address.
    pub fn stake_bump(&self) -> (r: u8)
        ensures
            r == self.stake_bump,
    {
        self.stake_bump
    }

    /// Salt of the mint's derived address.
    pub fn mint_bump(&self) -> (r: u8)
        ensures
            r == self.mint_bump,
    {
        self.mint_bump
    }

    /// Salt of the reserve position's derived address.
    pub fn reserve_bump(&self) -> (r: u8)
        ensures
            r == self.reserve_bump,
    {
        self.reserve_bump
    }

    /// Total outstanding claim-token supply.
    pub fn lst_supply(&self) -> (r: u64)
        ensures
            r == self.lst_supply,
    {
        self.lst_supply
    }

    /// Value deposited but not yet merged into the primary position.
    pub fn pending_deposits(&self) -> (r: u64)
        ensures
            r == self.pending_deposits,
    {
        self.pending_deposits
    }

    /// Whether the record has been initialized.
    pub fn is_initialized(&self) -> (r: bool)
        ensures
            r == self.is_initialized,
    {
        self.is_initialized
    }

    /// Records a settled deposit: the claim-token supply grows by the
    /// minted amount. Fails with `ArithmeticOverflow`, changing nothing,
    /// when the supply counter cannot hold the sum.
    pub fn record_deposit(&mut self, minted: u64) -> (r: Result<(), PoolError>)
        ensures
            match r {
                Ok(()) => {
                    &&& old(self).lst_supply + minted <= u64::MAX
                    &&& *final(self) == (PoolState { lst_supply: (old(self).lst_supply + minted) as u64, ..*old(self) })
                },
                Err(e) => {
                    &&& e == PoolError::ArithmeticOverflow
                    &&& old(self).lst_supply + minted > u64::MAX
                    &&& *final(self) == *old(self)
                },
            },
    {
        match self.lst_supply.checked_add(minted) {
            Some(s) => {
                self.lst_supply = s;
                Ok(())
            },
            None => Err(PoolError::ArithmeticOverflow),
        }
    }

    /// Records a settled withdrawal: the claim-token supply shrinks by the
    /// burned amount. Fails with `ArithmeticOverflow`, changing nothing,
    /// when more is burned than is outstanding — that would mean the ledger
    /// itself is corrupt, not a caller error.
    pub fn record_withdrawal(&mut self, burned: u64) -> (r: Result<(), PoolError>)
        ensures
            match r {
                Ok(()) => {
                    &&& burned <= old(self).lst_supply
                    &&& *final(self) == (PoolState { lst_supply: (old(self).lst_supply - burned) as u64, ..*old(self) })
                },
                Err(e) => {
                    &&& e == PoolError::ArithmeticOverflow
                    &&& burned > old(self).lst_supply
                    &&& *final(self) == *old(self)
                },
            },
    {
        match self.lst_supply.checked_sub(burned) {
            Some(s) => {
                self.lst_supply = s;
                Ok(())
            },
            None => Err(PoolError::ArithmeticOverflow),
        }
    }

    /// Records value merged out of staging into the primary position: the
    /// pending-deposit counter shrinks by the settled value, saturating
    /// at zero.
    pub fn record_merge_settled(&mut self, settled: u64)
        ensures
            *final(self) == (PoolState {
                pending_deposits: if settled <= old(self).pending_deposits {
                    (old(self).pending_deposits - settled) as u64
                } else {
                    0u64
                },
                ..*old(self)
            }),
    {
        self.pending_deposits = self.pending_deposits.saturating_sub(settled);
    }
}

/// Two records persisted by the same byte string agree on every field.
pub proof fn lemma_pool_bytes_determine_fields(p: PoolState, q: PoolState, b: Seq<u8>)
    requires
        spec_pool_matches_bytes(p, b),
        spec_pool_matches_bytes(q, b),
    ensures
        p.discriminator == q.discriminator,
        p.lst_mint@ == q.lst_mint@,
        p.authority@ == q.authority@,
        p.validator_vote@ == q.validator_vote@,
        p.stake_account@ == q.stake_account@,
        p.reserve_stake@ == q.reserve_stake@,
        p.seed == q.seed,
        p.bump == q.bump,
        p.stake_bump == q.stake_bump,
        p.mint_bump == q.mint_bump,
        p.reserve_bump == q.reserve_bump,
        p.lst_supply == q.lst_supply,
        p.pending_deposits == q.pending_deposits,
        p.is_initialized == q.is_initialized,
{
}

/// A record determines its persisted byte string: two byte strings that
/// persist the same record, each with a canonical initialization flag,
/// are equal.
pub proof fn lemma_pool_bytes_unique(p: PoolState, b1: Seq<u8>, b2: Seq<u8>)
    requires
        spec_pool_matches_bytes(p, b1),
        spec_pool_matches_bytes(p, b2),
        b1[189] == 0 || b1[189] == 1,
        b2[189] == 0 || b2[189] == 1,
    ensures
        b1 == b2,
{
    crate::codec::lemma_le_bytes_round_trip(b1.subrange(161, 169));
    crate::codec::lemma_le_bytes_round_trip(b2.subrange(161, 169));
    crate::codec::lemma_le_bytes_round_trip(b1.subrange(173, 181));
    crate::codec::lemma_le_bytes_round_trip(b2.subrange(173, 181));
    crate::codec::lemma_le_bytes_round_trip(b1.subrange(181, 189));
    crate::codec::lemma_le_bytes_round_trip(b2.subrange(181, 189));
    assert forall|i: int| 0 <= i < 190 implies b1[i] == b2[i] by {
        if 1 <= i < 33 {
            assert(b1[i] == b1.subrange(1, 33)[i - 1]);
            assert(b2[i] == b2.subrange(1, 33)[i - 1]);
        } else if 33 <= i < 65 {
            assert(b1[i] == b1.subrange(33, 65)[i - 33]);
            assert(b2[i] == b2.subrange(33, 65)[i - 33]);
        } else if 65 <= i < 97 {
            assert(b1[i] == b1.subrange(65, 97)[i - 65]);
            assert(b2[i] == b2.subrange(65, 97)[i - 65]);
        } else if 97 <= i < 129 {
            assert(b1[i] == b1.subrange(97, 129)[i - 97]);
            assert(b2[i] == b2.subrange(97, 129)[i - 97]);
        } else if 129 <= i < 161 {
            assert(b1[i] == b1.subrange(129, 161)[i - 129]);
            assert(b2[i] == b2.subrange(129, 161)[i - 129]);
        } else if 161 <= i < 169 {
            assert(b1.subrange(161, 169) =~= b2.subrange(161, 169));
            assert(b1[i] == b1.subrange(161, 169)[i - 161]);
        } else if 173 <= i < 181 {
            assert(b1.subrange(173, 181) =~= b2.subrange(173, 181));
            assert(b1[i] == b1.subrange(173, 181)[i - 173]);
        } else if 181 <= i < 189 {
            assert(b1.subrange(181, 189) =~= b2.subrange(181, 189));
            assert(b1[i] == b1.subrange(181, 189)[i - 181]);
        }
    }
    assert(b1 =~= b2);
}

} // verus!
