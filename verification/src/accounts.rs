//! The checks an instruction's accounts must pass before it runs: the
//! addresses the program derives for its own accounts, who may sign, and what
//! the token accounts hold. Each context lists what the checks read; the
//! addresses that are derived from seeds come from the `find_*` functions.

use vstd::prelude::*;

use crate::pubkey::Pubkey;
use crate::solana::{program_address, seeds_view, try_find_program_address};
use crate::state::{
    metadata_program_id, metadata_program_id_spec, Settings, EDITION_PDA, JUROR_PDA, METADATA_PDA,
    SETTINGS_PDA,
};
use vstd::string::StringSliceAdditionalSpecFns;

verus! {

/// Which kind of account check failed.
#[derive(PartialEq, Eq, Structural, Clone, Copy, Debug)]
pub enum ConstraintError {
    /// An account is not at the address derived from its seeds.
    ConstraintSeeds,
    /// An account is not at the address it must have.
    ConstraintAddress,
    /// A condition on an account's contents does not hold.
    ConstraintRaw,
}

/// What the checks read of an SPL token account.
#[derive(Clone, Copy, Debug)]
pub struct TokenAccountInfo {
    pub key: Pubkey,
    pub mint: Pubkey,
    pub owner: Pubkey,
    pub amount: u64,
}

// ---------------------------------------------------------------- seeds

/// The decimal digits of `n` as ASCII bytes, most significant first.
pub open spec fn decimal(n: nat) -> Seq<u8>
    decreases n,
{
    if n < 10 {
        seq![(48 + n) as u8]
    } else {
        decimal(n / 10).push((48 + n % 10) as u8)
    }
}

/// The decimal digits of `n` as ASCII bytes, as `n.to_string()` spells it.
pub fn decimal_bytes(n: u16) -> (r: Vec<u8>)
    ensures
        r@ == decimal(n as nat),
    decreases n,
{
    if n < 10 {
        vec![48u8 + n as u8]
    } else {
        let mut r = decimal_bytes(n / 10);
        r.push(48u8 + (n % 10) as u8);
        r
    }
}

/// Address of the settings account, derived from `SETTINGS_PDA`.
pub fn find_settings_address(program_id: &Pubkey) -> (r: Option<(Pubkey, u8)>)
    ensures
        r == program_address(seq![SETTINGS_PDA.spec_bytes()], *program_id),
{
    let seeds = vec![vstd::slice::slice_to_vec(SETTINGS_PDA.as_bytes())];
    assert(seeds_view(seeds@) =~= seq![SETTINGS_PDA.spec_bytes()]);
    try_find_program_address(&seeds, program_id)
}

/// Address of the reservation entry of the juror numbered `juror_id` on a
/// dispute: derived from `JUROR_PDA`, the dispute's address and the number in
/// decimal.
pub fn find_juror_entry_address(program_id: &Pubkey, dispute: &Pubkey, juror_id: u16) -> (r:
    Option<(Pubkey, u8)>)
    ensures
        r == program_address(
            seq![JUROR_PDA.spec_bytes(), dispute.bytes@, decimal(juror_id as nat)],
            *program_id,
        ),
{
    let seeds = vec![
        vstd::slice::slice_to_vec(JUROR_PDA.as_bytes()),
        vstd::slice::slice_to_vec(vstd::array::array_as_slice(&dispute.bytes)),
        decimal_bytes(juror_id),
    ];
    assert(seeds_view(seeds@) =~= seq![JUROR_PDA.spec_bytes(), dispute.bytes@, decimal(juror_id as nat)]);
    try_find_program_address(&seeds, program_id)
}

/// Address of an NFT's metadata account under a token-metadata program:
/// derived, under `program`, from `METADATA_PDA`, the program's address and
/// the NFT's mint.
pub fn find_metadata_address(program: &Pubkey, mint: &Pubkey) -> (r: Option<(Pubkey, u8)>)
    ensures
        r == program_address(
            seq![METADATA_PDA.spec_bytes(), program.bytes@, mint.bytes@],
            *program,
        ),
{
    let seeds = vec![
        vstd::slice::slice_to_vec(METADATA_PDA.as_bytes()),
        vstd::slice::slice_to_vec(vstd::array::array_as_slice(&program.bytes)),
        vstd::slice::slice_to_vec(vstd::array::array_as_slice(&mint.bytes)),
    ];
    assert(seeds_view(seeds@) =~= seq![METADATA_PDA.spec_bytes(), program.bytes@, mint.bytes@]);
    try_find_program_address(&seeds, program)
}

/// Address of an NFT's master edition account under a token-metadata program:
/// derived, under `program`, from `METADATA_PDA`, the program's address, the
/// NFT's mint and `EDITION_PDA`.
pub fn find_master_edition_address(program: &Pubkey, mint: &Pubkey) -> (r: Option<(Pubkey, u8)>)
    ensures
        r == program_address(
            seq![METADATA_PDA.spec_bytes(), program.bytes@, mint.bytes@, EDITION_PDA.spec_bytes()],
            *program,
        ),
{
    let seeds = vec![
        vstd::slice::slice_to_vec(METADATA_PDA.as_bytes()),
        vstd::slice::slice_to_vec(vstd::array::array_as_slice(&program.bytes)),
        vstd::slice::slice_to_vec(vstd::array::array_as_slice(&mint.bytes)),
        vstd::slice::slice_to_vec(EDITION_PDA.as_bytes()),
    ];
    assert(seeds_view(seeds@) =~= seq![
        METADATA_PDA.spec_bytes(),
        program.bytes@,
        mint.bytes@,
        EDITION_PDA.spec_bytes(),
    ]);
    try_find_program_address(&seeds, program)
}

// ---------------------------------------------------------------- contexts

/// The result that the first failed check, if any, gives.
pub open spec fn checked(v: Option<ConstraintError>) -> Result<(), ConstraintError> {
    match v {
        Some(e) => Err(e),
        None => Ok(()),
    }
}

/// Checks on a token account that must belong to `owner`, hold tokens of
/// `mint`, and hold at least `amount` of them.
pub open spec fn token_account_violation(
    t: TokenAccountInfo,
    amount: u64,
    mint: Pubkey,
    owner: Pubkey,
) -> Option<ConstraintError> {
    if t.amount < amount {
        Some(ConstraintError::ConstraintRaw)
    } else if t.mint != mint {
        Some(ConstraintError::ConstraintRaw)
    } else if t.owner != owner {
        Some(ConstraintError::ConstraintRaw)
    } else {
        None
    }
}

/// Checks a token account: `token_account_violation`, in that order.
fn check_token_account(t: &TokenAccountInfo, amount: u64, mint: &Pubkey, owner: &Pubkey) -> (r:
    Result<(), ConstraintError>)
    ensures
        r == checked(token_account_violation(*t, amount, *mint, *owner)),
{
    if t.amount < amount {
        return Err(ConstraintError::ConstraintRaw);
    }
    if t.mint != *mint {
        return Err(ConstraintError::ConstraintRaw);
    }
    if t.owner != *owner {
        return Err(ConstraintError::ConstraintRaw);
    }
    Ok(())
}

/// Checks that an account is at the address derived from its seeds.
fn check_seeds(key: &Pubkey, derived: &Pubkey) -> (r: Result<(), ConstraintError>)
    ensures
        r == (if *key != *derived {
            Err::<(), ConstraintError>(ConstraintError::ConstraintSeeds)
        } else {
            Ok(())
        }),
{
    if *key != *derived {
        Err(ConstraintError::ConstraintSeeds)
    } else {
        Ok(())
    }
}

/// Checks that an account is at the address it must have.
fn check_address(key: &Pubkey, expected: &Pubkey) -> (r: Result<(), ConstraintError>)
    ensures
        r == (if *key != *expected {
            Err::<(), ConstraintError>(ConstraintError::ConstraintAddress)
        } else {
            Ok(())
        }),
{
    if *key != *expected {
        Err(ConstraintError::ConstraintAddress)
    } else {
        Ok(())
    }
}

/// Accounts of `set_settings`: the settings, and the master administrator who signs.
pub struct SetSettings {
    pub settings: Pubkey,
    pub settings_data: Settings,
    pub master_admin: Pubkey,
}

impl SetSettings {
    /// The first failed check, given the settings address derived from its seed.
    pub open spec fn violation(&self, settings_address: Pubkey) -> Option<ConstraintError> {
        if self.settings != settings_address {
            Some(ConstraintError::ConstraintSeeds)
        } else if self.master_admin != self.settings_data.master_admin {
            Some(ConstraintError::ConstraintAddress)
        } else {
            None
        }
    }

    /// Checks the accounts in order: the settings are at their derived address,
    /// and the signer is their master administrator.
    pub fn check(&self, settings_address: &Pubkey) -> (r: Result<(), ConstraintError>)
        ensures
            r == checked(self.violation(*settings_address)),
    {
        check_seeds(&self.settings, settings_address)?;
        check_address(&self.master_admin, &self.settings_data.master_admin)
    }
}

/// Accounts of `raise_dispute` that the checks read.
pub struct RaiseDispute {
    pub payer: Pubkey,
    pub payer_token_account: TokenAccountInfo,
    pub settings: Pubkey,
    pub settings_data: Settings,
    pub court_treasury_token_account: Pubkey,
    pub mint: Pubkey,
}

impl RaiseDispute {
    /// The first failed check, given the settings address derived from its seed.
    pub open spec fn violation(&self, settings_address: Pubkey) -> Option<ConstraintError> {
        if token_account_violation(
            self.payer_token_account,
            self.settings_data.raise_dispute_fee,
            self.mint,
            self.payer,
        ) is Some {
            token_account_violation(
                self.payer_token_account,
                self.settings_data.raise_dispute_fee,
                self.mint,
                self.payer,
            )
        } else if self.settings != settings_address {
            Some(ConstraintError::ConstraintSeeds)
        } else if self.court_treasury_token_account
            != self.settings_data.court_treasury_token_account {
            Some(ConstraintError::ConstraintAddress)
        } else if self.mint != self.settings_data.court_token {
            Some(ConstraintError::ConstraintAddress)
        } else {
            None
        }
    }

    /// Checks the accounts in order: the payer's token account holds the fee in
    /// the court token and belongs to the payer; the settings are at their
    /// derived address; the treasury and the mint are the court's.
    pub fn check(&self, settings_address: &Pubkey) -> (r: Result<(), ConstraintError>)
        ensures
            r == checked(self.violation(*settings_address)),
    {
        check_token_account(
            &self.payer_token_account,
            self.settings_data.raise_dispute_fee,
            &self.mint,
            &self.payer,
        )?;
        check_seeds(&self.settings, settings_address)?;
        check_address(
            &self.court_treasury_token_account,
            &self.settings_data.court_treasury_token_account,
        )?;
        check_address(&self.mint, &self.settings_data.court_token)
    }
}

/// Accounts of `join_juror` that the checks read.
pub struct JoinJuror {
    pub required_stake_amount: u64,
    pub juror: Pubkey,
    pub juror_nft_mint: Pubkey,
    pub juror_nft_token_account: TokenAccountInfo,
    pub juror_nft_metadata_account: Pubkey,
    pub juror_nft_master_edition_account: Pubkey,
    pub juror_token_account: TokenAccountInfo,
    pub settings: Pubkey,
    pub settings_data: Settings,
    pub court_treasury_token_account: Pubkey,
    pub mint: Pubkey,
    pub token_metadata_program: Pubkey,
}

/// Checks on the NFT's token account: it holds exactly one token of the NFT's
/// mint and belongs to the juror.
pub open spec fn nft_account_violation(t: TokenAccountInfo, nft_mint: Pubkey, juror: Pubkey) -> Option<
    ConstraintError,
> {
    if t.amount != 1 || t.mint != nft_mint || t.owner != juror {
        Some(ConstraintError::ConstraintRaw)
    } else {
        None
    }
}

impl JoinJuror {
    /// The first failed check, given the addresses derived for the metadata,
    /// the master edition and the settings.
    pub open spec fn violation(
        &self,
        metadata_address: Pubkey,
        master_edition_address: Pubkey,
        settings_address: Pubkey,
    ) -> Option<ConstraintError> {
        let stake = token_account_violation(
            self.juror_token_account,
            self.required_stake_amount,
            self.mint,
            self.juror,
        );
        if nft_account_violation(self.juror_nft_token_account, self.juror_nft_mint, self.juror) is Some {
            Some(ConstraintError::ConstraintRaw)
        } else if self.juror_nft_metadata_account != metadata_address {
            Some(ConstraintError::ConstraintSeeds)
        } else if self.juror_nft_master_edition_account != master_edition_address {
            Some(ConstraintError::ConstraintSeeds)
        } else if stake is Some {
            stake
        } else if self.settings != settings_address {
            Some(ConstraintError::ConstraintSeeds)
        } else if self.court_treasury_token_account
            != self.settings_data.court_treasury_token_account {
            Some(ConstraintError::ConstraintAddress)
        } else if self.mint != self.settings_data.court_token {
            Some(ConstraintError::ConstraintAddress)
        } else if self.token_metadata_program != metadata_program_id_spec() {
            Some(ConstraintError::ConstraintAddress)
        } else {
            None
        }
    }

    /// Checks the accounts in order: the juror holds the NFT; the metadata and
    /// master edition are the NFT's; the juror's token account holds the stake
    /// in the court token; the settings are at their derived address; the
    /// treasury, the mint and the metadata program are the court's.
    pub fn check(
        &self,
        metadata_address: &Pubkey,
        master_edition_address: &Pubkey,
        settings_address: &Pubkey,
    ) -> (r: Result<(), ConstraintError>)
        ensures
            r == checked(
                self.violation(*metadata_address, *master_edition_address, *settings_address),
            ),
    {
        let nft = &self.juror_nft_token_account;
        if nft.amount != 1 || nft.mint != self.juror_nft_mint || nft.owner != self.juror {
            return Err(ConstraintError::ConstraintRaw);
        }
        check_seeds(&self.juror_nft_metadata_account, metadata_address)?;
        check_seeds(&self.juror_nft_master_edition_account, master_edition_address)?;
        check_token_account(
            &self.juror_token_account,
            self.required_stake_amount,
            &self.mint,
            &self.juror,
        )?;
        check_seeds(&self.settings, settings_address)?;
        check_address(
            &self.court_treasury_token_account,
            &self.settings_data.court_treasury_token_account,
        )?;
        check_address(&self.mint, &self.settings_data.court_token)?;
        check_address(&self.token_metadata_program, &metadata_program_id())
    }
}

/// Accounts of `draw_jurors` that the checks read: the administrator signs.
pub struct DrawJurors {
    pub payer: Pubkey,
    pub settings: Pubkey,
    pub settings_data: Settings,
}

impl DrawJurors {
    /// The first failed check, given the settings address derived from its seed.
    pub open spec fn violation(&self, settings_address: Pubkey) -> Option<ConstraintError> {
        if self.payer != self.settings_data.admin {
            Some(ConstraintError::ConstraintAddress)
        } else if self.settings != settings_address {
            Some(ConstraintError::ConstraintSeeds)
        } else {
            None
        }
    }

    /// Checks the accounts in order: the signer is the administrator, and the
    /// settings are at their derived address.
    pub fn check(&self, settings_address: &Pubkey) -> (r: Result<(), ConstraintError>)
        ensures
            r == checked(self.violation(*settings_address)),
    {
        check_address(&self.payer, &self.settings_data.admin)?;
        check_seeds(&self.settings, settings_address)
    }
}

/// Accounts of `remove_juror_entry` that the checks read: the administrator signs.
pub struct RemoveJurorEntry {
    pub payer: Pubkey,
    pub settings: Pubkey,
    pub settings_data: Settings,
}

impl RemoveJurorEntry {
    /// The first failed check, given the settings address derived from its seed.
    pub open spec fn violation(&self, settings_address: Pubkey) -> Option<ConstraintError> {
        if self.payer != self.settings_data.admin {
            Some(ConstraintError::ConstraintAddress)
        } else if self.settings != settings_address {
            Some(ConstraintError::ConstraintSeeds)
        } else {
            None
        }
    }

    /// Checks the accounts in order: the signer is the administrator, and the
    /// settings are at their derived address.
    pub fn check(&self, settings_address: &Pubkey) -> (r: Result<(), ConstraintError>)
        ensures
            r == checked(self.violation(*settings_address)),
    {
        check_address(&self.payer, &self.settings_data.admin)?;
        check_seeds(&self.settings, settings_address)
    }
}

/// Accounts of `cast_vote` that the checks read: the voter's reservation entry.
pub struct CastVote {
    pub juror_reservation_entry: Pubkey,
}

impl CastVote {
    /// The first failed check, given the entry address derived for the juror number.
    pub open spec fn violation(&self, entry_address: Pubkey) -> Option<ConstraintError> {
        if self.juror_reservation_entry != entry_address {
            Some(ConstraintError::ConstraintSeeds)
        } else {
            None
        }
    }

    /// Checks that the reservation entry is the one derived for the juror number.
    pub fn check(&self, entry_address: &Pubkey) -> (r: Result<(), ConstraintError>)
        ensures
            r == checked(self.violation(*entry_address)),
    {
        check_seeds(&self.juror_reservation_entry, entry_address)
    }
}

/// Accounts of `claim_stake` that the checks read.
pub struct ClaimStake {
    pub juror_reservation_entry: Pubkey,
    pub juror: Pubkey,
    pub juror_token_account: TokenAccountInfo,
    pub settings: Pubkey,
    pub settings_data: Settings,
    pub court_treasury_token_account: Pubkey,
    pub mint: Pubkey,
}

impl ClaimStake {
    /// The first failed check, given the derived entry and settings addresses.
    pub open spec fn violation(&self, entry_address: Pubkey, settings_address: Pubkey) -> Option<
        ConstraintError,
    > {
        if self.juror_reservation_entry != entry_address {
            Some(ConstraintError::ConstraintSeeds)
        } else if self.juror_token_account.mint != self.mint
            || self.juror_token_account.owner != self.juror {
            Some(ConstraintError::ConstraintRaw)
        } else if self.settings != settings_address {
            Some(ConstraintError::ConstraintSeeds)
        } else if self.court_treasury_token_account
            != self.settings_data.court_treasury_token_account {
            Some(ConstraintError::ConstraintAddress)
        } else if self.mint != self.settings_data.court_token {
            Some(ConstraintError::ConstraintAddress)
        } else {
            None
        }
    }

    /// Checks the accounts in order: the entry is the one derived for the juror
    /// number; the juror's token account holds the court token and belongs to
    /// the juror; the settings are at their derived address; the treasury and
    /// the mint are the court's.
    pub fn check(&self, entry_address: &Pubkey, settings_address: &Pubkey) -> (r: Result<
        (),
        ConstraintError,
    >)
        ensures
            r == checked(self.violation(*entry_address, *settings_address)),
    {
        check_seeds(&self.juror_reservation_entry, entry_address)?;
        check_token_account(&self.juror_token_account, 0, &self.mint, &self.juror)?;
        check_seeds(&self.settings, settings_address)?;
        check_address(
            &self.court_treasury_token_account,
            &self.settings_data.court_treasury_token_account,
        )?;
        check_address(&self.mint, &self.settings_data.court_token)
    }
}

} // verus!
