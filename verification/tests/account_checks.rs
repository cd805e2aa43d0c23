use dispute_resolution::accounts::{
    decimal_bytes, find_juror_entry_address, find_master_edition_address, find_metadata_address,
    find_settings_address, CastVote, ClaimStake, ConstraintError, DrawJurors, JoinJuror,
    RaiseDispute, RemoveJurorEntry, SetSettings, TokenAccountInfo,
};
use dispute_resolution::pubkey::Pubkey;
use dispute_resolution::state::{metadata_program_id, Settings};

fn key(b: u8) -> Pubkey {
    Pubkey::new_from_array([b; 32])
}

fn anchor(k: Pubkey) -> anchor_lang::prelude::Pubkey {
    anchor_lang::prelude::Pubkey::new_from_array(k.to_bytes())
}

fn settings() -> Settings {
    let mut s = Settings::default();
    s.master_admin = key(1);
    s.admin = key(2);
    s.court_token = key(3);
    s.court_treasury_token_account = key(4);
    s.raise_dispute_fee = 10;
    s
}

fn token(k: u8, mint: u8, owner: u8, amount: u64) -> TokenAccountInfo {
    TokenAccountInfo { key: key(k), mint: key(mint), owner: key(owner), amount }
}

#[test]
fn decimal_spells_numbers_like_to_string() {
    for n in [0u16, 7, 10, 42, 999, 1000, 65535] {
        assert_eq!(decimal_bytes(n), n.to_string().into_bytes());
    }
}

#[test]
fn settings_address_is_derived_from_its_seed() {
    let program = key(9);
    let (expected, bump) =
        anchor_lang::prelude::Pubkey::find_program_address(&[b"settings"], &anchor(program));
    let (got, got_bump) = find_settings_address(&program).unwrap();
    assert_eq!(anchor(got), expected);
    assert_eq!(got_bump, bump);
}

#[test]
fn juror_entry_address_uses_the_decimal_number() {
    let program = key(9);
    let dispute = key(8);
    let (expected, _) = anchor_lang::prelude::Pubkey::find_program_address(
        &[b"juror", anchor(dispute).as_ref(), 12u16.to_string().as_ref()],
        &anchor(program),
    );
    let (got, _) = find_juror_entry_address(&program, &dispute, 12).unwrap();
    assert_eq!(anchor(got), expected);
    let (other, _) = find_juror_entry_address(&program, &dispute, 13).unwrap();
    assert!(other != got);
}

#[test]
fn metadata_addresses_are_derived_under_the_metadata_program() {
    let program = metadata_program_id();
    let mint = key(5);
    let (md, _) = anchor_lang::prelude::Pubkey::find_program_address(
        &[b"metadata", anchor(program).as_ref(), anchor(mint).as_ref()],
        &anchor(program),
    );
    let (ed, _) = anchor_lang::prelude::Pubkey::find_program_address(
        &[b"metadata", anchor(program).as_ref(), anchor(mint).as_ref(), b"edition"],
        &anchor(program),
    );
    assert_eq!(anchor(find_metadata_address(&program, &mint).unwrap().0), md);
    assert_eq!(anchor(find_master_edition_address(&program, &mint).unwrap().0), ed);
}

#[test]
fn set_settings_needs_master_admin() {
    let ctx = SetSettings { settings: key(20), settings_data: settings(), master_admin: key(1) };
    assert_eq!(ctx.check(&key(20)), Ok(()));
    assert_eq!(ctx.check(&key(21)), Err(ConstraintError::ConstraintSeeds));
    let ctx = SetSettings { settings: key(20), settings_data: settings(), master_admin: key(2) };
    assert_eq!(ctx.check(&key(20)), Err(ConstraintError::ConstraintAddress));
}

#[test]
fn raise_dispute_needs_fee_in_court_token() {
    let ok = RaiseDispute {
        payer: key(6),
        payer_token_account: token(7, 3, 6, 10),
        settings: key(20),
        settings_data: settings(),
        court_treasury_token_account: key(4),
        mint: key(3),
    };
    assert_eq!(ok.check(&key(20)), Ok(()));
    let poor = RaiseDispute { payer_token_account: token(7, 3, 6, 9), ..ok };
    assert_eq!(poor.check(&key(20)), Err(ConstraintError::ConstraintRaw));
}

#[test]
fn raise_dispute_checks_in_order() {
    let base = || RaiseDispute {
        payer: key(6),
        payer_token_account: token(7, 3, 6, 10),
        settings: key(20),
        settings_data: settings(),
        court_treasury_token_account: key(4),
        mint: key(3),
    };
    let wrong_owner = RaiseDispute { payer_token_account: token(7, 3, 5, 10), ..base() };
    assert_eq!(wrong_owner.check(&key(20)), Err(ConstraintError::ConstraintRaw));
    assert_eq!(base().check(&key(21)), Err(ConstraintError::ConstraintSeeds));
    let wrong_treasury = RaiseDispute { court_treasury_token_account: key(40), ..base() };
    assert_eq!(wrong_treasury.check(&key(20)), Err(ConstraintError::ConstraintAddress));
    let wrong_mint = RaiseDispute { mint: key(30), payer_token_account: token(7, 30, 6, 10), ..base() };
    assert_eq!(wrong_mint.check(&key(20)), Err(ConstraintError::ConstraintAddress));
}

#[test]
fn join_juror_checks() {
    let base = || JoinJuror {
        required_stake_amount: 50,
        juror: key(6),
        juror_nft_mint: key(11),
        juror_nft_token_account: token(12, 11, 6, 1),
        juror_nft_metadata_account: key(13),
        juror_nft_master_edition_account: key(14),
        juror_token_account: token(15, 3, 6, 50),
        settings: key(20),
        settings_data: settings(),
        court_treasury_token_account: key(4),
        mint: key(3),
        token_metadata_program: metadata_program_id(),
    };
    assert_eq!(base().check(&key(13), &key(14), &key(20)), Ok(()));
    let two = JoinJuror { juror_nft_token_account: token(12, 11, 6, 2), ..base() };
    assert_eq!(two.check(&key(13), &key(14), &key(20)), Err(ConstraintError::ConstraintRaw));
    assert_eq!(base().check(&key(99), &key(14), &key(20)), Err(ConstraintError::ConstraintSeeds));
    assert_eq!(base().check(&key(13), &key(99), &key(20)), Err(ConstraintError::ConstraintSeeds));
    let poor = JoinJuror { juror_token_account: token(15, 3, 6, 49), ..base() };
    assert_eq!(poor.check(&key(13), &key(14), &key(20)), Err(ConstraintError::ConstraintRaw));
    let other_program = JoinJuror { token_metadata_program: key(77), ..base() };
    assert_eq!(other_program.check(&key(13), &key(14), &key(20)), Err(ConstraintError::ConstraintAddress));
}

#[test]
fn only_admin_draws_and_removes() {
    let d = DrawJurors { payer: key(2), settings: key(20), settings_data: settings() };
    assert_eq!(d.check(&key(20)), Ok(()));
    let d = DrawJurors { payer: key(1), settings: key(20), settings_data: settings() };
    assert_eq!(d.check(&key(21)), Err(ConstraintError::ConstraintAddress));
    let r = RemoveJurorEntry { payer: key(2), settings: key(20), settings_data: settings() };
    assert_eq!(r.check(&key(21)), Err(ConstraintError::ConstraintSeeds));
    assert_eq!(r.check(&key(20)), Ok(()));
}

#[test]
fn vote_and_claim_need_the_derived_entry() {
    let v = CastVote { juror_reservation_entry: key(30) };
    assert_eq!(v.check(&key(30)), Ok(()));
    assert_eq!(v.check(&key(31)), Err(ConstraintError::ConstraintSeeds));
    let c = ClaimStake {
        juror_reservation_entry: key(30),
        juror: key(6),
        juror_token_account: token(15, 3, 6, 0),
        settings: key(20),
        settings_data: settings(),
        court_treasury_token_account: key(4),
        mint: key(3),
    };
    assert_eq!(c.check(&key(30), &key(20)), Ok(()));
    assert_eq!(c.check(&key(31), &key(20)), Err(ConstraintError::ConstraintSeeds));
    let stranger = ClaimStake { juror_token_account: token(15, 3, 7, 0), ..c };
    assert_eq!(stranger.check(&key(30), &key(20)), Err(ConstraintError::ConstraintRaw));
}
