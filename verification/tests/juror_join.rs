use dispute_resolution::errors::{CourtError, InstructionError};
use dispute_resolution::instructions::{
    approve_dispute, cast_vote, claim_stake, draw_jurors, join_juror, join_party, raise_dispute,
    try_join_juror,
};
use dispute_resolution::metadata::MAX_METADATA_LEN;
use dispute_resolution::pubkey::Pubkey;
use dispute_resolution::state::{
    Dispute, DisputeStatus, Juror, JurorOpinion, JurorReservationEntry, Party, Settings,
};

fn key(b: u8) -> Pubkey {
    Pubkey::new_from_array([b; 32])
}

fn push_str(out: &mut Vec<u8>, s: &str) {
    out.extend_from_slice(&(s.len() as u32).to_le_bytes());
    out.extend_from_slice(s.as_bytes());
}

/// Borsh bytes of a metadata account listing `creators`, padded to the account length.
fn metadata_bytes(creators: Option<&[(u8, bool)]>) -> Vec<u8> {
    let mut out = vec![4u8];
    out.extend_from_slice(&[1u8; 32]);
    out.extend_from_slice(&[2u8; 32]);
    push_str(&mut out, "Juror");
    push_str(&mut out, "JRR");
    push_str(&mut out, "https://example.org/j.json");
    out.extend_from_slice(&500u16.to_le_bytes());
    match creators {
        None => out.push(0),
        Some(cs) => {
            out.push(1);
            out.extend_from_slice(&(cs.len() as u32).to_le_bytes());
            for (b, verified) in cs {
                out.extend_from_slice(&[*b; 32]);
                out.push(*verified as u8);
                out.push(100);
            }
        }
    }
    out.push(0);
    out.push(1);
    out.push(0);
    out.resize(MAX_METADATA_LEN, 0);
    out
}

const EDITION: [u8; 4] = [6, 0, 0, 0];

fn settings() -> Settings {
    let mut s = Settings::default();
    s.juror_creator = key(50);
    s
}

fn approved(stake: u64) -> Dispute {
    let mut d = Dispute::default();
    d.applicants = vec![];
    let mut data = Dispute::default();
    data.applicants = vec![Party {
        address: key(1),
        joined: false,
        share: 100,
        evidence_uri: String::new(),
        fingerprint: [0; 32],
    }];
    data.respondents = vec![Party {
        address: key(2),
        joined: false,
        share: 100,
        evidence_uri: String::new(),
        fingerprint: [0; 32],
    }];
    data.join_juror_deadline = 100;
    data.draw_juror_deadline = 200;
    data.closure_deadline = 300;
    raise_dispute(&mut d, &settings(), key(1), 0, &data).unwrap();
    approve_dispute(&mut d, 10, 1000, stake).unwrap();
    d
}

#[test]
fn metadata_length_matches_token_metadata_program() {
    assert_eq!(MAX_METADATA_LEN, metaplex_token_metadata::state::MAX_METADATA_LEN);
}

#[test]
fn juror_with_valid_nft_joins() {
    let mut d = approved(40);
    let mut e = JurorReservationEntry::default();
    let md = metadata_bytes(Some(&[(50, true), (51, false)]));
    let r = join_juror(&mut d, &mut e, &settings(), key(7), 20, &md, &EDITION);
    assert!(matches!(r, Ok(40)));
    assert!(e.address == key(7));
    assert_eq!(d.ready_jurors, 2);
}

#[test]
fn empty_metadata_is_refused() {
    let mut d = approved(40);
    let mut e = JurorReservationEntry::default();
    let r = join_juror(&mut d, &mut e, &settings(), key(7), 20, &[], &EDITION);
    assert!(matches!(r, Err(InstructionError::Court(CourtError::MetadataNotInitialized))));
    assert_eq!(d.ready_jurors, 1);
}

#[test]
fn join_juror_outside_window_is_refused() {
    let mut d = approved(40);
    let mut e = JurorReservationEntry::default();
    let md = metadata_bytes(Some(&[(50, true)]));
    let r = join_juror(&mut d, &mut e, &settings(), key(7), 100, &md, &EDITION);
    assert!(matches!(r, Err(InstructionError::Court(CourtError::JoinJurorDeadlineViolated))));
    let mut d = Dispute::default();
    d.join_juror_deadline = 100;
    let r = join_juror(&mut d, &mut e, &settings(), key(7), 20, &md, &EDITION);
    assert!(matches!(r, Err(InstructionError::Court(CourtError::JoinJurorDeadlineViolated))));
}

#[test]
fn unreadable_metadata_is_refused() {
    let mut d = approved(40);
    let mut e = JurorReservationEntry::default();
    let r = join_juror(&mut d, &mut e, &settings(), key(7), 20, &[4u8; 10], &EDITION);
    assert!(matches!(r, Err(InstructionError::Metadata(_))));
    let mut md = metadata_bytes(Some(&[(50, true)]));
    md[0] = 6;
    let r = join_juror(&mut d, &mut e, &settings(), key(7), 20, &md, &EDITION);
    assert!(matches!(r, Err(InstructionError::Metadata(_))));
    assert_eq!(d.ready_jurors, 1);
    assert!(e.address == Pubkey::default());
}

#[test]
fn nft_from_other_creator_is_refused() {
    let mut d = approved(40);
    let mut e = JurorReservationEntry::default();
    let md = metadata_bytes(Some(&[(51, true), (50, true)]));
    let r = join_juror(&mut d, &mut e, &settings(), key(7), 20, &md, &EDITION);
    assert!(matches!(r, Err(InstructionError::Court(CourtError::NFTNotValid))));
    let md = metadata_bytes(Some(&[(50, false)]));
    let r = join_juror(&mut d, &mut e, &settings(), key(7), 20, &md, &EDITION);
    assert!(matches!(r, Err(InstructionError::Court(CourtError::NFTNotValid))));
    assert_eq!(d.ready_jurors, 1);
}

#[test]
fn metadata_without_creators_is_not_valid() {
    let mut d = approved(40);
    let mut e = JurorReservationEntry::default();
    let md = metadata_bytes(None);
    let r = join_juror(&mut d, &mut e, &settings(), key(7), 20, &md, &EDITION);
    assert!(matches!(r, Err(InstructionError::Court(CourtError::NFTNotValid))));
    let md = metadata_bytes(Some(&[]));
    let r = try_join_juror(&mut d, &mut e, &settings(), key(7), 20, &md, &EDITION);
    assert!(matches!(r, Some(Err(InstructionError::Court(CourtError::NFTNotValid)))));
    assert_eq!(d.ready_jurors, 1);
}

#[test]
fn uninitialized_master_edition_is_refused() {
    let mut d = approved(40);
    let mut e = JurorReservationEntry::default();
    let md = metadata_bytes(Some(&[(50, true)]));
    let r = join_juror(&mut d, &mut e, &settings(), key(7), 20, &md, &[]);
    assert!(matches!(r, Err(InstructionError::Court(CourtError::MasterEditionNotInitialized))));
    let r = join_juror(&mut d, &mut e, &settings(), key(7), 100, &md, &[]);
    assert!(matches!(r, Err(InstructionError::Court(CourtError::MasterEditionNotInitialized))));
    let r = join_juror(&mut d, &mut e, &settings(), key(7), 20, &[], &[]);
    assert!(matches!(r, Err(InstructionError::Court(CourtError::MetadataNotInitialized))));
    assert_eq!(d.ready_jurors, 1);
}

#[test]
fn metadata_error_is_the_readers() {
    let mut d = approved(40);
    let mut e = JurorReservationEntry::default();
    let bad = [4u8; 10];
    let expected = metaplex_token_metadata::utils::try_from_slice_checked::<
        metaplex_token_metadata::state::Metadata,
    >(&bad, metaplex_token_metadata::state::Key::MetadataV1, MAX_METADATA_LEN)
    .unwrap_err();
    match join_juror(&mut d, &mut e, &settings(), key(7), 20, &bad, &EDITION) {
        Err(InstructionError::Metadata(err)) => assert_eq!(err, expected),
        _ => panic!("expected the metadata reader's error"),
    }
}

#[test]
fn full_ready_count_aborts() {
    let mut d = approved(40);
    d.ready_jurors = u16::MAX;
    let mut e = JurorReservationEntry::default();
    let md = metadata_bytes(Some(&[(50, true)]));
    assert!(try_join_juror(&mut d, &mut e, &settings(), key(7), 20, &md, &EDITION).is_none());
    let r = try_join_juror(&mut d, &mut e, &settings(), key(7), 100, &md, &EDITION);
    assert!(matches!(r, Some(Err(InstructionError::Court(CourtError::JoinJurorDeadlineViolated)))));
}

#[test]
fn try_join_juror_answers_like_join_juror() {
    let mut d = approved(40);
    let mut e = JurorReservationEntry::default();
    let md = metadata_bytes(Some(&[(50, true)]));
    let r = try_join_juror(&mut d, &mut e, &settings(), key(8), 20, &md, &EDITION);
    assert!(matches!(r, Some(Ok(40))));
    assert_eq!(d.ready_jurors, 2);
    assert!(e.address == key(8));
}

#[test]
fn whole_dispute_keeps_schedule_and_shares() {
    let mut d = approved(40);
    let deadlines = (d.init_time, d.join_juror_deadline, d.draw_juror_deadline, d.closure_deadline);
    assert!(matches!(join_party(&mut d, key(2), 20, "late".to_string()), Err(CourtError::JoinPartyDeadlineViolated)));
    let md = metadata_bytes(Some(&[(50, true)]));
    let mut e7 = JurorReservationEntry::default();
    let mut e8 = JurorReservationEntry::default();
    assert!(matches!(join_juror(&mut d, &mut e7, &settings(), key(7), 20, &md, &EDITION), Ok(40)));
    assert!(matches!(join_juror(&mut d, &mut e8, &settings(), key(8), 30, &md, &EDITION), Ok(40)));
    assert_eq!(d.ready_jurors, 3);
    let panel = vec![Juror { address: key(7), opinion: JurorOpinion::NoVote, claimed_reward: false }];
    draw_jurors(&mut d, 150, &panel).unwrap();
    assert_eq!(d.status, DisputeStatus::Started);
    cast_vote(&mut d, &e7, key(7), 250, JurorOpinion::Applicant).unwrap();
    assert_eq!(claim_stake(&mut d, &e8, key(8), 250), Ok(40));
    assert_eq!(claim_stake(&mut d, &e7, key(7), 301), Err(CourtError::NothingToWithdraw));
    assert_eq!(
        (d.init_time, d.join_juror_deadline, d.draw_juror_deadline, d.closure_deadline),
        deadlines
    );
    assert_eq!(d.applicants[0].share, 100);
    assert!(d.applicants[0].joined);
    assert_eq!(d.jurors[0].opinion, JurorOpinion::Applicant);
}
