use dispute_resolution::errors::CourtError;
use dispute_resolution::instructions::{
    approve_dispute, cast_vote, claim_stake, draw_jurors, join_party, raise_dispute,
};
use dispute_resolution::pubkey::Pubkey;
use dispute_resolution::state::{
    Dispute, DisputeStatus, Juror, JurorOpinion, JurorReservationEntry, Party, Settings,
};

fn key(b: u8) -> Pubkey {
    Pubkey::new_from_array([b; 32])
}

fn party(b: u8, share: u8) -> Party {
    Party {
        address: key(b),
        joined: true,
        share,
        evidence_uri: format!("uri-{}", b),
        fingerprint: [7u8; 32],
    }
}

fn settings(fee: u64) -> Settings {
    let mut s = Settings::default();
    s.raise_dispute_fee = fee;
    s.admin = key(200);
    s
}

/// Dispute data: applicants 1 (60%) and 2 (40%), respondent 3 (100%),
/// deadlines 100 / 200 / 300.
fn data() -> Dispute {
    let mut d = Dispute::default();
    d.applicants = vec![party(1, 60), party(2, 40)];
    d.respondents = vec![party(3, 100)];
    d.join_juror_deadline = 100;
    d.draw_juror_deadline = 200;
    d.closure_deadline = 300;
    d.dispute_value = 999;
    d.required_stake_amount = 888;
    d
}

fn raised() -> Dispute {
    let mut d = Dispute::default();
    let fee = raise_dispute(&mut d, &settings(25), key(1), 10, &data()).unwrap();
    assert_eq!(fee, 25);
    d
}

fn approved(stake: u64) -> Dispute {
    let mut d = raised();
    approve_dispute(&mut d, 50, 1000, stake).unwrap();
    d
}

fn started(stake: u64, panel: &[u8]) -> Dispute {
    let mut d = approved(stake);
    let jurors: Vec<Juror> = panel
        .iter()
        .map(|b| Juror { address: key(*b), opinion: JurorOpinion::Applicant, claimed_reward: true })
        .collect();
    draw_jurors(&mut d, 150, &jurors).unwrap();
    d
}

fn entry(b: u8) -> JurorReservationEntry {
    JurorReservationEntry { address: key(b), dispute: key(99) }
}

#[test]
fn raise_records_parties_and_schedule() {
    let d = raised();
    assert_eq!(d.status, DisputeStatus::Initialized);
    assert_eq!(d.init_time, 10);
    assert_eq!((d.join_juror_deadline, d.draw_juror_deadline, d.closure_deadline), (100, 200, 300));
    assert_eq!(d.ready_jurors, 1);
    assert_eq!(d.applicants.len(), 2);
    assert_eq!(d.respondents.len(), 1);
    assert!(d.applicants[0].joined);
    assert!(!d.applicants[1].joined);
    assert!(!d.respondents[0].joined);
    assert_eq!(d.applicants[1].evidence_uri, "uri-2");
    assert_eq!(d.applicants[1].share, 40);
    assert_eq!(d.applicants[0].fingerprint, [0u8; 32]);
    // value and stake are not taken from the raised data
    assert_eq!(d.dispute_value, 0);
    assert_eq!(d.required_stake_amount, 0);
}

#[test]
fn raise_requires_payer_first_applicant() {
    let mut d = Dispute::default();
    assert_eq!(
        raise_dispute(&mut d, &settings(1), key(2), 10, &data()),
        Err(CourtError::PayerNotMatchFirstApplicantParty)
    );
    assert!(d.applicants.is_empty());
}

#[test]
fn raise_requires_ordered_deadlines() {
    let mut d = Dispute::default();
    assert_eq!(
        raise_dispute(&mut d, &settings(1), key(1), 101, &data()),
        Err(CourtError::DisputeTimingsNotValid)
    );
    let mut bad = data();
    bad.draw_juror_deadline = 50;
    assert_eq!(
        raise_dispute(&mut d, &settings(1), key(1), 10, &bad),
        Err(CourtError::DisputeTimingsNotValid)
    );
    // equal deadlines are accepted
    let mut eq = data();
    eq.join_juror_deadline = 10;
    eq.draw_juror_deadline = 10;
    eq.closure_deadline = 10;
    assert_eq!(raise_dispute(&mut d, &settings(1), key(1), 10, &eq), Ok(1));
}

#[test]
fn raise_requires_full_shares_on_each_side() {
    let mut d = Dispute::default();
    let mut bad = data();
    bad.applicants[1].share = 39;
    assert_eq!(raise_dispute(&mut d, &settings(1), key(1), 10, &bad), Err(CourtError::SharesExceeded));
    let mut bad = data();
    bad.respondents.push(party(4, 1));
    assert_eq!(raise_dispute(&mut d, &settings(1), key(1), 10, &bad), Err(CourtError::SharesExceeded));
    assert!(d.applicants.is_empty() && d.respondents.is_empty());
}

#[test]
fn raise_refuses_shares_past_a_byte() {
    let mut d = Dispute::default();
    let mut big = data();
    big.applicants[0].share = 200;
    big.applicants[1].share = 156;
    assert_eq!(raise_dispute(&mut d, &settings(1), key(1), 0, &big), Err(CourtError::SharesExceeded));
    let mut big = data();
    big.respondents = vec![party(3, 255), party(4, 255), party(5, 1)];
    assert_eq!(raise_dispute(&mut d, &settings(1), key(1), 0, &big), Err(CourtError::SharesExceeded));
    assert!(d.applicants.is_empty());
}

#[test]
fn raise_ignores_value_stake_and_flags() {
    let mut a = Dispute::default();
    let mut b = Dispute::default();
    let mut other = data();
    other.dispute_value = 1;
    other.required_stake_amount = 2;
    other.ready_jurors = 9;
    other.applicants[1].joined = false;
    other.applicants[1].fingerprint = [1u8; 32];
    assert_eq!(raise_dispute(&mut a, &settings(3), key(1), 0, &data()), Ok(3));
    assert_eq!(raise_dispute(&mut b, &settings(3), key(1), 0, &other), Ok(3));
    assert_eq!(a.applicants[1].fingerprint, b.applicants[1].fingerprint);
    assert_eq!(a.applicants[1].joined, b.applicants[1].joined);
    assert_eq!((a.dispute_value, a.required_stake_amount, a.ready_jurors), (b.dispute_value, b.required_stake_amount, b.ready_jurors));
}

#[test]
fn only_drawing_starts_a_dispute() {
    let mut d = approved(5);
    assert_eq!(claim_stake(&mut d, &entry(20), key(20), 201), Ok(5));
    assert_eq!(d.status, DisputeStatus::Approved);
    assert_eq!(cast_vote(&mut d, &entry(20), key(20), 150, JurorOpinion::Applicant), Err(CourtError::VoteDeadlineViolated));
    draw_jurors(&mut d, 150, &vec![Juror::default(); 2]).unwrap();
    assert_eq!(d.status, DisputeStatus::Started);
}

#[test]
fn parties_join_with_evidence() {
    let mut d = raised();
    assert_eq!(join_party(&mut d, key(2), 20, "new-2".to_string()), Ok(()));
    assert!(d.applicants[1].joined);
    assert_eq!(d.applicants[1].evidence_uri, "new-2");
    assert_eq!(join_party(&mut d, key(3), 20, "new-3".to_string()), Ok(()));
    assert!(d.respondents[0].joined);
    assert_eq!(d.respondents[0].evidence_uri, "new-3");
    assert_eq!(d.applicants[0].evidence_uri, "uri-1");
}

#[test]
fn stranger_cannot_join() {
    let mut d = raised();
    assert_eq!(join_party(&mut d, key(9), 20, "x".to_string()), Err(CourtError::NoJoinAuthorize));
}

#[test]
fn joining_closes_at_deadline_or_approval() {
    let mut d = raised();
    assert_eq!(join_party(&mut d, key(2), 100, "x".to_string()), Err(CourtError::JoinPartyDeadlineViolated));
    let mut d = approved(5);
    assert_eq!(join_party(&mut d, key(2), 20, "x".to_string()), Err(CourtError::JoinPartyDeadlineViolated));
}

#[test]
fn approve_sets_value_and_stake() {
    let d = approved(5);
    assert_eq!(d.status, DisputeStatus::Approved);
    assert_eq!(d.dispute_value, 1000);
    assert_eq!(d.required_stake_amount, 5);
}

#[test]
fn approve_refusals() {
    let mut d = raised();
    assert_eq!(approve_dispute(&mut d, 100, 1, 1), Err(CourtError::ApproveMissedDeadlineDispute));
    assert_eq!(d.status, DisputeStatus::Initialized);
    let mut d = approved(5);
    assert_eq!(approve_dispute(&mut d, 50, 1, 1), Err(CourtError::DisputeAlreadyApproved));
    assert_eq!(d.required_stake_amount, 5);
}

#[test]
fn draw_fills_slots_and_starts() {
    let d = started(5, &[11, 12, 13]);
    assert_eq!(d.status, DisputeStatus::Started);
    for i in 0..3 {
        assert!(d.jurors[i].address == key(11 + i as u8));
        assert_eq!(d.jurors[i].opinion, JurorOpinion::NoVote);
        assert!(!d.jurors[i].claimed_reward);
    }
    assert!(d.jurors[3].address == Pubkey::default());
}

#[test]
fn draw_refuses_seven_jurors() {
    let mut d = approved(5);
    let jurors = vec![Juror::default(); 7];
    assert_eq!(draw_jurors(&mut d, 150, &jurors), Err(CourtError::JurorNumbersNotCorrect));
}

#[test]
fn draw_refuses_more_than_seven_jurors() {
    let mut d = approved(5);
    let jurors = vec![Juror::default(); 9];
    assert_eq!(draw_jurors(&mut d, 150, &jurors), Err(CourtError::JurorNumbersNotCorrect));
    assert_eq!(d.status, DisputeStatus::Approved);
    assert_eq!(draw_jurors(&mut d, 100, &jurors), Err(CourtError::DrawJurorDeadlineViolated));
    let seven = vec![Juror::default(); 7];
    assert_eq!(draw_jurors(&mut d, 100, &seven), Err(CourtError::JurorNumbersNotCorrect));
    assert_eq!(d.status, DisputeStatus::Approved);
}

#[test]
fn draw_only_between_deadlines() {
    let mut d = approved(5);
    let jurors = vec![Juror::default(); 3];
    assert_eq!(draw_jurors(&mut d, 100, &jurors), Err(CourtError::DrawJurorDeadlineViolated));
    assert_eq!(draw_jurors(&mut d, 200, &jurors), Err(CourtError::DrawJurorDeadlineViolated));
    let mut d = raised();
    assert_eq!(draw_jurors(&mut d, 150, &jurors), Err(CourtError::DrawJurorDeadlineViolated));
}

#[test]
fn vote_records_opinion_for_every_slot_of_the_juror() {
    let mut d = started(5, &[11, 12, 11]);
    assert_eq!(cast_vote(&mut d, &entry(11), key(11), 250, JurorOpinion::Respondent), Ok(()));
    assert_eq!(d.jurors[0].opinion, JurorOpinion::Respondent);
    assert_eq!(d.jurors[1].opinion, JurorOpinion::NoVote);
    assert_eq!(d.jurors[2].opinion, JurorOpinion::Respondent);
}

#[test]
fn vote_refusals() {
    let mut d = started(5, &[11]);
    assert_eq!(cast_vote(&mut d, &entry(11), key(11), 300, JurorOpinion::Applicant), Err(CourtError::VoteDeadlineViolated));
    assert_eq!(cast_vote(&mut d, &entry(12), key(11), 250, JurorOpinion::Applicant), Err(CourtError::JurorNotMatchedSigner));
    let mut d = approved(5);
    assert_eq!(cast_vote(&mut d, &entry(11), key(11), 150, JurorOpinion::Applicant), Err(CourtError::VoteDeadlineViolated));
}

#[test]
fn undrawn_juror_claims_stake_back() {
    let mut d = started(5, &[11]);
    assert_eq!(claim_stake(&mut d, &entry(20), key(20), 201), Ok(5));
    assert!(!d.jurors[0].claimed_reward);
}

#[test]
fn juror_of_unstarted_dispute_claims_stake_back() {
    let mut d = approved(5);
    assert_eq!(claim_stake(&mut d, &entry(20), key(20), 201), Ok(5));
}

#[test]
fn claim_refusals() {
    let mut d = started(5, &[11]);
    assert_eq!(claim_stake(&mut d, &entry(12), key(11), 400), Err(CourtError::JurorNotMatchedSigner));
    assert_eq!(claim_stake(&mut d, &entry(20), key(20), 200), Err(CourtError::WithdrawBeforeJurorDrawProhibited));
    assert_eq!(claim_stake(&mut d, &entry(11), key(11), 250), Err(CourtError::WithdrawBeforeClosingDisputeProhibited));
    assert_eq!(claim_stake(&mut d, &entry(11), key(11), 301), Err(CourtError::NothingToWithdraw));
    assert!(!d.jurors[0].claimed_reward);
    let mut d = approved(0);
    assert_eq!(claim_stake(&mut d, &entry(20), key(20), 201), Err(CourtError::NothingToWithdraw));
}

#[test]
fn claim_after_reward_marked() {
    let mut d = started(5, &[11]);
    d.jurors[0].claimed_reward = true;
    assert_eq!(claim_stake(&mut d, &entry(11), key(11), 301), Err(CourtError::JurorAlreadyClaimedReward));
}
