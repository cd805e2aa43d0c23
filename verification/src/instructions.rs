//! The court's instructions as functions from the accounts they read, the
//! signer and the clock to the new account state and the tokens to move.
//! Each refused instruction leaves every account as it was.

use vstd::prelude::*;

use crate::errors::{CourtError, InstructionError};
use crate::metadata::{metadata_read, read_metadata_creators, Creator};
use crate::pubkey::Pubkey;
use crate::solana::is_system_program;
use crate::state::{
    Dispute, DisputeModel, DisputeStatus, Juror, JurorOpinion, JurorReservationEntry, Party,
    Settings,
};

verus! {

/// How an instruction's result and the dispute after it follow from its
/// expected outcome: on success the new dispute and the returned value, on
/// refusal the error and the dispute unchanged.
pub open spec fn dispute_effect<T>(
    before: DisputeModel,
    after: DisputeModel,
    r: Result<T, CourtError>,
    outcome: Result<(DisputeModel, T), CourtError>,
) -> bool {
    match outcome {
        Ok((m, v)) => after == m && r == Ok::<T, CourtError>(v),
        Err(e) => after == before && r == Err::<T, CourtError>(e),
    }
}

// ---------------------------------------------------------------- settings

/// The settings after a successful `initialize_settings`.
pub open spec fn initialized_settings(
    current: Settings,
    master_admin: Pubkey,
    admin: Pubkey,
    court_token: Pubkey,
    juror_creator: Pubkey,
    court_treasury_token_account: Pubkey,
    raise_dispute_fee: u64,
) -> Settings {
    Settings {
        master_admin,
        admin,
        court_token,
        juror_creator,
        court_treasury_token_account,
        raise_dispute_fee,
        ..current
    }
}

/// Creates the court's settings. `admin_signer` signs and becomes the master
/// administrator; `mint` is the court token and `court_treasury_token_account`
/// the treasury. Settings whose master administrator is already set (not the
/// system program's all-zero address) are refused. On success the caller hands
/// the treasury to the authority that `find_treasury_authority` derives.
pub fn initialize_settings(
    settings: &mut Settings,
    admin_signer: Pubkey,
    mint: Pubkey,
    court_treasury_token_account: Pubkey,
    admin: Pubkey,
    juror_creator: Pubkey,
    raise_dispute_fee: u64,
) -> (r: Result<(), CourtError>)
    ensures
        !old(settings).master_admin.is_zero() ==> r == Err::<(), CourtError>(
            CourtError::SettingsAlreadyCreated,
        ) && *final(settings) == *old(settings),
        old(settings).master_admin.is_zero() ==> r is Ok && *final(settings)
            == initialized_settings(
            *old(settings),
            admin_signer,
            admin,
            mint,
            juror_creator,
            court_treasury_token_account,
            raise_dispute_fee,
        ),
{
    if !is_system_program(&settings.master_admin) {
        return Err(CourtError::SettingsAlreadyCreated);
    }
    settings.master_admin = admin_signer;
    settings.admin = admin;
    settings.court_token = mint;
    settings.juror_creator = juror_creator;
    settings.court_treasury_token_account = court_treasury_token_account;
    settings.raise_dispute_fee = raise_dispute_fee;
    Ok(())
}

/// Replaces the administrators, the juror NFT creator and the fee with those of
/// `new_settings`; the token, the treasury and its authority stay.
pub fn set_settings(settings: &mut Settings, new_settings: &Settings)
    ensures
        *final(settings) == (Settings {
            master_admin: new_settings.master_admin,
            admin: new_settings.admin,
            juror_creator: new_settings.juror_creator,
            raise_dispute_fee: new_settings.raise_dispute_fee,
            ..*old(settings)
        }),
{
    settings.master_admin = new_settings.master_admin;
    settings.admin = new_settings.admin;
    settings.juror_creator = new_settings.juror_creator;
    settings.raise_dispute_fee = new_settings.raise_dispute_fee;
}

// ---------------------------------------------------------------- approve

/// Expected outcome of `approve_dispute`.
pub open spec fn approve_dispute_outcome(
    d: DisputeModel,
    now: i64,
    dispute_value: u64,
    required_stake_amount: u64,
) -> Result<(DisputeModel, ()), CourtError> {
    if now >= d.join_juror_deadline {
        Err(CourtError::ApproveMissedDeadlineDispute)
    } else if d.status != DisputeStatus::Initialized {
        Err(CourtError::DisputeAlreadyApproved)
    } else {
        Ok(
            (
                DisputeModel {
                    status: DisputeStatus::Approved,
                    dispute_value,
                    required_stake_amount,
                    ..d
                },
                (),
            ),
        )
    }
}

/// The administrator approves a raised dispute before the juror-joining
/// deadline, fixing its value and the stake each juror must put up.
pub fn approve_dispute(
    dispute: &mut Dispute,
    now: i64,
    dispute_value: u64,
    required_stake_amount: u64,
) -> (r: Result<(), CourtError>)
    ensures
        dispute_effect(
            old(dispute)@,
            final(dispute)@,
            r,
            approve_dispute_outcome(old(dispute)@, now, dispute_value, required_stake_amount),
        ),
{
    if now >= dispute.join_juror_deadline {
        return Err(CourtError::ApproveMissedDeadlineDispute);
    }
    if dispute.status != DisputeStatus::Initialized {
        return Err(CourtError::DisputeAlreadyApproved);
    }
    dispute.status = DisputeStatus::Approved;
    dispute.dispute_value = dispute_value;
    dispute.required_stake_amount = required_stake_amount;
    assert(dispute@ =~= approve_dispute_outcome(old(dispute)@, now, dispute_value, required_stake_amount).unwrap().0);
    Ok(())
}

// ---------------------------------------------------------------- draw

/// Whether jurors may be drawn at `now`: strictly between the juror-joining and
/// the drawing deadline, on an approved dispute.
pub open spec fn draw_window_open(d: DisputeModel, now: i64) -> bool {
    &&& d.join_juror_deadline < now < d.draw_juror_deadline
    &&& d.status == DisputeStatus::Approved
}

/// The juror slots after drawing `picked`: slot `i` holds the `i`-th picked
/// address with no vote and nothing claimed; slots past the picked ones stay.
pub open spec fn drawn_slots(slots: Seq<Juror>, picked: Seq<Juror>) -> Seq<Juror> {
    Seq::new(
        slots.len(),
        |i: int|
            if i < picked.len() {
                Juror {
                    address: picked[i].address,
                    opinion: JurorOpinion::NoVote,
                    claimed_reward: false,
                }
            } else {
                slots[i]
            },
    )
}

/// Expected outcome of `draw_jurors`. A list of exactly seven is refused
/// first; outside the drawing window the deadline error comes next; a list
/// longer than the seven slots is refused with the juror-count error.
pub open spec fn draw_jurors_outcome(d: DisputeModel, now: i64, picked: Seq<Juror>) -> Result<
    (DisputeModel, ()),
    CourtError,
> {
    if picked.len() == 7 {
        Err(CourtError::JurorNumbersNotCorrect)
    } else if !draw_window_open(d, now) {
        Err(CourtError::DrawJurorDeadlineViolated)
    } else if picked.len() > 7 {
        Err(CourtError::JurorNumbersNotCorrect)
    } else {
        Ok(
            (
                DisputeModel {
                    jurors: drawn_slots(d.jurors, picked),
                    status: DisputeStatus::Started,
                    ..d
                },
                (),
            ),
        )
    }
}

/// The administrator fills the dispute's juror slots with the drawn jurors and
/// starts the dispute. A list of seven jurors, or one longer than the
/// dispute's seven slots, is refused with the juror-count error.
pub fn draw_jurors(dispute: &mut Dispute, now: i64, jurors: &Vec<Juror>) -> (r: Result<
    (),
    CourtError,
>)
    ensures
        dispute_effect(
            old(dispute)@,
            final(dispute)@,
            r,
            draw_jurors_outcome(old(dispute)@, now, jurors@),
        ),
{
    if jurors.len() == 7 {
        return Err(CourtError::JurorNumbersNotCorrect);
    }
    if now >= dispute.draw_juror_deadline || now <= dispute.join_juror_deadline
        || dispute.status != DisputeStatus::Approved {
        return Err(CourtError::DrawJurorDeadlineViolated);
    }
    if jurors.len() > 7 {
        return Err(CourtError::JurorNumbersNotCorrect);
    }
    let ghost before = dispute@;
    let n = jurors.len();
    let mut i: usize = 0;
    while i < n
        invariant
            n == jurors@.len(),
            n < 7,
            0 <= i <= n,
            dispute@ == (DisputeModel { jurors: dispute@.jurors, ..before }),
            dispute@.jurors.len() == 7,
            before.jurors.len() == 7,
            forall|k: int|
                0 <= k < 7 ==> #[trigger] dispute@.jurors[k] == if k < i {
                    drawn_slots(before.jurors, jurors@)[k]
                } else {
                    before.jurors[k]
                },
        decreases n - i,
    {
        dispute.jurors[i] = Juror {
            address: jurors[i].address,
            opinion: JurorOpinion::NoVote,
            claimed_reward: false,
        };
        i = i + 1;
    }
    dispute.status = DisputeStatus::Started;
    assert(dispute@.jurors =~= drawn_slots(before.jurors, jurors@));
    assert(dispute@ =~= draw_jurors_outcome(before, now, jurors@).unwrap().0);
    Ok(())
}

// ---------------------------------------------------------------- vote

/// The juror slots after `voter` votes `opinion`: every slot holding the
/// voter's address takes the opinion; the others stay.
pub open spec fn voted_slots(slots: Seq<Juror>, voter: Pubkey, opinion: JurorOpinion) -> Seq<Juror> {
    Seq::new(
        slots.len(),
        |i: int|
            if slots[i].address == voter {
                Juror { opinion, ..slots[i] }
            } else {
                slots[i]
            },
    )
}

/// Expected outcome of `cast_vote`.
pub open spec fn cast_vote_outcome(
    d: DisputeModel,
    entry: JurorReservationEntry,
    payer: Pubkey,
    now: i64,
    opinion: JurorOpinion,
) -> Result<(DisputeModel, ()), CourtError> {
    if now >= d.closure_deadline || d.status != DisputeStatus::Started {
        Err(CourtError::VoteDeadlineViolated)
    } else if entry.address != payer {
        Err(CourtError::JurorNotMatchedSigner)
    } else {
        Ok((DisputeModel { jurors: voted_slots(d.jurors, payer, opinion), ..d }, ()))
    }
}

/// A drawn juror, signing as `payer` with its reservation entry, records its
/// opinion before the dispute closes. Every slot holding the juror's address
/// takes the opinion.
pub fn cast_vote(
    dispute: &mut Dispute,
    juror_reservation_entry: &JurorReservationEntry,
    payer: Pubkey,
    now: i64,
    juror_opinion: JurorOpinion,
) -> (r: Result<(), CourtError>)
    ensures
        dispute_effect(
            old(dispute)@,
            final(dispute)@,
            r,
            cast_vote_outcome(old(dispute)@, *juror_reservation_entry, payer, now, juror_opinion),
        ),
{
    if now >= dispute.closure_deadline || dispute.status != DisputeStatus::Started {
        return Err(CourtError::VoteDeadlineViolated);
    }
    if juror_reservation_entry.address != payer {
        return Err(CourtError::JurorNotMatchedSigner);
    }
    let ghost before = dispute@;
    let mut i: usize = 0;
    while i < 7
        invariant
            0 <= i <= 7,
            dispute@ == (DisputeModel { jurors: dispute@.jurors, ..before }),
            dispute@.jurors.len() == 7,
            before.jurors.len() == 7,
            forall|k: int|
                0 <= k < 7 ==> #[trigger] dispute@.jurors[k] == if k < i {
                    voted_slots(before.jurors, payer, juror_opinion)[k]
                } else {
                    before.jurors[k]
                },
        decreases 7 - i,
    {
        if dispute.jurors[i].address == payer {
            let slot = dispute.jurors[i];
            dispute.jurors[i] = Juror { opinion: juror_opinion, ..slot };
        }
        i = i + 1;
    }
    assert(dispute@.jurors =~= voted_slots(before.jurors, payer, juror_opinion));
    assert(dispute@ =~= cast_vote_outcome(before, *juror_reservation_entry, payer, now, juror_opinion).unwrap().0);
    Ok(())
}

// ---------------------------------------------------------------- join party

/// Whether `i` is the first position of `parties` that holds `who`.
pub open spec fn is_first_party(parties: Seq<Party>, who: Pubkey, i: int) -> bool {
    &&& 0 <= i < parties.len()
    &&& parties[i].address == who
    &&& forall|j: int| 0 <= j < i ==> #[trigger] parties[j].address != who
}

/// Whether some party of `parties` has the address `who`.
pub open spec fn has_party(parties: Seq<Party>, who: Pubkey) -> bool {
    exists|i: int| 0 <= i < parties.len() && #[trigger] parties[i].address == who
}

/// The first position of `parties` that holds `who` (meaningful when `has_party`).
pub open spec fn first_party(parties: Seq<Party>, who: Pubkey) -> int {
    choose|i: int| is_first_party(parties, who, i)
}

/// A party after it joins with the evidence at `uri`.
pub open spec fn joined_party(p: Party, uri: String) -> Party {
    Party { joined: true, evidence_uri: uri, ..p }
}

/// `parties` after the first one with address `who` joins with the evidence at `uri`.
pub open spec fn join_first(parties: Seq<Party>, who: Pubkey, uri: String) -> Seq<Party> {
    let i = first_party(parties, who);
    parties.update(i, joined_party(parties[i], uri))
}

/// Expected outcome of `join_party`: the payer joins as the first applicant
/// with its address, or else as the first respondent with it.
pub open spec fn join_party_outcome(d: DisputeModel, payer: Pubkey, now: i64, uri: String) -> Result<
    (DisputeModel, ()),
    CourtError,
> {
    if now >= d.join_juror_deadline || d.status != DisputeStatus::Initialized {
        Err(CourtError::JoinPartyDeadlineViolated)
    } else if has_party(d.applicants, payer) {
        Ok((DisputeModel { applicants: join_first(d.applicants, payer, uri), ..d }, ()))
    } else if has_party(d.respondents, payer) {
        Ok((DisputeModel { respondents: join_first(d.respondents, payer, uri), ..d }, ()))
    } else {
        Err(CourtError::NoJoinAuthorize)
    }
}

/// The first position is the one `first_party` names.
pub proof fn lemma_first_party(parties: Seq<Party>, who: Pubkey, i: int)
    requires
        is_first_party(parties, who, i),
    ensures
        has_party(parties, who),
        first_party(parties, who) == i,
{
    let j = first_party(parties, who);
    assert(is_first_party(parties, who, j));
    if j < i {
        assert(parties[j].address != who);
    } else if j > i {
        assert(parties[i].address != who);
    }
}

/// The first position of `parties` holding `who`, if any.
fn find_party(parties: &Vec<Party>, who: &Pubkey) -> (r: Option<usize>)
    ensures
        match r {
            Some(i) => is_first_party(parties@, *who, i as int),
            None => !has_party(parties@, *who),
        },
{
    let n = parties.len();
    let mut i: usize = 0;
    while i < n
        invariant
            n == parties@.len(),
            0 <= i <= n,
            forall|j: int| 0 <= j < i ==> #[trigger] parties@[j].address != *who,
        decreases n - i,
    {
        if parties[i].address == *who {
            return Some(i);
        }
        i = i + 1;
    }
    None
}

/// A party of the dispute, signing as `payer`, joins it with its evidence
/// before the juror-joining deadline while the dispute awaits approval.
pub fn join_party(dispute: &mut Dispute, payer: Pubkey, now: i64, evidence_uri: String) -> (r:
    Result<(), CourtError>)
    ensures
        dispute_effect(
            old(dispute)@,
            final(dispute)@,
            r,
            join_party_outcome(old(dispute)@, payer, now, evidence_uri),
        ),
{
    if now >= dispute.join_juror_deadline || dispute.status != DisputeStatus::Initialized {
        return Err(CourtError::JoinPartyDeadlineViolated);
    }
    let ghost before = dispute@;
    match find_party(&dispute.applicants, &payer) {
        Some(i) => {
            proof {
                lemma_first_party(before.applicants, payer, i as int);
            }
            dispute.applicants[i].joined = true;
            dispute.applicants[i].evidence_uri = evidence_uri;
            assert(dispute@.applicants =~= join_first(before.applicants, payer, evidence_uri));
            assert(dispute@ =~= join_party_outcome(before, payer, now, evidence_uri).unwrap().0);
            return Ok(());
        },
        None => {},
    }
    match find_party(&dispute.respondents, &payer) {
        Some(i) => {
            proof {
                lemma_first_party(before.respondents, payer, i as int);
            }
            dispute.respondents[i].joined = true;
            dispute.respondents[i].evidence_uri = evidence_uri;
            assert(dispute@.respondents =~= join_first(before.respondents, payer, evidence_uri));
            assert(dispute@ =~= join_party_outcome(before, payer, now, evidence_uri).unwrap().0);
            return Ok(());
        },
        None => {},
    }
    Err(CourtError::NoJoinAuthorize)
}

// ---------------------------------------------------------------- raise

/// Sum of the parties' shares, in percent.
pub open spec fn total_share(parties: Seq<Party>) -> int
    decreases parties.len(),
{
    if parties.len() == 0 {
        0
    } else {
        total_share(parties.drop_last()) + parties.last().share
    }
}

/// The fingerprint a party is registered with: 32 zero bytes.
pub open spec fn zero_fingerprint() -> [u8; 32] {
    vstd::array::spec_array_fill_for_copy_type::<u8, 32>(0u8)
}

/// A party as the dispute records it when raised: not yet joined, no fingerprint.
pub open spec fn registered_party(p: Party) -> Party {
    Party { joined: false, fingerprint: zero_fingerprint(), ..p }
}

/// The parties as the dispute records them when raised.
pub open spec fn registered_parties(parties: Seq<Party>) -> Seq<Party> {
    parties.map_values(|p: Party| registered_party(p))
}

/// Whether the deadlines of a new dispute are in order with respect to `now`.
pub open spec fn raise_timings_valid(now: i64, data: DisputeModel) -> bool {
    now <= data.join_juror_deadline <= data.draw_juror_deadline <= data.closure_deadline
}

/// The party list with its first party marked as joined.
pub open spec fn first_joined(parties: Seq<Party>) -> Seq<Party> {
    parties.update(0, Party { joined: true, ..parties[0] })
}

/// Expected outcome of `raise_dispute`: the dispute as recorded, and the fee
/// that the payer owes the treasury.
pub open spec fn raise_dispute_outcome(
    d: DisputeModel,
    payer: Pubkey,
    now: i64,
    fee: u64,
    data: DisputeModel,
) -> Result<(DisputeModel, u64), CourtError> {
    if data.applicants[0].address != payer {
        Err(CourtError::PayerNotMatchFirstApplicantParty)
    } else if !raise_timings_valid(now, data) {
        Err(CourtError::DisputeTimingsNotValid)
    } else if total_share(data.applicants) != 100 || total_share(data.respondents) != 100 {
        Err(CourtError::SharesExceeded)
    } else {
        Ok(
            (
                DisputeModel {
                    applicants: first_joined(d.applicants + registered_parties(data.applicants)),
                    respondents: d.respondents + registered_parties(data.respondents),
                    init_time: now,
                    join_juror_deadline: data.join_juror_deadline,
                    draw_juror_deadline: data.draw_juror_deadline,
                    closure_deadline: data.closure_deadline,
                    ready_jurors: 1,
                    status: DisputeStatus::Initialized,
                    ..d
                },
                fee,
            ),
        )
    }
}

/// The shares of a prefix add up to no more than those of the whole list.
pub proof fn lemma_total_share_prefix(parties: Seq<Party>, i: int)
    requires
        0 <= i <= parties.len(),
    ensures
        total_share(parties.take(i)) <= total_share(parties),
    decreases parties.len(),
{
    if i < parties.len() {
        lemma_total_share_prefix(parties.drop_last(), i);
        assert(parties.drop_last().take(i) =~= parties.take(i));
    } else {
        assert(parties.take(i) =~= parties);
    }
}

/// Whether the parties' shares add up to exactly 100 percent. The sum stops
/// as soon as it passes 100, so it never overflows.
fn shares_complete(parties: &Vec<Party>) -> (r: bool)
    ensures
        r == (total_share(parties@) == 100),
{
    let n = parties.len();
    let mut t: u16 = 0;
    let mut i: usize = 0;
    assert(parties@.take(0) =~= Seq::<Party>::empty());
    while i < n
        invariant
            n == parties@.len(),
            0 <= i <= n,
            t <= 100,
            t == total_share(parties@.take(i as int)),
        decreases n - i,
    {
        assert(parties@.take(i + 1).drop_last() =~= parties@.take(i as int));
        t = t + parties[i].share as u16;
        i = i + 1;
        if t > 100 {
            proof {
                lemma_total_share_prefix(parties@, i as int);
            }
            return false;
        }
    }
    assert(parties@.take(n as int) =~= parties@);
    t == 100
}

/// Appends each party of `parties` to `dst` as registered: not joined, no fingerprint.
fn append_registered(dst: &mut Vec<Party>, parties: &Vec<Party>)
    ensures
        final(dst)@ == old(dst)@ + registered_parties(parties@),
{
    let n = parties.len();
    let mut i: usize = 0;
    let ghost start = dst@;
    while i < n
        invariant
            n == parties@.len(),
            0 <= i <= n,
            dst@ == start + registered_parties(parties@.take(i as int)),
        decreases n - i,
    {
        let p = &parties[i];
        let fingerprint = [0u8; 32];
        dst.push(
            Party {
                address: p.address,
                joined: false,
                share: p.share,
                evidence_uri: p.evidence_uri.clone(),
                fingerprint,
            },
        );
        assert(registered_parties(parties@.take(i + 1)) =~= registered_parties(
            parties@.take(i as int),
        ).push(registered_party(parties@[i as int])));
        i = i + 1;
    }
    assert(parties@.take(n as int) =~= parties@);
}

/// A party raises a dispute described by `dispute_data`, paying the raising
/// fee. The payer must be the first applicant, the deadlines must be in order
/// from `now` on, and each side's shares must add up to 100 percent. The
/// parties are recorded unjoined with no fingerprint, save the first applicant,
/// who has joined; the dispute counts one ready juror and awaits approval.
/// A side whose shares add up to more than 100 percent, however far, is refused.
pub fn raise_dispute(
    dispute: &mut Dispute,
    settings: &Settings,
    payer: Pubkey,
    now: i64,
    dispute_data: &Dispute,
) -> (r: Result<u64, CourtError>)
    requires
        dispute_data.applicants@.len() > 0,
    ensures
        dispute_effect(
            old(dispute)@,
            final(dispute)@,
            r,
            raise_dispute_outcome(
                old(dispute)@,
                payer,
                now,
                settings.raise_dispute_fee,
                dispute_data@,
            ),
        ),
{
    if dispute_data.applicants[0].address != payer {
        return Err(CourtError::PayerNotMatchFirstApplicantParty);
    }
    if !(now <= dispute_data.join_juror_deadline && dispute_data.join_juror_deadline
        <= dispute_data.draw_juror_deadline && dispute_data.draw_juror_deadline
        <= dispute_data.closure_deadline) {
        return Err(CourtError::DisputeTimingsNotValid);
    }
    if !shares_complete(&dispute_data.applicants) {
        return Err(CourtError::SharesExceeded);
    }
    if !shares_complete(&dispute_data.respondents) {
        return Err(CourtError::SharesExceeded);
    }
    let ghost before = dispute@;
    append_registered(&mut dispute.applicants, &dispute_data.applicants);
    dispute.applicants[0].joined = true;
    append_registered(&mut dispute.respondents, &dispute_data.respondents);
    dispute.init_time = now;
    dispute.join_juror_deadline = dispute_data.join_juror_deadline;
    dispute.draw_juror_deadline = dispute_data.draw_juror_deadline;
    dispute.closure_deadline = dispute_data.closure_deadline;
    dispute.ready_jurors = 1;
    dispute.status = DisputeStatus::Initialized;
    assert(dispute@.applicants =~= first_joined(
        before.applicants + registered_parties(dispute_data.applicants@),
    ));
    assert(dispute@ =~= raise_dispute_outcome(
        before,
        payer,
        now,
        settings.raise_dispute_fee,
        dispute_data@,
    ).unwrap().0);
    Ok(settings.raise_dispute_fee)
}

// ---------------------------------------------------------------- claim

/// Whether one of the juror slots holds `who`.
pub open spec fn holds_slot(slots: Seq<Juror>, who: Pubkey) -> bool {
    exists|i: int| 0 <= i < slots.len() && #[trigger] slots[i].address == who
}

/// Whether one of the slots holding `who` has already claimed its reward.
pub open spec fn claimed_slot(slots: Seq<Juror>, who: Pubkey) -> bool {
    exists|i: int|
        0 <= i < slots.len() && #[trigger] slots[i].address == who && slots[i].claimed_reward
}

/// Expected outcome of `claim_stake`: the stake the treasury pays back.
/// A juror that was not drawn, or a juror of a dispute that never started,
/// gets its stake back once jurors have been drawn. A drawn juror is paid no
/// reward by this instruction, so its claim finds nothing to withdraw.
pub open spec fn claim_stake_outcome(
    d: DisputeModel,
    entry: JurorReservationEntry,
    juror: Pubkey,
    now: i64,
) -> Result<(DisputeModel, u64), CourtError> {
    if entry.address != juror {
        Err(CourtError::JurorNotMatchedSigner)
    } else if now <= d.draw_juror_deadline {
        Err(CourtError::WithdrawBeforeJurorDrawProhibited)
    } else if d.status == DisputeStatus::Started && holds_slot(d.jurors, juror) {
        if now <= d.closure_deadline {
            Err(CourtError::WithdrawBeforeClosingDisputeProhibited)
        } else if claimed_slot(d.jurors, juror) {
            Err(CourtError::JurorAlreadyClaimedReward)
        } else {
            Err(CourtError::NothingToWithdraw)
        }
    } else if d.required_stake_amount == 0 {
        Err(CourtError::NothingToWithdraw)
    } else {
        Ok((d, d.required_stake_amount))
    }
}

/// A juror, signing as `juror` with its reservation entry, claims back the
/// stake it put up, which the treasury then pays out signed by the authority
/// that `find_treasury_authority` derives. The slots of a drawn juror are
/// marked as claimed while the program walks them; since such a claim ends
/// with nothing to withdraw, the marks are never kept.
pub fn claim_stake(
    dispute: &mut Dispute,
    juror_reservation_entry: &JurorReservationEntry,
    juror: Pubkey,
    now: i64,
) -> (r: Result<u64, CourtError>)
    ensures
        dispute_effect(
            old(dispute)@,
            final(dispute)@,
            r,
            claim_stake_outcome(old(dispute)@, *juror_reservation_entry, juror, now),
        ),
{
    if juror_reservation_entry.address != juror {
        return Err(CourtError::JurorNotMatchedSigner);
    }
    let ghost d = dispute@;
    let mut tokens_to_be_transferred: u64 = 0;
    let mut slots = dispute.jurors;
    if now > dispute.draw_juror_deadline {
        if dispute.status == DisputeStatus::Started {
            let mut juror_selected = false;
            let mut i: usize = 0;
            while i < 7
                invariant
                    0 <= i <= 7,
                    dispute@ == d,
                    juror_reservation_entry.address == juror,
                    d.jurors.len() == 7,
                    slots@.len() == 7,
                    now > d.draw_juror_deadline,
                    d.status == DisputeStatus::Started,
                    juror_selected == exists|k: int|
                        0 <= k < i && #[trigger] d.jurors[k].address == juror,
                    juror_selected ==> now > d.closure_deadline,
                    forall|k: int|
                        0 <= k < i && #[trigger] d.jurors[k].address == juror
                            ==> !d.jurors[k].claimed_reward,
                    forall|k: int|
                        0 <= k < 7 ==> #[trigger] slots@[k] == if k < i && d.jurors[k].address
                            == juror {
                            Juror { claimed_reward: true, ..d.jurors[k] }
                        } else {
                            d.jurors[k]
                        },
                decreases 7 - i,
            {
                if slots[i].address == juror {
                    juror_selected = true;
                    if now > dispute.closure_deadline {
                        if slots[i].claimed_reward {
                            assert(d.jurors[i as int].address == juror && d.jurors[i as int].claimed_reward);
                            return Err(CourtError::JurorAlreadyClaimedReward);
                        } else {
                            let slot = slots[i];
                            slots[i] = Juror { claimed_reward: true, ..slot };
                        }
                    } else {
                        assert(d.jurors[i as int].address == juror);
                        return Err(CourtError::WithdrawBeforeClosingDisputeProhibited);
                    }
                }
                i = i + 1;
            }
            if !juror_selected {
                tokens_to_be_transferred = dispute.required_stake_amount;
            } else {
                assert(!claimed_slot(d.jurors, juror));
            }
            proof {
                if !juror_selected {
                    assert(slots@ =~= d.jurors);
                }
            }
        } else {
            tokens_to_be_transferred = dispute.required_stake_amount;
        }
    } else {
        return Err(CourtError::WithdrawBeforeJurorDrawProhibited);
    }
    if tokens_to_be_transferred == 0 {
        return Err(CourtError::NothingToWithdraw);
    }
    dispute.jurors = slots;
    assert(dispute@ =~= d);
    Ok(tokens_to_be_transferred)
}

// ---------------------------------------------------------------- join juror

/// Whether jurors may join at `now`: before the juror-joining deadline, on an
/// approved dispute.
pub open spec fn juror_window_open(d: DisputeModel, now: i64) -> bool {
    now < d.join_juror_deadline && d.status == DisputeStatus::Approved
}

/// Whether an NFT whose first creator is `c` was made by the court's juror
/// NFT creator, who signed it.
pub open spec fn nft_creator_valid(c: Creator, juror_creator: Pubkey) -> bool {
    c.address == juror_creator && c.verified
}

/// Whether the creators read from the NFT's metadata start with a valid one;
/// metadata that lists no creator is not valid.
pub open spec fn first_creator_valid(creators: Option<Seq<Creator>>, juror_creator: Pubkey) -> bool {
    match creators {
        Some(cs) => cs.len() > 0 && nft_creator_valid(cs[0], juror_creator),
        None => false,
    }
}

/// Whether `join_juror` admits the juror: both NFT accounts hold data, jurors
/// may join at `now`, and the metadata reads with a valid first creator.
pub open spec fn join_juror_admits(
    d: DisputeModel,
    now: i64,
    metadata: Seq<u8>,
    master_edition: Seq<u8>,
    juror_creator: Pubkey,
) -> bool {
    &&& metadata.len() > 0
    &&& master_edition.len() > 0
    &&& juror_window_open(d, now)
    &&& metadata_read(metadata) matches Ok(cs) && first_creator_valid(cs, juror_creator)
}

/// The inputs on which `join_juror` runs to an answer: where the juror is
/// admitted, the ready-juror count has room for one more.
pub open spec fn join_juror_defined(
    d: DisputeModel,
    now: i64,
    metadata: Seq<u8>,
    master_edition: Seq<u8>,
    juror_creator: Pubkey,
) -> bool {
    join_juror_admits(d, now, metadata, master_edition, juror_creator) ==> d.ready_jurors
        < u16::MAX
}

/// Expected answer of `join_juror`: the stake to move into the treasury, or why
/// the juror is refused.
pub open spec fn join_juror_answer(
    d: DisputeModel,
    now: i64,
    metadata: Seq<u8>,
    master_edition: Seq<u8>,
    juror_creator: Pubkey,
) -> Result<u64, InstructionError> {
    if metadata.len() == 0 {
        Err(InstructionError::Court(CourtError::MetadataNotInitialized))
    } else if master_edition.len() == 0 {
        Err(InstructionError::Court(CourtError::MasterEditionNotInitialized))
    } else if !juror_window_open(d, now) {
        Err(InstructionError::Court(CourtError::JoinJurorDeadlineViolated))
    } else {
        match metadata_read(metadata) {
            Err(e) => Err(InstructionError::Metadata(e)),
            Ok(cs) => if first_creator_valid(cs, juror_creator) {
                Ok(d.required_stake_amount)
            } else {
                Err(InstructionError::Court(CourtError::NFTNotValid))
            },
        }
    }
}

/// What `join_juror` answers and does, given the dispute and reservation entry
/// before (`d`, `e`) and after (`d2`, `e2`).
pub open spec fn join_juror_effect(
    d: DisputeModel,
    d2: DisputeModel,
    e: JurorReservationEntry,
    e2: JurorReservationEntry,
    juror_creator: Pubkey,
    juror: Pubkey,
    now: i64,
    metadata: Seq<u8>,
    master_edition: Seq<u8>,
    r: Result<u64, InstructionError>,
) -> bool {
    &&& r == join_juror_answer(d, now, metadata, master_edition, juror_creator)
    &&& r is Err ==> d2 == d && e2 == e
    &&& r is Ok ==> {
        &&& d2 == DisputeModel { ready_jurors: (d.ready_jurors + 1) as u16, ..d }
        &&& e2 == JurorReservationEntry { address: juror, ..e }
    }
}

/// A holder of a juror NFT, signing as `juror`, stakes the dispute's required
/// amount to become one of its ready jurors. `metadata` and `master_edition`
/// are the data of the NFT's metadata and master edition accounts; both must
/// be initialized, and the metadata's first creator must be the court's juror
/// NFT creator and have signed it. On success the reservation entry records
/// the juror, the ready-juror count grows by one, and the stake is returned for
/// the caller to move into the treasury.
pub fn join_juror(
    dispute: &mut Dispute,
    juror_reservation_entry: &mut JurorReservationEntry,
    settings: &Settings,
    juror: Pubkey,
    now: i64,
    metadata: &[u8],
    master_edition: &[u8],
) -> (r: Result<u64, InstructionError>)
    requires
        join_juror_defined(old(dispute)@, now, metadata@, master_edition@, settings.juror_creator),
    ensures
        join_juror_effect(
            old(dispute)@,
            final(dispute)@,
            *old(juror_reservation_entry),
            *final(juror_reservation_entry),
            settings.juror_creator,
            juror,
            now,
            metadata@,
            master_edition@,
            r,
        ),
{
    if metadata.len() == 0 {
        return Err(InstructionError::Court(CourtError::MetadataNotInitialized));
    }
    if master_edition.len() == 0 {
        return Err(InstructionError::Court(CourtError::MasterEditionNotInitialized));
    }
    if now >= dispute.join_juror_deadline || dispute.status != DisputeStatus::Approved {
        return Err(InstructionError::Court(CourtError::JoinJurorDeadlineViolated));
    }
    let creators = match read_metadata_creators(metadata) {
        Ok(c) => c,
        Err(e) => {
            return Err(InstructionError::Metadata(e));
        },
    };
    let valid = match &creators {
        Some(cs) => cs.len() > 0 && cs[0].address == settings.juror_creator && cs[0].verified,
        None => false,
    };
    if !valid {
        return Err(InstructionError::Court(CourtError::NFTNotValid));
    }
    let ghost before = dispute@;
    juror_reservation_entry.address = juror;
    dispute.ready_jurors = dispute.ready_jurors + 1;
    assert(dispute@ =~= DisputeModel { ready_jurors: (before.ready_jurors + 1) as u16, ..before });
    Ok(dispute.required_stake_amount)
}

/// `join_juror` on any input: `None` where the program would abort because the
/// ready-juror count is full, and otherwise what `join_juror` answers.
pub fn try_join_juror(
    dispute: &mut Dispute,
    juror_reservation_entry: &mut JurorReservationEntry,
    settings: &Settings,
    juror: Pubkey,
    now: i64,
    metadata: &[u8],
    master_edition: &[u8],
) -> (r: Option<Result<u64, InstructionError>>)
    ensures
        r is None <==> !join_juror_defined(
            old(dispute)@,
            now,
            metadata@,
            master_edition@,
            settings.juror_creator,
        ),
        r is None ==> final(dispute)@ == old(dispute)@ && *final(juror_reservation_entry)
            == *old(juror_reservation_entry),
        r matches Some(res) ==> join_juror_effect(
            old(dispute)@,
            final(dispute)@,
            *old(juror_reservation_entry),
            *final(juror_reservation_entry),
            settings.juror_creator,
            juror,
            now,
            metadata@,
            master_edition@,
            res,
        ),
{
    if dispute.ready_jurors == u16::MAX && metadata.len() > 0 && master_edition.len() > 0 && now
        < dispute.join_juror_deadline && dispute.status == DisputeStatus::Approved {
        match read_metadata_creators(metadata) {
            Ok(Some(cs)) => {
                if cs.len() > 0 && cs[0].address == settings.juror_creator && cs[0].verified {
                    return None;
                }
            },
            _ => {},
        }
    }
    Some(join_juror(dispute, juror_reservation_entry, settings, juror, now, metadata, master_edition))
}

} // verus!
