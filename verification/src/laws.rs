//! Properties of the court that hold across its instructions.

use vstd::prelude::*;

use crate::accounts::{checked, ConstraintError, JoinJuror};
use crate::errors::{CourtError, InstructionError};
use crate::metadata::{metadata_read, Creator};
use solana_program::program_error::ProgramError;
use crate::instructions::{dispute_effect, lemma_first_party, zero_fingerprint,
    approve_dispute_outcome, cast_vote_outcome, claim_stake_outcome, claimed_slot, draw_jurors_outcome,
    first_joined, has_party, holds_slot, is_first_party, join_first, join_juror_defined, join_juror_effect, join_party_outcome, raise_dispute_outcome, registered_parties, total_share,
};
use crate::pubkey::Pubkey;
use crate::state::{
    metadata_program_id_spec, status_rank, DisputeModel, DisputeStatus, Juror, JurorOpinion, JurorReservationEntry, Party,
};

verus! {

/// What every recorded dispute satisfies: its deadlines are in order from the
/// time it was raised, each side's shares add up to 100 percent, the raising
/// applicant has joined, it has its seven juror slots, and at least one
/// ready juror.
pub open spec fn dispute_invariant(d: DisputeModel) -> bool {
    &&& d.init_time <= d.join_juror_deadline <= d.draw_juror_deadline <= d.closure_deadline
    &&& total_share(d.applicants) == 100
    &&& total_share(d.respondents) == 100
    &&& d.applicants.len() > 0
    &&& d.applicants[0].joined
    &&& d.jurors.len() == 7
    &&& d.ready_jurors >= 1
}

/// `d2` keeps what no instruction after raising changes: the timestamps, and a
/// status no earlier in the life cycle.
pub open spec fn keeps_schedule(d: DisputeModel, d2: DisputeModel) -> bool {
    &&& d2.init_time == d.init_time
    &&& d2.join_juror_deadline == d.join_juror_deadline
    &&& d2.draw_juror_deadline == d.draw_juror_deadline
    &&& d2.closure_deadline == d.closure_deadline
    &&& status_rank(d2.status) >= status_rank(d.status)
}

/// Registering parties keeps their shares.
pub proof fn lemma_registered_total_share(parties: Seq<Party>)
    ensures
        total_share(registered_parties(parties)) == total_share(parties),
    decreases parties.len(),
{
    if parties.len() > 0 {
        lemma_registered_total_share(parties.drop_last());
        assert(registered_parties(parties).drop_last() =~= registered_parties(parties.drop_last()));
    }
}

/// Changing parties without changing their shares keeps the total.
pub proof fn lemma_total_share_same_shares(a: Seq<Party>, b: Seq<Party>)
    requires
        a.len() == b.len(),
        forall|i: int| 0 <= i < a.len() ==> #[trigger] a[i].share == b[i].share,
    ensures
        total_share(a) == total_share(b),
    decreases a.len(),
{
    if a.len() > 0 {
        lemma_total_share_same_shares(a.drop_last(), b.drop_last());
    }
}

/// A party joining keeps every share and the raising applicant's join.
proof fn lemma_join_first_keeps(parties: Seq<Party>, who: Pubkey, uri: String)
    requires
        has_party(parties, who),
        parties.len() > 0,
    ensures
        total_share(join_first(parties, who, uri)) == total_share(parties),
        join_first(parties, who, uri).len() == parties.len(),
        parties[0].joined ==> join_first(parties, who, uri)[0].joined,
{
    let i0 = choose|i: int| 0 <= i < parties.len() && #[trigger] parties[i].address == who;
    lemma_first_exists(parties, who, i0);
    lemma_total_share_same_shares(join_first(parties, who, uri), parties);
}

/// Some position holding `who` implies a first one.
proof fn lemma_first_exists(parties: Seq<Party>, who: Pubkey, i: int)
    requires
        0 <= i < parties.len(),
        parties[i].address == who,
    ensures
        exists|k: int| is_first_party(parties, who, k),
    decreases i,
{
    if exists|j: int| 0 <= j < i && #[trigger] parties[j].address == who {
        let j = choose|j: int| 0 <= j < i && #[trigger] parties[j].address == who;
        lemma_first_exists(parties, who, j);
    } else {
        assert(is_first_party(parties, who, i));
    }
}

/// Raising a dispute on a fresh account records a dispute that satisfies the
/// invariant, opened at `now`, awaiting approval with one ready juror.
pub proof fn law_raise_establishes_invariant(
    d: DisputeModel,
    payer: Pubkey,
    now: i64,
    fee: u64,
    data: DisputeModel,
)
    requires
        d.applicants.len() == 0,
        d.respondents.len() == 0,
        d.jurors.len() == 7,
        data.applicants.len() > 0,
        raise_dispute_outcome(d, payer, now, fee, data) is Ok,
    ensures
        ({
            let (d2, paid) = raise_dispute_outcome(d, payer, now, fee, data)->Ok_0;
            &&& dispute_invariant(d2)
            &&& d2.init_time == now
            &&& d2.status == DisputeStatus::Initialized
            &&& d2.ready_jurors == 1
            &&& d2.applicants.len() == data.applicants.len()
            &&& d2.respondents.len() == data.respondents.len()
            &&& paid == fee
        }),
{
    let d2 = raise_dispute_outcome(d, payer, now, fee, data)->Ok_0.0;
    let regs = registered_parties(data.applicants);
    assert(d.applicants + regs =~= regs);
    assert(d.respondents + registered_parties(data.respondents) =~= registered_parties(
        data.respondents,
    ));
    lemma_registered_total_share(data.applicants);
    lemma_registered_total_share(data.respondents);
    lemma_total_share_same_shares(first_joined(regs), regs);
}

/// Approving keeps the invariant and the schedule, and moves the dispute on to `Approved`.
pub proof fn law_approve_keeps_invariant(d: DisputeModel, now: i64, value: u64, stake: u64)
    requires
        dispute_invariant(d),
        approve_dispute_outcome(d, now, value, stake) is Ok,
    ensures
        ({
            let d2 = approve_dispute_outcome(d, now, value, stake)->Ok_0.0;
            &&& dispute_invariant(d2)
            &&& keeps_schedule(d, d2)
            &&& d2.status == DisputeStatus::Approved
        }),
{
}

/// A party joining keeps the invariant, the schedule and the status.
pub proof fn law_join_party_keeps_invariant(d: DisputeModel, payer: Pubkey, now: i64, uri: String)
    requires
        dispute_invariant(d),
        join_party_outcome(d, payer, now, uri) is Ok,
    ensures
        ({
            let d2 = join_party_outcome(d, payer, now, uri)->Ok_0.0;
            &&& dispute_invariant(d2)
            &&& keeps_schedule(d, d2)
            &&& d2.status == d.status
            &&& (has_party(d.applicants, payer) || has_party(d.respondents, payer))
        }),
{
    if has_party(d.applicants, payer) {
        lemma_join_first_keeps(d.applicants, payer, uri);
    } else if has_party(d.respondents, payer) {
        lemma_join_first_keeps(d.respondents, payer, uri);
    }
}

/// Drawing jurors keeps the invariant and the schedule, and starts the dispute.
pub proof fn law_draw_keeps_invariant(d: DisputeModel, now: i64, picked: Seq<Juror>)
    requires
        dispute_invariant(d),
        draw_jurors_outcome(d, now, picked) is Ok,
    ensures
        ({
            let d2 = draw_jurors_outcome(d, now, picked)->Ok_0.0;
            &&& dispute_invariant(d2)
            &&& keeps_schedule(d, d2)
            &&& d2.status == DisputeStatus::Started
        }),
{
}

/// Voting keeps the invariant, the schedule and the status; it changes only
/// the opinion of the slots that hold the voter, and those take the vote.
pub proof fn law_vote_keeps_invariant(
    d: DisputeModel,
    entry: JurorReservationEntry,
    payer: Pubkey,
    now: i64,
    opinion: JurorOpinion,
)
    requires
        dispute_invariant(d),
        cast_vote_outcome(d, entry, payer, now, opinion) is Ok,
    ensures
        ({
            let d2 = cast_vote_outcome(d, entry, payer, now, opinion)->Ok_0.0;
            &&& dispute_invariant(d2)
            &&& keeps_schedule(d, d2)
            &&& d2.status == d.status
            &&& forall|i: int|
                0 <= i < 7 ==> {
                    &&& (#[trigger] d2.jurors[i]).address == d.jurors[i].address
                    &&& d2.jurors[i].claimed_reward == d.jurors[i].claimed_reward
                    &&& d2.jurors[i].opinion == if d.jurors[i].address == payer {
                        opinion
                    } else {
                        d.jurors[i].opinion
                    }
                }
        }),
{
}

/// A stake is paid back only as the dispute's full required stake, never as
/// nothing, and a claim changes no account.
pub proof fn law_claim_pays_the_stake(
    d: DisputeModel,
    entry: JurorReservationEntry,
    juror: Pubkey,
    now: i64,
)
    requires
        claim_stake_outcome(d, entry, juror, now) is Ok,
    ensures
        ({
            let (d2, paid) = claim_stake_outcome(d, entry, juror, now)->Ok_0;
            &&& d2 == d
            &&& paid == d.required_stake_amount
            &&& paid > 0
            &&& entry.address == juror
            &&& now > d.draw_juror_deadline
        }),
{
}

/// Once jurors have been drawn, a juror with a reservation gets its whole
/// stake back when the dispute never started or the juror was not drawn.
pub proof fn law_undrawn_juror_gets_stake_back(
    d: DisputeModel,
    entry: JurorReservationEntry,
    juror: Pubkey,
    now: i64,
)
    requires
        entry.address == juror,
        now > d.draw_juror_deadline,
        d.required_stake_amount > 0,
        d.status != DisputeStatus::Started || !holds_slot(d.jurors, juror),
    ensures
        claim_stake_outcome(d, entry, juror, now) == Ok::<(DisputeModel, u64), CourtError>(
            (d, d.required_stake_amount),
        ),
{
}

/// A juror drawn onto a started dispute never gets anything back from a claim.
pub proof fn law_drawn_juror_claims_nothing(
    d: DisputeModel,
    entry: JurorReservationEntry,
    juror: Pubkey,
    now: i64,
    i: int,
)
    requires
        0 <= i < d.jurors.len(),
        d.jurors[i].address == juror,
        d.status == DisputeStatus::Started,
    ensures
        claim_stake_outcome(d, entry, juror, now) is Err,
{
}

/// A juror joining keeps the invariant, the schedule and the status, and
/// adds exactly one ready juror.
pub proof fn law_join_juror_keeps_invariant(
    d: DisputeModel,
    d2: DisputeModel,
    e: JurorReservationEntry,
    e2: JurorReservationEntry,
    juror_creator: Pubkey,
    juror: Pubkey,
    now: i64,
    metadata: Seq<u8>,
    master_edition: Seq<u8>,
    r: Result<u64, InstructionError>,
)
    requires
        dispute_invariant(d),
        join_juror_defined(d, now, metadata, master_edition, juror_creator),
        join_juror_effect(d, d2, e, e2, juror_creator, juror, now, metadata, master_edition, r),
        r is Ok,
    ensures
        dispute_invariant(d2),
        keeps_schedule(d, d2),
        d2.status == d.status,
        d2.ready_jurors == d.ready_jurors + 1,
        e2.address == juror,
{
}

/// Two parties make the same claim when they name the same address, share and
/// evidence.
pub open spec fn same_claim(a: Party, b: Party) -> bool {
    a.address == b.address && a.share == b.share && a.evidence_uri == b.evidence_uri
}

/// Two party lists make the same claims, position by position.
pub open spec fn same_claims(a: Seq<Party>, b: Seq<Party>) -> bool {
    a.len() == b.len() && forall|i: int| 0 <= i < a.len() ==> #[trigger] same_claim(a[i], b[i])
}

/// Raising a dispute reads of its description only the parties' addresses,
/// shares and evidence and the three deadlines: the value, the stake, the
/// timestamps and counts, the juror slots and the parties' joined flags and
/// fingerprints change neither the answer nor the recorded dispute.
pub proof fn law_raise_ignores_unused_fields(
    d: DisputeModel,
    payer: Pubkey,
    now: i64,
    fee: u64,
    data: DisputeModel,
    other: DisputeModel,
)
    requires
        data.applicants.len() > 0,
        same_claims(data.applicants, other.applicants),
        same_claims(data.respondents, other.respondents),
        data.join_juror_deadline == other.join_juror_deadline,
        data.draw_juror_deadline == other.draw_juror_deadline,
        data.closure_deadline == other.closure_deadline,
    ensures
        raise_dispute_outcome(d, payer, now, fee, data) == raise_dispute_outcome(
            d,
            payer,
            now,
            fee,
            other,
        ),
{
    assert(same_claim(data.applicants[0], other.applicants[0]));
    assert(registered_parties(data.applicants) =~= registered_parties(other.applicants)) by {
        assert forall|i: int| 0 <= i < data.applicants.len() implies registered_parties(
            data.applicants,
        )[i] == registered_parties(other.applicants)[i] by {
            assert(same_claim(data.applicants[i], other.applicants[i]));
        }
    }
    assert(registered_parties(data.respondents) =~= registered_parties(other.respondents)) by {
        assert forall|i: int| 0 <= i < data.respondents.len() implies registered_parties(
            data.respondents,
        )[i] == registered_parties(other.respondents)[i] by {
            assert(same_claim(data.respondents[i], other.respondents[i]));
        }
    }
    assert forall|i: int| 0 <= i < data.applicants.len() implies #[trigger] data.applicants[i].share
        == other.applicants[i].share by {
        assert(same_claim(data.applicants[i], other.applicants[i]));
    }
    assert forall|i: int| 0 <= i < data.respondents.len() implies #[trigger] data.respondents[i].share
        == other.respondents[i].share by {
        assert(same_claim(data.respondents[i], other.respondents[i]));
    }
    lemma_total_share_same_shares(data.applicants, other.applicants);
    lemma_total_share_same_shares(data.respondents, other.respondents);
}

/// Only drawing jurors starts a dispute: it does so from `Approved`, and every
/// other instruction leaves a dispute that has not started unstarted (voting
/// on one is refused).
pub proof fn law_only_drawing_starts(
    d: DisputeModel,
    now: i64,
    payer: Pubkey,
    uri: String,
    value: u64,
    stake: u64,
    picked: Seq<Juror>,
    entry: JurorReservationEntry,
    opinion: JurorOpinion,
    fee: u64,
    data: DisputeModel,
    d2: DisputeModel,
    e: JurorReservationEntry,
    e2: JurorReservationEntry,
    juror_creator: Pubkey,
    metadata: Seq<u8>,
    master_edition: Seq<u8>,
    r: Result<u64, InstructionError>,
)
    requires
        data.applicants.len() > 0,
    ensures
        draw_jurors_outcome(d, now, picked) is Ok ==> d.status == DisputeStatus::Approved
            && draw_jurors_outcome(d, now, picked)->Ok_0.0.status == DisputeStatus::Started,
        d.status != DisputeStatus::Started ==> {
            &&& approve_dispute_outcome(d, now, value, stake) is Ok ==> approve_dispute_outcome(
                d,
                now,
                value,
                stake,
            )->Ok_0.0.status != DisputeStatus::Started
            &&& join_party_outcome(d, payer, now, uri) is Ok ==> join_party_outcome(
                d,
                payer,
                now,
                uri,
            )->Ok_0.0.status != DisputeStatus::Started
            &&& cast_vote_outcome(d, entry, payer, now, opinion) is Err
            &&& claim_stake_outcome(d, entry, payer, now) is Ok ==> claim_stake_outcome(
                d,
                entry,
                payer,
                now,
            )->Ok_0.0.status != DisputeStatus::Started
            &&& join_juror_effect(d, d2, e, e2, juror_creator, payer, now, metadata, master_edition, r)
                ==> d2.status != DisputeStatus::Started
        },
        raise_dispute_outcome(d, payer, now, fee, data) is Ok ==> raise_dispute_outcome(
            d,
            payer,
            now,
            fee,
            data,
        )->Ok_0.0.status == DisputeStatus::Initialized,
{
}

/// A vote is taken exactly while the dispute has started and has not reached
/// its closure deadline, from the juror its reservation entry names. Nothing
/// else bounds the time: a vote cast right after the draw is recorded. Every
/// slot holding the voter takes its opinion and keeps its address and claim;
/// the other slots and the rest of the dispute stay as they were. A refused
/// vote changes nothing.
pub proof fn law_vote_records_opinion(
    d: DisputeModel,
    d2: DisputeModel,
    r: Result<(), CourtError>,
    entry: JurorReservationEntry,
    payer: Pubkey,
    now: i64,
    opinion: JurorOpinion,
)
    requires
        dispute_effect(d, d2, r, cast_vote_outcome(d, entry, payer, now, opinion)),
    ensures
        r is Ok <==> (d.status == DisputeStatus::Started && now < d.closure_deadline
            && entry.address == payer),
        (d.status != DisputeStatus::Started || now >= d.closure_deadline) ==> r == Err::<
            (),
            CourtError,
        >(CourtError::VoteDeadlineViolated),
        (d.status == DisputeStatus::Started && now < d.closure_deadline && entry.address
            != payer) ==> r == Err::<(), CourtError>(CourtError::JurorNotMatchedSigner),
        r is Err ==> d2 == d,
        r is Ok ==> {
            &&& d2.jurors.len() == d.jurors.len()
            &&& forall|i: int|
                0 <= i < d.jurors.len() ==> {
                    &&& (#[trigger] d2.jurors[i]).address == d.jurors[i].address
                    &&& d2.jurors[i].claimed_reward == d.jurors[i].claimed_reward
                    &&& d.jurors[i].address == payer ==> d2.jurors[i].opinion == opinion
                    &&& d.jurors[i].address != payer ==> d2.jurors[i].opinion
                        == d.jurors[i].opinion
                }
            &&& d2 == DisputeModel { jurors: d2.jurors, ..d }
        },
{
}

/// Drawing succeeds exactly on an approved dispute strictly between the
/// juror-joining and the drawing deadline, with a panel shorter than the seven
/// slots. Slot `i` then holds the `i`-th drawn address with no vote and nothing
/// claimed, the slots past the panel stay, and the dispute has started. A panel
/// of exactly seven is refused with the juror-count error before the window is
/// looked at; outside the window any other panel gets the deadline error.
pub proof fn law_draw_fills_panel(
    d: DisputeModel,
    d2: DisputeModel,
    r: Result<(), CourtError>,
    now: i64,
    picked: Seq<Juror>,
)
    requires
        d.jurors.len() == 7,
        dispute_effect(d, d2, r, draw_jurors_outcome(d, now, picked)),
    ensures
        r is Ok <==> (picked.len() < 7 && d.status == DisputeStatus::Approved
            && d.join_juror_deadline < now < d.draw_juror_deadline),
        picked.len() == 7 ==> r == Err::<(), CourtError>(CourtError::JurorNumbersNotCorrect),
        (picked.len() != 7 && !(d.status == DisputeStatus::Approved && d.join_juror_deadline
            < now < d.draw_juror_deadline)) ==> r == Err::<(), CourtError>(
            CourtError::DrawJurorDeadlineViolated,
        ),
        (picked.len() > 7 && d.status == DisputeStatus::Approved && d.join_juror_deadline < now
            < d.draw_juror_deadline) ==> r == Err::<(), CourtError>(
            CourtError::JurorNumbersNotCorrect,
        ),
        r is Err ==> d2 == d,
        r is Ok ==> {
            &&& d2.status == DisputeStatus::Started
            &&& d2.jurors.len() == 7
            &&& forall|i: int|
                0 <= i < picked.len() ==> #[trigger] d2.jurors[i] == (Juror {
                    address: picked[i].address,
                    opinion: JurorOpinion::NoVote,
                    claimed_reward: false,
                })
            &&& forall|i: int| picked.len() <= i < 7 ==> #[trigger] d2.jurors[i] == d.jurors[i]
            &&& d2 == DisputeModel { jurors: d2.jurors, status: d2.status, ..d }
        },
{
}

/// Before the juror-joining deadline, on a dispute awaiting approval, an
/// applicant may always join, whether or not it has joined before: the first
/// applicant with its address (position `i`) ends joined with the given
/// evidence, and every other party stays as it was.
pub proof fn law_applicant_joins(
    d: DisputeModel,
    d2: DisputeModel,
    r: Result<(), CourtError>,
    payer: Pubkey,
    now: i64,
    uri: String,
    i: int,
)
    requires
        is_first_party(d.applicants, payer, i),
        dispute_effect(d, d2, r, join_party_outcome(d, payer, now, uri)),
    ensures
        r is Ok <==> (now < d.join_juror_deadline && d.status == DisputeStatus::Initialized),
        r is Err ==> r == Err::<(), CourtError>(CourtError::JoinPartyDeadlineViolated) && d2 == d,
        r is Ok ==> {
            &&& d2.applicants.len() == d.applicants.len()
            &&& d2.applicants[i] == (Party { joined: true, evidence_uri: uri, ..d.applicants[i] })
            &&& forall|k: int|
                0 <= k < d.applicants.len() && k != i ==> #[trigger] d2.applicants[k]
                    == d.applicants[k]
            &&& d2 == DisputeModel { applicants: d2.applicants, ..d }
        },
{
    lemma_first_party(d.applicants, payer, i);
}

/// A respondent that is not also an applicant joins in the same way: the first
/// respondent with its address (position `i`) ends joined with the given
/// evidence, and every other party stays as it was.
pub proof fn law_respondent_joins(
    d: DisputeModel,
    d2: DisputeModel,
    r: Result<(), CourtError>,
    payer: Pubkey,
    now: i64,
    uri: String,
    i: int,
)
    requires
        forall|k: int| 0 <= k < d.applicants.len() ==> #[trigger] d.applicants[k].address != payer,
        is_first_party(d.respondents, payer, i),
        dispute_effect(d, d2, r, join_party_outcome(d, payer, now, uri)),
    ensures
        r is Ok <==> (now < d.join_juror_deadline && d.status == DisputeStatus::Initialized),
        r is Err ==> r == Err::<(), CourtError>(CourtError::JoinPartyDeadlineViolated) && d2 == d,
        r is Ok ==> {
            &&& d2.respondents.len() == d.respondents.len()
            &&& d2.respondents[i] == (Party {
                joined: true,
                evidence_uri: uri,
                ..d.respondents[i]
            })
            &&& forall|k: int|
                0 <= k < d.respondents.len() && k != i ==> #[trigger] d2.respondents[k]
                    == d.respondents[k]
            &&& d2 == DisputeModel { respondents: d2.respondents, ..d }
        },
{
    lemma_first_party(d.respondents, payer, i);
}

/// Someone who is neither an applicant nor a respondent cannot join: inside
/// the window it is refused as unauthorized, outside it with the deadline
/// error, and the dispute is unchanged.
pub proof fn law_stranger_cannot_join(
    d: DisputeModel,
    d2: DisputeModel,
    r: Result<(), CourtError>,
    payer: Pubkey,
    now: i64,
    uri: String,
)
    requires
        forall|k: int| 0 <= k < d.applicants.len() ==> #[trigger] d.applicants[k].address != payer,
        forall|k: int|
            0 <= k < d.respondents.len() ==> #[trigger] d.respondents[k].address != payer,
        dispute_effect(d, d2, r, join_party_outcome(d, payer, now, uri)),
    ensures
        d2 == d,
        (now < d.join_juror_deadline && d.status == DisputeStatus::Initialized) ==> r == Err::<
            (),
            CourtError,
        >(CourtError::NoJoinAuthorize),
        !(now < d.join_juror_deadline && d.status == DisputeStatus::Initialized) ==> r == Err::<
            (),
            CourtError,
        >(CourtError::JoinPartyDeadlineViolated),
{
}

/// A holder of a valid juror NFT is admitted however many jurors are already
/// ready: with both NFT accounts initialized, the window open, and a metadata
/// whose first creator is the court's verified juror creator, joining answers
/// the dispute's required stake, counts one more ready juror, records the
/// juror in its reservation entry, and changes nothing else.
pub proof fn law_valid_juror_is_admitted(
    d: DisputeModel,
    d2: DisputeModel,
    e: JurorReservationEntry,
    e2: JurorReservationEntry,
    juror_creator: Pubkey,
    juror: Pubkey,
    now: i64,
    metadata: Seq<u8>,
    master_edition: Seq<u8>,
    creators: Seq<Creator>,
    r: Result<u64, InstructionError>,
)
    requires
        metadata.len() > 0,
        master_edition.len() > 0,
        now < d.join_juror_deadline,
        d.status == DisputeStatus::Approved,
        metadata_read(metadata) == Ok::<Option<Seq<Creator>>, ProgramError>(Some(creators)),
        creators.len() > 0,
        creators[0].address == juror_creator,
        creators[0].verified,
        d.ready_jurors < u16::MAX,
        join_juror_effect(d, d2, e, e2, juror_creator, juror, now, metadata, master_edition, r),
    ensures
        r == Ok::<u64, InstructionError>(d.required_stake_amount),
        d2.ready_jurors == d.ready_jurors + 1,
        d2 == (DisputeModel { ready_jurors: d2.ready_jurors, ..d }),
        e2 == (JurorReservationEntry { address: juror, ..e }),
{
}

/// Why a juror is refused, in the order the checks are made: uninitialized
/// metadata, then an uninitialized master edition, then a closed window, then
/// the metadata reader's own error, then an NFT whose creators do not start
/// with the court's verified juror creator (none listed included). A refused
/// juror changes neither the dispute nor its reservation entry.
pub proof fn law_juror_refusals(
    d: DisputeModel,
    d2: DisputeModel,
    e: JurorReservationEntry,
    e2: JurorReservationEntry,
    juror_creator: Pubkey,
    juror: Pubkey,
    now: i64,
    metadata: Seq<u8>,
    master_edition: Seq<u8>,
    r: Result<u64, InstructionError>,
)
    requires
        join_juror_effect(d, d2, e, e2, juror_creator, juror, now, metadata, master_edition, r),
    ensures
        r is Err ==> d2 == d && e2 == e,
        metadata.len() == 0 ==> r == Err::<u64, InstructionError>(
            InstructionError::Court(CourtError::MetadataNotInitialized),
        ),
        (metadata.len() > 0 && master_edition.len() == 0) ==> r == Err::<u64, InstructionError>(
            InstructionError::Court(CourtError::MasterEditionNotInitialized),
        ),
        (metadata.len() > 0 && master_edition.len() > 0 && !(now < d.join_juror_deadline
            && d.status == DisputeStatus::Approved)) ==> r == Err::<u64, InstructionError>(
            InstructionError::Court(CourtError::JoinJurorDeadlineViolated),
        ),
        (metadata.len() > 0 && master_edition.len() > 0 && now < d.join_juror_deadline
            && d.status == DisputeStatus::Approved) ==> match metadata_read(metadata) {
            Err(x) => r == Err::<u64, InstructionError>(InstructionError::Metadata(x)),
            Ok(cs) => (cs matches Some(s) && s.len() > 0 && s[0].address == juror_creator
                && s[0].verified) || r == Err::<u64, InstructionError>(
                InstructionError::Court(CourtError::NFTNotValid),
            ),
        },
{
}

/// The juror's NFT token account must hold exactly one token of the NFT's
/// mint and belong to the juror; otherwise the accounts are refused with the
/// raw-constraint error before anything else is looked at. Accepted accounts
/// are the ones the instruction names: the derived metadata, master edition
/// and settings addresses, a stake account of the court token owned by the
/// juror holding at least the required stake, the court's treasury and mint,
/// and the metadata program.
pub proof fn law_join_juror_accounts(
    a: JoinJuror,
    metadata_address: Pubkey,
    master_edition_address: Pubkey,
    settings_address: Pubkey,
)
    ensures
        (a.juror_nft_token_account.mint != a.juror_nft_mint || a.juror_nft_token_account.amount
            != 1 || a.juror_nft_token_account.owner != a.juror) ==> {
            &&& a.violation(metadata_address, master_edition_address, settings_address) == Some(
                ConstraintError::ConstraintRaw,
            )
            &&& checked(a.violation(metadata_address, master_edition_address, settings_address))
                == Err::<(), ConstraintError>(ConstraintError::ConstraintRaw)
        },
        a.violation(metadata_address, master_edition_address, settings_address) is None ==> {
            &&& a.juror_nft_token_account.mint == a.juror_nft_mint
            &&& a.juror_nft_token_account.amount == 1
            &&& a.juror_nft_token_account.owner == a.juror
            &&& a.juror_nft_metadata_account == metadata_address
            &&& a.juror_nft_master_edition_account == master_edition_address
            &&& a.juror_token_account.amount >= a.required_stake_amount
            &&& a.juror_token_account.mint == a.mint
            &&& a.juror_token_account.owner == a.juror
            &&& a.settings == settings_address
            &&& a.court_treasury_token_account == a.settings_data.court_treasury_token_account
            &&& a.mint == a.settings_data.court_token
            &&& a.token_metadata_program == metadata_program_id_spec()
        },
{
}

/// Approval succeeds exactly before the juror-joining deadline on a dispute
/// awaiting approval; it then records the value and the required stake and
/// marks the dispute approved, changing nothing else. A late approval gets the
/// deadline error, one of a dispute no longer awaiting approval the
/// already-approved error, and neither changes the dispute.
pub proof fn law_approval_sets_value_and_stake(
    d: DisputeModel,
    d2: DisputeModel,
    r: Result<(), CourtError>,
    now: i64,
    value: u64,
    stake: u64,
)
    requires
        dispute_effect(d, d2, r, approve_dispute_outcome(d, now, value, stake)),
    ensures
        r is Ok <==> (now < d.join_juror_deadline && d.status == DisputeStatus::Initialized),
        now >= d.join_juror_deadline ==> r == Err::<(), CourtError>(
            CourtError::ApproveMissedDeadlineDispute,
        ),
        (now < d.join_juror_deadline && d.status != DisputeStatus::Initialized) ==> r == Err::<
            (),
            CourtError,
        >(CourtError::DisputeAlreadyApproved),
        r is Err ==> d2 == d,
        r is Ok ==> d2 == (DisputeModel {
            status: DisputeStatus::Approved,
            dispute_value: value,
            required_stake_amount: stake,
            ..d
        }),
{
}

/// Raising a dispute on a new account succeeds exactly when the payer is the
/// first applicant, the deadlines run in order from `now`, and each side's
/// shares add up to 100 percent; the checks are made in that order. The payer
/// then owes the raising fee, and the account records every listed party in
/// order with its address, share and evidence, no fingerprint, and only the
/// first applicant joined; the deadlines given, `now` as the time raised, one
/// ready juror, and the status of a dispute awaiting approval.
pub proof fn law_raise_records_dispute(
    d: DisputeModel,
    d2: DisputeModel,
    r: Result<u64, CourtError>,
    payer: Pubkey,
    now: i64,
    fee: u64,
    data: DisputeModel,
)
    requires
        data.applicants.len() > 0,
        d.applicants.len() == 0,
        d.respondents.len() == 0,
        dispute_effect(d, d2, r, raise_dispute_outcome(d, payer, now, fee, data)),
    ensures
        r is Ok <==> (data.applicants[0].address == payer && now <= data.join_juror_deadline
            <= data.draw_juror_deadline <= data.closure_deadline && total_share(data.applicants)
            == 100 && total_share(data.respondents) == 100),
        data.applicants[0].address != payer ==> r == Err::<u64, CourtError>(
            CourtError::PayerNotMatchFirstApplicantParty,
        ),
        (data.applicants[0].address == payer && !(now <= data.join_juror_deadline
            <= data.draw_juror_deadline <= data.closure_deadline)) ==> r == Err::<u64, CourtError>(
            CourtError::DisputeTimingsNotValid,
        ),
        (data.applicants[0].address == payer && now <= data.join_juror_deadline
            <= data.draw_juror_deadline <= data.closure_deadline && (total_share(data.applicants)
            != 100 || total_share(data.respondents) != 100)) ==> r == Err::<u64, CourtError>(
            CourtError::SharesExceeded,
        ),
        r is Err ==> d2 == d,
        r is Ok ==> {
            &&& r == Ok::<u64, CourtError>(fee)
            &&& d2.applicants.len() == data.applicants.len()
            &&& d2.respondents.len() == data.respondents.len()
            &&& forall|i: int|
                0 <= i < data.applicants.len() ==> {
                    &&& (#[trigger] d2.applicants[i]).address == data.applicants[i].address
                    &&& d2.applicants[i].share == data.applicants[i].share
                    &&& d2.applicants[i].evidence_uri == data.applicants[i].evidence_uri
                    &&& d2.applicants[i].fingerprint == zero_fingerprint()
                    &&& d2.applicants[i].joined == (i == 0)
                }
            &&& forall|i: int|
                0 <= i < data.respondents.len() ==> {
                    &&& (#[trigger] d2.respondents[i]).address == data.respondents[i].address
                    &&& d2.respondents[i].share == data.respondents[i].share
                    &&& d2.respondents[i].evidence_uri == data.respondents[i].evidence_uri
                    &&& d2.respondents[i].fingerprint == zero_fingerprint()
                    &&& !d2.respondents[i].joined
                }
            &&& d2.init_time == now
            &&& d2.join_juror_deadline == data.join_juror_deadline
            &&& d2.draw_juror_deadline == data.draw_juror_deadline
            &&& d2.closure_deadline == data.closure_deadline
            &&& d2.ready_jurors == 1
            &&& d2.status == DisputeStatus::Initialized
            &&& d2.dispute_value == d.dispute_value
            &&& d2.required_stake_amount == d.required_stake_amount
            &&& d2.jurors == d.jurors
        },
{
    assert(d.applicants + registered_parties(data.applicants) =~= registered_parties(
        data.applicants,
    ));
    assert(d.respondents + registered_parties(data.respondents) =~= registered_parties(
        data.respondents,
    ));
}

/// Why a claim is refused, in order: a reservation entry that is not the
/// signer's; a claim before the drawing deadline; for a juror holding slot `i`
/// of a started dispute, a claim before the closure deadline, then a slot of
/// its already marked as claimed, and otherwise nothing to withdraw; for any
/// other juror, a required stake of zero leaves nothing to withdraw.
pub proof fn law_claim_refusals(
    d: DisputeModel,
    entry: JurorReservationEntry,
    juror: Pubkey,
    now: i64,
    i: int,
)
    requires
        0 <= i < d.jurors.len(),
    ensures
        entry.address != juror ==> claim_stake_outcome(d, entry, juror, now) == Err::<
            (DisputeModel, u64),
            CourtError,
        >(CourtError::JurorNotMatchedSigner),
        (entry.address == juror && now <= d.draw_juror_deadline) ==> claim_stake_outcome(
            d,
            entry,
            juror,
            now,
        ) == Err::<(DisputeModel, u64), CourtError>(
            CourtError::WithdrawBeforeJurorDrawProhibited,
        ),
        (entry.address == juror && d.draw_juror_deadline < now <= d.closure_deadline
            && d.status == DisputeStatus::Started && d.jurors[i].address == juror)
            ==> claim_stake_outcome(d, entry, juror, now) == Err::<(DisputeModel, u64), CourtError>(
            CourtError::WithdrawBeforeClosingDisputeProhibited,
        ),
        (entry.address == juror && d.draw_juror_deadline < now && d.closure_deadline < now
            && d.status == DisputeStatus::Started && d.jurors[i].address == juror
            && d.jurors[i].claimed_reward) ==> claim_stake_outcome(d, entry, juror, now) == Err::<
            (DisputeModel, u64),
            CourtError,
        >(CourtError::JurorAlreadyClaimedReward),
        (entry.address == juror && d.draw_juror_deadline < now && d.closure_deadline < now
            && d.status == DisputeStatus::Started && d.jurors[i].address == juror
            && (forall|k: int|
            0 <= k < d.jurors.len() && #[trigger] d.jurors[k].address == juror
                ==> !d.jurors[k].claimed_reward)) ==> claim_stake_outcome(d, entry, juror, now)
            == Err::<(DisputeModel, u64), CourtError>(CourtError::NothingToWithdraw),
        (entry.address == juror && d.draw_juror_deadline < now && d.required_stake_amount == 0
            && (d.status != DisputeStatus::Started || forall|k: int|
            0 <= k < d.jurors.len() ==> #[trigger] d.jurors[k].address != juror))
            ==> claim_stake_outcome(d, entry, juror, now) == Err::<(DisputeModel, u64), CourtError>(
            CourtError::NothingToWithdraw,
        ),
{
    if d.jurors[i].address == juror && d.jurors[i].claimed_reward {
        assert(claimed_slot(d.jurors, juror));
    }
}

} // verus!
