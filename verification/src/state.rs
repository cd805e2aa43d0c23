//! On-chain account state of the court, its view for contracts, and the sizes
//! and seeds that lay the accounts out.

use vstd::prelude::*;

use crate::pubkey::Pubkey;

verus! {

/// Bytes of the token-metadata program's address,
/// base58 `metaqbxxUerdq28cj1RbAWkYQm3ybzjb6a8bt518x1s`.
pub open spec fn metadata_program_id_spec() -> Pubkey {
    Pubkey {
        bytes: [
            11, 112, 101, 177, 227, 209, 124, 69, 56, 157, 82, 127, 107, 4, 195, 205, 88, 184, 108,
            115, 26, 160, 253, 181, 73, 182, 209, 188, 3, 248, 41, 70,
        ],
    }
}

/// Address of the token-metadata program that owns juror NFT metadata.
pub fn metadata_program_id() -> (r: Pubkey)
    ensures
        r == metadata_program_id_spec(),
{
    Pubkey {
        bytes: [
            11, 112, 101, 177, 227, 209, 124, 69, 56, 157, 82, 127, 107, 4, 195, 205, 88, 184, 108,
            115, 26, 160, 253, 181, 73, 182, 209, 188, 3, 248, 41, 70,
        ],
    }
}

/// Seed of the settings account address.
pub const SETTINGS_PDA: &'static str = "settings";

/// Seed of the court treasury token account address.
pub const COURT_TREASURY_PDA: &'static str = "court_treasury_token_account";

/// Seed of the authority that owns the court treasury token account.
pub const COURT_TREASURY_AUTHORITY_PDA_SEED: &'static str = "court_treasury_authority";

/// Seed of a juror reservation entry address.
pub const JUROR_PDA: &'static str = "juror";

/// Seed of a token metadata account address.
pub const METADATA_PDA: &'static str = "metadata";

/// Seed of a master edition account address.
pub const EDITION_PDA: &'static str = "edition";

/// Longest evidence URI a party account has room for.
pub const MAX_URI_LENGTH: usize = 200;

/// Bytes of the settings account: discriminator, six addresses, the bump and the fee.
pub const SETTINGS_SIZE: usize = 8 + 32 + 32 + 32 + 32 + 32 + 32 + 1 + 8;

/// Bytes of one juror slot: address, opinion, claimed flag.
pub const JUROR_SIZE: usize = 32 + 1 + 1;

/// Bytes of a dispute account before its parties: discriminator, two amounts,
/// four timestamps, the ready-juror count, the status, two vector prefixes and
/// the seven juror slots.
pub const DISPUTE_SIZE: usize = 8 + 8 + 8 + 8 + 8 + 8 + 8 + 2 + 1 + 4 + 4 + (7 * JUROR_SIZE);

/// Bytes of one party: address, joined flag, share, the URI with its prefix, fingerprint.
pub const PARTY_SIZE: usize = 32 + 1 + 1 + 4 + MAX_URI_LENGTH + 32;

/// Bytes of a juror reservation entry: discriminator and two addresses.
pub const JUROR_RESERVATION_ENTRY_SIZE: usize = 8 + 32 + 32;

/// Bytes a dispute account is created with for the given numbers of applicants
/// and respondents.
pub fn dispute_account_space(applicants: usize, respondents: usize) -> (r: usize)
    requires
        DISPUTE_SIZE + (applicants + respondents) * PARTY_SIZE <= usize::MAX,
    ensures
        r == DISPUTE_SIZE + (applicants + respondents) * PARTY_SIZE,
{
    assert(applicants + respondents <= (applicants + respondents) * PARTY_SIZE) by (nonlinear_arith)
        requires
            PARTY_SIZE >= 1,
    ;
    DISPUTE_SIZE + (applicants + respondents) * PARTY_SIZE
}

/// Global configuration of the court.
pub struct Settings {
    pub master_admin: Pubkey,
    pub admin: Pubkey,
    pub court_token: Pubkey,
    pub juror_creator: Pubkey,
    pub court_treasury_token_account: Pubkey,
    pub court_treasury_token_account_authority: Pubkey,
    pub court_treasury_token_account_bump: u8,
    pub raise_dispute_fee: u64,
}

/// Life cycle of a dispute: raised, approved by the administrator, jurors drawn.
#[derive(PartialEq, Eq, Structural, Clone, Copy, Debug)]
pub enum DisputeStatus {
    Initialized,
    Approved,
    Started,
}

/// The side a juror voted for, or `NoVote` while the juror has not voted.
#[derive(PartialEq, Eq, Structural, Clone, Copy, Debug)]
pub enum JurorOpinion {
    NoVote,
    Applicant,
    Respondent,
}

/// One of the seven juror slots of a dispute.
#[derive(Clone, Copy, Debug)]
pub struct Juror {
    pub address: Pubkey,
    pub opinion: JurorOpinion,
    pub claimed_reward: bool,
}

/// A party to a dispute, on the applicant or the respondent side.
#[derive(Debug)]
pub struct Party {
    pub address: Pubkey,
    pub joined: bool,
    /// Share of the side's claim, in percent.
    pub share: u8,
    pub evidence_uri: String,
    /// Hash of the evidence.
    pub fingerprint: [u8; 32],
}

/// A party as a client describes it when raising a dispute.
#[derive(Debug)]
pub struct PartyType {
    pub address: Pubkey,
    pub share: u8,
    pub evidence_uri: String,
    pub fingerprint: [u8; 32],
}

/// A dispute as a client describes it.
#[derive(Debug)]
pub struct DisputeType {
    pub dispute_value: u64,
    pub required_stake_amount: u64,
    pub join_juror_deadline: i64,
    pub draw_juror_deadline: i64,
    pub closure_deadline: i64,
    pub applicants: Vec<PartyType>,
    pub respondents: Vec<PartyType>,
}

/// A dispute account.
pub struct Dispute {
    pub dispute_value: u64,
    pub required_stake_amount: u64,
    pub init_time: i64,
    pub join_juror_deadline: i64,
    pub draw_juror_deadline: i64,
    pub closure_deadline: i64,
    pub ready_jurors: u16,
    pub status: DisputeStatus,
    pub applicants: Vec<Party>,
    pub respondents: Vec<Party>,
    pub jurors: [Juror; 7],
}

/// Records that a juror has staked to serve on a dispute.
#[derive(Clone, Copy, Debug)]
pub struct JurorReservationEntry {
    pub address: Pubkey,
    pub dispute: Pubkey,
}

/// A dispute account as the contracts see it.
#[verifier::ext_equal]
pub struct DisputeModel {
    pub dispute_value: u64,
    pub required_stake_amount: u64,
    pub init_time: i64,
    pub join_juror_deadline: i64,
    pub draw_juror_deadline: i64,
    pub closure_deadline: i64,
    pub ready_jurors: u16,
    pub status: DisputeStatus,
    pub applicants: Seq<Party>,
    pub respondents: Seq<Party>,
    pub jurors: Seq<Juror>,
}

impl View for Dispute {
    type V = DisputeModel;

    open spec fn view(&self) -> DisputeModel {
        DisputeModel {
            dispute_value: self.dispute_value,
            required_stake_amount: self.required_stake_amount,
            init_time: self.init_time,
            join_juror_deadline: self.join_juror_deadline,
            draw_juror_deadline: self.draw_juror_deadline,
            closure_deadline: self.closure_deadline,
            ready_jurors: self.ready_jurors,
            status: self.status,
            applicants: self.applicants@,
            respondents: self.respondents@,
            jurors: self.jurors@,
        }
    }
}

/// Position of a status in the life cycle.
pub open spec fn status_rank(s: DisputeStatus) -> int {
    match s {
        DisputeStatus::Initialized => 0,
        DisputeStatus::Approved => 1,
        DisputeStatus::Started => 2,
    }
}

impl Clone for Party {
    fn clone(&self) -> (r: Self)
        ensures
            r == *self,
    {
        Party {
            address: self.address,
            joined: self.joined,
            share: self.share,
            evidence_uri: self.evidence_uri.clone(),
            fingerprint: self.fingerprint,
        }
    }
}

impl Default for DisputeStatus {
    /// A new dispute starts out `Initialized`.
    fn default() -> (r: Self)
        ensures
            r == DisputeStatus::Initialized,
    {
        DisputeStatus::Initialized
    }
}

impl Default for JurorOpinion {
    /// A juror has not voted until it casts a vote.
    fn default() -> (r: Self)
        ensures
            r == JurorOpinion::NoVote,
    {
        JurorOpinion::NoVote
    }
}

impl Default for Juror {
    /// An empty juror slot: zero address, no opinion, nothing claimed.
    fn default() -> (r: Self)
        ensures
            r.address.is_zero(),
            r.opinion == JurorOpinion::NoVote,
            !r.claimed_reward,
    {
        Juror { address: Pubkey::default(), opinion: JurorOpinion::NoVote, claimed_reward: false }
    }
}

impl Default for JurorReservationEntry {
    /// An entry with both addresses zero.
    fn default() -> (r: Self)
        ensures
            r.address.is_zero(),
            r.dispute.is_zero(),
    {
        JurorReservationEntry { address: Pubkey::default(), dispute: Pubkey::default() }
    }
}

impl Default for Settings {
    /// Settings with every address zero, a zero bump and no fee.
    fn default() -> (r: Self)
        ensures
            r.master_admin.is_zero(),
            r.admin.is_zero(),
            r.court_token.is_zero(),
            r.juror_creator.is_zero(),
            r.court_treasury_token_account.is_zero(),
            r.court_treasury_token_account_authority.is_zero(),
            r.court_treasury_token_account_bump == 0,
            r.raise_dispute_fee == 0,
    {
        Settings {
            master_admin: Pubkey::default(),
            admin: Pubkey::default(),
            court_token: Pubkey::default(),
            juror_creator: Pubkey::default(),
            court_treasury_token_account: Pubkey::default(),
            court_treasury_token_account_authority: Pubkey::default(),
            court_treasury_token_account_bump: 0,
            raise_dispute_fee: 0,
        }
    }
}

impl Default for Dispute {
    /// The state of a freshly created dispute account: zero amounts and
    /// timestamps, no parties, `Initialized`, and seven empty juror slots.
    fn default() -> (r: Self)
        ensures
            r@.dispute_value == 0,
            r@.required_stake_amount == 0,
            r@.init_time == 0,
            r@.join_juror_deadline == 0,
            r@.draw_juror_deadline == 0,
            r@.closure_deadline == 0,
            r@.ready_jurors == 0,
            r@.status == DisputeStatus::Initialized,
            r@.applicants.len() == 0,
            r@.respondents.len() == 0,
            r@.jurors.len() == 7,
            forall|i: int|
                0 <= i < 7 ==> {
                    &&& (#[trigger] r@.jurors[i]).address.is_zero()
                    &&& r@.jurors[i].opinion == JurorOpinion::NoVote
                    &&& !r@.jurors[i].claimed_reward
                },
    {
        let j = Juror::default();
        let jurors = [j; 7];
        proof {
            broadcast use vstd::array::axiom_spec_array_fill_for_copy_type, vstd::array::array_len_matches_n;
        }
        Dispute {
            dispute_value: 0,
            required_stake_amount: 0,
            init_time: 0,
            join_juror_deadline: 0,
            draw_juror_deadline: 0,
            closure_deadline: 0,
            ready_jurors: 0,
            status: DisputeStatus::Initialized,
            applicants: Vec::new(),
            respondents: Vec::new(),
            jurors,
        }
    }
}

} // verus!
