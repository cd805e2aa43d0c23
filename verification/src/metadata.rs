//! What the court reads of a juror NFT's token metadata: its creators.

use vstd::prelude::*;

use crate::pubkey::Pubkey;
use metaplex_token_metadata::state::{Key, Metadata};
use metaplex_token_metadata::utils::try_from_slice_checked;
use solana_program::program_error::ProgramError;

verus! {

/// The error type of the token-metadata program's account readers.
#[verifier::external_type_specification]
#[verifier::external_body]
pub struct ExProgramError(ProgramError);

/// Length of a metadata account's data (`MAX_METADATA_LEN` of the token-metadata program).
pub const MAX_METADATA_LEN: usize = 679;

/// Account-kind tag of a metadata account (`Key::MetadataV1`).
pub const METADATA_V1_TAG: u8 = 4;

/// Account-kind tag of an account that was never initialized (`Key::Uninitialized`).
pub const UNINITIALIZED_TAG: u8 = 0;

/// A creator listed in an NFT's metadata.
#[derive(Clone, Copy, Debug)]
pub struct Creator {
    pub address: Pubkey,
    /// Whether the creator signed the metadata.
    pub verified: bool,
}

/// What the token-metadata program reads from an account's data, keeping the
/// creators list: the error it answers when the data does not read as a
/// metadata account, else the creators (`None` when the metadata lists none).
/// It depends on the data alone.
pub uninterp spec fn metadata_read(data: Seq<u8>) -> Result<Option<Seq<Creator>>, ProgramError>;

/// The creators of a read metadata, as a sequence.
pub open spec fn creators_view(c: Option<Vec<Creator>>) -> Option<Seq<Creator>> {
    match c {
        Some(v) => Some(v@),
        None => None,
    }
}

/// A read's outcome with its creators as a sequence.
pub open spec fn read_view(r: Result<Option<Vec<Creator>>, ProgramError>) -> Result<
    Option<Seq<Creator>>,
    ProgramError,
> {
    match r {
        Ok(c) => Ok(creators_view(c)),
        Err(e) => Err(e),
    }
}

/// Calls `try_from_slice_checked::<Metadata>(data, Key::MetadataV1, MAX_METADATA_LEN)`
/// of the token-metadata program, which `Metadata::from_account_info` runs on
/// an account's data, and keeps the creators list.
/// Claimed: its outcome, error included, is `metadata_read(data)`; the source
/// refuses data whose length is not `MAX_METADATA_LEN` or whose first byte is
/// neither tag. The source reads `data[0]` first, so empty data is left out.
#[verifier::external_body]
pub(crate) fn read_metadata_creators(data: &[u8]) -> (r: Result<Option<Vec<Creator>>, ProgramError>)
    requires
        data@.len() > 0,
    ensures
        read_view(r) == metadata_read(data@),
        data@.len() != MAX_METADATA_LEN || (data@[0] != METADATA_V1_TAG && data@[0]
            != UNINITIALIZED_TAG) ==> r is Err,
{
    let md: Metadata = try_from_slice_checked(data, Key::MetadataV1, metaplex_token_metadata::state::MAX_METADATA_LEN)?;
    Ok(md.data.creators.map(|cs| cs.iter().map(|c| Creator {
        address: Pubkey { bytes: c.address.to_bytes() },
        verified: c.verified,
    }).collect()))
}

} // verus!
