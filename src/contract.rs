//! The data types of the on-chain passport application and its error codes.

use vstd::prelude::*;

verus! {

/// Marker for the passport application's interface.
pub struct PassportNftAbi;

/// The identifier of a passport token.
#[derive(Clone, Debug, PartialEq, Eq, PartialOrd, Ord, Hash)]
pub struct TokenId {
    pub id: Vec<u8>,
}

/// A passport as the application stores it. Owners and chains are held in their text
/// form, the creation time in microseconds.
#[derive(Clone, Debug)]
pub struct Passport {
    pub token_id: TokenId,
    pub owner: String,
    pub created_at: u64,
    /// The chain on which the passport was minted.
    pub owner_chain: String,
    /// URI of the off-chain metadata.
    pub metadata_uri: String,
    /// URI of the cover image.
    pub image_uri: String,
    /// Checksum of the off-chain content.
    pub content_hash: String,
    pub achievements: Vec<String>,
    pub score: u64,
}

/// Arguments of a mint.
#[derive(Clone, Debug)]
pub struct MintArgs {
    pub token_id: TokenId,
    pub metadata_uri: String,
    pub image_uri: String,
    pub content_hash: String,
}

/// Arguments of adding one achievement.
#[derive(Clone, Debug)]
pub struct AddAchievementArgs {
    pub token_id: TokenId,
    pub achievement: String,
}

/// Arguments of raising a score.
#[derive(Clone, Debug)]
pub struct IncreaseScoreArgs {
    pub token_id: TokenId,
    pub amount: u64,
}

/// Arguments of the oracle's combined update.
#[derive(Clone, Debug)]
pub struct UpdateArgs {
    pub token_id: TokenId,
    pub new_achievements: Vec<String>,
    pub score_increase: u64,
}

/// Arguments of authorizing an oracle account.
#[derive(Clone, Debug)]
pub struct AddOracleArgs {
    pub oracle: String,
}

/// Arguments of revoking an oracle account.
#[derive(Clone, Debug)]
pub struct RemoveOracleArgs {
    pub oracle: String,
}

/// The operations of the passport application.
#[derive(Clone, Debug)]
pub enum PassportOperation {
    Mint(MintArgs),
    AddAchievement(AddAchievementArgs),
    IncreaseScore(IncreaseScoreArgs),
    UpdateAchievements(UpdateArgs),
    AddOracle(AddOracleArgs),
    RemoveOracle(RemoveOracleArgs),
}

/// The errors of the passport application.
#[derive(Clone, Copy, Debug, PartialEq, Eq)]
pub enum PassportError {
    PassportAlreadyExists,
    OwnerHasPassport,
    MissingSigner,
    WrongChain,
    Unauthorized,
    AchievementTooLong,
    ScoreNotPositive,
    ScoreOverflow,
    MissingUris,
    MetadataTooLong,
    ImageTooLong,
    ContentHashTooLong,
    PassportNotFound,
}

/// The machine-readable code of an error.
pub open spec fn error_code(e: PassportError) -> Seq<char> {
    match e {
        PassportError::PassportAlreadyExists => "PASSPORT_EXISTS"@,
        PassportError::OwnerHasPassport => "OWNER_HAS_PASSPORT"@,
        PassportError::MissingSigner => "MISSING_SIGNER"@,
        PassportError::WrongChain => "WRONG_CHAIN"@,
        PassportError::Unauthorized => "UNAUTHORIZED"@,
        PassportError::AchievementTooLong => "ACHIEVEMENT_TOO_LONG"@,
        PassportError::ScoreNotPositive => "SCORE_NOT_POSITIVE"@,
        PassportError::ScoreOverflow => "SCORE_OVERFLOW"@,
        PassportError::MissingUris => "MISSING_URIS"@,
        PassportError::MetadataTooLong => "METADATA_TOO_LONG"@,
        PassportError::ImageTooLong => "IMAGE_TOO_LONG"@,
        PassportError::ContentHashTooLong => "CONTENT_HASH_TOO_LONG"@,
        PassportError::PassportNotFound => "PASSPORT_NOT_FOUND"@,
    }
}

/// The human-readable message of an error.
pub open spec fn error_message(e: PassportError) -> Seq<char> {
    match e {
        PassportError::PassportAlreadyExists => "passport already exists"@,
        PassportError::OwnerHasPassport => "owner already has a passport"@,
        PassportError::MissingSigner => "mint requires an authenticated owner"@,
        PassportError::WrongChain => "passport anchored on different chain"@,
        PassportError::Unauthorized => "only owner may mutate passport"@,
        PassportError::AchievementTooLong => "achievement text exceeds 256 chars"@,
        PassportError::ScoreNotPositive => "score increment must be positive"@,
        PassportError::ScoreOverflow => "score overflow"@,
        PassportError::MissingUris => "URIs and content hash must be non-empty"@,
        PassportError::MetadataTooLong => "metadata_uri must be at most 256 characters"@,
        PassportError::ImageTooLong => "image_uri must be at most 256 characters"@,
        PassportError::ContentHashTooLong => "content_hash must be at most 256 characters"@,
        PassportError::PassportNotFound => "passport not found"@,
    }
}

impl PassportError {
    /// The machine-readable code of this error.
    pub fn code(&self) -> (r: &'static str)
        ensures
            r@ == error_code(*self),
    {
        match self {
            PassportError::PassportAlreadyExists => "PASSPORT_EXISTS",
            PassportError::OwnerHasPassport => "OWNER_HAS_PASSPORT",
            PassportError::MissingSigner => "MISSING_SIGNER",
            PassportError::WrongChain => "WRONG_CHAIN",
            PassportError::Unauthorized => "UNAUTHORIZED",
            PassportError::AchievementTooLong => "ACHIEVEMENT_TOO_LONG",
            PassportError::ScoreNotPositive => "SCORE_NOT_POSITIVE",
            PassportError::ScoreOverflow => "SCORE_OVERFLOW",
            PassportError::MissingUris => "MISSING_URIS",
            PassportError::MetadataTooLong => "METADATA_TOO_LONG",
            PassportError::ImageTooLong => "IMAGE_TOO_LONG",
            PassportError::ContentHashTooLong => "CONTENT_HASH_TOO_LONG",
            PassportError::PassportNotFound => "PASSPORT_NOT_FOUND",
        }
    }

    /// The human-readable message of this error.
    pub fn message(&self) -> (r: &'static str)
        ensures
            r@ == error_message(*self),
    {
        match self {
            PassportError::PassportAlreadyExists => "passport already exists",
            PassportError::OwnerHasPassport => "owner already has a passport",
            PassportError::MissingSigner => "mint requires an authenticated owner",
            PassportError::WrongChain => "passport anchored on different chain",
            PassportError::Unauthorized => "only owner may mutate passport",
            PassportError::AchievementTooLong => "achievement text exceeds 256 chars",
            PassportError::ScoreNotPositive => "score increment must be positive",
            PassportError::ScoreOverflow => "score overflow",
            PassportError::MissingUris => "URIs and content hash must be non-empty",
            PassportError::MetadataTooLong => "metadata_uri must be at most 256 characters",
            PassportError::ImageTooLong => "image_uri must be at most 256 characters",
            PassportError::ContentHashTooLong => "content_hash must be at most 256 characters",
            PassportError::PassportNotFound => "passport not found",
        }
    }
}

} // verus!
