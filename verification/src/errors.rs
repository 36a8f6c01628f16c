use vstd::prelude::*;

verus! {

/// Every way in which an instruction of the voting program can be refused.
#[derive(Clone, Copy, Debug, PartialEq, Eq, Hash, Structural)]
pub enum D21Error {
    /// A vote came before the poll's start.
    VotingNotStarted,
    /// The poll's end has passed, or the poll was ended.
    VotingClosed,
    /// The signer is not the poll's owner, or not the voter that a record belongs to.
    Unauthorized,
    /// The title takes more than `MAX_TITLE` bytes.
    TitleTooLong,
    /// The description takes more than `MAX_DESC` bytes.
    DescriptionTooLong,
    /// The trimmed label takes more than `MAX_LABEL` bytes.
    LabelTooLong,
    /// The sentiment is neither 1 nor -1.
    InvalidSentiment,
    /// The voter has spent every positive credit.
    OutOfPositiveCredits,
    /// The voter has spent every negative credit.
    OutOfNegativeCredits,
    /// A tally cannot count one more vote.
    MathOverflow,
    /// The voter holds a receipt for this option.
    AlreadyVotedThisOption,
    /// The voter has not cast twice as many positive votes as the negative votes they would then have.
    InsufficientPositivesForNegative,
    /// The poll's id is zero.
    InvalidPollId,
    /// A poll's id is not the one asked for.
    PollIdMismatch,
    /// The poll grants no positive credit.
    PlusCreditIsZero,
    /// The poll grants no negative credit.
    MinusCreditIsZero,
    /// The poll would end no later than it starts, or start in the past.
    InvalidTimeWindow,
    /// An option came at or after the poll's start.
    VotingStarted,
    /// The label is empty once trimmed.
    LabelEmpty,
    /// A label with the same canonical form is an option of the poll already.
    LabelAlreadyUsed,
    /// The commitment is not the one that the label calls for.
    LabelSeedMismatch,
    /// A record belongs to another poll or option than the one asked for.
    PollMismatch,
}

impl D21Error {
    /// The sentence that tells a user of the error.
    pub open spec fn text(self) -> Seq<char> {
        match self {
            D21Error::VotingNotStarted => "Voting has not started"@,
            D21Error::VotingClosed => "Voting is closed"@,
            D21Error::Unauthorized => "Unauthorized"@,
            D21Error::TitleTooLong => "Title too long"@,
            D21Error::DescriptionTooLong => "Description too long"@,
            D21Error::LabelTooLong => "Label too long"@,
            D21Error::InvalidSentiment => "Invalid sentiment"@,
            D21Error::OutOfPositiveCredits => "Out of positive credits"@,
            D21Error::OutOfNegativeCredits => "Out of negative credits"@,
            D21Error::MathOverflow => "Math overflow"@,
            D21Error::AlreadyVotedThisOption => "Already voted on this option"@,
            D21Error::InsufficientPositivesForNegative => "Not enough positive votes to cast a negative vote (need P ≥ 2·(M+1))"@,
            D21Error::InvalidPollId => "Invalid Poll ID"@,
            D21Error::PollIdMismatch => "Poll ID is mismatched"@,
            D21Error::PlusCreditIsZero => "Plus Credit is zero"@,
            D21Error::MinusCreditIsZero => "Minus Credit is zero"@,
            D21Error::InvalidTimeWindow => "Invalid voting time window"@,
            D21Error::VotingStarted => "Can't add an option, voting is already started"@,
            D21Error::LabelEmpty => "Option label is empty"@,
            D21Error::LabelAlreadyUsed => "Option label already exists for this poll"@,
            D21Error::LabelSeedMismatch => "Label seed/hash mismatch"@,
            D21Error::PollMismatch => "Option dont't belong to this poll"@,
        }
    }

    /// The sentence that tells a user of the error.
    pub fn message(&self) -> (sentence: &'static str)
        ensures
            sentence@ == self.text(),
    {
        match self {
            D21Error::VotingNotStarted => "Voting has not started",
            D21Error::VotingClosed => "Voting is closed",
            D21Error::Unauthorized => "Unauthorized",
            D21Error::TitleTooLong => "Title too long",
            D21Error::DescriptionTooLong => "Description too long",
            D21Error::LabelTooLong => "Label too long",
            D21Error::InvalidSentiment => "Invalid sentiment",
            D21Error::OutOfPositiveCredits => "Out of positive credits",
            D21Error::OutOfNegativeCredits => "Out of negative credits",
            D21Error::MathOverflow => "Math overflow",
            D21Error::AlreadyVotedThisOption => "Already voted on this option",
            D21Error::InsufficientPositivesForNegative => "Not enough positive votes to cast a negative vote (need P ≥ 2·(M+1))",
            D21Error::InvalidPollId => "Invalid Poll ID",
            D21Error::PollIdMismatch => "Poll ID is mismatched",
            D21Error::PlusCreditIsZero => "Plus Credit is zero",
            D21Error::MinusCreditIsZero => "Minus Credit is zero",
            D21Error::InvalidTimeWindow => "Invalid voting time window",
            D21Error::VotingStarted => "Can't add an option, voting is already started",
            D21Error::LabelEmpty => "Option label is empty",
            D21Error::LabelAlreadyUsed => "Option label already exists for this poll",
            D21Error::LabelSeedMismatch => "Label seed/hash mismatch",
            D21Error::PollMismatch => "Option dont't belong to this poll",
        }
    }
}

/// Why a request to the record store was not carried out.
#[derive(Clone, Copy, Debug, PartialEq, Eq, Hash, Structural)]
pub enum StoreError {
    /// A record that the request would create is there already.
    AlreadyExists,
    /// A record that the request works on is not there.
    NotFound,
    /// The records were found and the program refused the request.
    Refused(D21Error),
}

} // verus!
