use crate::errors::D21Error;
use crate::states::{char_len, Poll, PollView, Pubkey, MAX_DESC, MAX_TITLE};
use vstd::prelude::*;
use vstd::string::*;

verus! {

/// What a poll's owner chooses when creating it.
#[derive(Clone, Debug, PartialEq, Eq)]
pub struct PollConfig {
    pub poll_id: u64,
    pub title: String,
    pub description: String,
    pub plus_credits: u8,
    pub minus_credits: u8,
    pub start_ts: i64,
    pub end_ts: i64,
}

/// A poll's configuration as a mathematical value.
pub ghost struct PollConfigView {
    pub poll_id: u64,
    pub title: Seq<char>,
    pub description: Seq<char>,
    pub plus_credits: u8,
    pub minus_credits: u8,
    pub start_ts: i64,
    pub end_ts: i64,
}

impl View for PollConfig {
    type V = PollConfigView;

    open spec fn view(&self) -> PollConfigView {
        PollConfigView {
            poll_id: self.poll_id,
            title: self.title@,
            description: self.description@,
            plus_credits: self.plus_credits,
            minus_credits: self.minus_credits,
            start_ts: self.start_ts,
            end_ts: self.end_ts,
        }
    }
}

impl PollConfigView {
    /// Why a poll with this configuration cannot be created at `now`, if it cannot: the
    /// first rule that it breaks.
    pub open spec fn refusal(self, now: i64) -> Option<D21Error> {
        if self.poll_id == 0 {
            Some(D21Error::InvalidPollId)
        } else if self.title.len() > MAX_TITLE {
            Some(D21Error::TitleTooLong)
        } else if self.description.len() > MAX_DESC {
            Some(D21Error::DescriptionTooLong)
        } else if self.plus_credits == 0 {
            Some(D21Error::PlusCreditIsZero)
        } else if self.end_ts <= self.start_ts || self.start_ts < now {
            Some(D21Error::InvalidTimeWindow)
        } else {
            None
        }
    }

    /// The poll that `authority` gets from this configuration: no option yet, not ended.
    pub open spec fn poll(self, authority: Pubkey) -> PollView {
        PollView {
            authority,
            poll_id: self.poll_id,
            title: self.title,
            description: self.description,
            plus_credits: self.plus_credits,
            minus_credits: self.minus_credits,
            start_ts: self.start_ts,
            end_ts: self.end_ts,
            options_count: 0,
            ended: false,
        }
    }
}

/// The records and facts that creating a poll works on: who signs as its owner, the record
/// that will hold the poll, and the time.
#[derive(Clone, Debug, PartialEq, Eq)]
pub struct InitializePoll {
    pub authority: Pubkey,
    pub poll: Poll,
    pub now: i64,
}

/// The records of one creation as mathematical values.
pub ghost struct InitializePollView {
    pub authority: Pubkey,
    pub poll: PollView,
    pub now: i64,
}

impl View for InitializePoll {
    type V = InitializePollView;

    open spec fn view(&self) -> InitializePollView {
        InitializePollView { authority: self.authority, poll: self.poll@, now: self.now }
    }
}

impl Poll {
    /// The poll that `authority` gets from `cfg`.
    pub fn from_config(cfg: PollConfig, authority: Pubkey) -> (poll: Poll)
        ensures
            poll@ == cfg@.poll(authority),
    {
        Poll {
            authority,
            poll_id: cfg.poll_id,
            title: cfg.title,
            description: cfg.description,
            plus_credits: cfg.plus_credits,
            minus_credits: cfg.minus_credits,
            start_ts: cfg.start_ts,
            end_ts: cfg.end_ts,
            options_count: 0,
            ended: false,
        }
    }
}

/// Creates the poll that `cfg` describes, owned by the signer, or says why not.
///
/// The configuration is held to the rules in a fixed order, and the first broken one is
/// reported. On refusal nothing is written.
pub fn handler(ctx: &mut InitializePoll, cfg: PollConfig) -> (result: Result<(), D21Error>)
    ensures
        match result {
            Ok(_) => {
                &&& cfg@.refusal(old(ctx).now) is None
                &&& final(ctx)@ == InitializePollView {
                    poll: cfg@.poll(old(ctx).authority),
                    ..old(ctx)@
                }
                &&& final(ctx).poll@.well_formed()
            },
            Err(e) => cfg@.refusal(old(ctx).now) == Some(e) && *final(ctx) == *old(ctx),
        },
{
    if cfg.poll_id == 0 {
        return Err(D21Error::InvalidPollId);
    }
    if char_len(cfg.title.as_str()) > MAX_TITLE {
        return Err(D21Error::TitleTooLong);
    }
    if char_len(cfg.description.as_str()) > MAX_DESC {
        return Err(D21Error::DescriptionTooLong);
    }
    if cfg.plus_credits == 0 {
        return Err(D21Error::PlusCreditIsZero);
    }
    if cfg.end_ts <= cfg.start_ts {
        return Err(D21Error::InvalidTimeWindow);
    }
    if cfg.start_ts < ctx.now {
        return Err(D21Error::InvalidTimeWindow);
    }
    ctx.poll = Poll::from_config(cfg, ctx.authority);
    Ok(())
}

} // verus!
