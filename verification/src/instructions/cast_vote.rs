use crate::errors::D21Error;
use crate::states::{
    OptionNode, OptionNodeView, Poll, PollView, Pubkey, Receipt, VoteCast, Voter,
};
use vstd::prelude::*;

verus! {

/// The records and facts that one vote works on: who signs as the voter, the poll and the
/// address it is kept under, the option voted on, the voter's credit record and the receipt
/// for this voter and option, each of the last two absent until the first vote that needs
/// it, and the time.
#[derive(Clone, Debug, PartialEq, Eq)]
pub struct CastVote {
    pub voter_authority: Pubkey,
    pub poll_key: Pubkey,
    pub poll: Poll,
    pub option_node: OptionNode,
    pub voter: Option<Voter>,
    pub receipt: Option<Receipt>,
    pub now: i64,
}

/// The records of one vote as mathematical values.
pub ghost struct CastVoteView {
    pub voter_authority: Pubkey,
    pub poll_key: Pubkey,
    pub poll: PollView,
    pub option_node: OptionNodeView,
    pub voter: Option<Voter>,
    pub receipt: Option<Receipt>,
    pub now: i64,
}

impl View for CastVote {
    type V = CastVoteView;

    open spec fn view(&self) -> CastVoteView {
        CastVoteView {
            voter_authority: self.voter_authority,
            poll_key: self.poll_key,
            poll: self.poll@,
            option_node: self.option_node@,
            voter: self.voter,
            receipt: self.receipt,
            now: self.now,
        }
    }
}

impl CastVoteView {
    /// Positive credits that the voter has spent; none where there is no record yet.
    pub open spec fn used_plus(self) -> u8 {
        match self.voter {
            Some(v) => v.used_plus,
            None => 0,
        }
    }

    /// Negative credits that the voter has spent; none where there is no record yet.
    pub open spec fn used_minus(self) -> u8 {
        match self.voter {
            Some(v) => v.used_minus,
            None => 0,
        }
    }

    /// The ratio gate: the voter has cast at least twice as many positive votes as the
    /// negative votes they would have after one more.
    pub open spec fn earned_negative(self) -> bool {
        self.used_plus() >= 2 * (self.used_minus() + 1)
    }

    /// The voter's credit record, if there is one, stays within the poll's budget.
    pub open spec fn within_budget(self) -> bool {
        self.voter matches Some(v) ==> v.within_budget(self.poll)
    }

    /// Why an existing credit record cannot serve this vote, if it cannot.
    pub open spec fn voter_refusal(self) -> Option<D21Error> {
        match self.voter {
            Some(v) => if v.poll != self.poll_key {
                Some(D21Error::PollMismatch)
            } else if v.voter != self.voter_authority {
                Some(D21Error::Unauthorized)
            } else {
                None
            },
            None => None,
        }
    }

    /// Why an existing receipt stops this vote: it always does.
    pub open spec fn receipt_refusal(self) -> Option<D21Error> {
        match self.receipt {
            Some(r) => if r.poll != self.poll_key {
                Some(D21Error::PollMismatch)
            } else if r.voter != self.voter_authority {
                Some(D21Error::Unauthorized)
            } else if r.option_index != self.option_node.index {
                Some(D21Error::PollMismatch)
            } else {
                Some(D21Error::AlreadyVotedThisOption)
            },
            None => None,
        }
    }

    /// Why the credits or the tally do not allow a vote of `sentiment`, which is 1 or -1.
    pub open spec fn credit_refusal(self, sentiment: i8) -> Option<D21Error> {
        if sentiment == 1 {
            if self.used_plus() >= self.poll.plus_credits {
                Some(D21Error::OutOfPositiveCredits)
            } else if self.option_node.plus_votes == u32::MAX {
                Some(D21Error::MathOverflow)
            } else {
                None
            }
        } else {
            if !self.earned_negative() {
                Some(D21Error::InsufficientPositivesForNegative)
            } else if self.used_minus() >= self.poll.minus_credits {
                Some(D21Error::OutOfNegativeCredits)
            } else if self.option_node.minus_votes == u32::MAX {
                Some(D21Error::MathOverflow)
            } else {
                None
            }
        }
    }

    /// Why a vote of `sentiment` is refused, if it is: the first rule that it breaks.
    pub open spec fn refusal(self, sentiment: i8) -> Option<D21Error> {
        if self.option_node.poll != self.poll_key {
            Some(D21Error::PollMismatch)
        } else if self.now < self.poll.start_ts {
            Some(D21Error::VotingNotStarted)
        } else if self.now > self.poll.end_ts || self.poll.ended {
            Some(D21Error::VotingClosed)
        } else if sentiment != 1 && sentiment != -1 {
            Some(D21Error::InvalidSentiment)
        } else if self.voter_refusal() is Some {
            self.voter_refusal()
        } else if self.receipt_refusal() is Some {
            self.receipt_refusal()
        } else {
            self.credit_refusal(sentiment)
        }
    }

    /// The voter's credit record after an accepted vote of `sentiment`.
    pub open spec fn voter_after(self, sentiment: i8) -> Voter {
        Voter {
            poll: self.poll_key,
            voter: self.voter_authority,
            used_plus: if sentiment == 1 {
                (self.used_plus() + 1) as u8
            } else {
                self.used_plus()
            },
            used_minus: if sentiment == 1 {
                self.used_minus()
            } else {
                (self.used_minus() + 1) as u8
            },
        }
    }

    /// The records after an accepted vote of `sentiment`: one credit spent, one more vote
    /// in the option's tally of that kind, and the receipt written.
    pub open spec fn after_vote(self, sentiment: i8) -> CastVoteView {
        CastVoteView {
            option_node: OptionNodeView {
                plus_votes: if sentiment == 1 {
                    (self.option_node.plus_votes + 1) as u32
                } else {
                    self.option_node.plus_votes
                },
                minus_votes: if sentiment == 1 {
                    self.option_node.minus_votes
                } else {
                    (self.option_node.minus_votes + 1) as u32
                },
                ..self.option_node
            },
            voter: Some(self.voter_after(sentiment)),
            receipt: Some(
                Receipt {
                    poll: self.poll_key,
                    voter: self.voter_authority,
                    option_index: self.option_node.index,
                    sentiment,
                },
            ),
            ..self
        }
    }

    /// What is announced of an accepted vote of `sentiment`.
    pub open spec fn announcement(self, sentiment: i8) -> VoteCast {
        VoteCast {
            poll: self.poll_key,
            voter: self.voter_authority,
            option_index: self.option_node.index,
            sentiment,
            used_plus: self.voter_after(sentiment).used_plus,
            used_minus: self.voter_after(sentiment).used_minus,
        }
    }
}

/// Casts the signer's vote of `sentiment` on the option in `ctx`, or says why not.
///
/// `_index` only names the option whose record and receipt were looked up for `ctx`. The
/// vote is held to the rules in a fixed order and the first broken one is reported. An
/// accepted vote spends one credit, raises one tally and writes the receipt, all three; a
/// refused one changes nothing.
pub fn handler(ctx: &mut CastVote, _index: u16, sentiment: i8) -> (result: Result<
    VoteCast,
    D21Error,
>)
    ensures
        match result {
            Ok(cast) => {
                &&& old(ctx)@.refusal(sentiment) is None
                &&& final(ctx)@ == old(ctx)@.after_vote(sentiment)
                &&& cast == old(ctx)@.announcement(sentiment)
            },
            Err(e) => old(ctx)@.refusal(sentiment) == Some(e) && *final(ctx) == *old(ctx),
        },
        old(ctx)@.within_budget() ==> final(ctx)@.within_budget(),
        result is Ok && sentiment == -1 ==> old(ctx)@.earned_negative(),
{
    if ctx.option_node.poll != ctx.poll_key {
        return Err(D21Error::PollMismatch);
    }
    if ctx.now < ctx.poll.start_ts {
        return Err(D21Error::VotingNotStarted);
    }
    if ctx.now > ctx.poll.end_ts || ctx.poll.ended {
        return Err(D21Error::VotingClosed);
    }
    if sentiment != 1 && sentiment != -1 {
        return Err(D21Error::InvalidSentiment);
    }
    let mut used_plus: u8 = 0;
    let mut used_minus: u8 = 0;
    if let Some(v) = ctx.voter {
        if v.poll != ctx.poll_key {
            return Err(D21Error::PollMismatch);
        }
        if v.voter != ctx.voter_authority {
            return Err(D21Error::Unauthorized);
        }
        used_plus = v.used_plus;
        used_minus = v.used_minus;
    }
    if let Some(r) = ctx.receipt {
        if r.poll != ctx.poll_key {
            return Err(D21Error::PollMismatch);
        }
        if r.voter != ctx.voter_authority {
            return Err(D21Error::Unauthorized);
        }
        if r.option_index != ctx.option_node.index {
            return Err(D21Error::PollMismatch);
        }
        return Err(D21Error::AlreadyVotedThisOption);
    }
    let mut plus_votes: u32 = ctx.option_node.plus_votes;
    let mut minus_votes: u32 = ctx.option_node.minus_votes;
    if sentiment == 1 {
        if used_plus >= ctx.poll.plus_credits {
            return Err(D21Error::OutOfPositiveCredits);
        }
        used_plus = used_plus + 1;
        plus_votes =
        match plus_votes.checked_add(1) {
            Some(n) => n,
            None => {
                return Err(D21Error::MathOverflow);
            },
        };
    } else {
        let p: u16 = used_plus as u16;
        let m_next: u16 = (used_minus as u16) + 1;
        if p < 2 * m_next {
            return Err(D21Error::InsufficientPositivesForNegative);
        }
        if used_minus >= ctx.poll.minus_credits {
            return Err(D21Error::OutOfNegativeCredits);
        }
        used_minus = used_minus + 1;
        minus_votes =
        match minus_votes.checked_add(1) {
            Some(n) => n,
            None => {
                return Err(D21Error::MathOverflow);
            },
        };
    }
    ctx.voter =
    Some(Voter { poll: ctx.poll_key, voter: ctx.voter_authority, used_plus, used_minus });
    ctx.option_node.plus_votes = plus_votes;
    ctx.option_node.minus_votes = minus_votes;
    ctx.receipt =
    Some(
        Receipt {
            poll: ctx.poll_key,
            voter: ctx.voter_authority,
            option_index: ctx.option_node.index,
            sentiment,
        },
    );
    Ok(
        VoteCast {
            poll: ctx.poll_key,
            voter: ctx.voter_authority,
            option_index: ctx.option_node.index,
            sentiment,
            used_plus,
            used_minus,
        },
    )
}

/// A voter's counters cannot overflow: a vote that the credit rules accept leaves each
/// counter within the poll's budget, which fits a byte, so `MathOverflow` only ever
/// reports a full tally.
pub proof fn lemma_math_overflow_means_full_tally(ctx: CastVoteView, sentiment: i8)
    requires
        ctx.refusal(sentiment) == Some(D21Error::MathOverflow),
    ensures
        sentiment == 1 ==> ctx.option_node.plus_votes == u32::MAX && ctx.used_plus() < 255,
        sentiment == -1 ==> ctx.option_node.minus_votes == u32::MAX && ctx.used_minus() < 255,
        sentiment == 1 || sentiment == -1,
{
}

} // verus!
