use crate::errors::D21Error;
use crate::label::{commitment, seed_of_trimmed, trim, trimmed};
use crate::states::{
    char_len, same_bytes, LabelGuard, OptionNode, OptionNodeView, Poll, PollView, Pubkey,
    MAX_LABEL,
};
use vstd::prelude::*;
use vstd::string::*;

verus! {

/// Announces a registered option, with the label as the caller wrote it.
#[derive(Clone, Debug, PartialEq, Eq)]
pub struct OptionAdded {
    pub poll: Pubkey,
    pub index: u16,
    pub label: String,
}

/// A registration's announcement as a mathematical value.
pub ghost struct OptionAddedView {
    pub poll: Pubkey,
    pub index: u16,
    pub label: Seq<char>,
}

impl View for OptionAdded {
    type V = OptionAddedView;

    open spec fn view(&self) -> OptionAddedView {
        OptionAddedView { poll: self.poll, index: self.index, label: self.label@ }
    }
}

/// The records and facts that registering an option works on: who signs as the poll's
/// owner, the poll and the address it is kept under, the guard for this poll and label
/// commitment, absent until a label takes it, the record that will hold the option, and
/// the time.
#[derive(Clone, Debug, PartialEq, Eq)]
pub struct AddOption {
    pub authority: Pubkey,
    pub poll_key: Pubkey,
    pub poll: Poll,
    pub label_guard: Option<LabelGuard>,
    pub option_node: OptionNode,
    pub now: i64,
}

/// The records of one registration as mathematical values.
pub ghost struct AddOptionView {
    pub authority: Pubkey,
    pub poll_key: Pubkey,
    pub poll: PollView,
    pub label_guard: Option<LabelGuard>,
    pub option_node: OptionNodeView,
    pub now: i64,
}

impl View for AddOption {
    type V = AddOptionView;

    open spec fn view(&self) -> AddOptionView {
        AddOptionView {
            authority: self.authority,
            poll_key: self.poll_key,
            poll: self.poll@,
            label_guard: self.label_guard,
            option_node: self.option_node@,
            now: self.now,
        }
    }
}

impl AddOptionView {
    /// Why the option cannot be registered, if it cannot: the first rule that it breaks.
    /// `inner` is the label once trimmed, `label_seed` the caller's commitment and
    /// `expected` the commitment that the label calls for.
    pub open spec fn refusal(
        self,
        inner: Seq<char>,
        label_seed: Seq<u8>,
        expected: Seq<u8>,
    ) -> Option<D21Error> {
        if self.poll.authority != self.authority {
            Some(D21Error::Unauthorized)
        } else if self.poll.ended {
            Some(D21Error::VotingClosed)
        } else if self.now >= self.poll.start_ts {
            Some(D21Error::VotingStarted)
        } else if inner.len() == 0 {
            Some(D21Error::LabelEmpty)
        } else if inner.len() > MAX_LABEL {
            Some(D21Error::LabelTooLong)
        } else if label_seed != expected {
            Some(D21Error::LabelSeedMismatch)
        } else if self.label_guard is Some {
            Some(D21Error::LabelAlreadyUsed)
        } else {
            None
        }
    }

    /// The poll's option count once the option at `index` is registered: one past the
    /// highest index so far, as far as a `u16` can say so.
    pub open spec fn count_after(self, index: u16) -> u16 {
        let past: u16 = if index == u16::MAX {
            u16::MAX
        } else {
            (index + 1) as u16
        };
        if self.poll.options_count >= past {
            self.poll.options_count
        } else {
            past
        }
    }

    /// The records after the trimmed label `inner` is registered at `index`: the guard
    /// taken by `label_seed`, the option written with no votes, the poll's option count
    /// raised, and nothing else changed.
    pub open spec fn registered(
        self,
        index: u16,
        inner: Seq<char>,
        label_seed: [u8; 32],
    ) -> AddOptionView {
        AddOptionView {
            poll: PollView { options_count: self.count_after(index), ..self.poll },
            label_guard: Some(LabelGuard { poll: self.poll_key, label_hash: label_seed }),
            option_node: OptionNodeView {
                poll: self.poll_key,
                index,
                label: inner,
                plus_votes: 0,
                minus_votes: 0,
            },
            ..self
        }
    }

    /// What is announced of the registration of `label` at `index`.
    pub open spec fn announcement(self, index: u16, label: Seq<char>) -> OptionAddedView {
        OptionAddedView { poll: self.poll_key, index, label }
    }
}

/// Registers the option at `index` under the trimmed label `inner`, given the commitment
/// `expected` that the label calls for, or says why not.
///
/// The request is held to the rules in a fixed order and the first broken one is reported;
/// a wrong commitment is reported before a label that is already taken. `label` is the
/// label as the caller wrote it, which only the announcement carries. A refused request
/// changes nothing.
pub fn register(
    ctx: &mut AddOption,
    index: u16,
    label: String,
    inner: String,
    label_seed: [u8; 32],
    expected: [u8; 32],
) -> (result: Result<OptionAdded, D21Error>)
    ensures
        match result {
            Ok(added) => {
                &&& old(ctx)@.refusal(inner@, label_seed@, expected@) is None
                &&& final(ctx)@ == old(ctx)@.registered(index, inner@, label_seed)
                &&& added@ == old(ctx)@.announcement(index, label@)
            },
            Err(e) => old(ctx)@.refusal(inner@, label_seed@, expected@) == Some(e) && *final(ctx)
                == *old(ctx),
        },
        old(ctx).now >= old(ctx).poll.start_ts ==> result is Err,
        old(ctx).poll@.well_formed() ==> final(ctx).poll@.well_formed(),
{
    if ctx.poll.authority != ctx.authority {
        return Err(D21Error::Unauthorized);
    }
    if ctx.poll.ended {
        return Err(D21Error::VotingClosed);
    }
    if ctx.now >= ctx.poll.start_ts {
        return Err(D21Error::VotingStarted);
    }
    if inner.as_str().is_empty() {
        return Err(D21Error::LabelEmpty);
    }
    if char_len(inner.as_str()) > MAX_LABEL {
        return Err(D21Error::LabelTooLong);
    }
    if !same_bytes(&label_seed, &expected) {
        return Err(D21Error::LabelSeedMismatch);
    }
    if ctx.label_guard.is_some() {
        return Err(D21Error::LabelAlreadyUsed);
    }
    let past: u16 = index.saturating_add(1);
    ctx.label_guard = Some(LabelGuard { poll: ctx.poll_key, label_hash: label_seed });
    ctx.option_node =
    OptionNode { poll: ctx.poll_key, index, label: inner, plus_votes: 0, minus_votes: 0 };
    if ctx.poll.options_count < past {
        ctx.poll.options_count = past;
    }
    Ok(OptionAdded { poll: ctx.poll_key, index, label })
}

/// Registers the option at `index` under `label`, or says why not.
///
/// The label is trimmed, the commitment that its canonical form calls for is computed, and
/// the request then goes through `register`, which holds it to the rules.
pub fn handler(ctx: &mut AddOption, index: u16, label: String, label_seed: [u8; 32]) -> (result:
    Result<OptionAdded, D21Error>)
    ensures
        match result {
            Ok(added) => {
                &&& old(ctx)@.refusal(trimmed(label@), label_seed@, commitment(label@)) is None
                &&& final(ctx)@ == old(ctx)@.registered(index, trimmed(label@), label_seed)
                &&& added@ == old(ctx)@.announcement(index, label@)
            },
            Err(e) => old(ctx)@.refusal(trimmed(label@), label_seed@, commitment(label@))
                == Some(e) && *final(ctx) == *old(ctx),
        },
        old(ctx).now >= old(ctx).poll.start_ts ==> result is Err,
        old(ctx).poll@.well_formed() ==> final(ctx).poll@.well_formed(),
{
    let inner = trim(label.as_str()).to_owned();
    let expected = seed_of_trimmed(inner.as_str());
    register(ctx, index, label, inner, label_seed, expected)
}

} // verus!
