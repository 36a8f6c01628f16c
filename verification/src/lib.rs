//! D21 voting: polls in which every voter has a budget of positive and negative credits,
//! votes at most once on an option, and may vote against an option only after casting
//! twice as many positive votes as they would then have negative ones.
//!
//! `states` and `errors` hold the records and the refusals. `instructions` holds the three
//! operations on the records of one request: creating a poll, registering an option and
//! casting a vote. `label` makes the canonical form of an option's label and the commitment
//! to it, with the digest from `digest`. `ledger` is the mathematical model of all records
//! together, with what holds of them at every point in time, and `store` is a record store
//! in memory that carries requests out as the model says.
//!
//! `vault` and `twitter` hold the rules of two small programs of their own, and
//! `calculator` is a calculator that keeps a history.

use crate::errors::D21Error;
use crate::instructions::add_option::{AddOption, OptionAdded};
use crate::instructions::cast_vote::CastVote;
use crate::instructions::initialize_poll::{InitializePoll, InitializePollView, PollConfig};
use crate::label::{commitment, trimmed};
use crate::states::VoteCast;
use vstd::prelude::*;

pub mod calculator;
pub mod digest;
pub mod errors;
pub mod instructions;
pub mod label;
pub mod ledger;
pub mod states;
pub mod store;
pub mod twitter;
pub mod vault;

verus! {

/// Creates the poll that `cfg` describes, owned by the signer of `ctx`, provided that the
/// configuration keeps the rules and the poll does not start before `ctx.now`.
pub fn initialize_poll(ctx: &mut InitializePoll, cfg: PollConfig) -> (result: Result<
    (),
    D21Error,
>)
    ensures
        match result {
            Ok(_) => {
                &&& cfg@.refusal(old(ctx).now) is None
                &&& final(ctx)@ == InitializePollView {
                    poll: cfg@.poll(old(ctx).authority),
                    ..old(ctx)@
                }
                &&& final(ctx).poll@.well_formed()
            },
            Err(e) => cfg@.refusal(old(ctx).now) == Some(e) && *final(ctx) == *old(ctx),
        },
{
    instructions::initialize_poll::handler(ctx, cfg)
}

/// Registers an option of the poll in `ctx` at `index`, under `label` once trimmed,
/// provided that the poll's owner asks before voting starts, the label is neither empty
/// nor too long, `label_seed` is the commitment that the label calls for, and no label
/// with the same canonical form was registered before.
pub fn add_option(ctx: &mut AddOption, index: u16, label: String, label_seed: [u8; 32]) -> (result:
    Result<OptionAdded, D21Error>)
    ensures
        match result {
            Ok(added) => {
                &&& old(ctx)@.refusal(trimmed(label@), label_seed@, commitment(label@)) is None
                &&& final(ctx)@ == old(ctx)@.registered(index, trimmed(label@), label_seed)
                &&& added@ == old(ctx)@.announcement(index, label@)
            },
            Err(e) => old(ctx)@.refusal(trimmed(label@), label_seed@, commitment(label@))
                == Some(e) && *final(ctx) == *old(ctx),
        },
        old(ctx).now >= old(ctx).poll.start_ts ==> result is Err,
        old(ctx).poll@.well_formed() ==> final(ctx).poll@.well_formed(),
{
    instructions::add_option::handler(ctx, index, label, label_seed)
}

/// Casts the vote of the signer of `ctx` on its option, provided that the poll is open,
/// `sentiment` is 1 or -1, the voter has not voted on this option before and has the
/// credit, which for a negative vote includes twice as many positive votes cast as
/// negative ones after this one.
pub fn cast_vote(ctx: &mut CastVote, index: u16, sentiment: i8) -> (result: Result<
    VoteCast,
    D21Error,
>)
    ensures
        match result {
            Ok(cast) => {
                &&& old(ctx)@.refusal(sentiment) is None
                &&& final(ctx)@ == old(ctx)@.after_vote(sentiment)
                &&& cast == old(ctx)@.announcement(sentiment)
            },
            Err(e) => old(ctx)@.refusal(sentiment) == Some(e) && *final(ctx) == *old(ctx),
        },
        old(ctx)@.within_budget() ==> final(ctx)@.within_budget(),
        result is Ok && sentiment == -1 ==> old(ctx)@.earned_negative(),
{
    instructions::cast_vote::handler(ctx, index, sentiment)
}

} // verus!
