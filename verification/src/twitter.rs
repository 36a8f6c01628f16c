use crate::states::Pubkey;
use vstd::prelude::*;

verus! {

/// The two reactions to a tweet.
#[derive(Clone, Copy, Debug, PartialEq, Eq, Structural)]
pub enum ReactionType {
    Like,
    Dislike,
}

/// A tweet's two counters.
#[derive(Clone, Copy, Debug, PartialEq, Eq)]
pub struct Tweet {
    pub likes: u64,
    pub dislikes: u64,
}

impl Tweet {
    /// The counters with one more reaction of the given kind.
    pub open spec fn with_reaction(self, reaction: ReactionType) -> Tweet {
        match reaction {
            ReactionType::Like => Tweet { likes: (self.likes + 1) as u64, ..self },
            ReactionType::Dislike => Tweet { dislikes: (self.dislikes + 1) as u64, ..self },
        }
    }

    /// The counters with one reaction of the given kind less, where there is one.
    pub open spec fn without_reaction(self, reaction: ReactionType) -> Tweet {
        match reaction {
            ReactionType::Like => Tweet {
                likes: if self.likes == 0 {
                    0
                } else {
                    (self.likes - 1) as u64
                },
                ..self
            },
            ReactionType::Dislike => Tweet {
                dislikes: if self.dislikes == 0 {
                    0
                } else {
                    (self.dislikes - 1) as u64
                },
                ..self
            },
        }
    }

    /// Whether one more reaction of the given kind can be counted.
    pub open spec fn has_room(self, reaction: ReactionType) -> bool {
        match reaction {
            ReactionType::Like => self.likes < u64::MAX,
            ReactionType::Dislike => self.dislikes < u64::MAX,
        }
    }
}

/// One author's reaction to one tweet.
#[derive(Clone, Copy, Debug, PartialEq, Eq)]
pub struct Reaction {
    pub reaction_author: Pubkey,
    pub parent_tweet: Pubkey,
    pub reaction: ReactionType,
    pub bump: u8,
}

/// What adding a reaction works on: its author, the record that will hold it and the bump
/// of that record's address, and the tweet with the address it is kept under.
#[derive(Clone, Copy, Debug, PartialEq, Eq)]
pub struct AddReactionContext {
    pub reaction_author: Pubkey,
    pub tweet_reaction: Reaction,
    pub tweet_reaction_bump: u8,
    pub tweet_key: Pubkey,
    pub tweet: Tweet,
}

/// Counts `reaction` on the tweet and writes the reaction's record.
pub fn add_reaction(ctx: &mut AddReactionContext, reaction: ReactionType)
    requires
        old(ctx).tweet.has_room(reaction),
    ensures
        *final(ctx) == (AddReactionContext {
            tweet: old(ctx).tweet.with_reaction(reaction),
            tweet_reaction: Reaction {
                reaction_author: old(ctx).reaction_author,
                parent_tweet: old(ctx).tweet_key,
                reaction,
                bump: old(ctx).tweet_reaction_bump,
            },
            ..*old(ctx)
        }),
{
    match reaction {
        ReactionType::Like => {
            ctx.tweet.likes = ctx.tweet.likes + 1;
        },
        ReactionType::Dislike => {
            ctx.tweet.dislikes = ctx.tweet.dislikes + 1;
        },
    }
    ctx.tweet_reaction =
    Reaction {
        reaction_author: ctx.reaction_author,
        parent_tweet: ctx.tweet_key,
        reaction,
        bump: ctx.tweet_reaction_bump,
    };
}

/// What removing a reaction works on: its author, the reaction and the tweet.
#[derive(Clone, Copy, Debug, PartialEq, Eq)]
pub struct RemoveReactionContext {
    pub reaction_author: Pubkey,
    pub tweet_reaction: Reaction,
    pub tweet: Tweet,
}

/// Takes the reaction in `ctx` out of the tweet's count, which never goes below zero.
pub fn remove_reaction(ctx: &mut RemoveReactionContext)
    ensures
        *final(ctx) == (RemoveReactionContext {
            tweet: old(ctx).tweet.without_reaction(old(ctx).tweet_reaction.reaction),
            ..*old(ctx)
        }),
{
    match ctx.tweet_reaction.reaction {
        ReactionType::Like => {
            ctx.tweet.likes = ctx.tweet.likes.saturating_sub(1);
        },
        ReactionType::Dislike => {
            ctx.tweet.dislikes = ctx.tweet.dislikes.saturating_sub(1);
        },
    }
}

} // verus!
