use crate::errors::{D21Error, StoreError};
use crate::instructions::add_option::AddOptionView;
use crate::instructions::cast_vote::CastVoteView;
use crate::instructions::initialize_poll::PollConfigView;
use crate::label::{canonical, commitment, trimmed};
use crate::states::{LabelGuard, OptionNodeView, PollView, Pubkey, Receipt, Voter, MAX_LABEL};
use vstd::prelude::*;

verus! {

/// All the records that the program keeps, as the record store holds them: each under the
/// key that its address is derived from, and created at most once. A poll is kept under its
/// address, an option under its poll and index, a label guard under its poll and the
/// label's commitment, a voter's credits under poll and voter, a receipt under poll, option
/// index and voter.
pub ghost struct Ledger {
    pub polls: Map<Pubkey, PollView>,
    pub options: Map<(Pubkey, u16), OptionNodeView>,
    pub guards: Map<(Pubkey, [u8; 32]), LabelGuard>,
    pub voters: Map<(Pubkey, Pubkey), Voter>,
    pub receipts: Map<(Pubkey, u16, Pubkey), Receipt>,
}

/// A request that reaches the program, with the time at which it is served. `EndPoll`
/// stands for the closing of a poll, which is not the program's own doing.
pub ghost enum Request {
    InitializePoll { poll_key: Pubkey, authority: Pubkey, cfg: PollConfigView, now: i64 },
    AddOption {
        poll_key: Pubkey,
        authority: Pubkey,
        index: u16,
        label: Seq<char>,
        label_seed: [u8; 32],
        now: i64,
    },
    CastVote { poll_key: Pubkey, voter: Pubkey, index: u16, sentiment: i8, now: i64 },
    EndPoll { poll_key: Pubkey },
}

impl Ledger {
    /// The store before anything was written.
    pub open spec fn empty() -> Ledger {
        Ledger {
            polls: Map::empty(),
            options: Map::empty(),
            guards: Map::empty(),
            voters: Map::empty(),
            receipts: Map::empty(),
        }
    }

    /// The records that the store hands to a registration, where the poll exists and the
    /// option's own record can still be created.
    pub open spec fn registration(
        self,
        poll_key: Pubkey,
        authority: Pubkey,
        index: u16,
        label_seed: [u8; 32],
        now: i64,
    ) -> Option<AddOptionView> {
        if self.polls.contains_key(poll_key) && !self.options.contains_key((poll_key, index)) {
            Some(
                AddOptionView {
                    authority,
                    poll_key,
                    poll: self.polls[poll_key],
                    label_guard: self.guards.get((poll_key, label_seed)),
                    option_node: OptionNodeView {
                        poll: poll_key,
                        index,
                        label: Seq::empty(),
                        plus_votes: 0,
                        minus_votes: 0,
                    },
                    now,
                },
            )
        } else {
            None
        }
    }

    /// The records that the store hands to a vote, where the poll and the option exist.
    pub open spec fn ballot(self, poll_key: Pubkey, voter: Pubkey, index: u16, now: i64) -> Option<
        CastVoteView,
    > {
        if self.polls.contains_key(poll_key) && self.options.contains_key((poll_key, index)) {
            Some(
                CastVoteView {
                    voter_authority: voter,
                    poll_key,
                    poll: self.polls[poll_key],
                    option_node: self.options[(poll_key, index)],
                    voter: self.voters.get((poll_key, voter)),
                    receipt: self.receipts.get((poll_key, index, voter)),
                    now,
                },
            )
        } else {
            None
        }
    }

    /// The error with which the program refuses `request`, where it is the program that
    /// refuses it and not the store.
    pub open spec fn refusal(self, request: Request) -> Option<D21Error> {
        match request {
            Request::InitializePoll { cfg, now, .. } => cfg.refusal(now),
            Request::AddOption { poll_key, authority, index, label, label_seed, now } => {
                match self.registration(poll_key, authority, index, label_seed, now) {
                    Some(ctx) => ctx.refusal(trimmed(label), label_seed@, commitment(label)),
                    None => None,
                }
            },
            Request::CastVote { poll_key, voter, index, sentiment, now } => {
                match self.ballot(poll_key, voter, index, now) {
                    Some(ctx) => ctx.refusal(sentiment),
                    None => None,
                }
            },
            Request::EndPoll { .. } => None,
        }
    }

    /// Why `request` is not carried out, if it is not: a record that it works on is
    /// missing, or one that it would create is there already, or else the program refuses
    /// it.
    pub open spec fn answer(self, request: Request) -> Option<StoreError> {
        let missing_or_taken: Option<StoreError> = match request {
            Request::InitializePoll { poll_key, .. } => if self.polls.contains_key(poll_key) {
                Some(StoreError::AlreadyExists)
            } else {
                None
            },
            Request::AddOption { poll_key, index, .. } => if !self.polls.contains_key(poll_key) {
                Some(StoreError::NotFound)
            } else if self.options.contains_key((poll_key, index)) {
                Some(StoreError::AlreadyExists)
            } else {
                None
            },
            Request::CastVote { poll_key, index, .. } => if !self.polls.contains_key(poll_key)
                || !self.options.contains_key((poll_key, index)) {
                Some(StoreError::NotFound)
            } else {
                None
            },
            Request::EndPoll { poll_key } => if !self.polls.contains_key(poll_key) {
                Some(StoreError::NotFound)
            } else {
                None
            },
        };
        if missing_or_taken is Some {
            missing_or_taken
        } else {
            match self.refusal(request) {
                Some(e) => Some(StoreError::Refused(e)),
                None => None,
            }
        }
    }

    /// Whether `request` is carried out: the store has or can create the records it needs,
    /// and the program does not refuse it.
    pub open spec fn accepts(self, request: Request) -> bool {
        self.answer(request) is None
    }

    /// The store after `request`: with all that the request wrote where it is carried out,
    /// and unchanged where it is not.
    pub open spec fn next(self, request: Request) -> Ledger {
        if !self.accepts(request) {
            self
        } else {
            match request {
                Request::InitializePoll { poll_key, authority, cfg, .. } => Ledger {
                    polls: self.polls.insert(poll_key, cfg.poll(authority)),
                    ..self
                },
                Request::AddOption { poll_key, authority, index, label, label_seed, now } => {
                    let done = self.registration(
                        poll_key,
                        authority,
                        index,
                        label_seed,
                        now,
                    )->0.registered(index, trimmed(label), label_seed);
                    Ledger {
                        polls: self.polls.insert(poll_key, done.poll),
                        options: self.options.insert((poll_key, index), done.option_node),
                        guards: self.guards.insert((poll_key, label_seed), done.label_guard->0),
                        ..self
                    }
                },
                Request::CastVote { poll_key, voter, index, sentiment, now } => {
                    let done = self.ballot(poll_key, voter, index, now)->0.after_vote(sentiment);
                    Ledger {
                        options: self.options.insert((poll_key, index), done.option_node),
                        voters: self.voters.insert((poll_key, voter), done.voter->0),
                        receipts: self.receipts.insert((poll_key, index, voter), done.receipt->0),
                        ..self
                    }
                },
                Request::EndPoll { poll_key } => Ledger {
                    polls: self.polls.insert(
                        poll_key,
                        PollView { ended: true, ..self.polls[poll_key] },
                    ),
                    ..self
                },
            }
        }
    }

    /// The store after `requests`, served one after the other.
    pub open spec fn after(self, requests: Seq<Request>) -> Ledger
        decreases requests.len(),
    {
        if requests.len() == 0 {
            self
        } else {
            self.after(requests.drop_last()).next(requests.last())
        }
    }

    /// Every poll keeps the rules that it was created under.
    pub open spec fn polls_well_formed(self) -> bool {
        forall|p: Pubkey| #[trigger] self.polls.contains_key(p) ==> self.polls[p].well_formed()
    }

    /// Every option belongs to a poll that exists, carries its own key, and lies below the
    /// poll's option count as far as that count can tell.
    pub open spec fn options_in_place(self) -> bool {
        forall|k: (Pubkey, u16)| #[trigger]
            self.options.contains_key(k) ==> {
                &&& self.polls.contains_key(k.0)
                &&& self.options[k].poll == k.0
                &&& self.options[k].index == k.1
                &&& (k.1 < self.polls[k.0].options_count || self.polls[k.0].options_count
                    == u16::MAX)
            }
    }

    /// Every guard carries its own key.
    pub open spec fn guards_in_place(self) -> bool {
        forall|k: (Pubkey, [u8; 32])| #[trigger]
            self.guards.contains_key(k) ==> self.guards[k] == (LabelGuard {
                poll: k.0,
                label_hash: k.1,
            })
    }

    /// Every voter's record carries its own key, belongs to a poll that exists, stays
    /// within that poll's budget, and shows at least twice as many positive votes as
    /// negative ones.
    pub open spec fn voters_within_budget(self) -> bool {
        forall|k: (Pubkey, Pubkey)| #[trigger]
            self.voters.contains_key(k) ==> {
                &&& self.polls.contains_key(k.0)
                &&& self.voters[k].poll == k.0
                &&& self.voters[k].voter == k.1
                &&& self.voters[k].within_budget(self.polls[k.0])
                &&& self.voters[k].used_plus >= 2 * self.voters[k].used_minus
            }
    }

    /// Every receipt carries its own key and a sentiment of 1 or -1, and is for an option
    /// that exists, by a voter whose credits are on record.
    pub open spec fn receipts_in_place(self) -> bool {
        forall|k: (Pubkey, u16, Pubkey)| #[trigger]
            self.receipts.contains_key(k) ==> {
                &&& self.receipts[k].poll == k.0
                &&& self.receipts[k].option_index == k.1
                &&& self.receipts[k].voter == k.2
                &&& (self.receipts[k].sentiment == 1 || self.receipts[k].sentiment == -1)
                &&& self.options.contains_key((k.0, k.1))
                &&& self.voters.contains_key((k.0, k.2))
            }
    }

    /// What holds of the store at every point in time.
    pub open spec fn consistent(self) -> bool {
        &&& self.polls_well_formed()
        &&& self.options_in_place()
        &&& self.guards_in_place()
        &&& self.voters_within_budget()
        &&& self.receipts_in_place()
    }

    /// The voters who hold a receipt of `sentiment` for the option at `index` of `poll`.
    pub open spec fn supporters(self, poll: Pubkey, index: u16, sentiment: i8) -> Set<Pubkey> {
        Set::new(
            |v: Pubkey|
                self.receipts.contains_key((poll, index, v)) && self.receipts[(
                    poll,
                    index,
                    v,
                )].sentiment == sentiment,
        )
    }

    /// The options of `poll` for which `voter` holds a receipt of `sentiment`.
    pub open spec fn voted_on(self, poll: Pubkey, voter: Pubkey, sentiment: i8) -> Set<u16> {
        Set::new(
            |i: u16|
                self.receipts.contains_key((poll, i, voter)) && self.receipts[(
                    poll,
                    i,
                    voter,
                )].sentiment == sentiment,
        )
    }

    /// Every tally is the number of receipts of its kind for the option: no vote is lost
    /// and none is counted twice.
    pub open spec fn tallies_count_receipts(self) -> bool {
        forall|k: (Pubkey, u16)| #[trigger]
            self.options.contains_key(k) ==> {
                &&& self.supporters(k.0, k.1, 1).finite()
                &&& self.supporters(k.0, k.1, -1i8).finite()
                &&& self.options[k].plus_votes == self.supporters(k.0, k.1, 1).len()
                &&& self.options[k].minus_votes == self.supporters(k.0, k.1, -1i8).len()
            }
    }

    /// Every voter's counter is the number of receipts of its kind that the voter holds in
    /// the poll.
    pub open spec fn credits_count_receipts(self) -> bool {
        forall|k: (Pubkey, Pubkey)| #[trigger]
            self.voters.contains_key(k) ==> {
                &&& self.voted_on(k.0, k.1, 1).finite()
                &&& self.voted_on(k.0, k.1, -1i8).finite()
                &&& self.voters[k].used_plus == self.voted_on(k.0, k.1, 1).len()
                &&& self.voters[k].used_minus == self.voted_on(k.0, k.1, -1i8).len()
            }
    }

    /// The counters and the receipts agree.
    pub open spec fn balanced(self) -> bool {
        self.tallies_count_receipts() && self.credits_count_receipts()
    }

    /// Whether `later` still holds all that is never taken back: every poll with its owner,
    /// budget and window, every option, every voter's record, and every guard and receipt
    /// as it was written.
    pub open spec fn kept_in(self, later: Ledger) -> bool {
        &&& forall|p: Pubkey| #[trigger]
            self.polls.contains_key(p) ==> later.polls.contains_key(p) && later.polls[p] == (
            PollView {
                options_count: later.polls[p].options_count,
                ended: later.polls[p].ended,
                ..self.polls[p]
            }) && self.polls[p].options_count <= later.polls[p].options_count && (
            self.polls[p].ended ==> later.polls[p].ended)
        &&& forall|k: (Pubkey, u16)| #[trigger]
            self.options.contains_key(k) ==> later.options.contains_key(k)
                && self.options[k].plus_votes <= later.options[k].plus_votes
                && self.options[k].minus_votes <= later.options[k].minus_votes
                && self.options[k].label == later.options[k].label
        &&& forall|k: (Pubkey, Pubkey)| #[trigger]
            self.voters.contains_key(k) ==> later.voters.contains_key(k)
                && self.voters[k].used_plus <= later.voters[k].used_plus
                && self.voters[k].used_minus <= later.voters[k].used_minus
        &&& self.guards.submap_of(later.guards)
        &&& self.receipts.submap_of(later.receipts)
    }
}

/// The store that holds nothing is consistent, and its counters, of which there are none,
/// agree with its receipts.
pub proof fn lemma_empty_is_sound()
    ensures
        Ledger::empty().consistent(),
        Ledger::empty().balanced(),
{
}

/// No request makes a consistent store inconsistent.
pub proof fn lemma_next_keeps_consistent(ledger: Ledger, request: Request)
    requires
        ledger.consistent(),
    ensures
        ledger.next(request).consistent(),
{
}

/// No request takes back what was written: counters and tallies only grow, and guards and
/// receipts stay as they are.
pub proof fn lemma_next_keeps_records(ledger: Ledger, request: Request)
    requires
        ledger.consistent(),
    ensures
        ledger.kept_in(ledger.next(request)),
{
}

/// Nothing is ever taken back, however many requests follow.
pub proof fn lemma_records_kept(ledger: Ledger, requests: Seq<Request>)
    requires
        ledger.consistent(),
    ensures
        ledger.after(requests).consistent(),
        ledger.kept_in(ledger.after(requests)),
    decreases requests.len(),
{
    if requests.len() > 0 {
        let before = ledger.after(requests.drop_last());
        lemma_records_kept(ledger, requests.drop_last());
        lemma_next_keeps_consistent(before, requests.last());
        lemma_next_keeps_records(before, requests.last());
    }
}

/// A voter votes on an option at most once: after an accepted vote, whatever requests
/// follow, no vote by the same voter on the same option of the same poll is carried out,
/// whatever its sentiment, and the store stays as it is. Where that vote comes while the
/// poll is open, with a sentiment of 1 or -1, it is refused with `AlreadyVotedThisOption`.
pub proof fn lemma_one_vote_per_option(
    ledger: Ledger,
    poll_key: Pubkey,
    voter: Pubkey,
    index: u16,
    sentiment: i8,
    now: i64,
    between: Seq<Request>,
    again: i8,
    then: i64,
)
    requires
        ledger.consistent(),
        ledger.accepts(Request::CastVote { poll_key, voter, index, sentiment, now }),
    ensures
        ({
            let first = Request::CastVote { poll_key, voter, index, sentiment, now };
            let second = Request::CastVote { poll_key, voter, index, sentiment: again, now: then };
            let later = ledger.next(first).after(between);
            &&& later.receipts.contains_key((poll_key, index, voter))
            &&& later.receipts[(poll_key, index, voter)].sentiment == sentiment
            &&& later.refusal(second) is Some
            &&& !later.accepts(second)
            &&& later.next(second) == later
            &&& later.polls[poll_key].open_at(then) && (again == 1 || again == -1)
                ==> later.refusal(second) == Some(D21Error::AlreadyVotedThisOption)
        }),
{
    let first = Request::CastVote { poll_key, voter, index, sentiment, now };
    let voted = ledger.next(first);
    lemma_next_keeps_consistent(ledger, first);
    lemma_records_kept(voted, between);
    let later = voted.after(between);
    assert(voted.receipts.contains_key((poll_key, index, voter)));
    assert(later.receipts.contains_key((poll_key, index, voter)));
    assert(later.options.contains_key((poll_key, index)));
    assert(later.voters.contains_key((poll_key, voter)));
    assert(later.polls.contains_key(poll_key));
}

/// Two labels with one canonical form are never both options of a poll, whichever is
/// registered first: after one is registered, whatever requests follow, no registration of
/// the other in the same poll is carried out, and the store stays as it is. Where the
/// poll's owner asks for it before voting starts, at an index that is free, with a label of
/// valid length and the commitment that it calls for, it is refused with
/// `LabelAlreadyUsed`.
pub proof fn lemma_one_option_per_canonical_label(
    ledger: Ledger,
    poll_key: Pubkey,
    authority: Pubkey,
    index: u16,
    label: Seq<char>,
    label_seed: [u8; 32],
    now: i64,
    between: Seq<Request>,
    other_authority: Pubkey,
    other_index: u16,
    other: Seq<char>,
    other_seed: [u8; 32],
    then: i64,
)
    requires
        ledger.consistent(),
        canonical(label) == canonical(other),
        ledger.accepts(Request::AddOption { poll_key, authority, index, label, label_seed, now }),
    ensures
        ({
            let first = Request::AddOption { poll_key, authority, index, label, label_seed, now };
            let second = Request::AddOption {
                poll_key,
                authority: other_authority,
                index: other_index,
                label: other,
                label_seed: other_seed,
                now: then,
            };
            let later = ledger.next(first).after(between);
            &&& commitment(other) == commitment(label)
            &&& later.guards.contains_key((poll_key, label_seed))
            &&& !later.accepts(second)
            &&& later.next(second) == later
            &&& ({
                &&& !later.options.contains_key((poll_key, other_index))
                &&& other_authority == later.polls[poll_key].authority
                &&& !later.polls[poll_key].ended
                &&& then < later.polls[poll_key].start_ts
                &&& 0 < trimmed(other).len()
                &&& trimmed(other).len() <= MAX_LABEL
                &&& other_seed@ == commitment(other)
            }) ==> later.refusal(second) == Some(D21Error::LabelAlreadyUsed)
        }),
{
    let first = Request::AddOption { poll_key, authority, index, label, label_seed, now };
    let registered = ledger.next(first);
    lemma_next_keeps_consistent(ledger, first);
    lemma_records_kept(registered, between);
    let later = registered.after(between);
    assert(registered.guards.contains_key((poll_key, label_seed)));
    assert(later.guards.contains_key((poll_key, label_seed)));
    assert(registered.polls.contains_key(poll_key));
    assert(later.polls.contains_key(poll_key));
    assert(label_seed@ == commitment(label));
    if other_seed@ == commitment(other) {
        assert(other_seed =~= label_seed);
    }
}

/// An address holds at most one poll: once a poll is created at an address, whatever
/// requests follow, every creation at that address is turned down because the poll is
/// there, and the poll keeps its owner, its budget and its window.
pub proof fn lemma_one_poll_per_address(
    ledger: Ledger,
    poll_key: Pubkey,
    authority: Pubkey,
    cfg: PollConfigView,
    now: i64,
    between: Seq<Request>,
    other_authority: Pubkey,
    other_cfg: PollConfigView,
    then: i64,
)
    requires
        ledger.consistent(),
        ledger.accepts(Request::InitializePoll { poll_key, authority, cfg, now }),
    ensures
        ({
            let first = Request::InitializePoll { poll_key, authority, cfg, now };
            let second = Request::InitializePoll {
                poll_key,
                authority: other_authority,
                cfg: other_cfg,
                now: then,
            };
            let later = ledger.next(first).after(between);
            &&& later.answer(second) == Some(StoreError::AlreadyExists)
            &&& later.next(second) == later
            &&& later.polls.contains_key(poll_key)
            &&& later.polls[poll_key].authority == authority
            &&& later.polls[poll_key].poll_id == cfg.poll_id
            &&& later.polls[poll_key].plus_credits == cfg.plus_credits
            &&& later.polls[poll_key].minus_credits == cfg.minus_credits
            &&& later.polls[poll_key].start_ts == cfg.start_ts
            &&& later.polls[poll_key].end_ts == cfg.end_ts
        }),
{
    let first = Request::InitializePoll { poll_key, authority, cfg, now };
    let created = ledger.next(first);
    lemma_next_keeps_consistent(ledger, first);
    lemma_records_kept(created, between);
    assert(created.polls.contains_key(poll_key));
}

/// Once voting can begin no option is added to a poll, even where no vote was cast yet: a
/// registration at or after the poll's start is never carried out.
pub proof fn lemma_no_option_once_voting_can_begin(
    ledger: Ledger,
    poll_key: Pubkey,
    authority: Pubkey,
    index: u16,
    label: Seq<char>,
    label_seed: [u8; 32],
    now: i64,
)
    requires
        ledger.polls.contains_key(poll_key),
        now >= ledger.polls[poll_key].start_ts,
    ensures
        ({
            let request = Request::AddOption { poll_key, authority, index, label, label_seed, now };
            &&& !ledger.accepts(request)
            &&& ledger.next(request) == ledger
        }),
{
}

/// No request brings the counters and the receipts apart: after it, as before, every tally
/// and every voter's counter is the number of receipts that it stands for.
pub proof fn lemma_next_keeps_balanced(ledger: Ledger, request: Request)
    requires
        ledger.consistent(),
        ledger.balanced(),
    ensures
        ledger.next(request).balanced(),
{
    let next = ledger.next(request);
    if ledger.accepts(request) {
        match request {
            Request::InitializePoll { .. } => {
                assert(next.balanced());
            },
            Request::EndPoll { .. } => {
                assert(next.balanced());
            },
            Request::AddOption { poll_key, index, .. } => {
                assert forall|k: (Pubkey, u16)| #[trigger] next.options.contains_key(k) implies {
                    &&& next.supporters(k.0, k.1, 1).finite()
                    &&& next.supporters(k.0, k.1, -1i8).finite()
                    &&& next.options[k].plus_votes == next.supporters(k.0, k.1, 1).len()
                    &&& next.options[k].minus_votes == next.supporters(k.0, k.1, -1i8).len()
                } by {
                    if k == (poll_key, index) {
                        assert forall|v: Pubkey| !ledger.receipts.contains_key((poll_key, index, v)) by {
                            if ledger.receipts.contains_key((poll_key, index, v)) {
                                assert(ledger.options.contains_key((poll_key, index)));
                            }
                        }
                        assert(next.supporters(k.0, k.1, 1) =~= Set::<Pubkey>::empty());
                        assert(next.supporters(k.0, k.1, -1i8) =~= Set::<Pubkey>::empty());
                    } else {
                        assert(ledger.options.contains_key(k));
                        assert(next.supporters(k.0, k.1, 1) =~= ledger.supporters(k.0, k.1, 1));
                        assert(next.supporters(k.0, k.1, -1i8) =~= ledger.supporters(k.0, k.1, -1i8));
                    }
                }
                assert(next.credits_count_receipts());
            },
            Request::CastVote { poll_key, voter, index, sentiment, .. } => {
                assert(!ledger.receipts.contains_key((poll_key, index, voter)));
                assert forall|k: (Pubkey, u16)| #[trigger] next.options.contains_key(k) implies {
                    &&& next.supporters(k.0, k.1, 1).finite()
                    &&& next.supporters(k.0, k.1, -1i8).finite()
                    &&& next.options[k].plus_votes == next.supporters(k.0, k.1, 1).len()
                    &&& next.options[k].minus_votes == next.supporters(k.0, k.1, -1i8).len()
                } by {
                    assert(ledger.options.contains_key(k));
                    if k == (poll_key, index) {
                        if sentiment == 1 {
                            assert(next.supporters(k.0, k.1, 1) =~= ledger.supporters(
                                k.0,
                                k.1,
                                1,
                            ).insert(voter));
                            assert(next.supporters(k.0, k.1, -1i8) =~= ledger.supporters(
                                k.0,
                                k.1,
                                -1i8,
                            ));
                        } else {
                            assert(next.supporters(k.0, k.1, -1i8) =~= ledger.supporters(
                                k.0,
                                k.1,
                                -1i8,
                            ).insert(voter));
                            assert(next.supporters(k.0, k.1, 1) =~= ledger.supporters(k.0, k.1, 1));
                        }
                    } else {
                        assert(next.supporters(k.0, k.1, 1) =~= ledger.supporters(k.0, k.1, 1));
                        assert(next.supporters(k.0, k.1, -1i8) =~= ledger.supporters(k.0, k.1, -1i8));
                    }
                }
                assert forall|k: (Pubkey, Pubkey)| #[trigger] next.voters.contains_key(k) implies {
                    &&& next.voted_on(k.0, k.1, 1).finite()
                    &&& next.voted_on(k.0, k.1, -1i8).finite()
                    &&& next.voters[k].used_plus == next.voted_on(k.0, k.1, 1).len()
                    &&& next.voters[k].used_minus == next.voted_on(k.0, k.1, -1i8).len()
                } by {
                    if k == (poll_key, voter) {
                        if !ledger.voters.contains_key(k) {
                            assert forall|i: u16| !ledger.receipts.contains_key((poll_key, i, voter)) by {
                                if ledger.receipts.contains_key((poll_key, i, voter)) {
                                    assert(ledger.voters.contains_key((poll_key, voter)));
                                }
                            }
                            assert(ledger.voted_on(k.0, k.1, 1) =~= Set::<u16>::empty());
                            assert(ledger.voted_on(k.0, k.1, -1i8) =~= Set::<u16>::empty());
                        }
                        if sentiment == 1 {
                            assert(next.voted_on(k.0, k.1, 1) =~= ledger.voted_on(k.0, k.1, 1).insert(
                                index,
                            ));
                            assert(next.voted_on(k.0, k.1, -1i8) =~= ledger.voted_on(k.0, k.1, -1i8));
                        } else {
                            assert(next.voted_on(k.0, k.1, -1i8) =~= ledger.voted_on(
                                k.0,
                                k.1,
                                -1i8,
                            ).insert(index));
                            assert(next.voted_on(k.0, k.1, 1) =~= ledger.voted_on(k.0, k.1, 1));
                        }
                    } else {
                        assert(ledger.voters.contains_key(k));
                        assert(next.voted_on(k.0, k.1, 1) =~= ledger.voted_on(k.0, k.1, 1));
                        assert(next.voted_on(k.0, k.1, -1i8) =~= ledger.voted_on(k.0, k.1, -1i8));
                    }
                }
            },
        }
    }
}

/// At every point in time, whatever requests were served and in whatever order, the store
/// is consistent, each tally is the number of receipts of its kind for the option, and
/// each voter's counter the number of receipts of its kind that the voter holds.
pub proof fn lemma_at_all_times(requests: Seq<Request>)
    ensures
        Ledger::empty().after(requests).consistent(),
        Ledger::empty().after(requests).balanced(),
    decreases requests.len(),
{
    if requests.len() == 0 {
        lemma_empty_is_sound();
    } else {
        lemma_at_all_times(requests.drop_last());
        lemma_next_keeps_consistent(Ledger::empty().after(requests.drop_last()), requests.last());
        lemma_next_keeps_balanced(Ledger::empty().after(requests.drop_last()), requests.last());
    }
}

/// The credit budget is never exceeded: at every point in time, every voter has used no
/// more positive credits than their poll grants, and no more negative ones.
pub proof fn lemma_budget_never_exceeded(requests: Seq<Request>, poll: Pubkey, voter: Pubkey)
    requires
        Ledger::empty().after(requests).voters.contains_key((poll, voter)),
    ensures
        ({
            let ledger = Ledger::empty().after(requests);
            &&& ledger.polls.contains_key(poll)
            &&& ledger.voters[(poll, voter)].used_plus <= ledger.polls[poll].plus_credits
            &&& ledger.voters[(poll, voter)].used_minus <= ledger.polls[poll].minus_credits
        }),
{
    lemma_at_all_times(requests);
}

/// Every negative vote that is carried out has passed the ratio gate: just before it, the
/// voter had cast at least twice as many positive votes as the negative votes they have
/// once this one counts.
pub proof fn lemma_negative_votes_are_earned(
    ledger: Ledger,
    poll_key: Pubkey,
    voter: Pubkey,
    index: u16,
    now: i64,
)
    requires
        ledger.accepts(Request::CastVote { poll_key, voter, index, sentiment: -1i8, now }),
    ensures
        ({
            let before = ledger.ballot(poll_key, voter, index, now)->0;
            let after = ledger.next(
                Request::CastVote { poll_key, voter, index, sentiment: -1i8, now },
            ).voters[(poll_key, voter)];
            &&& before.used_plus() >= 2 * (before.used_minus() + 1)
            &&& after.used_minus == before.used_minus() + 1
            &&& after.used_plus == before.used_plus()
        }),
{
}

} // verus!
