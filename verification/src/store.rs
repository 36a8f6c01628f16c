use crate::digest::{sha256, sha256_of};
use crate::errors::StoreError;
use crate::instructions::add_option::{AddOption, OptionAdded};
use crate::instructions::cast_vote::CastVote;
use crate::instructions::initialize_poll::{InitializePoll, PollConfig};
use crate::instructions::{add_option, cast_vote, initialize_poll};
use crate::ledger::{
    lemma_empty_is_sound, lemma_next_keeps_balanced, lemma_next_keeps_consistent, Ledger, Request,
};
use crate::states::{
    same_bytes, LabelGuard, OptionNode, OptionNodeView, Poll, PollView, Pubkey, Receipt, VoteCast,
    Voter,
};
use vstd::bytes::{spec_u64_to_le_bytes, u64_to_le_bytes};
use vstd::prelude::*;

verus! {

/// A record that is kept under a key of its own.
trait Keyed: Sized {
    /// What the record is found by.
    type Key;

    /// The record as a mathematical value.
    type Value;

    spec fn key(&self) -> Self::Key;

    spec fn value(&self) -> Self::Value;

    fn has_key(&self, key: &Self::Key) -> (yes: bool)
        ensures
            yes == (self.key() == *key),
    ;
}

/// What a list of records holds under each key: the record that was written last.
spec fn table<R: Keyed>(rows: Seq<R>) -> Map<R::Key, R::Value>
    decreases rows.len(),
{
    if rows.len() == 0 {
        Map::empty()
    } else {
        table(rows.drop_last()).insert(rows.last().key(), rows.last().value())
    }
}

proof fn lemma_table_last_match<R: Keyed>(rows: Seq<R>, key: R::Key, at: int)
    requires
        0 <= at < rows.len(),
        rows[at].key() == key,
        forall|j: int| at < j < rows.len() ==> rows[j].key() != key,
    ensures
        table(rows).contains_key(key),
        table(rows)[key] == rows[at].value(),
    decreases rows.len(),
{
    if at < rows.len() - 1 {
        lemma_table_last_match(rows.drop_last(), key, at);
    }
}

proof fn lemma_table_no_match<R: Keyed>(rows: Seq<R>, key: R::Key)
    requires
        forall|j: int| 0 <= j < rows.len() ==> rows[j].key() != key,
    ensures
        !table(rows).contains_key(key),
    decreases rows.len(),
{
    if rows.len() > 0 {
        lemma_table_no_match(rows.drop_last(), key);
    }
}

proof fn lemma_table_update<R: Keyed>(rows: Seq<R>, at: int, row: R)
    requires
        0 <= at < rows.len(),
        rows[at].key() == row.key(),
        forall|j: int| at < j < rows.len() ==> rows[j].key() != row.key(),
    ensures
        table(rows.update(at, row)) == table(rows).insert(row.key(), row.value()),
    decreases rows.len(),
{
    if at < rows.len() - 1 {
        lemma_table_update(rows.drop_last(), at, row);
        assert(rows.update(at, row).drop_last() =~= rows.drop_last().update(at, row));
        assert(table(rows.update(at, row)) =~= table(rows).insert(row.key(), row.value()));
    } else {
        assert(rows.update(at, row).drop_last() =~= rows.drop_last());
        assert(table(rows.update(at, row)) =~= table(rows).insert(row.key(), row.value()));
    }
}

proof fn lemma_table_push<R: Keyed>(rows: Seq<R>, row: R)
    ensures
        table(rows.push(row)) == table(rows).insert(row.key(), row.value()),
{
    assert(rows.push(row).drop_last() =~= rows);
}

/// Where the record under `key` stands in `rows`, if there is one.
fn find<R: Keyed>(rows: &Vec<R>, key: &R::Key) -> (at: Option<usize>)
    ensures
        match at {
            Some(i) => {
                &&& i < rows.len()
                &&& rows[i as int].key() == *key
                &&& forall|j: int| i < j < rows.len() ==> rows[j].key() != *key
                &&& table(rows@).contains_key(*key)
                &&& table(rows@)[*key] == rows[i as int].value()
            },
            None => !table(rows@).contains_key(*key),
        },
{
    let mut i: usize = rows.len();
    while i > 0
        invariant
            i <= rows.len(),
            forall|j: int| i <= j < rows.len() ==> rows[j].key() != *key,
        decreases i,
    {
        i -= 1;
        if rows[i].has_key(key) {
            proof {
                lemma_table_last_match(rows@, *key, i as int);
            }
            return Some(i);
        }
    }
    proof {
        lemma_table_no_match(rows@, *key);
    }
    None
}

/// A poll with the address it is kept under.
struct PollRow {
    key: Pubkey,
    poll: Poll,
}

impl Keyed for PollRow {
    type Key = Pubkey;

    type Value = PollView;

    closed spec fn key(&self) -> Pubkey {
        self.key
    }

    closed spec fn value(&self) -> PollView {
        self.poll@
    }

    fn has_key(&self, key: &Pubkey) -> (yes: bool) {
        self.key == *key
    }
}

impl Keyed for OptionNode {
    type Key = (Pubkey, u16);

    type Value = OptionNodeView;

    closed spec fn key(&self) -> (Pubkey, u16) {
        (self.poll, self.index)
    }

    closed spec fn value(&self) -> OptionNodeView {
        self@
    }

    fn has_key(&self, key: &(Pubkey, u16)) -> (yes: bool) {
        self.poll == key.0 && self.index == key.1
    }
}

impl Keyed for LabelGuard {
    type Key = (Pubkey, [u8; 32]);

    type Value = LabelGuard;

    closed spec fn key(&self) -> (Pubkey, [u8; 32]) {
        (self.poll, self.label_hash)
    }

    closed spec fn value(&self) -> LabelGuard {
        *self
    }

    fn has_key(&self, key: &(Pubkey, [u8; 32])) -> (yes: bool) {
        self.poll == key.0 && same_bytes(&self.label_hash, &key.1)
    }
}

impl Keyed for Voter {
    type Key = (Pubkey, Pubkey);

    type Value = Voter;

    closed spec fn key(&self) -> (Pubkey, Pubkey) {
        (self.poll, self.voter)
    }

    closed spec fn value(&self) -> Voter {
        *self
    }

    fn has_key(&self, key: &(Pubkey, Pubkey)) -> (yes: bool) {
        self.poll == key.0 && self.voter == key.1
    }
}

impl Keyed for Receipt {
    type Key = (Pubkey, u16, Pubkey);

    type Value = Receipt;

    closed spec fn key(&self) -> (Pubkey, u16, Pubkey) {
        (self.poll, self.option_index, self.voter)
    }

    closed spec fn value(&self) -> Receipt {
        *self
    }

    fn has_key(&self, key: &(Pubkey, u16, Pubkey)) -> (yes: bool) {
        self.poll == key.0 && self.option_index == key.1 && self.voter == key.2
    }
}

/// The bytes that a poll's address is derived from: the word "poll", the owner and the
/// poll's id, low byte first.
pub open spec fn poll_seeds(authority: Pubkey, poll_id: u64) -> Seq<u8> {
    seq![112u8, 111u8, 108u8, 108u8] + authority.bytes@ + spec_u64_to_le_bytes(poll_id)
}

/// The address under which the store keeps the poll that `authority` owns under `poll_id`:
/// the digest of `poll_seeds`. An owner and an id name one address, and so one poll.
pub open spec fn poll_address(authority: Pubkey, poll_id: u64) -> Pubkey {
    choose|key: Pubkey| key.bytes@ == sha256(poll_seeds(authority, poll_id))
}

/// The address under which the store keeps the poll that `authority` owns under `poll_id`.
pub fn derive_poll_address(authority: Pubkey, poll_id: u64) -> (key: Pubkey)
    ensures
        key == poll_address(authority, poll_id),
        key.bytes@ == sha256(poll_seeds(authority, poll_id)),
{
    let mut seeds: Vec<u8> = Vec::new();
    seeds.push(112u8);
    seeds.push(111u8);
    seeds.push(108u8);
    seeds.push(108u8);
    seeds.extend_from_slice(authority.bytes.as_slice());
    let id_bytes = u64_to_le_bytes(poll_id);
    seeds.extend_from_slice(id_bytes.as_slice());
    assert(seeds@ =~= poll_seeds(authority, poll_id));
    let key = Pubkey { bytes: sha256_of(seeds.as_slice()) };
    proof {
        let chosen = poll_address(authority, poll_id);
        assert(chosen.bytes@ == key.bytes@);
        assert(chosen.bytes =~= key.bytes);
    }
    key
}

/// The five lists of records behind a store.
struct Tables {
    polls: Vec<PollRow>,
    options: Vec<OptionNode>,
    guards: Vec<LabelGuard>,
    voters: Vec<Voter>,
    receipts: Vec<Receipt>,
}

impl Tables {
    /// What the lists hold, key by key.
    spec fn ledger(&self) -> Ledger {
        Ledger {
            polls: table(self.polls@),
            options: table(self.options@),
            guards: table(self.guards@),
            voters: table(self.voters@),
            receipts: table(self.receipts@),
        }
    }

    fn new() -> (tables: Tables)
        ensures
            tables.ledger() == Ledger::empty(),
    {
        Tables {
            polls: Vec::new(),
            options: Vec::new(),
            guards: Vec::new(),
            voters: Vec::new(),
            receipts: Vec::new(),
        }
    }

    fn initialize_poll(&mut self, authority: Pubkey, cfg: PollConfig, now: i64) -> (result:
        Result<Pubkey, StoreError>)
        ensures
            ({
                let poll_key = poll_address(authority, cfg.poll_id);
                let request = Request::InitializePoll { poll_key, authority, cfg: cfg@, now };
                &&& final(self).ledger() == old(self).ledger().next(request)
                &&& match result {
                    Ok(handle) => old(self).ledger().answer(request) is None && handle == poll_key,
                    Err(e) => old(self).ledger().answer(request) == Some(e),
                }
            }),
    {
        let poll_key = derive_poll_address(authority, cfg.poll_id);
        if find(&self.polls, &poll_key).is_some() {
            return Err(StoreError::AlreadyExists);
        }
        let blank = Poll {
            authority,
            poll_id: 0,
            title: String::new(),
            description: String::new(),
            plus_credits: 0,
            minus_credits: 0,
            start_ts: 0,
            end_ts: 0,
            options_count: 0,
            ended: false,
        };
        let mut ctx = InitializePoll { authority, poll: blank, now };
        match initialize_poll::handler(&mut ctx, cfg) {
            Ok(_) => {
                let row = PollRow { key: poll_key, poll: ctx.poll };
                proof {
                    lemma_table_push(self.polls@, row);
                }
                self.polls.push(row);
                Ok(poll_key)
            },
            Err(e) => Err(StoreError::Refused(e)),
        }
    }

    fn add_option(
        &mut self,
        poll_key: Pubkey,
        authority: Pubkey,
        index: u16,
        label: String,
        label_seed: [u8; 32],
        now: i64,
    ) -> (result: Result<OptionAdded, StoreError>)
        ensures
            ({
                let request = Request::AddOption {
                    poll_key,
                    authority,
                    index,
                    label: label@,
                    label_seed,
                    now,
                };
                &&& final(self).ledger() == old(self).ledger().next(request)
                &&& match result {
                    Ok(added) => {
                        &&& old(self).ledger().answer(request) is None
                        &&& added@ == old(self).ledger().registration(
                            poll_key,
                            authority,
                            index,
                            label_seed,
                            now,
                        )->0.announcement(index, label@)
                    },
                    Err(e) => old(self).ledger().answer(request) == Some(e),
                }
            }),
    {
        let at = match find(&self.polls, &poll_key) {
            Some(i) => i,
            None => {
                return Err(StoreError::NotFound);
            },
        };
        if find(&self.options, &(poll_key, index)).is_some() {
            return Err(StoreError::AlreadyExists);
        }
        let guard_at = find(&self.guards, &(poll_key, label_seed));
        let label_guard = match guard_at {
            Some(i) => Some(self.guards[i]),
            None => None,
        };
        let blank = OptionNode {
            poll: poll_key,
            index,
            label: String::new(),
            plus_votes: 0,
            minus_votes: 0,
        };
        let mut ctx = AddOption {
            authority,
            poll_key,
            poll: self.polls[at].poll.duplicate(),
            label_guard,
            option_node: blank,
            now,
        };
        match add_option::handler(&mut ctx, index, label, label_seed) {
            Ok(added) => {
                let row = PollRow { key: poll_key, poll: ctx.poll };
                let guard = LabelGuard { poll: poll_key, label_hash: label_seed };
                proof {
                    lemma_table_update(self.polls@, at as int, row);
                    lemma_table_push(self.options@, ctx.option_node);
                    lemma_table_push(self.guards@, guard);
                }
                self.polls.set(at, row);
                self.options.push(ctx.option_node);
                self.guards.push(guard);
                Ok(added)
            },
            Err(e) => Err(StoreError::Refused(e)),
        }
    }

    fn cast_vote(
        &mut self,
        poll_key: Pubkey,
        voter: Pubkey,
        index: u16,
        sentiment: i8,
        now: i64,
    ) -> (result: Result<VoteCast, StoreError>)
        ensures
            ({
                let request = Request::CastVote { poll_key, voter, index, sentiment, now };
                &&& final(self).ledger() == old(self).ledger().next(request)
                &&& match result {
                    Ok(cast) => {
                        &&& old(self).ledger().answer(request) is None
                        &&& cast == old(self).ledger().ballot(poll_key, voter, index, now)->0.announcement(
                            sentiment,
                        )
                    },
                    Err(e) => old(self).ledger().answer(request) == Some(e),
                }
            }),
    {
        let at = match find(&self.polls, &poll_key) {
            Some(i) => i,
            None => {
                return Err(StoreError::NotFound);
            },
        };
        let option_at = match find(&self.options, &(poll_key, index)) {
            Some(i) => i,
            None => {
                return Err(StoreError::NotFound);
            },
        };
        let voter_at = find(&self.voters, &(poll_key, voter));
        let credits = match voter_at {
            Some(i) => Some(self.voters[i]),
            None => None,
        };
        let receipt = match find(&self.receipts, &(poll_key, index, voter)) {
            Some(i) => Some(self.receipts[i]),
            None => None,
        };
        let mut ctx = CastVote {
            voter_authority: voter,
            poll_key,
            poll: self.polls[at].poll.duplicate(),
            option_node: self.options[option_at].duplicate(),
            voter: credits,
            receipt,
            now,
        };
        match cast_vote::handler(&mut ctx, index, sentiment) {
            Ok(cast) => {
                let spent = Voter {
                    poll: poll_key,
                    voter,
                    used_plus: cast.used_plus,
                    used_minus: cast.used_minus,
                };
                let written = Receipt { poll: poll_key, voter, option_index: index, sentiment };
                proof {
                    lemma_table_update(self.options@, option_at as int, ctx.option_node);
                    lemma_table_push(self.receipts@, written);
                    match voter_at {
                        Some(i) => {
                            lemma_table_update(self.voters@, i as int, spent);
                        },
                        None => {
                            lemma_table_push(self.voters@, spent);
                        },
                    }
                }
                self.options.set(option_at, ctx.option_node);
                match voter_at {
                    Some(i) => {
                        self.voters.set(i, spent);
                    },
                    None => {
                        self.voters.push(spent);
                    },
                }
                self.receipts.push(written);
                Ok(cast)
            },
            Err(e) => Err(StoreError::Refused(e)),
        }
    }

    fn poll(&self, poll_key: Pubkey) -> (found: Option<Poll>)
        ensures
            match found {
                Some(poll) => self.ledger().polls.contains_key(poll_key) && poll@ == self.ledger().polls[poll_key],
                None => !self.ledger().polls.contains_key(poll_key),
            },
    {
        match find(&self.polls, &poll_key) {
            Some(i) => Some(self.polls[i].poll.duplicate()),
            None => None,
        }
    }

    fn option(&self, poll_key: Pubkey, index: u16) -> (found: Option<OptionNode>)
        ensures
            match found {
                Some(option) => self.ledger().options.contains_key((poll_key, index)) && option@
                    == self.ledger().options[(poll_key, index)],
                None => !self.ledger().options.contains_key((poll_key, index)),
            },
    {
        match find(&self.options, &(poll_key, index)) {
            Some(i) => Some(self.options[i].duplicate()),
            None => None,
        }
    }

    fn label_guard(&self, poll_key: Pubkey, label_seed: [u8; 32]) -> (found: Option<
        LabelGuard,
    >)
        ensures
            found == self.ledger().guards.get((poll_key, label_seed)),
    {
        match find(&self.guards, &(poll_key, label_seed)) {
            Some(i) => Some(self.guards[i]),
            None => None,
        }
    }

    fn voter(&self, poll_key: Pubkey, voter: Pubkey) -> (found: Option<Voter>)
        ensures
            found == self.ledger().voters.get((poll_key, voter)),
    {
        match find(&self.voters, &(poll_key, voter)) {
            Some(i) => Some(self.voters[i]),
            None => None,
        }
    }

    fn receipt(&self, poll_key: Pubkey, index: u16, voter: Pubkey) -> (found: Option<
        Receipt,
    >)
        ensures
            found == self.ledger().receipts.get((poll_key, index, voter)),
    {
        match find(&self.receipts, &(poll_key, index, voter)) {
            Some(i) => Some(self.receipts[i]),
            None => None,
        }
    }
}

/// A record store in memory. It keeps every record of the program under its key, creates
/// a record only where there is none under that key, and carries a request out as a
/// whole or not at all. At every point in time its records are consistent and its counters
/// are the numbers of receipts that they stand for.
pub struct Store {
    tables: Tables,
}

impl View for Store {
    type V = Ledger;

    closed spec fn view(&self) -> Ledger {
        self.tables.ledger()
    }
}

impl Store {
    #[verifier::type_invariant]
    spec fn always_sound(self) -> bool {
        self.tables.ledger().consistent() && self.tables.ledger().balanced()
    }

    /// What holds of a store at every point in time: its records are consistent, and its
    /// counters are the numbers of receipts that they stand for.
    pub open spec fn sound(&self) -> bool {
        self@.consistent() && self@.balanced()
    }

    /// A store that holds nothing yet.
    pub fn new() -> (store: Store)
        ensures
            store@ == Ledger::empty(),
            store.sound(),
    {
        proof {
            lemma_empty_is_sound();
        }
        Store { tables: Tables::new() }
    }

    /// Creates the poll that `cfg` describes, owned by `authority`, at the address that the
    /// owner and the poll's id name, and returns that address; unless a poll is kept there
    /// already or the program refuses.
    pub fn initialize_poll(&mut self, authority: Pubkey, cfg: PollConfig, now: i64) -> (result:
        Result<Pubkey, StoreError>)
        ensures
            ({
                let poll_key = poll_address(authority, cfg.poll_id);
                let request = Request::InitializePoll { poll_key, authority, cfg: cfg@, now };
                &&& final(self)@ == old(self)@.next(request)
                &&& match result {
                    Ok(handle) => old(self)@.answer(request) is None && handle == poll_key,
                    Err(e) => old(self)@.answer(request) == Some(e),
                }
            }),
            old(self).sound(),
            final(self).sound(),
    {
        proof {
            use_type_invariant(&*self);
            let request = Request::InitializePoll {
                poll_key: poll_address(authority, cfg.poll_id),
                authority,
                cfg: cfg@,
                now,
            };
            lemma_next_keeps_consistent(self@, request);
            lemma_next_keeps_balanced(self@, request);
            lemma_empty_is_sound();
        }
        let mut tables = Tables::new();
        core::mem::swap(&mut self.tables, &mut tables);
        let result = tables.initialize_poll(authority, cfg, now);
        self.tables = tables;
        result
    }

    /// Registers an option of the poll at `poll_key` at `index`, under `label` once
    /// trimmed, unless the poll is missing, the index is taken or the program refuses. The
    /// guard that the request meets is the one kept under the poll and `label_seed`.
    pub fn add_option(
        &mut self,
        poll_key: Pubkey,
        authority: Pubkey,
        index: u16,
        label: String,
        label_seed: [u8; 32],
        now: i64,
    ) -> (result: Result<OptionAdded, StoreError>)
        ensures
            ({
                let request = Request::AddOption {
                    poll_key,
                    authority,
                    index,
                    label: label@,
                    label_seed,
                    now,
                };
                &&& final(self)@ == old(self)@.next(request)
                &&& match result {
                    Ok(added) => {
                        &&& old(self)@.answer(request) is None
                        &&& added@ == old(self)@.registration(
                            poll_key,
                            authority,
                            index,
                            label_seed,
                            now,
                        )->0.announcement(index, label@)
                    },
                    Err(e) => old(self)@.answer(request) == Some(e),
                }
            }),
            old(self).sound(),
            final(self).sound(),
    {
        proof {
            use_type_invariant(&*self);
            let request = Request::AddOption {
                poll_key,
                authority,
                index,
                label: label@,
                label_seed,
                now,
            };
            lemma_next_keeps_consistent(self@, request);
            lemma_next_keeps_balanced(self@, request);
            lemma_empty_is_sound();
        }
        let mut tables = Tables::new();
        core::mem::swap(&mut self.tables, &mut tables);
        let result = tables.add_option(poll_key, authority, index, label, label_seed, now);
        self.tables = tables;
        result
    }

    /// Casts the vote of `voter` on the option at `index` of the poll at `poll_key`, unless
    /// the poll or the option is missing or the program refuses. The voter's credits and
    /// the receipt that the request meets are those kept under its poll, option and voter.
    pub fn cast_vote(
        &mut self,
        poll_key: Pubkey,
        voter: Pubkey,
        index: u16,
        sentiment: i8,
        now: i64,
    ) -> (result: Result<VoteCast, StoreError>)
        ensures
            ({
                let request = Request::CastVote { poll_key, voter, index, sentiment, now };
                &&& final(self)@ == old(self)@.next(request)
                &&& match result {
                    Ok(cast) => {
                        &&& old(self)@.answer(request) is None
                        &&& cast == old(self)@.ballot(poll_key, voter, index, now)->0.announcement(
                            sentiment,
                        )
                    },
                    Err(e) => old(self)@.answer(request) == Some(e),
                }
            }),
            old(self).sound(),
            final(self).sound(),
    {
        proof {
            use_type_invariant(&*self);
            let request = Request::CastVote { poll_key, voter, index, sentiment, now };
            lemma_next_keeps_consistent(self@, request);
            lemma_next_keeps_balanced(self@, request);
            lemma_empty_is_sound();
        }
        let mut tables = Tables::new();
        core::mem::swap(&mut self.tables, &mut tables);
        let result = tables.cast_vote(poll_key, voter, index, sentiment, now);
        self.tables = tables;
        result
    }

    /// The poll kept at `poll_key`, if there is one.
    pub fn poll(&self, poll_key: Pubkey) -> (found: Option<Poll>)
        ensures
            match found {
                Some(poll) => self@.polls.contains_key(poll_key) && poll@ == self@.polls[poll_key],
                None => !self@.polls.contains_key(poll_key),
            },
            self.sound(),
    {
        proof {
            use_type_invariant(self);
        }
        self.tables.poll(poll_key)
    }

    /// The option at `index` of the poll at `poll_key`, if there is one.
    pub fn option(&self, poll_key: Pubkey, index: u16) -> (found: Option<OptionNode>)
        ensures
            match found {
                Some(option) => self@.options.contains_key((poll_key, index)) && option@
                    == self@.options[(poll_key, index)],
                None => !self@.options.contains_key((poll_key, index)),
            },
            self.sound(),
    {
        proof {
            use_type_invariant(self);
        }
        self.tables.option(poll_key, index)
    }

    /// The guard kept under the poll at `poll_key` and the commitment `label_seed`, if a
    /// label has taken it.
    pub fn label_guard(&self, poll_key: Pubkey, label_seed: [u8; 32]) -> (found: Option<
        LabelGuard,
    >)
        ensures
            found == self@.guards.get((poll_key, label_seed)),
            self.sound(),
    {
        proof {
            use_type_invariant(self);
        }
        self.tables.label_guard(poll_key, label_seed)
    }

    /// The credits that `voter` has spent in the poll at `poll_key`, if any are on record.
    /// They are within the poll's budget.
    pub fn voter(&self, poll_key: Pubkey, voter: Pubkey) -> (found: Option<Voter>)
        ensures
            found == self@.voters.get((poll_key, voter)),
            self.sound(),
            found matches Some(credits) ==> self@.polls.contains_key(poll_key)
                && credits.within_budget(self@.polls[poll_key]),
    {
        proof {
            use_type_invariant(self);
        }
        self.tables.voter(poll_key, voter)
    }

    /// The receipt of `voter` for the option at `index` of the poll at `poll_key`, if the
    /// voter has voted on it.
    pub fn receipt(&self, poll_key: Pubkey, index: u16, voter: Pubkey) -> (found: Option<
        Receipt,
    >)
        ensures
            found == self@.receipts.get((poll_key, index, voter)),
            self.sound(),
    {
        proof {
            use_type_invariant(self);
        }
        self.tables.receipt(poll_key, index, voter)
    }
}

} // verus!
