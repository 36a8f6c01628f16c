use vstd::prelude::*;
use vstd::std_specs::cmp::PartialEqSpecImpl;
use vstd::string::*;
use vstd::utf8::encode_utf8;

verus! {

/// Longest poll title, in characters.
pub const MAX_TITLE: usize = 64;

/// Longest poll description, in characters.
pub const MAX_DESC: usize = 256;

/// Longest option label once trimmed, in characters.
pub const MAX_LABEL: usize = 64;

/// Most bytes that one character takes when stored.
pub const MAX_CHAR_BYTES: usize = 4;

/// How many characters `text` has.
pub fn char_len(text: &str) -> (n: usize)
    ensures
        n == text@.len(),
{
    text.unicode_len()
}

/// How many bytes a text takes when stored: four for its length, then its characters.
pub open spec fn stored_text(text: Seq<char>) -> nat {
    4 + encode_utf8(text).len()
}

/// A stored character takes at most `MAX_CHAR_BYTES` bytes, so a text of so many characters
/// at most so many times as much.
pub proof fn lemma_stored_text_bound(text: Seq<char>)
    ensures
        stored_text(text) <= 4 + MAX_CHAR_BYTES * text.len(),
    decreases text.len(),
{
    if text.len() > 0 {
        lemma_stored_text_bound(text.drop_first());
    }
}

/// A 32-byte identity: a signer, or the address under which a record is kept.
#[derive(Clone, Copy, Debug, Eq, Hash)]
pub struct Pubkey {
    pub bytes: [u8; 32],
}

/// Whether two 32-byte values hold the same bytes.
pub fn same_bytes(a: &[u8; 32], b: &[u8; 32]) -> (same: bool)
    ensures
        same == (*a == *b),
        same == (a@ == b@),
{
    let mut i: usize = 0;
    while i < 32
        invariant
            i <= 32,
            forall|j: int| 0 <= j < i ==> a[j] == b[j],
        decreases 32 - i,
    {
        if a[i] != b[i] {
            return false;
        }
        i += 1;
    }
    assert(*a =~= *b);
    true
}

impl PartialEq for Pubkey {
    fn eq(&self, other: &Pubkey) -> (same: bool) {
        same_bytes(&self.bytes, &other.bytes)
    }
}

impl PartialEqSpecImpl for Pubkey {
    open spec fn obeys_eq_spec() -> bool {
        true
    }

    open spec fn eq_spec(&self, other: &Pubkey) -> bool {
        self.bytes == other.bytes
    }
}

impl Pubkey {
    /// The identity made of `bytes`.
    pub fn new(bytes: [u8; 32]) -> (key: Pubkey)
        ensures
            key.bytes == bytes,
    {
        Pubkey { bytes }
    }
}

/// A poll: who owns it, what it asks, how many credits each voter gets and when it is open.
#[derive(Clone, Debug, PartialEq, Eq)]
pub struct Poll {
    pub authority: Pubkey,
    pub poll_id: u64,
    pub title: String,
    pub description: String,
    pub plus_credits: u8,
    pub minus_credits: u8,
    pub start_ts: i64,
    pub end_ts: i64,
    pub options_count: u16,
    pub ended: bool,
}

/// A poll as a mathematical value.
pub ghost struct PollView {
    pub authority: Pubkey,
    pub poll_id: u64,
    pub title: Seq<char>,
    pub description: Seq<char>,
    pub plus_credits: u8,
    pub minus_credits: u8,
    pub start_ts: i64,
    pub end_ts: i64,
    pub options_count: u16,
    pub ended: bool,
}

impl View for Poll {
    type V = PollView;

    open spec fn view(&self) -> PollView {
        PollView {
            authority: self.authority,
            poll_id: self.poll_id,
            title: self.title@,
            description: self.description@,
            plus_credits: self.plus_credits,
            minus_credits: self.minus_credits,
            start_ts: self.start_ts,
            end_ts: self.end_ts,
            options_count: self.options_count,
            ended: self.ended,
        }
    }
}

impl PollView {
    /// What holds of every poll that was ever created.
    pub open spec fn well_formed(self) -> bool {
        &&& self.poll_id != 0
        &&& self.title.len() <= MAX_TITLE
        &&& self.description.len() <= MAX_DESC
        &&& self.plus_credits > 0
        &&& self.start_ts < self.end_ts
    }

    /// Whether votes are taken at `now`.
    pub open spec fn open_at(self, now: i64) -> bool {
        self.start_ts <= now <= self.end_ts && !self.ended
    }

    /// How many bytes the poll takes when stored.
    pub open spec fn stored_size(self) -> nat {
        8 + 32 + 8 + stored_text(self.title) + stored_text(self.description) + 1 + 1 + 8 + 8 + 2
            + 1
    }
}

/// A poll that keeps the rules fits into `Poll::SPACE`.
pub proof fn lemma_poll_fits(poll: PollView)
    requires
        poll.well_formed(),
    ensures
        poll.stored_size() <= Poll::SPACE,
{
    lemma_stored_text_bound(poll.title);
    lemma_stored_text_bound(poll.description);
}

impl Poll {
    /// Room that a stored poll needs at most: eight bytes that mark the record, then its
    /// fields.
    pub const SPACE: usize = 8 + 32 + 8 + (4 + MAX_CHAR_BYTES * MAX_TITLE) + (4 + MAX_CHAR_BYTES
        * MAX_DESC) + 1 + 1 + 8 + 8 + 2 + 1;

    /// A copy of the poll.
    pub fn duplicate(&self) -> (copy: Poll)
        ensures
            copy == *self,
    {
        Poll {
            authority: self.authority,
            poll_id: self.poll_id,
            title: self.title.clone(),
            description: self.description.clone(),
            plus_credits: self.plus_credits,
            minus_credits: self.minus_credits,
            start_ts: self.start_ts,
            end_ts: self.end_ts,
            options_count: self.options_count,
            ended: self.ended,
        }
    }
}

/// One option of a poll, with its two tallies.
#[derive(Clone, Debug, PartialEq, Eq)]
pub struct OptionNode {
    pub poll: Pubkey,
    pub index: u16,
    pub label: String,
    pub plus_votes: u32,
    pub minus_votes: u32,
}

/// An option as a mathematical value.
pub ghost struct OptionNodeView {
    pub poll: Pubkey,
    pub index: u16,
    pub label: Seq<char>,
    pub plus_votes: u32,
    pub minus_votes: u32,
}

impl View for OptionNode {
    type V = OptionNodeView;

    open spec fn view(&self) -> OptionNodeView {
        OptionNodeView {
            poll: self.poll,
            index: self.index,
            label: self.label@,
            plus_votes: self.plus_votes,
            minus_votes: self.minus_votes,
        }
    }
}

impl OptionNodeView {
    /// How many bytes the option takes when stored.
    pub open spec fn stored_size(self) -> nat {
        8 + 32 + 2 + stored_text(self.label) + 4 + 4
    }
}

/// An option whose label is no longer than a registration allows fits into
/// `OptionNode::SPACE`.
pub proof fn lemma_option_fits(option: OptionNodeView)
    requires
        option.label.len() <= MAX_LABEL,
    ensures
        option.stored_size() <= OptionNode::SPACE,
{
    lemma_stored_text_bound(option.label);
}

impl OptionNode {
    /// Room that a stored option needs at most: eight bytes that mark the record, then
    /// its fields.
    pub const SPACE: usize = 8 + 32 + 2 + (4 + MAX_CHAR_BYTES * MAX_LABEL) + 4 + 4;

    /// A copy of the option.
    pub fn duplicate(&self) -> (copy: OptionNode)
        ensures
            copy == *self,
    {
        OptionNode {
            poll: self.poll,
            index: self.index,
            label: self.label.clone(),
            plus_votes: self.plus_votes,
            minus_votes: self.minus_votes,
        }
    }
}

/// Marks a canonical label as taken in a poll. It is written once and never changed.
#[derive(Clone, Copy, Debug, PartialEq, Eq)]
pub struct LabelGuard {
    pub poll: Pubkey,
    pub label_hash: [u8; 32],
}

impl LabelGuard {
    /// Room that a stored guard needs.
    pub const SPACE: usize = 8 + 32 + 32;
}

/// How many credits of each kind one voter has spent in one poll.
#[derive(Clone, Copy, Debug, PartialEq, Eq)]
pub struct Voter {
    pub poll: Pubkey,
    pub voter: Pubkey,
    pub used_plus: u8,
    pub used_minus: u8,
}

impl Voter {
    /// Room that a stored credit record needs.
    pub const SPACE: usize = 8 + 32 + 32 + 1 + 1;

    /// The voter has spent no more than the poll grants.
    pub open spec fn within_budget(self, poll: PollView) -> bool {
        self.used_plus <= poll.plus_credits && self.used_minus <= poll.minus_credits
    }
}

/// Proof that a voter has voted on an option, and how.
#[derive(Clone, Copy, Debug, PartialEq, Eq)]
pub struct Receipt {
    pub poll: Pubkey,
    pub voter: Pubkey,
    pub option_index: u16,
    pub sentiment: i8,
}

impl Receipt {
    /// Room that a stored receipt needs.
    pub const SPACE: usize = 8 + 32 + 32 + 2 + 1;
}

/// Announces an accepted vote, with the voter's counters as they are after it.
#[derive(Clone, Copy, Debug, PartialEq, Eq)]
pub struct VoteCast {
    pub poll: Pubkey,
    pub voter: Pubkey,
    pub option_index: u16,
    pub sentiment: i8,
    pub used_plus: u8,
    pub used_minus: u8,
}

} // verus!
