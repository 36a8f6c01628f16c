use d21_voting::errors::D21Error;
use d21_voting::instructions::add_option::{register, AddOption};
use d21_voting::instructions::{add_option, cast_vote, initialize_poll};
use d21_voting::instructions::cast_vote::CastVote;
use d21_voting::instructions::initialize_poll::{InitializePoll, PollConfig};
use d21_voting::label::seed_of_trimmed;
use d21_voting::states::{
    char_len, same_bytes, LabelGuard, OptionNode, Poll, Pubkey, Receipt, Voter, MAX_CHAR_BYTES,
    MAX_DESC, MAX_LABEL, MAX_TITLE,
};

fn address(tag: u8) -> Pubkey {
    Pubkey::new([tag; 32])
}

fn lunch_poll() -> Poll {
    Poll {
        authority: address(1),
        poll_id: 42,
        title: String::from("Lunch"),
        description: String::new(),
        plus_credits: 2,
        minus_credits: 1,
        start_ts: 100,
        end_ts: 200,
        options_count: 0,
        ended: false,
    }
}

fn empty_option() -> OptionNode {
    OptionNode { poll: address(0), index: 0, label: String::new(), plus_votes: 0, minus_votes: 0 }
}

const SHA256_ABC: [u8; 32] = [
    186, 120, 22, 191, 143, 1, 207, 234, 65, 65, 64, 222, 93, 174, 34, 35, 176, 3, 97, 163, 150,
    23, 122, 156, 180, 16, 255, 97, 242, 0, 21, 173,
];

#[test]
fn limits_and_record_sizes() {
    assert_eq!(MAX_TITLE, 64);
    assert_eq!(MAX_DESC, 256);
    assert_eq!(MAX_LABEL, 64);
    assert_eq!(MAX_CHAR_BYTES, 4);
    assert_eq!(Poll::SPACE, 8 + 32 + 8 + (4 + 256) + (4 + 1024) + 1 + 1 + 8 + 8 + 2 + 1);
    assert_eq!(OptionNode::SPACE, 8 + 32 + 2 + (4 + 256) + 4 + 4);
    assert_eq!(LabelGuard::SPACE, 72);
    assert_eq!(Voter::SPACE, 74);
    assert_eq!(Receipt::SPACE, 75);
}

#[test]
fn keys_compare_by_their_bytes() {
    let mut bytes = [7u8; 32];
    assert_eq!(Pubkey::new(bytes), address(7));
    bytes[31] = 8;
    assert_ne!(Pubkey::new(bytes), address(7));
    assert!(same_bytes(&[3u8; 32], &[3u8; 32]));
    assert!(!same_bytes(&bytes, &[7u8; 32]));
    bytes[31] = 7;
    bytes[0] = 0;
    assert!(!same_bytes(&bytes, &[7u8; 32]));
}

#[test]
fn length_is_in_characters() {
    assert_eq!(char_len(""), 0);
    assert_eq!(char_len("abc"), 3);
    assert_eq!(char_len("été"), 3);
    assert_eq!(char_len("日本"), 2);
    assert_eq!(char_len("\u{10348}"), 1);
    assert_eq!("\u{10348}".len(), MAX_CHAR_BYTES);
}

#[test]
fn seed_is_taken_over_lower_case() {
    assert_eq!(seed_of_trimmed("abc"), SHA256_ABC);
    assert_eq!(seed_of_trimmed("AbC"), SHA256_ABC);
    assert_ne!(seed_of_trimmed(" abc"), SHA256_ABC);
}

#[test]
fn error_messages() {
    assert_eq!(D21Error::VotingNotStarted.message(), "Voting has not started");
    assert_eq!(D21Error::VotingClosed.message(), "Voting is closed");
    assert_eq!(D21Error::AlreadyVotedThisOption.message(), "Already voted on this option");
    assert_eq!(
        D21Error::InsufficientPositivesForNegative.message(),
        "Not enough positive votes to cast a negative vote (need P ≥ 2·(M+1))"
    );
    assert_eq!(D21Error::LabelSeedMismatch.message(), "Label seed/hash mismatch");
    assert_eq!(D21Error::PollMismatch.message(), "Option dont't belong to this poll");
    assert_eq!(D21Error::MinusCreditIsZero.message(), "Minus Credit is zero");
    assert_eq!(D21Error::PollIdMismatch.message(), "Poll ID is mismatched");
}

#[test]
fn from_config_starts_a_poll_without_options() {
    let cfg = PollConfig {
        poll_id: 9,
        title: String::from("T"),
        description: String::from("D"),
        plus_credits: 3,
        minus_credits: 1,
        start_ts: -5,
        end_ts: 5,
    };
    let poll = Poll::from_config(cfg, address(4));
    assert_eq!(
        poll,
        Poll {
            authority: address(4),
            poll_id: 9,
            title: String::from("T"),
            description: String::from("D"),
            plus_credits: 3,
            minus_credits: 1,
            start_ts: -5,
            end_ts: 5,
            options_count: 0,
            ended: false,
        }
    );
}

#[test]
fn handlers_behave_as_the_entry_points() {
    let mut ctx = InitializePoll { authority: address(1), poll: lunch_poll(), now: 0 };
    let cfg = PollConfig {
        poll_id: 0,
        title: String::new(),
        description: String::new(),
        plus_credits: 1,
        minus_credits: 0,
        start_ts: 1,
        end_ts: 2,
    };
    assert_eq!(initialize_poll::handler(&mut ctx, cfg), Err(D21Error::InvalidPollId));
    assert_eq!(ctx.poll, lunch_poll());

    let mut ctx = AddOption {
        authority: address(1),
        poll_key: address(2),
        poll: lunch_poll(),
        label_guard: None,
        option_node: empty_option(),
        now: 99,
    };
    let added = add_option::handler(&mut ctx, 0, String::from("ABC"), SHA256_ABC).unwrap();
    assert_eq!(added.label, "ABC");
    assert_eq!(ctx.option_node.label, "ABC");
    assert_eq!(ctx.poll.options_count, 1);

    let mut ctx = CastVote {
        voter_authority: address(5),
        poll_key: address(2),
        poll: lunch_poll(),
        option_node: ctx.option_node.clone(),
        voter: None,
        receipt: None,
        now: 100,
    };
    let cast = cast_vote::handler(&mut ctx, 0, 1).unwrap();
    assert_eq!((cast.used_plus, cast.used_minus, cast.sentiment), (1, 0, 1));
    assert_eq!(ctx.option_node.plus_votes, 1);
}

#[test]
fn register_compares_the_two_commitments() {
    let mut ctx = AddOption {
        authority: address(1),
        poll_key: address(2),
        poll: lunch_poll(),
        label_guard: None,
        option_node: empty_option(),
        now: 0,
    };
    let before = ctx.clone();
    assert_eq!(
        register(&mut ctx, 1, String::from(" x "), String::from("x"), [1u8; 32], [2u8; 32]),
        Err(D21Error::LabelSeedMismatch)
    );
    assert_eq!(ctx, before);
    let added =
        register(&mut ctx, 1, String::from(" x "), String::from("x"), [1u8; 32], [1u8; 32])
            .unwrap();
    assert_eq!(added.label, " x ");
    assert_eq!(added.index, 1);
    assert_eq!(added.poll, address(2));
    assert_eq!(ctx.option_node.label, "x");
    assert_eq!(ctx.option_node.poll, address(2));
    assert_eq!(ctx.label_guard, Some(LabelGuard { poll: address(2), label_hash: [1u8; 32] }));
    assert_eq!(ctx.poll.options_count, 2);
    assert_eq!(ctx.poll.title, "Lunch");
    assert_eq!(
        register(&mut ctx, 2, String::from("y"), String::from("y"), [1u8; 32], [1u8; 32]),
        Err(D21Error::LabelAlreadyUsed)
    );
}

#[test]
fn budget_is_never_exceeded() {
    let poll = lunch_poll();
    let mut voter: Option<Voter> = None;
    let mut accepted = 0;
    for index in 0..10u16 {
        for sentiment in [-1i8, 1] {
            let mut ctx = CastVote {
                voter_authority: address(5),
                poll_key: address(2),
                poll: poll.clone(),
                option_node: OptionNode {
                    poll: address(2),
                    index: 2 * index + (sentiment == 1) as u16,
                    label: String::from("o"),
                    plus_votes: 0,
                    minus_votes: 0,
                },
                voter,
                receipt: None,
                now: 150,
            };
            let slot = ctx.option_node.index;
            if cast_vote::handler(&mut ctx, slot, sentiment).is_ok() {
                accepted += 1;
            }
            voter = ctx.voter;
            if let Some(v) = voter {
                assert!(v.used_plus <= poll.plus_credits);
                assert!(v.used_minus <= poll.minus_credits);
                assert!(v.used_plus >= 2 * v.used_minus);
            }
        }
    }
    assert_eq!(accepted, 3);
    assert_eq!(voter, Some(Voter { poll: address(2), voter: address(5), used_plus: 2, used_minus: 1 }));
}

#[test]
fn receipt_of_either_sentiment_blocks_the_option() {
    let mut ctx = CastVote {
        voter_authority: address(5),
        poll_key: address(2),
        poll: lunch_poll(),
        option_node: OptionNode {
            poll: address(2),
            index: 3,
            label: String::from("o"),
            plus_votes: 4,
            minus_votes: 4,
        },
        voter: Some(Voter { poll: address(2), voter: address(5), used_plus: 0, used_minus: 0 }),
        receipt: Some(Receipt { poll: address(2), voter: address(5), option_index: 3, sentiment: -1 }),
        now: 150,
    };
    let before = ctx.clone();
    assert_eq!(cast_vote::handler(&mut ctx, 3, 1), Err(D21Error::AlreadyVotedThisOption));
    assert_eq!(ctx, before);
}
