use d21_voting::errors::{D21Error, StoreError};
use d21_voting::instructions::initialize_poll::PollConfig;
use d21_voting::label::label_seed;
use d21_voting::states::{LabelGuard, Pubkey, Receipt, VoteCast, Voter};
use d21_voting::store::{derive_poll_address, Store};

fn id(tag: u8) -> Pubkey {
    Pubkey::new([tag; 32])
}

fn budget(plus: u8, minus: u8) -> PollConfig {
    PollConfig {
        poll_id: 1,
        title: String::from("Colours"),
        description: String::from("Pick the colours of the flag"),
        plus_credits: plus,
        minus_credits: minus,
        start_ts: 1_000,
        end_ts: 2_000,
    }
}

const OWNER: u8 = 1;
const ALICE: u8 = 10;
const BOB: u8 = 11;

const POLL_OF_OWNER_1: [u8; 32] = [
    163, 88, 53, 228, 20, 55, 248, 242, 12, 15, 43, 245, 209, 246, 27, 237, 17, 228, 241, 148, 24,
    238, 169, 114, 193, 141, 74, 70, 135, 44, 96, 131,
];

const POLL_OF_OWNER_0102030405060708: [u8; 32] = [
    114, 97, 118, 21, 221, 214, 21, 247, 137, 90, 212, 167, 8, 130, 229, 228, 123, 225, 181, 78,
    98, 68, 214, 212, 223, 170, 248, 79, 11, 60, 75, 217,
];

fn poll() -> Pubkey {
    Pubkey::new(POLL_OF_OWNER_1)
}

fn other_poll() -> Pubkey {
    derive_poll_address(id(OWNER), 3)
}

fn other_budget(plus: u8, minus: u8) -> PollConfig {
    let mut cfg = budget(plus, minus);
    cfg.poll_id = 3;
    cfg
}

fn store_with_options(labels: &[&str]) -> Store {
    let mut store = Store::new();
    assert_eq!(store.initialize_poll(id(OWNER), budget(4, 2), 500), Ok(poll()));
    for (index, label) in labels.iter().enumerate() {
        store
            .add_option(
                poll(),
                id(OWNER),
                index as u16,
                String::from(*label),
                label_seed(label),
                600,
            )
            .unwrap();
    }
    store
}

#[test]
fn empty_store_holds_nothing() {
    let mut store = Store::new();
    assert_eq!(store.poll(poll()), None);
    assert_eq!(store.option(poll(), 0), None);
    assert_eq!(store.voter(poll(), id(ALICE)), None);
    assert_eq!(store.receipt(poll(), 0, id(ALICE)), None);
    assert_eq!(store.label_guard(poll(), [0u8; 32]), None);
    assert_eq!(
        store.add_option(poll(), id(OWNER), 0, String::from("a"), label_seed("a"), 0),
        Err(StoreError::NotFound)
    );
    assert_eq!(store.cast_vote(poll(), id(ALICE), 0, 1, 0), Err(StoreError::NotFound));
}

#[test]
fn poll_address_is_the_digest_of_owner_and_id() {
    assert_eq!(derive_poll_address(id(OWNER), 1), Pubkey::new(POLL_OF_OWNER_1));
    assert_eq!(
        derive_poll_address(id(OWNER), 0x0102030405060708),
        Pubkey::new(POLL_OF_OWNER_0102030405060708)
    );
    assert_ne!(derive_poll_address(id(OWNER), 1), derive_poll_address(id(ALICE), 1));
    assert_ne!(derive_poll_address(id(OWNER), 1), derive_poll_address(id(OWNER), 2));
}

#[test]
fn poll_is_created_once_for_an_owner_and_id() {
    let mut store = Store::new();
    assert_eq!(store.initialize_poll(id(OWNER), budget(4, 2), 1_000), Ok(poll()));
    let created = store.poll(poll()).unwrap();
    assert_eq!(created.authority, id(OWNER));
    assert_eq!(created.poll_id, 1);
    assert_eq!(created.title, "Colours");
    assert_eq!((created.plus_credits, created.minus_credits), (4, 2));
    assert_eq!((created.start_ts, created.end_ts), (1_000, 2_000));
    assert_eq!((created.options_count, created.ended), (0, false));

    assert_eq!(
        store.initialize_poll(id(OWNER), budget(9, 9), 0),
        Err(StoreError::AlreadyExists)
    );
    assert_eq!(
        store.initialize_poll(id(OWNER), budget(0, 0), 0),
        Err(StoreError::AlreadyExists)
    );
    assert_eq!(store.poll(poll()), Some(created));
    assert_eq!(
        store.initialize_poll(id(OWNER), other_budget(4, 2), 1_001),
        Err(StoreError::Refused(D21Error::InvalidTimeWindow))
    );
    assert_eq!(store.poll(other_poll()), None);
    assert_eq!(store.initialize_poll(id(OWNER), other_budget(1, 0), 0), Ok(other_poll()));
    assert_eq!(store.poll(other_poll()).unwrap().plus_credits, 1);
    assert_eq!(store.poll(poll()).unwrap().plus_credits, 4);
    let same_id_other_owner = store.initialize_poll(id(ALICE), budget(2, 0), 0).unwrap();
    assert_ne!(same_id_other_owner, poll());
    assert_eq!(store.poll(same_id_other_owner).unwrap().authority, id(ALICE));
}

#[test]
fn options_are_kept_under_poll_and_index() {
    let mut store = store_with_options(&[]);
    let added = store
        .add_option(poll(), id(OWNER), 7, String::from(" Red "), label_seed("Red"), 999)
        .unwrap();
    assert_eq!((added.poll, added.index, added.label.as_str()), (poll(), 7, " Red "));
    let red = store.option(poll(), 7).unwrap();
    assert_eq!((red.poll, red.index, red.label.as_str()), (poll(), 7, "Red"));
    assert_eq!((red.plus_votes, red.minus_votes), (0, 0));
    assert_eq!(store.poll(poll()).unwrap().options_count, 8);
    assert_eq!(
        store.label_guard(poll(), label_seed("red")),
        Some(LabelGuard { poll: poll(), label_hash: label_seed("red") })
    );
    assert_eq!(store.label_guard(other_poll(), label_seed("red")), None);

    assert_eq!(
        store.add_option(poll(), id(OWNER), 7, String::from("Blue"), label_seed("Blue"), 999),
        Err(StoreError::AlreadyExists)
    );
    assert_eq!(
        store.add_option(poll(), id(ALICE), 8, String::from("Blue"), label_seed("Blue"), 999),
        Err(StoreError::Refused(D21Error::Unauthorized))
    );
    assert_eq!(
        store.add_option(poll(), id(OWNER), 2, String::from("Blue"), label_seed("Blue"), 999),
        Ok(d21_voting::instructions::add_option::OptionAdded {
            poll: poll(),
            index: 2,
            label: String::from("Blue")
        })
    );
    assert_eq!(store.poll(poll()).unwrap().options_count, 8);
    assert_eq!(store.option(poll(), 2).unwrap().label, "Blue");
    assert_eq!(store.option(poll(), 7), Some(red));
}

#[test]
fn labels_with_one_canonical_form_collide_in_either_order() {
    for (first, second) in [("Red", " red "), (" red ", "Red"), ("RED\n", "\tred")] {
        let mut store = store_with_options(&[]);
        assert!(store
            .add_option(poll(), id(OWNER), 0, String::from(first), label_seed(first), 0)
            .is_ok());
        assert!(store
            .add_option(poll(), id(OWNER), 5, String::from("Green"), label_seed("Green"), 0)
            .is_ok());
        assert_eq!(
            store.add_option(poll(), id(OWNER), 1, String::from(second), label_seed(second), 0),
            Err(StoreError::Refused(D21Error::LabelAlreadyUsed))
        );
        assert_eq!(store.option(poll(), 1), None);
        assert_eq!(store.poll(poll()).unwrap().options_count, 6);
    }
}

#[test]
fn same_label_is_free_in_another_poll() {
    let mut store = store_with_options(&["Red"]);
    store.initialize_poll(id(OWNER), other_budget(1, 1), 0).unwrap();
    assert!(store
        .add_option(other_poll(), id(OWNER), 0, String::from("red"), label_seed("red"), 0)
        .is_ok());
}

#[test]
fn wrong_commitment_comes_before_the_duplicate() {
    let mut store = store_with_options(&["Option A"]);
    assert_eq!(
        store.add_option(
            poll(),
            id(OWNER),
            1,
            String::from("Option A"),
            label_seed("Option B"),
            0
        ),
        Err(StoreError::Refused(D21Error::LabelSeedMismatch))
    );
    assert_eq!(
        store.add_option(
            poll(),
            id(OWNER),
            1,
            String::from("Option A"),
            label_seed("Option A"),
            0
        ),
        Err(StoreError::Refused(D21Error::LabelAlreadyUsed))
    );
}

#[test]
fn no_option_once_voting_can_begin() {
    let mut store = store_with_options(&["Red"]);
    for now in [1_000, 1_001, 2_000, 2_001, i64::MAX] {
        assert_eq!(
            store.add_option(poll(), id(OWNER), 1, String::from("Blue"), label_seed("Blue"), now),
            Err(StoreError::Refused(D21Error::VotingStarted))
        );
    }
    assert_eq!(store.option(poll(), 1), None);
    assert_eq!(store.poll(poll()).unwrap().options_count, 1);
}

#[test]
fn four_plus_two_minus_scenario() {
    let mut store = store_with_options(&["a", "b", "c", "d", "e", "f"]);
    assert_eq!(
        store.cast_vote(poll(), id(ALICE), 0, 1, 1_000),
        Ok(VoteCast {
            poll: poll(),
            voter: id(ALICE),
            option_index: 0,
            sentiment: 1,
            used_plus: 1,
            used_minus: 0
        })
    );
    assert_eq!(
        store.cast_vote(poll(), id(ALICE), 3, -1, 1_000),
        Err(StoreError::Refused(D21Error::InsufficientPositivesForNegative))
    );
    assert!(store.cast_vote(poll(), id(ALICE), 1, 1, 1_100).is_ok());
    assert!(store.cast_vote(poll(), id(ALICE), 2, 1, 1_200).is_ok());
    let cast = store.cast_vote(poll(), id(ALICE), 3, -1, 1_300).unwrap();
    assert_eq!((cast.used_plus, cast.used_minus), (3, 1));
    assert_eq!(
        store.cast_vote(poll(), id(ALICE), 4, -1, 1_400),
        Err(StoreError::Refused(D21Error::InsufficientPositivesForNegative))
    );
    assert!(store.cast_vote(poll(), id(ALICE), 4, 1, 1_500).is_ok());
    assert_eq!(
        store.cast_vote(poll(), id(ALICE), 5, 1, 1_600),
        Err(StoreError::Refused(D21Error::OutOfPositiveCredits))
    );
    let cast = store.cast_vote(poll(), id(ALICE), 5, -1, 2_000).unwrap();
    assert_eq!((cast.used_plus, cast.used_minus), (4, 2));

    assert_eq!(
        store.voter(poll(), id(ALICE)),
        Some(Voter { poll: poll(), voter: id(ALICE), used_plus: 4, used_minus: 2 })
    );
    let tallies: Vec<(u32, u32)> = (0..6)
        .map(|i| {
            let option = store.option(poll(), i).unwrap();
            (option.plus_votes, option.minus_votes)
        })
        .collect();
    assert_eq!(tallies, vec![(1, 0), (1, 0), (1, 0), (0, 1), (1, 0), (0, 1)]);
    assert_eq!(
        store.receipt(poll(), 3, id(ALICE)),
        Some(Receipt { poll: poll(), voter: id(ALICE), option_index: 3, sentiment: -1 })
    );
}

#[test]
fn one_receipt_per_voter_and_option() {
    let mut store = store_with_options(&["a", "b"]);
    assert!(store.cast_vote(poll(), id(ALICE), 0, 1, 1_500).is_ok());
    assert!(store.cast_vote(poll(), id(BOB), 0, 1, 1_500).is_ok());
    assert!(store.cast_vote(poll(), id(ALICE), 1, 1, 1_500).is_ok());
    for sentiment in [1, -1] {
        assert_eq!(
            store.cast_vote(poll(), id(ALICE), 0, sentiment, 1_600),
            Err(StoreError::Refused(D21Error::AlreadyVotedThisOption))
        );
    }
    assert_eq!(
        store.cast_vote(poll(), id(ALICE), 0, 1, 2_001),
        Err(StoreError::Refused(D21Error::VotingClosed))
    );
    assert_eq!(
        store.cast_vote(poll(), id(ALICE), 0, 3, 1_600),
        Err(StoreError::Refused(D21Error::InvalidSentiment))
    );
    let first = store.option(poll(), 0).unwrap();
    assert_eq!((first.plus_votes, first.minus_votes), (2, 0));
    assert_eq!(store.option(poll(), 1).unwrap().plus_votes, 1);
    assert_eq!(store.voter(poll(), id(ALICE)).unwrap().used_plus, 2);
    assert_eq!(store.voter(poll(), id(BOB)).unwrap().used_plus, 1);
    assert_eq!(
        store.receipt(poll(), 0, id(ALICE)),
        Some(Receipt { poll: poll(), voter: id(ALICE), option_index: 0, sentiment: 1 })
    );
    assert_eq!(store.receipt(poll(), 1, id(BOB)), None);
}

#[test]
fn tallies_count_the_receipts() {
    let mut store = Store::new();
    store.initialize_poll(id(OWNER), budget(3, 1), 0).unwrap();
    for (index, label) in ["a", "b", "c", "d"].iter().enumerate() {
        store
            .add_option(poll(), id(OWNER), index as u16, String::from(*label), label_seed(label), 0)
            .unwrap();
    }
    let mut accepted = 0u32;
    for voter in 20..30u8 {
        for index in 0..4u16 {
            let sentiment = if (voter as u16 + index) % 3 == 0 { -1 } else { 1 };
            if store.cast_vote(poll(), id(voter), index, sentiment, 1_500).is_ok() {
                accepted += 1;
            }
        }
    }
    let mut plus = 0u32;
    let mut minus = 0u32;
    for index in 0..4u16 {
        let option = store.option(poll(), index).unwrap();
        let mut holders = (0u32, 0u32);
        for voter in 20..30u8 {
            match store.receipt(poll(), index, id(voter)) {
                Some(r) if r.sentiment == 1 => holders.0 += 1,
                Some(_) => holders.1 += 1,
                None => {}
            }
        }
        assert_eq!((option.plus_votes, option.minus_votes), holders);
        plus += option.plus_votes;
        minus += option.minus_votes;
    }
    assert_eq!(plus + minus, accepted);
    let mut spent = (0u32, 0u32);
    for voter in 20..30u8 {
        let credits = store.voter(poll(), id(voter)).unwrap();
        assert!(credits.used_plus <= 3 && credits.used_minus <= 1);
        assert!(credits.used_plus >= 2 * credits.used_minus);
        spent.0 += credits.used_plus as u32;
        spent.1 += credits.used_minus as u32;
    }
    assert_eq!(spent, (plus, minus));
}

#[test]
fn votes_wait_for_the_start() {
    let mut store = store_with_options(&["a"]);
    assert_eq!(
        store.cast_vote(poll(), id(ALICE), 0, 1, 999),
        Err(StoreError::Refused(D21Error::VotingNotStarted))
    );
    assert_eq!(store.voter(poll(), id(ALICE)), None);
    assert_eq!(store.receipt(poll(), 0, id(ALICE)), None);
    assert!(store.cast_vote(poll(), id(ALICE), 0, 1, 1_000).is_ok());
}

#[test]
fn largest_budget_cannot_overflow_a_counter() {
    let mut store = Store::new();
    store.initialize_poll(id(OWNER), budget(255, 255), 0).unwrap();
    for index in 0..400u16 {
        let label = format!("option {}", index);
        store
            .add_option(poll(), id(OWNER), index, label.clone(), label_seed(&label), 0)
            .unwrap();
    }
    for index in 0..255u16 {
        let cast = store.cast_vote(poll(), id(ALICE), index, 1, 1_000).unwrap();
        assert_eq!(cast.used_plus as u16, index + 1);
    }
    assert_eq!(
        store.cast_vote(poll(), id(ALICE), 255, 1, 1_000),
        Err(StoreError::Refused(D21Error::OutOfPositiveCredits))
    );
    for index in 0..127u16 {
        let cast = store.cast_vote(poll(), id(ALICE), 255 + index, -1, 1_000).unwrap();
        assert_eq!(cast.used_minus as u16, index + 1);
    }
    assert_eq!(
        store.cast_vote(poll(), id(ALICE), 390, -1, 1_000),
        Err(StoreError::Refused(D21Error::InsufficientPositivesForNegative))
    );
    assert_eq!(
        store.voter(poll(), id(ALICE)),
        Some(Voter { poll: poll(), voter: id(ALICE), used_plus: 255, used_minus: 127 })
    );
    assert_eq!(store.poll(poll()).unwrap().options_count, 400);
}
