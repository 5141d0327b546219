//! Committees as plain data.

use iota_lite_poc::bytes::{copy_bytes, same_bytes, same_digest, same_optional_digest};
use iota_lite_poc::committee::{name_from_bytes, Committee};

fn name(first: u8, last: u8) -> [u8; 96] {
    let mut name = [0u8; 96];
    name[0] = first;
    name[95] = last;
    name
}

#[test]
fn members_are_ordered_by_name() {
    let committee = Committee::new(
        7,
        &vec![
            (name(2, 0), 1),
            (name(1, 255), 2),
            (name(2, 1), 3),
            (name(1, 3), 4),
        ],
    );
    assert_eq!(committee.epoch(), 7);
    assert_eq!(
        *committee.voting_rights(),
        vec![
            (name(1, 3), 4),
            (name(1, 255), 2),
            (name(2, 0), 1),
            (name(2, 1), 3)
        ]
    );
}

#[test]
fn last_entry_of_a_member_counts() {
    let committee = Committee::new(
        0,
        &vec![(name(1, 1), 5), (name(2, 2), 6), (name(1, 1), 7)],
    );
    assert_eq!(
        *committee.voting_rights(),
        vec![(name(1, 1), 7), (name(2, 2), 6)]
    );
    assert_eq!(committee.total_votes(), 13);
}

#[test]
fn order_of_the_entries_does_not_matter() {
    let one = Committee::new(3, &vec![(name(1, 1), 5), (name(2, 2), 6)]);
    let other = Committee::new(3, &vec![(name(2, 2), 6), (name(1, 1), 5)]);
    assert!(one.same(&other));
    assert_eq!(one, other);
    assert!(one.same(&one.clone()));
    assert!(!one.same(&Committee::new(4, &vec![(name(1, 1), 5), (name(2, 2), 6)])));
    assert!(!one.same(&Committee::new(3, &vec![(name(1, 1), 5), (name(2, 2), 7)])));
    assert!(!one.same(&Committee::new(3, &vec![(name(1, 1), 5), (name(2, 3), 6)])));
    assert!(!one.same(&Committee::new(3, &vec![(name(1, 1), 5)])));
}

#[test]
fn stakes_add_up_beyond_one_unit() {
    let committee = Committee::new(0, &vec![(name(1, 1), u64::MAX), (name(2, 2), u64::MAX)]);
    assert_eq!(committee.total_votes(), 2 * (u64::MAX as u128));
    assert_eq!(Committee::new(0, &vec![]).total_votes(), 0);
}

#[test]
fn names_have_one_length() {
    assert_eq!(name_from_bytes(&vec![5; 96]), Some([5; 96]));
    assert_eq!(name_from_bytes(&vec![5; 95]), None);
    assert_eq!(name_from_bytes(&vec![]), None);
}

#[test]
fn bytes_are_compared() {
    assert!(same_bytes(&[1, 2, 3], &[1, 2, 3]));
    assert!(!same_bytes(&[1, 2, 3], &[1, 2]));
    assert!(!same_bytes(&[1, 2, 3], &[1, 2, 4]));
    assert!(same_digest(&[1; 32], &[1; 32]));
    assert!(!same_digest(&[1; 32], &[2; 32]));
    assert!(same_optional_digest(&None, &None));
    assert!(same_optional_digest(&Some([1; 32]), &Some([1; 32])));
    assert!(!same_optional_digest(&Some([1; 32]), &Some([2; 32])));
    assert!(!same_optional_digest(&Some([1; 32]), &None));
    assert_eq!(copy_bytes(&vec![1, 2]), vec![1, 2]);
}
