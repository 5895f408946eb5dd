use fabrica::Sequence;

#[test]
fn next_produces_a_value() {
    let mut emails = Sequence::new(|n| format!("user{n}@example.com"));

    assert_eq!(emails.next(), "user1@example.com");
    assert_eq!(emails.next(), "user2@example.com");
    assert_eq!(emails.next(), "user3@example.com");
    assert_eq!(emails.next(), "user4@example.com");
}

#[test]
fn take_produces_multiple_values() {
    let mut usernames = Sequence::new(|n| format!("jsmith{n}"));

    assert_eq!(usernames.take(3), vec!["jsmith1", "jsmith2", "jsmith3"]);
    assert_eq!(usernames.take(2), vec!["jsmith4", "jsmith5"]);
}

#[test]
fn take_zero_produces_no_values() {
    let mut numbers = Sequence::new(|n| n * 10);

    assert_eq!(numbers.take(0), Vec::<usize>::new());
    assert_eq!(numbers.next(), 10);
}

#[test]
fn counters_are_owned_per_sequence() {
    let mut first = Sequence::new(|n| n);
    let mut second = Sequence::new(|n| n);

    assert_eq!(first.next(), 1);
    assert_eq!(first.next(), 2);
    assert_eq!(second.next(), 1);
}
