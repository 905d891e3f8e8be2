use capnp_study::counter::{count_while_exists, RUN_FAST_LIMIT};
use capnp_study::{BoolBoxImpl, CounterImpl, NaiveCounterImpl};

#[test]
fn bool_box_holds_its_value() {
    assert!(BoolBoxImpl::new(true).get_raw());
    assert!(!BoolBoxImpl::new(false).get_raw());
}

#[test]
fn counter_answers_yes_up_to_its_limit() {
    let mut counter = CounterImpl::new(3);
    let mut answers = Vec::new();
    for _ in 0..6 {
        answers.push(counter.next().get_raw());
    }
    assert_eq!(answers, vec![true, true, true, false, false, false]);
    assert_eq!(counter.get_count(), 6);
}

#[test]
fn counter_with_limit_zero_always_says_no() {
    let mut counter = CounterImpl::new(0);
    assert!(!counter.next().get_raw());
    assert!(!counter.next().get_raw());
    assert_eq!(counter.get_count(), 2);
}

#[test]
fn naive_counter_answers_yes_up_to_its_limit() {
    let mut counter = NaiveCounterImpl::new(2);
    assert_eq!(counter.get_count(), 0);
    assert!(counter.next());
    assert!(counter.next());
    assert!(!counter.next());
    assert_eq!(counter.get_count(), 3);
}

#[test]
fn fresh_counter_says_yes_limit_times() {
    // min(k, limit) "yes" answers among the first k calls
    for limit in 0..5u16 {
        let mut counter = CounterImpl::new(limit);
        let yes = (0..8).filter(|_| counter.next().get_raw()).count();
        assert_eq!(yes, limit as usize);
    }
}

#[test]
fn counting_until_no_reads_every_count() {
    let mut counter = CounterImpl::new(20);
    let reads = count_while_exists(&mut counter);
    assert_eq!(reads, (1..=20).collect::<Vec<u16>>());
    assert_eq!(counter.get_count(), 21);
}

#[test]
fn counting_from_midway_reads_the_rest() {
    let mut counter = CounterImpl::new(5);
    assert!(counter.next().get_raw());
    assert!(counter.next().get_raw());
    assert_eq!(count_while_exists(&mut counter), vec![3, 4, 5]);
    assert_eq!(counter.get_count(), 6);
}

#[test]
fn counting_a_spent_counter_reads_nothing() {
    let mut counter = CounterImpl::new(1);
    assert!(counter.next().get_raw());
    assert_eq!(count_while_exists(&mut counter), Vec::<u16>::new());
    assert_eq!(counter.get_count(), 2);
    let mut zero = CounterImpl::new(0);
    assert_eq!(count_while_exists(&mut zero), Vec::<u16>::new());
    assert_eq!(zero.get_count(), 1);
}

#[test]
fn counting_up_to_the_largest_limit_that_fits() {
    let mut counter = CounterImpl::new(u16::MAX - 1);
    let reads = count_while_exists(&mut counter);
    assert_eq!(reads.len(), (u16::MAX - 1) as usize);
    assert_eq!(reads.first(), Some(&1));
    assert_eq!(reads.last(), Some(&(u16::MAX - 1)));
    assert_eq!(counter.get_count(), u16::MAX);
}

#[test]
fn run_fast_reads_one_to_twenty() {
    let counter = CounterImpl::new(3);
    let counts = counter.run_fast();
    assert_eq!(counts, (1..=20).collect::<Vec<u16>>());
    assert_eq!(counts.last(), Some(&20));
    assert_eq!(RUN_FAST_LIMIT, 20);
    assert_eq!(counter.get_count(), 0);
}
