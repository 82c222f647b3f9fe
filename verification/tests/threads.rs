use std::collections::VecDeque;

use pointers_threads::nums::MyNums;
use pointers_threads::threads::lib_th_a::push_value;
use pointers_threads::threads::lib_th_b::average_of;
use pointers_threads::threads::lib_th_c::{
    add_ones, add_range, collect_recorded, consume, consumer_step, drain_in_order, lock_add_hundred,
    lock_increment, lock_increment_u8, section_of, ConsumerStep, Section,
};

#[test]
fn push_value_appends() {
    assert_eq!(push_value(vec![1, 2, 3, 4, 5], 42), vec![1, 2, 3, 4, 5, 42]);
    assert_eq!(push_value(vec![1, 2, 3, 4, 5], 10), vec![1, 2, 3, 4, 5, 10]);
    let mut v2: Vec<char> = ('a'..'z').collect();
    v2 = push_value(v2, 'z');
    assert_eq!(v2, ('a'..='z').collect::<Vec<char>>());
}

#[test]
fn average_of_one_to_ten() {
    let v: Vec<i32> = (1..=10).collect();
    assert_eq!(average_of(&v), 5usize);
    let v: Vec<u16> = (1..=10).collect();
    assert_eq!(average_of(&v), 5usize);
}

#[test]
fn average_of_negative_sum_is_zero() {
    assert_eq!(average_of(&[-3i8, 1, 1]), 0);
    assert_eq!(average_of(&[7u8]), 7);
}

#[test]
fn mynums_conversions() {
    assert_eq!((-1i8).as_usize(), 0);
    assert_eq!((-5i32).as_isize(), -5);
    assert_eq!(300u16.as_usize(), 300);
    assert_eq!(u64::MAX.as_isize(), 0);
    assert_eq!((usize::MAX).as_isize(), 0);
    assert_eq!((i64::MIN).as_usize(), 0);
    assert_eq!(u8::zero(), 0);
    assert_eq!(250u8.add_num(5), 255);
    assert_eq!((-100i8).add_num(-28), -128);
}

#[test]
fn lock_attempt_total_small_value() {
    let mut guard: u16 = 5;
    for _ in 0..40 {
        lock_increment(&mut guard);
    }
    lock_add_hundred(&mut guard);
    for _ in 0..60 {
        lock_increment(&mut guard);
    }
    assert_eq!(guard, 205);
}

#[test]
fn lock_attempt_total_saturates() {
    let mut guard: u16 = 65500;
    for _ in 0..40 {
        lock_increment(&mut guard);
    }
    lock_add_hundred(&mut guard);
    for _ in 0..60 {
        lock_increment(&mut guard);
    }
    assert_eq!(guard, u16::MAX);
}

#[test]
fn lock_increments_commute_with_hundred() {
    let mut a: u16 = 65400;
    lock_add_hundred(&mut a);
    lock_increment(&mut a);
    let mut b: u16 = 65400;
    lock_increment(&mut b);
    lock_add_hundred(&mut b);
    assert_eq!(a, b);
    assert_eq!(a, 65501);
}

#[test]
fn lock_increment_u8_reaches_105() {
    let mut guard: u8 = 5;
    for _ in 1..=100u8 {
        lock_increment_u8(&mut guard);
    }
    assert_eq!(guard, 105);
    let mut full: u8 = 200;
    for _ in 1..=100u8 {
        lock_increment_u8(&mut full);
    }
    assert_eq!(full, 255);
}

#[test]
fn drain_in_order_hundred() {
    let val = drain_in_order(100).unwrap();
    assert_eq!(
        val.iter().map(|v| *v as u16).sum::<u16>(),
        (1..=100u16).sum::<u16>()
    );
    assert_eq!(val, (1..=100u8).rev().collect::<Vec<u8>>());
}

#[test]
fn drain_in_order_edges() {
    assert_eq!(drain_in_order(0), Some(vec![]));
    assert_eq!(drain_in_order(1), Some(vec![1]));
    assert_eq!(drain_in_order(255).unwrap().len(), 255);
}

#[test]
fn consumer_steps() {
    assert_eq!(consumer_step(Some(Some(4))), ConsumerStep::Record(4));
    assert_eq!(consumer_step(Some(None)), ConsumerStep::Stop);
    assert_eq!(consumer_step(None), ConsumerStep::Park);
}

#[test]
fn collect_recorded_keeps_order() {
    let v: VecDeque<Option<u8>> = VecDeque::from(vec![Some(3), Some(2), Some(1)]);
    assert_eq!(collect_recorded(&v), vec![3, 2, 1]);
    assert_eq!(collect_recorded(&VecDeque::new()), Vec::<u8>::new());
}

#[test]
fn add_range_sums() {
    let mut guard: u64 = 33;
    add_range(&mut guard, 1000);
    assert_eq!(guard, 33 + (1..=1000).sum::<u64>());
    add_range(&mut guard, 1_000_000);
    add_range(&mut guard, 1_000_000);
    assert_eq!(
        guard,
        33 + (1..=1000).sum::<u64>() + ((1..=1_000_000).sum::<u64>() * 2)
    );
    let mut zero: u64 = 0;
    add_range(&mut zero, 0);
    assert_eq!(zero, 0);
}

#[test]
fn sections_by_name() {
    assert_eq!(section_of("display"), Some(Section::Display));
    assert_eq!(section_of("move"), Some(Section::Move));
    assert_eq!(section_of("loop"), Some(Section::Loop));
    assert_eq!(section_of("loop -1"), None);
    assert_eq!(section_of(""), None);
    assert_eq!(section_of("Display"), None);
}

#[test]
fn mynums_checked_add() {
    assert_eq!(250u8.checked_add_num(5), Some(255));
    assert_eq!(250u8.checked_add_num(6), None);
    assert_eq!((-100i8).checked_add_num(-29), None);
    assert_eq!((-100i8).checked_add_num(100), Some(0));
}

#[test]
fn some_try_lock_increments_stay_bounded() {
    let mut guard: u8 = 5;
    for _ in 0..37 {
        lock_increment_u8(&mut guard);
    }
    assert_eq!(guard, 42);
    assert!(5 <= guard && guard <= 105);
}

#[test]
fn consume_records_stops_and_parks() {
    let mut queue: VecDeque<Option<u8>> = VecDeque::new();
    let mut recorded: VecDeque<Option<u8>> = VecDeque::new();
    assert_eq!(consume(&mut queue, &mut recorded), ConsumerStep::Park);
    assert!(queue.is_empty() && recorded.is_empty());
    queue.push_front(Some(1));
    queue.push_front(Some(2));
    queue.push_front(None);
    assert_eq!(consume(&mut queue, &mut recorded), ConsumerStep::Record(1));
    assert_eq!(consume(&mut queue, &mut recorded), ConsumerStep::Record(2));
    assert_eq!(recorded, VecDeque::from(vec![Some(2), Some(1)]));
    assert_eq!(consume(&mut queue, &mut recorded), ConsumerStep::Stop);
    assert!(queue.is_empty());
    assert_eq!(collect_recorded(&recorded), vec![2, 1]);
}

#[test]
fn add_ones_adds_each_time() {
    let mut g: u64 = 1;
    add_ones(&mut g, 1000);
    assert_eq!(g, 1001);
    add_ones(&mut g, 0);
    assert_eq!(g, 1001);
    let mut top: u64 = u64::MAX - 3;
    add_ones(&mut top, 3);
    assert_eq!(top, u64::MAX);
}

#[test]
fn queue_hands_over_in_order_when_interleaved() {
    // push 1, take, push 2, push 3, take, take (parks on empty), push end, take
    let mut queue: VecDeque<Option<u8>> = VecDeque::new();
    let mut recorded: VecDeque<Option<u8>> = VecDeque::new();
    queue.push_front(Some(1));
    assert_eq!(consume(&mut queue, &mut recorded), ConsumerStep::Record(1));
    queue.push_front(Some(2));
    queue.push_front(Some(3));
    assert_eq!(consume(&mut queue, &mut recorded), ConsumerStep::Record(2));
    assert_eq!(consume(&mut queue, &mut recorded), ConsumerStep::Record(3));
    assert_eq!(consume(&mut queue, &mut recorded), ConsumerStep::Park);
    queue.push_front(None);
    assert_eq!(consume(&mut queue, &mut recorded), ConsumerStep::Stop);
    assert_eq!(collect_recorded(&recorded), vec![3, 2, 1]);
}
