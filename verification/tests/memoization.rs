use memselect::new1;
use memselect::new2;
use memselect::new3;
use std::cell::Cell;
use std::cell::RefCell;

#[test]
fn first_query_always_computes() {
    let runs = Cell::new(0u32);
    let mut selector = new1(
        |_num: u32| 0u32,
        |num: &u32| {
            runs.set(runs.get() + 1);
            *num
        },
    );

    assert_eq!(selector.select(7), 0);
    assert_eq!(runs.get(), 1);
}

#[test]
fn same_node_recomputes_when_the_input_changes() {
    let runs = Cell::new(0u32);
    let mut selector = new1(
        |num: u32| num + 2,
        |num: &u32| {
            runs.set(runs.get() + 1);
            num * 2
        },
    );

    assert_eq!(selector.select(2), 8);
    assert_eq!(runs.get(), 1);
    assert_eq!(selector.select(3), 10);
    assert_eq!(runs.get(), 2);
}

#[test]
fn equal_input_outputs_from_different_arguments_reuse_the_cache() {
    let runs = Cell::new(0u32);
    let mut selector = new1(
        |num: u32| num / 2,
        |half: &u32| {
            runs.set(runs.get() + 1);
            half * 10
        },
    );

    assert_eq!(selector.select(2), 10);
    assert_eq!(selector.select(3), 10);
    assert_eq!(runs.get(), 1);
}

#[test]
fn only_the_last_inputs_are_remembered() {
    let runs = Cell::new(0u32);
    let mut selector = new1(
        |num: u32| num,
        |num: &u32| {
            runs.set(runs.get() + 1);
            num + 100
        },
    );

    assert_eq!(selector.select(1), 101);
    assert_eq!(selector.select(2), 102);
    assert_eq!(selector.select(1), 101);
    assert_eq!(runs.get(), 3);
}

#[test]
fn a_change_of_either_input_recomputes() {
    let runs = Cell::new(0u32);
    let mut selector = new2(
        |num: u32| num + 1,
        |num: u32| num + 2,
        |num1: &u32, num2: &u32| {
            runs.set(runs.get() + 1);
            (*num1, *num2)
        },
    );

    assert_eq!(selector.select(1, 2), (2, 4));
    assert_eq!(runs.get(), 1);
    assert_eq!(selector.select(1, 3), (2, 5));
    assert_eq!(runs.get(), 2);
    assert_eq!(selector.select(2, 3), (3, 5));
    assert_eq!(runs.get(), 3);
    assert_eq!(selector.select(2, 3), (3, 5));
    assert_eq!(runs.get(), 3);
}

#[test]
fn a_change_of_any_of_three_inputs_recomputes() {
    let runs = Cell::new(0u32);
    let mut selector = new3(
        |num: u32| num + 1,
        |num: u32| num + 2,
        |num: u32| num + 3,
        |num1: &u32, num2: &u32, num3: &u32| {
            runs.set(runs.get() + 1);
            (*num1, *num2, *num3)
        },
    );

    assert_eq!(selector.select(1, 2, 3), (2, 4, 6));
    assert_eq!(selector.select(1, 2, 4), (2, 4, 7));
    assert_eq!(runs.get(), 2);
    assert_eq!(selector.select(1, 5, 4), (2, 7, 7));
    assert_eq!(runs.get(), 3);
    assert_eq!(selector.select(0, 5, 4), (1, 7, 7));
    assert_eq!(runs.get(), 4);
    assert_eq!(selector.select(0, 5, 4), (1, 7, 7));
    assert_eq!(runs.get(), 4);
}

#[test]
fn every_input_is_queried_on_every_query() {
    let calls1 = Cell::new(0u32);
    let calls2 = Cell::new(0u32);
    let mut selector = new2(
        |num: u32| {
            calls1.set(calls1.get() + 1);
            num
        },
        |num: u32| {
            calls2.set(calls2.get() + 1);
            num
        },
        |num1: &u32, num2: &u32| num1 + num2,
    );

    assert_eq!(selector.select(1, 2), 3);
    assert_eq!(selector.select(1, 2), 3);
    assert_eq!(selector.select(5, 2), 7);
    assert_eq!(calls1.get(), 3);
    assert_eq!(calls2.get(), 3);
}

#[test]
fn inputs_are_queried_in_order_before_the_combining_function() {
    let log = RefCell::new(Vec::new());
    let mut selector = new3(
        |num: u32| {
            log.borrow_mut().push(1u8);
            num
        },
        |num: u32| {
            log.borrow_mut().push(2u8);
            num
        },
        |num: u32| {
            log.borrow_mut().push(3u8);
            num
        },
        |num1: &u32, num2: &u32, num3: &u32| {
            log.borrow_mut().push(0u8);
            num1 + num2 + num3
        },
    );

    assert_eq!(selector.select(1, 2, 3), 6);
    assert_eq!(selector.select(1, 2, 3), 6);
    assert_eq!(*log.borrow(), vec![1u8, 2, 3, 0, 1, 2, 3]);
}

#[test]
fn an_inner_cache_spares_the_inner_combining_function() {
    let inner_runs = Cell::new(0u32);
    let outer_runs = Cell::new(0u32);
    let base = new1(
        |num: u32| num / 2,
        |half: &u32| {
            inner_runs.set(inner_runs.get() + 1);
            half % 2
        },
    );
    let mut selector = new1(base, |bit: &u32| {
        outer_runs.set(outer_runs.get() + 1);
        bit + 40
    });

    assert_eq!(selector.select(2), 41);
    assert_eq!(selector.select(3), 41);
    assert_eq!((inner_runs.get(), outer_runs.get()), (1, 1));
    assert_eq!(selector.select(6), 41);
    assert_eq!((inner_runs.get(), outer_runs.get()), (2, 1));
    assert_eq!(selector.select(8), 40);
    assert_eq!((inner_runs.get(), outer_runs.get()), (3, 2));
}
