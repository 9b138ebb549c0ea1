use memselect::new1;
use memselect::new2;
use memselect::new3;
use memselect::Selector1;
use memselect::Selector2;
use memselect::Selector3;

#[derive(Clone, Debug)]
struct Keyed {
    key: u32,
    payload: u32,
}

impl PartialEq for Keyed {
    fn eq(&self, other: &Keyed) -> bool {
        self.key == other.key
    }
}

impl Eq for Keyed {}

fn ask1<S: Selector1<u32, Output = u32>>(selector: &mut S, arg: u32) -> u32 {
    selector.select(arg)
}

fn ask2<S: Selector2<u32, u32, Output = u32>>(selector: &mut S, arg1: u32, arg2: u32) -> u32 {
    selector.select(arg1, arg2)
}

fn ask3<S: Selector3<u32, u32, u32, Output = u32>>(
    selector: &mut S,
    arg1: u32,
    arg2: u32,
    arg3: u32,
) -> u32 {
    selector.select(arg1, arg2, arg3)
}

#[test]
fn plain_functions_are_selectors() {
    let mut one = |num: u32| num + 1;
    let mut two = |num1: u32, num2: u32| num1 * num2;
    let mut three = |num1: u32, num2: u32, num3: u32| num1 + num2 * num3;

    assert_eq!(ask1(&mut one, 4), 5);
    assert_eq!(ask2(&mut two, 4, 5), 20);
    assert_eq!(ask3(&mut three, 4, 5, 6), 34);
}

#[test]
fn nodes_are_selectors() {
    let mut one = new1(|num: u32| num + 2, |num: &u32| num * 2);
    let mut two = new2(|num: u32| num + 1, |num: u32| num + 2, |num1: &u32, num2: &u32| num1 * num2);
    let mut three = new3(
        |num: u32| num,
        |num: u32| num,
        |num: u32| num,
        |num1: &u32, num2: &u32, num3: &u32| num1 + num2 * num3,
    );

    assert_eq!(ask1(&mut one, 2), 8);
    assert_eq!(ask1(&mut one, 2), 8);
    assert_eq!(ask2(&mut two, 1, 2), 8);
    assert_eq!(ask2(&mut two, 1, 2), 8);
    assert_eq!(ask3(&mut three, 4, 5, 6), 34);
    assert_eq!(ask3(&mut three, 4, 5, 6), 34);
}

#[test]
fn results_do_not_depend_on_the_cache() {
    let mut fresh = new1(|num: u32| num + 2, |num: &u32| num * 2);
    let mut used = new1(|num: u32| num + 2, |num: &u32| num * 2);

    assert_eq!(used.select(1), 6);
    assert_eq!(used.select(9), 22);
    assert_eq!(used.select(5), 14);
    assert_eq!(used.select(5), 14);
    assert_eq!(fresh.select(5), 14);
}

#[test]
fn results_of_two_inputs_do_not_depend_on_the_cache() {
    let mut fresh = new2(|num: u32| num + 1, |num: u32| num * 3, |num1: &u32, num2: &u32| num1 + num2);
    let mut used = new2(|num: u32| num + 1, |num: u32| num * 3, |num1: &u32, num2: &u32| num1 + num2);

    assert_eq!(used.select(7, 7), 29);
    assert_eq!(used.select(1, 2), 8);
    assert_eq!(used.select(1, 2), 8);
    assert_eq!(fresh.select(1, 2), 8);
}

#[test]
fn results_of_three_inputs_do_not_depend_on_the_cache() {
    let mut fresh = new3(
        |num: u32| num + 1,
        |num: u32| num * 3,
        |num: u32| num,
        |num1: &u32, num2: &u32, num3: &u32| num1 + num2 + num3,
    );
    let mut used = new3(
        |num: u32| num + 1,
        |num: u32| num * 3,
        |num: u32| num,
        |num1: &u32, num2: &u32, num3: &u32| num1 + num2 + num3,
    );

    assert_eq!(used.select(7, 7, 7), 36);
    assert_eq!(used.select(1, 2, 3), 11);
    assert_eq!(used.select(1, 2, 3), 11);
    assert_eq!(fresh.select(1, 2, 3), 11);
}

#[test]
fn changing_a_returned_value_leaves_the_cache_alone() {
    let mut runs = 0;

    {
        let mut selector = new1(
            |num: u32| num,
            |num: &u32| {
                runs += 1;
                vec![*num, *num + 1]
            },
        );

        let mut first = selector.select(3);
        assert_eq!(first, vec![3, 4]);
        first.push(99);
        first[0] = 0;

        assert_eq!(selector.select(3), vec![3, 4]);
    }

    assert_eq!(runs, 1);
}

#[test]
fn changing_a_returned_value_of_more_inputs_leaves_the_cache_alone() {
    let mut two = new2(
        |num: u32| num,
        |num: u32| num,
        |num1: &u32, num2: &u32| format!("{}-{}", num1, num2),
    );
    let mut three = new3(
        |num: u32| num,
        |num: u32| num,
        |num: u32| num,
        |num1: &u32, num2: &u32, num3: &u32| vec![*num1, *num2, *num3],
    );

    let mut text = two.select(1, 2);
    text.push_str("!");
    assert_eq!(text, "1-2!");
    assert_eq!(two.select(1, 2), "1-2");

    let mut list = three.select(1, 2, 3);
    list.clear();
    assert_eq!(three.select(1, 2, 3), vec![1, 2, 3]);
}

#[test]
fn an_inner_node_behaves_as_the_function_it_computes() {
    let mut over_node_runs = 0;
    let mut over_function_runs = 0;
    let mut seen_over_node = Vec::new();
    let mut seen_over_function = Vec::new();

    {
        let inner = new1(|num: u32| num / 2, |half: &u32| half * 3);
        let mut over_node = new2(inner, |num: u32| num + 1, |num1: &u32, num2: &u32| {
            over_node_runs += 1;
            num1 * 100 + num2
        });
        let mut over_function =
            new2(|num: u32| (num / 2) * 3, |num: u32| num + 1, |num1: &u32, num2: &u32| {
                over_function_runs += 1;
                num1 * 100 + num2
            });

        let queries = [(2u32, 1u32), (3, 1), (3, 2), (4, 2), (4, 2), (2, 1)];
        let mut at = 0;
        while at < queries.len() {
            let (arg1, arg2) = queries[at];
            seen_over_node.push(over_node.select(arg1, arg2));
            seen_over_function.push(over_function.select(arg1, arg2));
            at += 1;
        }
    }

    assert_eq!(seen_over_node, vec![302, 302, 303, 603, 603, 302]);
    assert_eq!(seen_over_function, seen_over_node);
    assert_eq!(over_node_runs, 4);
    assert_eq!(over_function_runs, over_node_runs);
}

#[test]
fn equality_is_the_one_the_input_type_defines() {
    let mut runs = 0;

    {
        let mut selector = new1(
            |num: u32| Keyed { key: num / 10, payload: num },
            |seen: &Keyed| {
                runs += 1;
                seen.payload
            },
        );

        assert_eq!(selector.select(10), 10);
        assert_eq!(selector.select(11), 10);
        assert_eq!(selector.select(20), 20);
        assert_eq!(selector.select(29), 20);
    }

    assert_eq!(runs, 2);
}

#[test]
fn nodes_nest_to_any_depth() {
    let level1 = new1(|num: u32| num + 1, |num: &u32| num * 2);
    let level2 = new1(level1, |num: &u32| num + 3);
    let level3 = new1(level2, |num: &u32| num * 5);
    let mut top = new3(level3, |num: u32| num, |num: u32| num, |a: &u32, b: &u32, c: &u32| {
        (*a, *b + *c)
    });

    assert_eq!(top.select(1, 2, 3), (35, 5));
    assert_eq!(top.select(1, 2, 3), (35, 5));
    assert_eq!(top.select(2, 2, 3), (45, 5));
}

#[test]
fn a_node_feeds_a_node_of_two_inputs() {
    let mut computations = 0;

    {
        let base = new1(|num: u32| num, |num: &u32| num * 2);

        let mut selector = new2(base, |num: u32| num * 3, |num1: &u32, num2: &u32| {
            computations += 1;
            (*num1, *num2)
        });

        assert_eq!(selector.select(2, 3), (4, 9));
        assert_eq!(selector.select(2, 3), (4, 9));
    }

    assert_eq!(computations, 1);
}
