use memselect::new1;
use memselect::new2;

#[test]
fn select2_smoke() {
    let mut selector = new2(
        |num: u32| num + 1,
        |num: u32| num + 2,
        |num1, num2| (*num1, *num2),
    );

    assert_eq!(selector.select(1, 2), (2, 4));
    assert_eq!(selector.select(1, 2), (2, 4));
}

#[test]
fn select2_compose() {
    let base1 = new1(|num: u32| num, |num| num * 2);
    let base2 = new1(|num: u32| num, |num| num * 3);

    let mut sel = new2(base1, base2, |num1, num2| num1 + num2);

    assert_eq!(sel.select(1, 1), 5);
}

#[test]
fn select2_memo() {
    let mut computations = 0;

    {
        let mut selector = new2(
            |num: u32| num + 1,
            |num: u32| num + 2,
            |num1, num2| {
                computations += 1;
                (*num1, *num2)
            },
        );

        assert_eq!(selector.select(1, 2), (2, 4));
        assert_eq!(selector.select(1, 2), (2, 4));
    }

    assert_eq!(computations, 1);

    {
        let mut selector = new2(
            |num: u32| num + 1,
            |num: u32| num + 2,
            |num1, num2| {
                computations += 1;
                (*num1, *num2)
            },
        );

        assert_eq!(selector.select(1, 3), (2, 5));
        assert_eq!(selector.select(1, 3), (2, 5));
    }

    assert_eq!(computations, 2);
}
