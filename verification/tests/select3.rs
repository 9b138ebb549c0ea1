use memselect::new1;
use memselect::new3;

#[test]
fn select3_smoke() {
    let mut selector = new3(
        |num: u32| num + 1,
        |num: u32| num + 2,
        |num: u32| num + 3,
        |num1, num2, num3| (*num1, *num2, *num3),
    );

    assert_eq!(selector.select(1, 2, 3), (2, 4, 6));
    assert_eq!(selector.select(1, 2, 3), (2, 4, 6));
}

#[test]
fn select3_compose() {
    let base1 = new1(|num: u32| num, |num| num * 2);
    let base2 = new1(|num: u32| num, |num| num * 3);
    let base3 = new1(|num: u32| num, |num| num * 4);

    let mut sel = new3(base1, base2, base3, |num1, num2, num3| num1 + num2 + num3);

    assert_eq!(sel.select(1, 1, 1), 9);
}

#[test]
fn select3_memo() {
    let mut computations = 0;

    {
        let mut selector = new3(
            |num: u32| num + 1,
            |num: u32| num + 2,
            |num: u32| num + 3,
            |num1, num2, num3| {
                computations += 1;
                (*num1, *num2, *num3)
            },
        );

        assert_eq!(selector.select(1, 2, 3), (2, 4, 6));
        assert_eq!(selector.select(1, 2, 3), (2, 4, 6));
    }

    assert_eq!(computations, 1);

    {
        let mut selector = new3(
            |num: u32| num + 1,
            |num: u32| num + 2,
            |num: u32| num + 3,
            |num1, num2, num3| {
                computations += 1;
                (*num1, *num2, *num3)
            },
        );

        assert_eq!(selector.select(1, 2, 4), (2, 4, 7));
        assert_eq!(selector.select(1, 2, 4), (2, 4, 7));
    }

    assert_eq!(computations, 2);
}
