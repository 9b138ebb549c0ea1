use memselect::new1;

#[test]
fn select1_smoke() {
    let mut selector = new1(|num: u32| num + 2, |num| num * 2);

    assert_eq!(selector.select(2), 8);
    assert_eq!(selector.select(2), 8);
}

#[test]
fn select1_compose() {
    let base = new1(|num: u32| num, |num| num * 2);
    let mut sel2 = new1(base, |num| num * 2);

    assert_eq!(sel2.select(1), 4);
}

#[test]
fn select1_memo() {
    let mut computations = 0;

    {
        let mut selector = new1(
            |num: u32| num + 2,
            |num| {
                computations += 1;
                num * 2
            }
        );

        assert_eq!(selector.select(2), 8);
        assert_eq!(selector.select(2), 8);
    }

    assert_eq!(computations, 1);

    {
        let mut selector = new1(
            |num: u32| num + 2,
            |num| {
                computations += 1;
                num * 2
            }
        );

        assert_eq!(selector.select(3), 10);
        assert_eq!(selector.select(3), 10);
    }

    assert_eq!(computations, 2);
}
