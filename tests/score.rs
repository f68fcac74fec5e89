use ecs::score::calc_score;

#[test]
fn calc_score_invalid() {
    {
        let expected = 0;
        let actual = calc_score(5, 0);
        assert_eq!(actual, expected);
    }
    {
        let expected = 0;
        let actual = calc_score(0, 0);
        assert_eq!(actual, expected);
    }
}

#[test]
fn calc_score_by_line() {
    {
        let expected = 100;
        let actual = calc_score(1, 0);
        assert_eq!(actual, expected);
    }
    {
        let expected = 300;
        let actual = calc_score(2, 0);
        assert_eq!(actual, expected);
    }
    {
        let expected = 500;
        let actual = calc_score(3, 0);
        assert_eq!(actual, expected);
    }
    {
        let expected = 800;
        let actual = calc_score(4, 0);
        assert_eq!(actual, expected);
    }
}

#[test]
fn calc_score_level_bonus_and_cap() {
    assert_eq!(calc_score(4, 2), 2400);
    assert_eq!(calc_score(1, 9), 1000);
    assert_eq!(calc_score(4, u32::MAX), u32::MAX);
}
