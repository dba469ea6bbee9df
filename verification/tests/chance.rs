use delirious_descent::chance::{draw_between, draw_choice, DRAW_LIMIT};

#[test]
fn draws_stay_between_the_limits() {
    for _ in 0..200 {
        let r = draw_between(-250, 250);
        assert!((-250..=250).contains(&r));
        let s = draw_between(50_000, 150_000);
        assert!((50_000..=150_000).contains(&s));
    }
}

#[test]
fn draws_accept_limits_in_either_order() {
    for _ in 0..200 {
        let r = draw_between(900, 100);
        assert!((100..=900).contains(&r));
    }
}

#[test]
fn draws_vary() {
    let first = draw_between(0, 1_000_000_000);
    let mut differs = false;
    for _ in 0..50 {
        if draw_between(0, 1_000_000_000) != first {
            differs = true;
        }
    }
    assert!(differs);
}

#[test]
fn draws_bring_wide_limits_back() {
    let r = draw_between(i64::MIN, i64::MAX);
    assert!((-DRAW_LIMIT..=DRAW_LIMIT).contains(&r));
}

#[test]
fn choices_vary() {
    let first = draw_choice();
    let mut differs = false;
    for _ in 0..50 {
        if draw_choice() != first {
            differs = true;
        }
    }
    assert!(differs);
}
