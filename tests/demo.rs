use native_commands::demo::{greet, greet_with_draw, judge, Verdict};

#[test]
fn judge_partitions_all_pairs() {
    for g in 1..100 {
        for d in 1..100 {
            let v = judge(g, d);
            assert_eq!(v == Verdict::Correct, g == d);
            assert_eq!(v == Verdict::TooHigh, g > d);
            assert_eq!(v == Verdict::TooLow, g < d);
        }
    }
}

#[test]
fn correct_guess_succeeds() {
    assert_eq!(greet_with_draw(42, 42), Ok("恭喜你猜对了".to_string()));
}

#[test]
fn high_guess_fails_too_high() {
    assert_eq!(greet_with_draw(60, 50), Err("猜大了".to_string()));
}

#[test]
fn low_guess_fails_too_low() {
    assert_eq!(greet_with_draw(1, 99), Err("猜小了".to_string()));
}

#[test]
fn verdict_texts() {
    assert_eq!(Verdict::TooHigh.text(), "猜大了");
    assert_eq!(Verdict::TooLow.text(), "猜小了");
    assert_eq!(Verdict::Correct.text(), "恭喜你猜对了");
    assert_eq!(Verdict::Correct.into_reply(), Ok("恭喜你猜对了".to_string()));
    assert_eq!(Verdict::TooLow.into_reply(), Err("猜小了".to_string()));
}

#[test]
fn guesses_outside_the_draw_range() {
    for _ in 0..50 {
        assert_eq!(greet(0), Err("猜小了".to_string()));
        assert_eq!(greet(100), Err("猜大了".to_string()));
    }
}

#[test]
fn guess_reply_is_one_of_three() {
    for _ in 0..200 {
        let r = greet(50);
        assert!(
            r == Ok("恭喜你猜对了".to_string())
                || r == Err("猜大了".to_string())
                || r == Err("猜小了".to_string())
        );
    }
}
