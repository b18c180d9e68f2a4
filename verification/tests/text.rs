use bat_flight::score::Score;
use bat_flight::text::{decimal_text, ending_summary};

#[test]
fn decimal_text_of_numbers() {
    assert_eq!(decimal_text(0), "0");
    assert_eq!(decimal_text(7), "7");
    assert_eq!(decimal_text(10), "10");
    assert_eq!(decimal_text(305), "305");
    assert_eq!(decimal_text(u32::MAX), "4294967295");
}

#[test]
fn decimal_text_matches_to_string() {
    for n in [0u32, 1, 9, 10, 11, 99, 100, 12345, 1_000_000, u32::MAX - 1] {
        assert_eq!(decimal_text(n), n.to_string());
    }
}

#[test]
fn coin_text_shows_the_coins() {
    let s = Score { coin: 42, heart: 3, pillar: 0, gear: 0, owl: 0, game_over: 0 };
    assert_eq!(s.coin_text(), "42");
    assert_eq!(Score::default().coin_text(), "0");
}

#[test]
fn ending_summary_of_a_run() {
    let s = Score { coin: 50, heart: 4, pillar: 0, gear: 0, owl: 7, game_over: 2 };
    assert_eq!(
        ending_summary(125, &s),
        "Thank you for playing!!\n\nPlay Time: 02:05\nHearts Collected: 4\nPillars Hit: 0\nGears Hit: 0\nOwls Hit: 7\nGame Over: 2"
    );
}

#[test]
fn ending_summary_pads_like_format() {
    let s = Score { coin: 0, heart: 12, pillar: 3, gear: 1, owl: 0, game_over: 10 };
    for total in [0u32, 9, 59, 60, 61, 599, 600, 3599, 6000, 6059, 100_000] {
        let expected = format!(
            "Thank you for playing!!\n\nPlay Time: {:02}:{:02}\nHearts Collected: {}\nPillars Hit: {}\nGears Hit: {}\nOwls Hit: {}\nGame Over: {}",
            total / 60,
            total % 60,
            s.heart,
            s.pillar,
            s.gear,
            s.owl,
            s.game_over
        );
        assert_eq!(ending_summary(total, &s), expected);
    }
}

#[test]
fn ending_summary_with_long_play_time() {
    let s = Score::default();
    let text = ending_summary(6000 + 7, &s);
    assert!(text.starts_with("Thank you for playing!!\n\nPlay Time: 100:07\n"));
}
