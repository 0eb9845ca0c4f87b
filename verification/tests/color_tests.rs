use easycurses::{
    color_pair_plan, color_support, start_color_if_supported, color_to_i16, fgbg_pairid, i16_to_color, pair_init_fits, Color, ColorPair,
    PairInit,
};
use easycurses::Color::{Black, Blue, Cyan, Green, Magenta, Red, White, Yellow};

#[test]
fn test_color_i32_conversion_identity() {
    let colors = [Black, Red, Green, Yellow, Blue, Magenta, Cyan, White];
    for &color in colors.iter() {
        if i16_to_color(color_to_i16(color)).unwrap() != color {
            panic!("{:?}", color);
        }
    }
}

#[test]
fn test_color_i32_matches_color_constants() {
    assert!(color_to_i16(Black) == pancurses::COLOR_BLACK);
    assert!(color_to_i16(Red) == pancurses::COLOR_RED);
    assert!(color_to_i16(Green) == pancurses::COLOR_GREEN);
    assert!(color_to_i16(Yellow) == pancurses::COLOR_YELLOW);
    assert!(color_to_i16(Blue) == pancurses::COLOR_BLUE);
    assert!(color_to_i16(Magenta) == pancurses::COLOR_MAGENTA);
    assert!(color_to_i16(Cyan) == pancurses::COLOR_CYAN);
    assert!(color_to_i16(White) == pancurses::COLOR_WHITE);
}

#[test]
fn color_iterator_lists_all_colors_in_number_order() {
    let colors = Color::color_iterator();
    assert_eq!(colors, vec![Black, Red, Green, Yellow, Blue, Magenta, Cyan, White]);
    for (i, color) in colors.iter().enumerate() {
        assert_eq!(color_to_i16(*color), i as i16);
    }
}

#[test]
fn i16_to_color_rejects_numbers_outside_range() {
    assert_eq!(i16_to_color(-1), None);
    assert_eq!(i16_to_color(8), None);
    assert_eq!(i16_to_color(i16::MAX), None);
    assert_eq!(i16_to_color(i16::MIN), None);
    assert_eq!(i16_to_color(0), Some(Color::Black));
    assert_eq!(i16_to_color(7), Some(Color::White));
}

#[test]
fn default_color_pair_is_white_on_black() {
    assert_eq!(ColorPair::default(), ColorPair::new(Color::White, Color::Black));
    assert_eq!(ColorPair::default().pair_number(), 57);
}

#[test]
fn pair_numbers_follow_formula() {
    assert_eq!(fgbg_pairid(0, 0), 1);
    assert_eq!(fgbg_pairid(7, 7), 64);
    assert_eq!(fgbg_pairid(2, 5), 22);
    assert_eq!(ColorPair::new(Color::Black, Color::Black).pair_number(), 1);
    assert_eq!(ColorPair::new(Color::Red, Color::Blue).pair_number(), 13);
    assert_eq!(ColorPair::new(Color::White, Color::White).pair_number(), 64);
}

#[test]
fn distinct_colors_give_distinct_pairs() {
    let colors = Color::color_iterator();
    let mut seen = Vec::new();
    for &fg in colors.iter() {
        for &bg in colors.iter() {
            let n = ColorPair::new(fg, bg).pair_number();
            assert!(n >= 1 && n <= 64);
            assert!(!seen.contains(&n));
            seen.push(n);
        }
    }
    assert_eq!(seen.len(), 64);
}

#[test]
fn plan_sets_up_every_pair_once() {
    let plan = color_pair_plan();
    assert_eq!(plan.len(), 64);
    assert_eq!(plan[0], PairInit { pair: 1, fg: 0, bg: 0 });
    assert_eq!(plan[10], PairInit { pair: 11, fg: 1, bg: 2 });
    assert_eq!(plan[63], PairInit { pair: 64, fg: 7, bg: 7 });
    for &fg in Color::color_iterator().iter() {
        for &bg in Color::color_iterator().iter() {
            let want = PairInit {
                pair: ColorPair::new(fg, bg).pair_number(),
                fg: color_to_i16(fg),
                bg: color_to_i16(bg),
            };
            assert_eq!(plan.iter().filter(|p| **p == want).count(), 1);
        }
    }
}

#[test]
fn plan_fits_common_terminals() {
    let plan = color_pair_plan();
    assert!(plan.iter().all(|p| pair_init_fits(*p, 8, 65)));
    assert!(plan.iter().all(|p| pair_init_fits(*p, 256, 32767)));
    assert!(plan.iter().all(|p| pair_init_fits(*p, 256, 65536)));
    assert!(plan.iter().all(|p| pair_init_fits(*p, 16777216, 65536)));
}

#[test]
fn plan_does_not_fit_small_terminals() {
    let last = PairInit { pair: 64, fg: 7, bg: 7 };
    // pairs are numbered 0 to pair_count - 1, colors 0 to color_count - 1
    assert!(!pair_init_fits(last, 8, 64));
    assert!(!pair_init_fits(last, 7, 65));
    assert!(pair_init_fits(last, 8, 65));
    assert!(!pair_init_fits(PairInit { pair: -1, fg: 0, bg: 0 }, 8, 65));
    assert!(!pair_init_fits(PairInit { pair: 1, fg: -1, bg: 0 }, 8, 65));
    assert!(!pair_init_fits(last, 0, 0));
}

#[test]
fn color_support_needs_colors_and_ok_start() {
    assert!(color_support(true, Some(pancurses::OK)));
    assert!(!color_support(true, Some(pancurses::ERR)));
    assert!(!color_support(true, None));
    assert!(!color_support(false, None));
    assert!(!color_support(false, Some(pancurses::OK)));
}

#[test]
fn start_color_called_only_with_colors() {
    let mut calls = 0;
    assert_eq!(start_color_if_supported(false, || { calls += 1; 0 }), None);
    assert_eq!(calls, 0);
    assert_eq!(start_color_if_supported(true, || { calls += 1; -1 }), Some(-1));
    assert_eq!(calls, 1);
    assert_eq!(start_color_if_supported(true, || 0), Some(0));
}
