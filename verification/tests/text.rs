use wxman::config::{div_floor, thousandths, PrecipitationUnit};
use wxman::text::{
    align_left, align_right, center, hundredths_to_string, int_to_string, rounded_half_even,
    truncate_units, whole_to_string, Figure,
};

#[test]
fn integers_are_written_in_decimal() {
    assert_eq!(int_to_string(0), "0");
    assert_eq!(int_to_string(7), "7");
    assert_eq!(int_to_string(1203), "1203");
    assert_eq!(int_to_string(-45), "-45");
    assert_eq!(int_to_string(i64::MAX), "9223372036854775807");
    assert_eq!(int_to_string(i64::MIN), "-9223372036854775808");
}

#[test]
fn whole_figures_round_half_to_even() {
    assert_eq!(whole_to_string(1_013_250), "1013");
    assert_eq!(whole_to_string(499), "0");
    assert_eq!(whole_to_string(500), "0");
    assert_eq!(whole_to_string(501), "1");
    assert_eq!(whole_to_string(1_500), "2");
    assert_eq!(whole_to_string(2_500), "2");
    assert_eq!(whole_to_string(3_500), "4");
    assert_eq!(whole_to_string(-2_600), "-3");
    assert_eq!(whole_to_string(-400), "-0");
}

#[test]
fn hundredths_round_half_to_even() {
    assert_eq!(hundredths_to_string(29_921), "29.92");
    assert_eq!(hundredths_to_string(29_530), "29.53");
    assert_eq!(hundredths_to_string(0), "0.00");
    assert_eq!(hundredths_to_string(5), "0.00");
    assert_eq!(hundredths_to_string(15), "0.02");
    assert_eq!(hundredths_to_string(25), "0.02");
    assert_eq!(hundredths_to_string(1_007), "1.01");
    assert_eq!(hundredths_to_string(-1_234), "-1.23");
    assert_eq!(hundredths_to_string(123_456), "123.46");
}

#[test]
fn rounding_and_cutting() {
    assert_eq!(rounded_half_even(14, 10), 1);
    assert_eq!(rounded_half_even(15, 10), 2);
    assert_eq!(rounded_half_even(25, 10), 2);
    assert_eq!(rounded_half_even(26, 10), 3);
    assert_eq!(truncate_units(68_900), 68);
    assert_eq!(truncate_units(-900), 0);
    assert_eq!(truncate_units(-1_900), -1);
    assert_eq!(truncate_units(999), 0);
}

#[test]
fn columns_are_padded_by_characters() {
    assert_eq!(align_right("68", 5), "   68");
    assert_eq!(align_right("Temp", 6), "  Temp");
    assert_eq!(align_right("toolong", 3), "toolong");
    assert_eq!(align_right("5°", 4), "  5°");
    assert_eq!(align_left("Date", 10), "Date      ");
    assert_eq!(align_left("", 3), "   ");
    assert_eq!(center("Today", 10), "  Today   ");
    assert_eq!(center("Today", 11), "   Today   ");
    assert_eq!(center("Today", 3), "Today");
}

#[test]
fn division_rounds_down_and_scaling_to_the_nearest() {
    assert_eq!(div_floor(7, 2), 3);
    assert_eq!(div_floor(-7, 2), -4);
    assert_eq!(div_floor(-8, 2), -4);
    assert_eq!(div_floor(0, 5), 0);
    let fraction = |num, den| thousandths(Figure { num, den });
    assert_eq!(fraction(36, 1), 36_000);
    assert_eq!(fraction(1, 3), 333);
    assert_eq!(fraction(2, 3), 667);
    assert_eq!(fraction(-2, 3), -667);
    assert_eq!(fraction(1, 2_000), 1);
    assert_eq!(fraction(-1, 2_000), 0);
    assert_eq!(fraction(1, 2_001), 0);
}

#[test]
fn a_figure_is_rounded_or_cut_once() {
    let third = Figure { num: 1_000, den: 3 };
    assert_eq!(third.truncate(), 333);
    assert_eq!(third.whole(), "333");
    assert_eq!(third.hundredths(), "333.33");
    let close = Figure { num: 1_604_999, den: 10_000 };
    assert_eq!(close.whole(), "160");
    assert_eq!(close.hundredths(), "160.50");
    let over = Figure { num: 1_605_001, den: 10_000 };
    assert_eq!(over.whole(), "161");
    assert_eq!(over.truncate(), 160);
    let tie = Figure { num: 5, den: 2 };
    assert_eq!(tie.whole(), "2");
    assert_eq!(tie.hundredths(), "2.50");
    assert_eq!(Figure { num: 7, den: 2 }.whole(), "4");
    assert_eq!(Figure { num: 1, den: 8 }.hundredths(), "0.12");
    assert_eq!(Figure { num: 3, den: 8 }.hundredths(), "0.38");
    let below = Figure { num: -7, den: 4 };
    assert_eq!(below.truncate(), -1);
    assert_eq!(below.whole(), "-2");
    assert_eq!(below.hundredths(), "-1.75");
    assert_eq!(Figure { num: -1, den: 4 }.whole(), "-0");
    assert_eq!(Figure { num: i64::MIN, den: 1 }.whole(), "-9223372036854775808");
    assert_eq!(Figure { num: i64::MAX, den: 1 }.hundredths(), "9223372036854775807.00");
    assert_eq!(Figure { num: i64::MIN, den: 1 }.truncate(), i64::MIN);
    assert_eq!(Figure::of_thousandths(29_921), Figure { num: 29_921, den: 1_000 });
}

#[test]
fn test_backward_compatibility_mm_to_cm() {
    assert_eq!(PrecipitationUnit::parse("mm"), Ok(PrecipitationUnit::Cm));
}

#[test]
fn precipitation_units_are_read_in_any_case() {
    assert_eq!(PrecipitationUnit::parse("inch"), Ok(PrecipitationUnit::Inch));
    assert_eq!(PrecipitationUnit::parse("IN"), Ok(PrecipitationUnit::Inch));
    assert_eq!(PrecipitationUnit::parse("Cm"), Ok(PrecipitationUnit::Cm));
    assert_eq!(PrecipitationUnit::parse("Centimeters"), Ok(PrecipitationUnit::Cm));
    assert_eq!(PrecipitationUnit::parse("MILLIMETER"), Ok(PrecipitationUnit::Cm));
    assert_eq!(PrecipitationUnit::from_lowercase("IN"), None);
    assert_eq!(PrecipitationUnit::from_lowercase("in"), Some(PrecipitationUnit::Inch));
    assert_eq!(
        PrecipitationUnit::parse("Feet"),
        Err("invalid precipitation unit: Feet. Expected 'inch', 'cm', or 'mm' (treated as cm)"
            .to_string())
    );
}
