use koloda::text::parse_u32;
use koloda::text::str_is_blank;
use koloda::text::u32_to_string;
use koloda::utility::default_now;
use koloda::utility::get_current_timestamp;

#[test]
fn blankness_follows_trimming() {
    assert!(str_is_blank(""));
    assert!(str_is_blank("   \t\n"));
    assert!(!str_is_blank(" a "));
    assert!(!str_is_blank("k-123"));
}

#[test]
fn parse_u32_matches_the_standard_parser() {
    for input in ["0", "42", "007", "+17", "4294967295", "", "+", "4x", "-1", " 1", "4294967296"] {
        assert_eq!(parse_u32(input), input.parse::<u32>().ok(), "input: {:?}", input);
    }
}

#[test]
fn u32_rendering_is_decimal() {
    assert_eq!(u32_to_string(0), "0");
    assert_eq!(u32_to_string(42), "42");
    assert_eq!(u32_to_string(4294967295), "4294967295");
}

#[test]
fn the_clock_reads_after_the_epoch() {
    let now = get_current_timestamp().expect("the clock is readable here");
    assert!(now > 1_500_000_000_000, "the clock reads in the present era");
    assert!(default_now() >= now);
}
