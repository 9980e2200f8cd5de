use git_source::version::{
    compare_versions, increment_major_version, increment_minor_version, increment_patch_version,
    Version,
};
use std::cmp::Ordering;

fn v(major: u32, minor: u32, patch: u32) -> Version {
    Version { major, minor, patch }
}

#[test]
fn patch_increment_of_text() {
    assert_eq!(increment_patch_version("1.2.3"), "1.2.4");
    assert_eq!(increment_patch_version("0.0.1"), "0.0.2");
    assert_eq!(increment_patch_version("0.0.9"), "0.0.10");
}

#[test]
fn major_increment_of_text() {
    assert_eq!(increment_major_version("1.2.3"), "2.0.0");
    assert_eq!(increment_major_version("0.9.5"), "1.0.0");
    assert_eq!(increment_major_version("0.7.2"), "1.0.0");
}

#[test]
fn minor_increment_of_text() {
    assert_eq!(increment_minor_version("1.2.3"), "1.3.0");
    assert_eq!(increment_minor_version("0.9.5"), "0.10.0");
}

#[test]
fn increments_of_short_and_long_texts() {
    assert_eq!(increment_patch_version("1.2"), "1.2.1");
    assert_eq!(increment_patch_version("1.2.3.4"), "1.2.4");
    assert_eq!(increment_patch_version(""), "0.0.1");
    assert_eq!(increment_patch_version("x"), "0.0.1");
    assert_eq!(increment_major_version("7"), "8.0.0");
    assert_eq!(increment_major_version("1.2.3.4"), "2.0.0");
    assert_eq!(increment_minor_version("3"), "3.1.0");
}

#[test]
fn increments_up_to_the_last_number() {
    assert_eq!(increment_patch_version("0.0.4294967294"), "0.0.4294967295");
    assert_eq!(increment_minor_version("0.4294967294.7"), "0.4294967295.0");
    assert_eq!(increment_major_version("4294967294.1.1"), "4294967295.0.0");
}

#[test]
fn parse_reads_three_numbers() {
    assert_eq!(Version::parse("1.2.3"), v(1, 2, 3));
    assert_eq!(Version::parse("10.20.30"), v(10, 20, 30));
    assert_eq!(Version::parse("0.0.0"), v(0, 0, 0));
    assert_eq!(Version::parse("4294967295.0.4294967295"), v(u32::MAX, 0, u32::MAX));
}

#[test]
fn parse_pads_missing_segments() {
    assert_eq!(Version::parse("1.2"), v(1, 2, 0));
    assert_eq!(Version::parse("1"), v(1, 0, 0));
    assert_eq!(Version::parse(""), v(0, 0, 0));
    assert_eq!(Version::parse("1."), v(1, 0, 0));
    assert_eq!(Version::parse("1.2."), v(1, 2, 0));
    assert_eq!(Version::parse(".."), v(0, 0, 0));
    assert_eq!(Version::parse(".5"), v(0, 5, 0));
    assert_eq!(Version::parse("1..3"), v(1, 0, 3));
}

#[test]
fn parse_gives_zero_for_what_is_no_number() {
    assert_eq!(Version::parse("x.y.z"), v(0, 0, 0));
    assert_eq!(Version::parse("1.x.3"), v(1, 0, 3));
    assert_eq!(Version::parse("v1.2.3"), v(0, 2, 3));
    assert_eq!(Version::parse("1.2.3-beta"), v(1, 2, 0));
    assert_eq!(Version::parse(" 1.2.3"), v(0, 2, 3));
    assert_eq!(Version::parse("1.2.3 "), v(1, 2, 0));
    assert_eq!(Version::parse("1.-2.3"), v(1, 0, 3));
    assert_eq!(Version::parse("1.2e1.3"), v(1, 0, 3));
    assert_eq!(Version::parse("1.\u{0662}.3"), v(1, 0, 3));
    assert_eq!(Version::parse("\u{ff11}.2.3"), v(0, 2, 3));
}

#[test]
fn parse_ignores_what_follows_the_third_segment() {
    assert_eq!(Version::parse("1.2.3.4"), v(1, 2, 3));
    assert_eq!(Version::parse("1.2.3.x"), v(1, 2, 3));
    assert_eq!(Version::parse("1.2.3."), v(1, 2, 3));
    assert_eq!(Version::parse("1.2.3.4.5.6"), v(1, 2, 3));
    assert_eq!(Version::parse("1.2.x.4"), v(1, 2, 0));
}

#[test]
fn parse_takes_a_plus_sign_and_leading_zeros() {
    assert_eq!(Version::parse("+1.+2.+3"), v(1, 2, 3));
    assert_eq!(Version::parse("007.08.009"), v(7, 8, 9));
    assert_eq!(Version::parse("+.1.2"), v(0, 1, 2));
    assert_eq!(Version::parse("++1.2.3"), v(0, 2, 3));
    assert_eq!(Version::parse("1+.2.3"), v(0, 2, 3));
    assert_eq!(Version::parse("+0.+00.0"), v(0, 0, 0));
}

#[test]
fn parse_gives_zero_for_a_number_that_does_not_fit() {
    assert_eq!(Version::parse("4294967296.1.1"), v(0, 1, 1));
    assert_eq!(Version::parse("1.99999999999999999999999999.1"), v(1, 0, 1));
    assert_eq!(Version::parse("1.1.42949672950"), v(1, 1, 0));
    assert_eq!(Version::parse("00000000004294967295.1.1"), v(u32::MAX, 1, 1));
}

#[test]
fn parse_agrees_with_the_standard_number_parser() {
    let samples = [
        "", "0", "1", "+", "-", "+1", "-1", "12", "0012", "4294967295", "4294967296", "a", "1a",
        "a1", " 1", "1 ", "+-1", "18446744073709551616", "\u{0661}",
    ];
    for sample in samples {
        let expected = sample.parse::<u32>().unwrap_or(0);
        assert_eq!(Version::parse(sample).major, expected);
        let text = format!("0.{}.0", sample);
        assert_eq!(Version::parse(&text).minor, expected);
        let text = format!("0.0.{}", sample);
        assert_eq!(Version::parse(&text).patch, expected);
    }
}

#[test]
fn format_writes_three_numbers() {
    assert_eq!(v(1, 2, 3).format(), "1.2.3");
    assert_eq!(v(0, 0, 0).format(), "0.0.0");
    assert_eq!(v(10, 200, 3000).format(), "10.200.3000");
    assert_eq!(v(u32::MAX, 0, u32::MAX).format(), "4294967295.0.4294967295");
    assert_eq!(v(1000000000, 9, 99).format(), "1000000000.9.99");
}

#[test]
fn format_agrees_with_the_standard_number_writer() {
    let numbers = [0u32, 1, 9, 10, 11, 99, 100, 101, 12345, 4294967294, u32::MAX];
    for n in numbers {
        assert_eq!(v(n, n, n).format(), format!("{}.{}.{}", n, n, n));
    }
}

#[test]
fn format_after_parse_normalizes() {
    assert_eq!(Version::parse("1.2").format(), "1.2.0");
    assert_eq!(Version::parse("x.y.z").format(), "0.0.0");
    assert_eq!(Version::parse("01.+2.3.4").format(), "1.2.3");
}

#[test]
fn written_versions_read_back() {
    let versions = [v(0, 0, 0), v(1, 2, 3), v(10, 0, 7), v(u32::MAX, u32::MAX, u32::MAX)];
    for version in versions {
        let text = version.format();
        assert_eq!(Version::parse(&text), version);
        assert_eq!(Version::parse(&text).format(), text);
    }
    let texts = ["1.2", "x.y.z", "1.2.3.4", "", "+5.06.7"];
    for text in texts {
        let once = Version::parse(text).format();
        let twice = Version::parse(&once).format();
        assert_eq!(once, twice);
    }
}

#[test]
fn increments_of_versions() {
    assert_eq!(v(1, 2, 3).increment_patch(), v(1, 2, 4));
    assert_eq!(v(1, 2, 3).increment_minor(), v(1, 3, 0));
    assert_eq!(v(1, 2, 3).increment_major(), v(2, 0, 0));
    assert_eq!(v(0, 0, 0).increment_major(), v(1, 0, 0));
    assert_eq!(v(0, 0, u32::MAX - 1).increment_patch(), v(0, 0, u32::MAX));
}

#[test]
fn compare_goes_by_numbers_not_by_text() {
    assert_eq!(compare_versions("10.0.0", "9.0.0"), Ordering::Greater);
    assert_eq!(compare_versions("9.0.0", "10.0.0"), Ordering::Less);
    assert_eq!(compare_versions("1.10.0", "1.9.0"), Ordering::Greater);
    assert_eq!(compare_versions("1.0.10", "1.0.9"), Ordering::Greater);
}

#[test]
fn compare_decides_by_the_first_difference() {
    assert_eq!(v(1, 0, 0).compare(&v(1, 0, 1)), Ordering::Less);
    assert_eq!(v(1, 0, 1).compare(&v(1, 0, 0)), Ordering::Greater);
    assert_eq!(v(1, 2, 3).compare(&v(1, 2, 3)), Ordering::Equal);
    assert_eq!(v(1, 9, 9).compare(&v(2, 0, 0)), Ordering::Less);
    assert_eq!(v(2, 0, 0).compare(&v(1, 9, 9)), Ordering::Greater);
    assert_eq!(v(1, 2, 9).compare(&v(1, 3, 0)), Ordering::Less);
    assert_eq!(v(0, 0, 0).compare(&v(u32::MAX, 0, 0)), Ordering::Less);
}

#[test]
fn compare_pads_before_it_compares() {
    assert_eq!(compare_versions("1.2", "1.2.0"), Ordering::Equal);
    assert_eq!(compare_versions("1.2", "1.2.1"), Ordering::Less);
    assert_eq!(compare_versions("1.2.3.4", "1.2.3.9"), Ordering::Equal);
    assert_eq!(compare_versions("x.y.z", "0.0.0"), Ordering::Equal);
    assert_eq!(compare_versions("", "0.0.1"), Ordering::Less);
}

#[test]
fn compare_is_a_strict_total_order_on_samples() {
    let samples = [
        v(0, 0, 0), v(0, 0, 1), v(0, 1, 0), v(1, 0, 0), v(1, 2, 3), v(1, 2, 4), v(1, 3, 0),
        v(2, 0, 0), v(9, 0, 0), v(10, 0, 0), v(u32::MAX, u32::MAX, u32::MAX),
    ];
    for a in samples {
        assert_eq!(a.compare(&a), Ordering::Equal);
        for b in samples {
            assert_eq!(a.compare(&b), b.compare(&a).reverse());
            assert_eq!(a.compare(&b) == Ordering::Equal, a == b);
            assert_eq!(a.compare(&b), (a.major, a.minor, a.patch).cmp(&(b.major, b.minor, b.patch)));
            for c in samples {
                if a.compare(&b) == Ordering::Less && b.compare(&c) == Ordering::Less {
                    assert_eq!(a.compare(&c), Ordering::Less);
                }
            }
        }
    }
}

#[test]
fn every_increment_is_greater() {
    let samples = [v(0, 0, 0), v(1, 2, 3), v(0, 9, 5), v(7, 0, 0), v(3, u32::MAX, u32::MAX)];
    for a in samples {
        assert_eq!(a.compare(&a.increment_major()), Ordering::Less);
    }
    let samples = [v(0, 0, 0), v(1, 2, 3), v(0, 9, 5), v(u32::MAX, u32::MAX, 0)];
    for a in samples {
        assert_eq!(a.compare(&a.increment_patch()), Ordering::Less);
    }
    let samples = [v(0, 0, 0), v(1, 2, 3), v(u32::MAX, 5, u32::MAX)];
    for a in samples {
        assert_eq!(a.compare(&a.increment_minor()), Ordering::Less);
    }
}
