use sazgar::params::{pid_filter, protocol_filter, quoted_unit_argument, text_filter, unit_argument};
use sazgar::units::{Quantity, SizeUnit};

#[test]
fn parse_reads_every_unit_without_regard_to_case() {
    assert_eq!(SizeUnit::parse("bytes"), SizeUnit::Bytes);
    assert_eq!(SizeUnit::parse("B"), SizeUnit::Bytes);
    assert_eq!(SizeUnit::parse("kb"), SizeUnit::KB);
    assert_eq!(SizeUnit::parse("KiB"), SizeUnit::KiB);
    assert_eq!(SizeUnit::parse("mb"), SizeUnit::MB);
    assert_eq!(SizeUnit::parse("mib"), SizeUnit::MiB);
    assert_eq!(SizeUnit::parse("Gb"), SizeUnit::GB);
    assert_eq!(SizeUnit::parse("GiB"), SizeUnit::GiB);
    assert_eq!(SizeUnit::parse("tb"), SizeUnit::TB);
    assert_eq!(SizeUnit::parse("TIB"), SizeUnit::TiB);
}

#[test]
fn parse_falls_back_to_bytes() {
    assert_eq!(SizeUnit::parse(""), SizeUnit::Bytes);
    assert_eq!(SizeUnit::parse("garbage"), SizeUnit::Bytes);
    assert_eq!(SizeUnit::parse(" gib"), SizeUnit::Bytes);
    assert_eq!(SizeUnit::parse("\u{0}"), SizeUnit::Bytes);
}

#[test]
fn from_str_names_only_known_units() {
    assert_eq!(SizeUnit::from_str("gib"), Some(SizeUnit::GiB));
    assert_eq!(SizeUnit::from_str(""), Some(SizeUnit::Bytes));
    assert_eq!(SizeUnit::from_str("petabyte"), None);
    assert_eq!(SizeUnit::from_upper("KIB"), Some(SizeUnit::KiB));
    assert_eq!(SizeUnit::from_upper("kib"), None);
}

#[test]
fn divisors_and_labels() {
    let all = [
        (SizeUnit::Bytes, 1u64, "bytes"),
        (SizeUnit::KB, 1_000, "KB"),
        (SizeUnit::KiB, 1_024, "KiB"),
        (SizeUnit::MB, 1_000_000, "MB"),
        (SizeUnit::MiB, 1_048_576, "MiB"),
        (SizeUnit::GB, 1_000_000_000, "GB"),
        (SizeUnit::GiB, 1_073_741_824, "GiB"),
        (SizeUnit::TB, 1_000_000_000_000, "TB"),
        (SizeUnit::TiB, 1_099_511_627_776, "TiB"),
    ];
    for (u, d, label) in all {
        assert_eq!(u.divisor(), d);
        assert_eq!(u.name(), label);
    }
}

#[test]
fn convert_is_nonnegative_and_identity_for_bytes() {
    for b in [0u64, 1, 1023, 1024, 16_000_000_000, u64::MAX] {
        assert_eq!(SizeUnit::Bytes.convert(b), Quantity { amount: b, per_unit: 1 });
        for u in [SizeUnit::KB, SizeUnit::MiB, SizeUnit::GiB, SizeUnit::TiB] {
            let q = u.convert(b);
            assert_eq!(q.amount, b);
            assert!(q.per_unit > 0);
            assert!(q.amount as f64 / q.per_unit as f64 >= 0.0);
        }
    }
    let q = SizeUnit::KiB.convert(2048);
    assert_eq!(q.amount as f64 / q.per_unit as f64, 2.0);
}

#[test]
fn unit_arguments_default_to_bytes() {
    assert_eq!(unit_argument(None), SizeUnit::Bytes);
    assert_eq!(unit_argument(Some("mib")), SizeUnit::MiB);
    assert_eq!(unit_argument(Some("nonsense")), SizeUnit::Bytes);
    assert_eq!(quoted_unit_argument(Some("\"gb\"")), SizeUnit::GB);
    assert_eq!(quoted_unit_argument(Some("\"\"")), SizeUnit::Bytes);
    assert_eq!(quoted_unit_argument(None), SizeUnit::Bytes);
}

#[test]
fn filters_strip_quotes_and_treat_empty_as_none() {
    assert_eq!(text_filter(Some("\"PATH\"")), Some("PATH".to_string()));
    assert_eq!(text_filter(Some("\"\"")), None);
    assert_eq!(text_filter(None), None);
    assert_eq!(protocol_filter(Some("\"tcp\"")), Some("TCP".to_string()));
    assert_eq!(protocol_filter(Some("udp")), Some("UDP".to_string()));
    assert_eq!(protocol_filter(Some("")), None);
    assert_eq!(pid_filter(Some("\"1234\"")), Some(1234));
    assert_eq!(pid_filter(Some("+7")), Some(7));
    assert_eq!(pid_filter(Some("4294967295")), Some(u32::MAX));
    assert_eq!(pid_filter(Some("4294967296")), None);
    assert_eq!(pid_filter(Some("-1")), None);
    assert_eq!(pid_filter(Some("12a")), None);
    assert_eq!(pid_filter(Some("")), None);
    assert_eq!(pid_filter(None), None);
}
