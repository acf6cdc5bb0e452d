use ttop::quantity::Size;
use ttop::text::{join_spaces, u64_string};

#[test]
fn scale_zero_is_zero_k() {
    let s = Size::convent_from(0);
    assert_eq!(s.unit(), 'k');
    assert_eq!(s.format(), "0.00k");
}

#[test]
fn scale_8000_stays_at_k() {
    // 8000 / 8 = 1000, and 1000 < 1024 stays at the smallest unit.
    let s = Size::convent_from(8000);
    assert_eq!(s.unit(), 'k');
    assert_eq!(s.format(), "1000.00k");
}

#[test]
fn scale_one_mega() {
    // 8192 / 8 = 1024 crosses into the second tier exactly once.
    let s = Size::convent_from(8192);
    assert_eq!(s.unit(), 'M');
    assert_eq!(s.format(), "1.00M");
}

#[test]
fn scale_rounds_half_up_to_two_decimals() {
    // 12345 / 8192 = 1.50695..., which rounds to 1.51.
    let s = Size::convent_from(12345);
    assert_eq!(s.format(), "1.51M");
}

#[test]
fn scale_units_walk_the_tiers() {
    assert_eq!(Size::convent_from(7).unit(), 'k');
    assert_eq!(Size::convent_from(8191).unit(), 'k');
    assert_eq!(Size::convent_from(8192).unit(), 'M');
    assert_eq!(Size::convent_from(8388608).unit(), 'G');
    assert_eq!(Size::convent_from(8589934592).unit(), 'T');
    assert_eq!(Size::convent_from(8796093022208).unit(), 'P');
    assert_eq!(Size::convent_from(u64::MAX).unit(), 'P');
}

#[test]
fn scale_magnitude_below_1024_except_at_largest() {
    // At every unit below the largest the magnitude stays below 1024;
    // at the largest no further division happens.
    let samples: Vec<u64> = vec![0, 7, 8, 8000, 8192, 123456789, 8388608, u64::MAX];
    for raw in samples {
        let s = Size::convent_from(raw);
        let text = s.format();
        let unit = text.chars().last().unwrap();
        assert!(matches!(unit, 'k' | 'M' | 'G' | 'T' | 'P'));
        let magnitude: f64 = text[..text.len() - 1].parse().unwrap();
        if unit != 'P' {
            assert!(magnitude < 1024.0);
        }
    }
}

#[test]
fn digits_render_in_decimal() {
    assert_eq!(u64_string(0), "0");
    assert_eq!(u64_string(7), "7");
    assert_eq!(u64_string(1024), "1024");
    assert_eq!(u64_string(u64::MAX), "18446744073709551615");
}

#[test]
fn words_join_with_single_spaces() {
    assert_eq!(join_spaces(&vec![]), "");
    assert_eq!(join_spaces(&vec!["top".to_string()]), "top");
    let cmd = vec!["/bin/foo".to_string(), "-x".to_string(), "7".to_string()];
    assert_eq!(join_spaces(&cmd), "/bin/foo -x 7");
}
