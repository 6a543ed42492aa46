use astro_calc::angle::{normalize_longitude, FULL_CIRCLE, MICRO_PER_DEGREE};
use astro_calc::chart::ZodiacSign;

const DEG: i64 = MICRO_PER_DEGREE;

#[test]
fn test_normalize_applies_calibration_offset() {
    // One degree is subtracted from every raw longitude before wrapping.
    assert_eq!(normalize_longitude(10 * DEG), (9 * DEG) as u32);
    assert_eq!(normalize_longitude(0), (359 * DEG) as u32);
    assert_eq!(normalize_longitude(361 * DEG), 0);
}

#[test]
fn test_normalize_range() {
    let samples: Vec<i64> = vec![
        -720 * DEG,
        -359 * DEG,
        -1,
        0,
        1,
        359 * DEG,
        360 * DEG,
        123_456_789,
        99_999 * DEG,
        -99_999 * DEG,
    ];
    for raw in samples {
        let n = normalize_longitude(raw);
        assert!((n as i64) < FULL_CIRCLE);
    }
}

#[test]
fn test_normalize_periodic() {
    let samples: Vec<i64> = vec![0, 50 * DEG, -50 * DEG, 359 * DEG, 123_456_789];
    for raw in samples {
        assert_eq!(normalize_longitude(raw), normalize_longitude(raw + 360 * DEG));
    }
}

#[test]
fn test_normalize_negative_input() {
    // -1 degree calibrates to -2 and wraps to 358.
    assert_eq!(normalize_longitude(-DEG), (358 * DEG) as u32);
}

#[test]
fn test_sign_band_endpoints() {
    assert_eq!(ZodiacSign::from_longitude(0), ZodiacSign::Aries);
    // 359.999 degrees is still Pisces.
    assert_eq!(ZodiacSign::from_longitude(359_999_000), ZodiacSign::Pisces);
}

#[test]
fn test_sign_advances_at_band_boundaries() {
    let signs = vec![
        ZodiacSign::Aries,
        ZodiacSign::Taurus,
        ZodiacSign::Gemini,
        ZodiacSign::Cancer,
        ZodiacSign::Leo,
        ZodiacSign::Virgo,
        ZodiacSign::Libra,
        ZodiacSign::Scorpio,
        ZodiacSign::Sagittarius,
        ZodiacSign::Capricorn,
        ZodiacSign::Aquarius,
        ZodiacSign::Pisces,
    ];
    for (k, sign) in signs.iter().enumerate() {
        let start = (k as u32) * 30_000_000;
        // Constant on the half-open band, advancing exactly at the boundary.
        assert_eq!(ZodiacSign::from_longitude(start), *sign);
        assert_eq!(ZodiacSign::from_longitude(start + 15_000_000), *sign);
        assert_eq!(ZodiacSign::from_longitude(start + 29_999_999), *sign);
        if k > 0 {
            assert_ne!(ZodiacSign::from_longitude(start - 1), *sign);
        }
    }
}

#[test]
fn test_sign_names() {
    assert_eq!(ZodiacSign::Aries.to_string(), "Aries");
    assert_eq!(ZodiacSign::Pisces.to_string(), "Pisces");
    assert_eq!(ZodiacSign::Sagittarius.to_string(), "Sagittarius");
}
