use prior_notebook::engine::error::ConfigError;
use prior_notebook::engine::rag::{RagConfig, RagEngine};
use prior_notebook::engine::score::Score;
use prior_notebook::engine::text::{code_points, decimal_text, string_of};

fn score(value: f32) -> Score {
    Score::from_bits(value.to_bits())
}

fn sample_values() -> Vec<f32> {
    let mut values = vec![
        0.0,
        -0.0,
        0.7,
        0.9,
        0.75,
        0.65,
        1.0,
        0.125,
        0.375,
        0.625,
        0.875,
        0.005,
        0.015,
        0.995,
        0.999,
        1.005,
        2.5,
        0.5,
        0.004999,
        0.00499,
        9.995,
        99.995,
        123456.789,
        16777216.0,
        33554432.0,
        1.0e10,
        1.0e20,
        1.0e30,
        3.4e38,
        f32::MAX,
        f32::MIN_POSITIVE,
        1.0e-45,
        1.0e-10,
        -1.5,
        -0.001,
        -0.125,
        -123.456,
        f32::INFINITY,
        f32::NEG_INFINITY,
        f32::NAN,
    ];
    let mut seed: u32 = 0x1234_5678;
    for _ in 0..4000 {
        seed ^= seed << 13;
        seed ^= seed >> 17;
        seed ^= seed << 5;
        values.push(f32::from_bits(seed));
        values.push((seed % 100_000) as f32 / 1000.0);
        values.push((seed % 1000) as f32 / 8.0);
    }
    values
}

#[test]
fn render_agrees_with_two_decimal_formatting() {
    for value in sample_values() {
        assert_eq!(score(value).render(), format!("{:.2}", value), "bits {:#x}", value.to_bits());
    }
}

#[test]
fn render_exact_values() {
    assert_eq!(score(0.9).render(), "0.90");
    assert_eq!(score(0.75).render(), "0.75");
    assert_eq!(score(0.125).render(), "0.12");
    assert_eq!(score(0.375).render(), "0.38");
    assert_eq!(score(1.0).render(), "1.00");
    assert_eq!(score(-0.0).render(), "-0.00");
    assert_eq!(score(-1.5).render(), "-1.50");
    assert_eq!(score(16777216.0).render(), "16777216.00");
    assert_eq!(score(f32::MAX).render(), "340282346638528859811704183484516925440.00");
    assert_eq!(score(f32::NAN).render(), "NaN");
    assert_eq!(score(f32::INFINITY).render(), "inf");
    assert_eq!(score(f32::NEG_INFINITY).render(), "-inf");
    assert_eq!(Score::from_bits(1).render(), "0.00");
}

#[test]
fn at_least_agrees_with_the_numbers() {
    let values = sample_values();
    for (i, a) in values.iter().enumerate() {
        for b in values.iter().skip(i % 7).step_by(11).take(40) {
            assert_eq!(score(*a).at_least(score(*b)), a >= b, "{} >= {}", a, b);
        }
    }
}

#[test]
fn threshold_is_inclusive() {
    let threshold = score(0.7);
    assert!(score(0.7).at_least(threshold));
    let below = Score::from_bits(0.7f32.to_bits() - 1);
    assert!(!below.at_least(threshold));
    let above = Score::from_bits(0.7f32.to_bits() + 1);
    assert!(above.at_least(threshold));
    assert!(score(0.0).at_least(score(-0.0)));
    assert!(score(-0.0).at_least(score(0.0)));
    assert!(!Score::from_bits(0x8000_0001).at_least(score(0.0)));
    assert!(!score(f32::NAN).at_least(threshold));
    assert!(!score(0.9).at_least(score(f32::NAN)));
}

#[test]
fn bits_round_trip() {
    assert_eq!(Score::from_bits(0x3f33_3333).to_bits(), 0x3f33_3333);
    assert_eq!(score(0.7).bits, 0x3f33_3333);
}

#[test]
fn fractions_lie_between_zero_and_one() {
    assert!(score(0.0).is_fraction());
    assert!(score(-0.0).is_fraction());
    assert!(score(0.7).is_fraction());
    assert!(score(1.0).is_fraction());
    assert!(!Score::from_bits(1.0f32.to_bits() + 1).is_fraction());
    assert!(!score(-0.1).is_fraction());
    assert!(!score(f32::NAN).is_fraction());
    assert!(!score(f32::INFINITY).is_fraction());
}

#[test]
fn default_config_is_the_documented_one() {
    let config = RagConfig::default();
    assert_eq!(config.chunk_size, 512);
    assert_eq!(config.chunk_overlap, 50);
    assert_eq!(config.search_limit, 10);
    assert_eq!(config.similarity_threshold.to_bits(), 0.7f32.to_bits());
    assert_eq!(config.validate(), Ok(()));
}

#[test]
fn invalid_configs_are_refused() {
    let mut config = RagConfig::default();
    config.chunk_overlap = 512;
    assert_eq!(config.validate(), Err(ConfigError::OverlapNotBelowChunkSize));
    assert!(matches!(RagEngine::new(config), Err(ConfigError::OverlapNotBelowChunkSize)));
    config.chunk_overlap = 600;
    config.similarity_threshold = score(2.0);
    assert_eq!(config.validate(), Err(ConfigError::OverlapNotBelowChunkSize));
    config.chunk_overlap = 511;
    assert_eq!(config.validate(), Err(ConfigError::ThresholdOutOfRange));
    assert!(matches!(RagEngine::new(config), Err(ConfigError::ThresholdOutOfRange)));
    config.similarity_threshold = score(f32::NAN);
    assert_eq!(config.validate(), Err(ConfigError::ThresholdOutOfRange));
    config.similarity_threshold = score(-0.5);
    assert_eq!(config.validate(), Err(ConfigError::ThresholdOutOfRange));
    config.similarity_threshold = score(1.0);
    assert_eq!(config.validate(), Ok(()));
    config.chunk_size = 0;
    config.chunk_overlap = 0;
    assert_eq!(config.validate(), Err(ConfigError::OverlapNotBelowChunkSize));
    assert_eq!(
        ConfigError::OverlapNotBelowChunkSize.message(),
        "chunk overlap must be smaller than chunk size"
    );
    assert_eq!(
        ConfigError::ThresholdOutOfRange.message(),
        "similarity threshold must lie between 0 and 1"
    );
}

#[test]
fn engine_keeps_its_config() {
    let mut config = RagConfig::default();
    config.search_limit = 3;
    let engine = RagEngine::new(config).unwrap();
    assert_eq!(engine.config().search_limit, 3);
    assert_eq!(engine.config().chunk_size, 512);
}

#[test]
fn decimal_text_writes_numbers() {
    assert_eq!(decimal_text(0), "0");
    assert_eq!(decimal_text(7), "7");
    assert_eq!(decimal_text(10), "10");
    assert_eq!(decimal_text(1905), "1905");
    assert_eq!(decimal_text(u128::MAX), u128::MAX.to_string());
}

#[test]
fn code_points_and_back() {
    let chars = code_points("aé😀z");
    assert_eq!(chars, vec!['a', 'é', '😀', 'z']);
    assert_eq!(string_of(&chars, 1, 3), "é😀");
    assert_eq!(string_of(&chars, 2, 2), "");
}
