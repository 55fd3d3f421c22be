use checkpoint_ctl::config::{CheckpointConfig, DatabaseConfig};
use checkpoint_ctl::error::ConfigError;

fn base_config() -> CheckpointConfig {
    CheckpointConfig {
        max_interval: 60_000,
        min_interval: 5_000,
        max_wal_size: 1024 * 1024 * 1024,
        dirty_page_soft_limit_pct: 70,
        dirty_page_hard_limit_pct: 90,
        checkpoint_batch_size: 256,
        async_checkpoint: true,
    }
}

#[test]
fn default_matches_standard_values() {
    let c = CheckpointConfig::default();
    assert_eq!(c.max_interval, 60_000);
    assert_eq!(c.min_interval, 5_000);
    assert_eq!(c.max_wal_size, 1024 * 1024 * 1024);
    assert_eq!(c.dirty_page_soft_limit_pct, 70);
    assert_eq!(c.dirty_page_hard_limit_pct, 90);
    assert_eq!(c.checkpoint_batch_size, 256);
    assert!(c.async_checkpoint);
    assert!(c.validate().is_ok());
}

#[test]
fn valid_config_passes_validation() {
    assert!(base_config().validate().is_ok());
}

#[test]
fn zero_min_interval_rejected() {
    let mut c = base_config();
    c.min_interval = 0;
    assert_eq!(c.validate(), Err(ConfigError::ZeroMinInterval));
}

#[test]
fn max_interval_not_above_min_rejected() {
    let mut c = base_config();
    c.max_interval = c.min_interval;
    assert_eq!(c.validate(), Err(ConfigError::MaxIntervalNotAboveMin));
}

#[test]
fn zero_wal_size_rejected() {
    let mut c = base_config();
    c.max_wal_size = 0;
    assert_eq!(c.validate(), Err(ConfigError::ZeroMaxWalSize));
}

#[test]
fn zero_soft_limit_rejected() {
    let mut c = base_config();
    c.dirty_page_soft_limit_pct = 0;
    assert_eq!(c.validate(), Err(ConfigError::ZeroSoftLimit));
}

#[test]
fn hard_limit_not_above_soft_rejected() {
    let mut c = base_config();
    c.dirty_page_hard_limit_pct = c.dirty_page_soft_limit_pct;
    assert_eq!(c.validate(), Err(ConfigError::HardLimitNotAboveSoft));
    c.dirty_page_hard_limit_pct = c.dirty_page_soft_limit_pct - 1;
    assert_eq!(c.validate(), Err(ConfigError::HardLimitNotAboveSoft));
}

#[test]
fn hard_limit_above_full_rejected() {
    let mut c = base_config();
    c.dirty_page_hard_limit_pct = 101;
    assert_eq!(c.validate(), Err(ConfigError::HardLimitAboveFull));
}

#[test]
fn zero_batch_size_rejected() {
    let mut c = base_config();
    c.checkpoint_batch_size = 0;
    assert_eq!(c.validate(), Err(ConfigError::ZeroBatchSize));
}

#[test]
fn hard_limit_of_exactly_full_pool_accepted() {
    let mut c = base_config();
    c.dirty_page_hard_limit_pct = 100;
    assert!(c.validate().is_ok());
}

#[test]
fn database_config_carries_checkpoint_knobs() {
    let db = DatabaseConfig {
        buffer_pool_size: 1000,
        page_size: 4096,
        checkpoint: base_config(),
    };
    assert_eq!(db.buffer_pool_size, 1000);
    assert_eq!(db.page_size, 4096);
    assert_eq!(db.checkpoint, base_config());
}
