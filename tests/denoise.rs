use phantomlink::denoise::{
    adapt_mode, plan_tiers, AdvancedDenoisingConfig, AdvancedDenoisingSystem, Adaptation, DenoiserTier,
    DenoisingMode, PerformanceMonitor, PerformanceSample, TierAvailability,
};

fn all_tiers() -> TierAvailability {
    TierAvailability { rnnoise: true, deep_learning: true, spectral: true }
}

fn sample(cpu: u64, latency: u64) -> PerformanceSample {
    PerformanceSample { cpu_usage_centipercent: cpu, latency_us: latency }
}

#[test]
fn basic_mode_runs_fast_tier_only() {
    assert_eq!(plan_tiers(DenoisingMode::Basic, all_tiers()), vec![DenoiserTier::RNNoise]);
}

#[test]
fn enhanced_mode_runs_two_tiers_in_order() {
    assert_eq!(
        plan_tiers(DenoisingMode::Enhanced, all_tiers()),
        vec![DenoiserTier::RNNoise, DenoiserTier::DeepLearning]
    );
}

#[test]
fn maximum_mode_runs_all_tiers_in_order() {
    assert_eq!(
        plan_tiers(DenoisingMode::Maximum, all_tiers()),
        vec![DenoiserTier::RNNoise, DenoiserTier::DeepLearning, DenoiserTier::Spectral]
    );
}

#[test]
fn custom_mode_runs_flagged_tiers_in_fixed_order() {
    let mode = DenoisingMode::Custom { use_rnnoise: false, use_deep_learning: true, use_spectral: true };
    assert_eq!(plan_tiers(mode, all_tiers()), vec![DenoiserTier::DeepLearning, DenoiserTier::Spectral]);
}

#[test]
fn unavailable_tiers_are_skipped() {
    let avail = TierAvailability { rnnoise: true, deep_learning: false, spectral: false };
    assert_eq!(plan_tiers(DenoisingMode::Maximum, avail), vec![DenoiserTier::RNNoise]);
}

#[test]
fn adapt_moves_one_level() {
    assert_eq!(adapt_mode(DenoisingMode::Maximum, Adaptation::Downgrade), DenoisingMode::Enhanced);
    assert_eq!(adapt_mode(DenoisingMode::Enhanced, Adaptation::Downgrade), DenoisingMode::Basic);
    assert_eq!(adapt_mode(DenoisingMode::Basic, Adaptation::Downgrade), DenoisingMode::Basic);
    assert_eq!(adapt_mode(DenoisingMode::Basic, Adaptation::Upgrade), DenoisingMode::Enhanced);
    assert_eq!(adapt_mode(DenoisingMode::Enhanced, Adaptation::Upgrade), DenoisingMode::Maximum);
    assert_eq!(adapt_mode(DenoisingMode::Maximum, Adaptation::Upgrade), DenoisingMode::Maximum);
    let custom = DenoisingMode::Custom { use_rnnoise: true, use_deep_learning: false, use_spectral: true };
    assert_eq!(adapt_mode(custom, Adaptation::Downgrade), custom);
}

#[test]
fn monitor_keeps_last_hundred_samples() {
    let mut m = PerformanceMonitor::new();
    for i in 0..150u64 {
        m.update(sample(i, 0));
    }
    // samples 50..150 remain
    let (cpu, latency) = m.totals();
    assert_eq!(cpu, (50..150u128).sum::<u128>());
    assert_eq!(latency, 0);
}

#[test]
fn monitor_decisions() {
    let mut m = PerformanceMonitor::new();
    // empty history averages zero: room to upgrade when maxima are positive
    assert_eq!(m.adaptation(2500, 50_000), Adaptation::Upgrade);
    m.update(sample(3000, 10_000));
    assert_eq!(m.adaptation(2500, 50_000), Adaptation::Downgrade);
    m.update(sample(1000, 10_000));
    // average cpu 2000: not over 2500, not under 1750
    assert_eq!(m.adaptation(2500, 50_000), Adaptation::Hold);
    m.update(sample(0, 10_000));
    // average cpu 1333: under 70% of 2500; latency 10000 under 35000
    assert_eq!(m.adaptation(2500, 50_000), Adaptation::Upgrade);
    // latency alone over its maximum
    assert_eq!(m.adaptation(2500, 5_000), Adaptation::Downgrade);
}

#[test]
fn new_system_is_disabled_and_ready() {
    let sys = AdvancedDenoisingSystem::new(AdvancedDenoisingConfig::default());
    assert!(!sys.is_enabled());
    assert!(sys.is_ready());
    assert_eq!(sys.get_mode(), DenoisingMode::Enhanced);
    assert_eq!(sys.get_latency(), 0);
    assert_eq!(sys.get_cpu_usage(), 0);
    assert!(sys.planned_tiers().is_empty());
}

#[test]
fn default_config_values() {
    let c = AdvancedDenoisingConfig::default();
    assert_eq!(c.sample_rate, 48000);
    assert_eq!(c.frame_size, 480);
    assert_eq!(c.max_latency_us, 50_000);
    assert_eq!(c.max_cpu_centipercent, 2500);
    assert!(c.adaptive_mode);
}

#[test]
fn cpu_usage_is_processing_time_over_frame_duration() {
    let sys = AdvancedDenoisingSystem::new(AdvancedDenoisingConfig::default());
    // a 480-sample frame at 48 kHz lasts 10 ms
    assert_eq!(sys.estimate_cpu_usage(10_000), 10_000);
    assert_eq!(sys.estimate_cpu_usage(2_500), 2_500);
    assert_eq!(sys.estimate_cpu_usage(0), 0);
    let zero = AdvancedDenoisingSystem::new(AdvancedDenoisingConfig { frame_size: 0, ..AdvancedDenoisingConfig::default() });
    assert_eq!(zero.estimate_cpu_usage(1), u64::MAX);
}

#[test]
fn disabled_pipeline_records_nothing() {
    let mut sys = AdvancedDenoisingSystem::new(AdvancedDenoisingConfig::default());
    sys.record_cycle(9_999, 60_000);
    assert_eq!(sys.get_latency(), 0);
    assert_eq!(sys.get_mode(), DenoisingMode::Enhanced);
}

#[test]
fn enabled_pipeline_plans_mode_tiers() {
    let mut sys = AdvancedDenoisingSystem::new(AdvancedDenoisingConfig::default());
    sys.set_enabled(true);
    // only the fast tier is loaded
    assert_eq!(sys.planned_tiers(), vec![DenoiserTier::RNNoise]);
    assert_eq!(sys.get_available_modes(), vec![DenoisingMode::Basic]);
}

#[test]
fn overloaded_history_downgrades_one_level_after_window() {
    let mut sys = AdvancedDenoisingSystem::new(AdvancedDenoisingConfig { mode: DenoisingMode::Maximum, ..AdvancedDenoisingConfig::default() });
    sys.set_enabled(true);
    // 20 ms per 10 ms frame: 200% CPU, well over 25%
    for t in 0..10u64 {
        sys.record_cycle(20_000, t * 100);
    }
    assert_eq!(sys.get_mode(), DenoisingMode::Maximum);
    sys.record_cycle(20_000, 5_000);
    assert_eq!(sys.get_mode(), DenoisingMode::Enhanced);
    assert_eq!(sys.get_latency(), 20_000);
    assert_eq!(sys.get_cpu_usage(), 20_000);
    // within the next window nothing changes
    sys.record_cycle(20_000, 6_000);
    assert_eq!(sys.get_mode(), DenoisingMode::Enhanced);
    sys.record_cycle(20_000, 10_000);
    assert_eq!(sys.get_mode(), DenoisingMode::Basic);
}

#[test]
fn idle_history_upgrades_one_level_after_window() {
    let mut sys = AdvancedDenoisingSystem::new(AdvancedDenoisingConfig { mode: DenoisingMode::Basic, ..AdvancedDenoisingConfig::default() });
    sys.set_enabled(true);
    sys.record_cycle(100, 1_000);
    assert_eq!(sys.get_mode(), DenoisingMode::Basic);
    sys.record_cycle(100, 5_000);
    assert_eq!(sys.get_mode(), DenoisingMode::Enhanced);
    sys.record_cycle(100, 10_000);
    assert_eq!(sys.get_mode(), DenoisingMode::Maximum);
    sys.record_cycle(100, 15_000);
    assert_eq!(sys.get_mode(), DenoisingMode::Maximum);
}

#[test]
fn non_adaptive_pipeline_keeps_mode() {
    let mut sys = AdvancedDenoisingSystem::new(AdvancedDenoisingConfig { adaptive_mode: false, ..AdvancedDenoisingConfig::default() });
    sys.set_enabled(true);
    sys.record_cycle(90_000, 60_000);
    assert_eq!(sys.get_mode(), DenoisingMode::Enhanced);
}

#[test]
fn set_mode_and_update_config() {
    let mut sys = AdvancedDenoisingSystem::new(AdvancedDenoisingConfig::default());
    sys.set_mode(DenoisingMode::Basic);
    assert_eq!(sys.get_mode(), DenoisingMode::Basic);
    sys.update_config(AdvancedDenoisingConfig { mode: DenoisingMode::Maximum, ..AdvancedDenoisingConfig::default() });
    assert_eq!(sys.get_mode(), DenoisingMode::Maximum);
    assert!(sys.is_ready());
    let m = sys.get_metrics();
    assert_eq!(m.latency_us, 0);
}
