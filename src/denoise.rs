//! Multi-tier denoising: the mode state machine that decides which tiers run,
//! the rolling performance history, and the adaptive controller that moves the
//! mode one level at a time.
//!
//! Time is measured in whole microseconds and CPU load in hundredths of a
//! percent of the frame budget, so every comparison below is exact.
use vstd::prelude::*;

verus! {

/// Denoising modes available in the multi-tier system.
#[derive(Debug, Clone, Copy, PartialEq, Eq, Structural)]
pub enum DenoisingMode {
    /// The fast tier only.
    Basic,
    /// The fast tier, then the higher-quality tier.
    Enhanced,
    /// All three tiers in series.
    Maximum,
    /// Exactly the flagged tiers, in the fixed order.
    Custom { use_rnnoise: bool, use_deep_learning: bool, use_spectral: bool },
}

/// One stage of the pipeline.
#[derive(Debug, Clone, Copy, PartialEq, Eq, Structural)]
pub enum DenoiserTier {
    RNNoise,
    DeepLearning,
    Spectral,
}

/// Which tiers are loaded and can run.
#[derive(Debug, Clone, Copy, PartialEq, Eq, Structural)]
pub struct TierAvailability {
    pub rnnoise: bool,
    pub deep_learning: bool,
    pub spectral: bool,
}

/// Whether `mode` asks for `tier`.
pub open spec fn mode_selects(mode: DenoisingMode, tier: DenoiserTier) -> bool {
    match mode {
        DenoisingMode::Basic => tier == DenoiserTier::RNNoise,
        DenoisingMode::Enhanced => tier == DenoiserTier::RNNoise || tier == DenoiserTier::DeepLearning,
        DenoisingMode::Maximum => true,
        DenoisingMode::Custom { use_rnnoise, use_deep_learning, use_spectral } => match tier {
            DenoiserTier::RNNoise => use_rnnoise,
            DenoiserTier::DeepLearning => use_deep_learning,
            DenoiserTier::Spectral => use_spectral,
        },
    }
}

pub open spec fn is_available(avail: TierAvailability, tier: DenoiserTier) -> bool {
    match tier {
        DenoiserTier::RNNoise => avail.rnnoise,
        DenoiserTier::DeepLearning => avail.deep_learning,
        DenoiserTier::Spectral => avail.spectral,
    }
}

pub open spec fn stage(mode: DenoisingMode, avail: TierAvailability, tier: DenoiserTier) -> Seq<
    DenoiserTier,
> {
    if mode_selects(mode, tier) && is_available(avail, tier) {
        seq![tier]
    } else {
        Seq::empty()
    }
}

/// The tiers that run for `mode`, in the fixed order; unavailable tiers are skipped.
pub open spec fn tier_plan(mode: DenoisingMode, avail: TierAvailability) -> Seq<DenoiserTier> {
    stage(mode, avail, DenoiserTier::RNNoise) + stage(mode, avail, DenoiserTier::DeepLearning)
        + stage(mode, avail, DenoiserTier::Spectral)
}

/// Position of a preset mode on the quality ladder; custom modes are off the ladder.
pub open spec fn mode_level(mode: DenoisingMode) -> Option<int> {
    match mode {
        DenoisingMode::Basic => Some(0int),
        DenoisingMode::Enhanced => Some(1int),
        DenoisingMode::Maximum => Some(2int),
        DenoisingMode::Custom { .. } => None,
    }
}

/// What the adaptive controller decided in one cycle.
#[derive(Debug, Clone, Copy, PartialEq, Eq, Structural)]
pub enum Adaptation {
    Downgrade,
    Upgrade,
    Hold,
}

pub open spec fn adapted_mode(mode: DenoisingMode, a: Adaptation) -> DenoisingMode {
    match (a, mode) {
        (Adaptation::Downgrade, DenoisingMode::Maximum) => DenoisingMode::Enhanced,
        (Adaptation::Downgrade, DenoisingMode::Enhanced) => DenoisingMode::Basic,
        (Adaptation::Upgrade, DenoisingMode::Basic) => DenoisingMode::Enhanced,
        (Adaptation::Upgrade, DenoisingMode::Enhanced) => DenoisingMode::Maximum,
        _ => mode,
    }
}

/// The tiers that `mode` runs when the given tiers are available, in order.
pub fn plan_tiers(mode: DenoisingMode, avail: TierAvailability) -> (r: Vec<DenoiserTier>)
    ensures
        r@ == tier_plan(mode, avail),
{
    let mut r: Vec<DenoiserTier> = Vec::new();
    let first = match mode {
        DenoisingMode::Custom { use_rnnoise, .. } => use_rnnoise,
        _ => true,
    };
    let second = match mode {
        DenoisingMode::Basic => false,
        DenoisingMode::Custom { use_deep_learning, .. } => use_deep_learning,
        _ => true,
    };
    let third = match mode {
        DenoisingMode::Maximum => true,
        DenoisingMode::Custom { use_spectral, .. } => use_spectral,
        _ => false,
    };
    if first && avail.rnnoise {
        r.push(DenoiserTier::RNNoise);
    }
    if second && avail.deep_learning {
        r.push(DenoiserTier::DeepLearning);
    }
    if third && avail.spectral {
        r.push(DenoiserTier::Spectral);
    }
    assert(r@ =~= tier_plan(mode, avail));
    r
}

/// The mode after one adaptation step.
pub fn adapt_mode(mode: DenoisingMode, a: Adaptation) -> (r: DenoisingMode)
    ensures
        r == adapted_mode(mode, a),
{
    match (a, mode) {
        (Adaptation::Downgrade, DenoisingMode::Maximum) => DenoisingMode::Enhanced,
        (Adaptation::Downgrade, DenoisingMode::Enhanced) => DenoisingMode::Basic,
        (Adaptation::Upgrade, DenoisingMode::Basic) => DenoisingMode::Enhanced,
        (Adaptation::Upgrade, DenoisingMode::Enhanced) => DenoisingMode::Maximum,
        _ => mode,
    }
}

/// An adaptation step moves a preset mode at most one level, never leaves the
/// ladder, and leaves a custom mode alone; a downgrade from above the bottom
/// lowers the level by exactly one, an upgrade from below the top raises it by
/// exactly one.
pub proof fn lemma_adaptation_moves_one_level(mode: DenoisingMode, a: Adaptation)
    ensures
        mode_level(mode) is None ==> adapted_mode(mode, a) == mode,
        mode_level(mode) is Some ==> mode_level(adapted_mode(mode, a)) is Some,
        mode_level(mode) is Some ==> {
            let before = mode_level(mode)->0;
            let after = mode_level(adapted_mode(mode, a))->0;
            &&& before - 1 <= after <= before + 1
            &&& a == Adaptation::Downgrade && before > 0 ==> after == before - 1
            &&& a == Adaptation::Upgrade && before < 2 ==> after == before + 1
            &&& a == Adaptation::Hold ==> after == before
        },
{
}

/// Capacity of the rolling performance history.
pub const HISTORY_CAPACITY: usize = 100;

/// Shortest time between two adaptation cycles, in milliseconds.
pub const ADAPT_INTERVAL_MS: u64 = 5000;

/// One processing cycle's measured cost.
#[derive(Debug, Clone, Copy, PartialEq, Eq, Structural)]
pub struct PerformanceSample {
    /// Processing time over frame duration, in hundredths of a percent.
    pub cpu_usage_centipercent: u64,
    /// Wall-clock processing time, in microseconds.
    pub latency_us: u64,
}

pub open spec fn cpu_total(s: Seq<PerformanceSample>) -> int
    decreases s.len(),
{
    if s.len() == 0 {
        0
    } else {
        cpu_total(s.drop_last()) + s.last().cpu_usage_centipercent
    }
}

pub open spec fn latency_total(s: Seq<PerformanceSample>) -> int
    decreases s.len(),
{
    if s.len() == 0 {
        0
    } else {
        latency_total(s.drop_last()) + s.last().latency_us
    }
}

/// The average `total / n` is above `max` (an empty history averages zero).
pub open spec fn average_exceeds(total: int, n: int, max: int) -> bool {
    if n == 0 {
        0 > max
    } else {
        total > max * n
    }
}

/// The average `total / n` is below 70% of `max` (an empty history averages zero).
pub open spec fn average_has_headroom(total: int, n: int, max: int) -> bool {
    if n == 0 {
        0 < 7 * max
    } else {
        10 * total < 7 * (max * n)
    }
}

/// The controller's decision for a history: downgrade when either average is
/// over its maximum, upgrade when both are under 70% of theirs.
pub open spec fn adaptation_for(hist: Seq<PerformanceSample>, max_cpu: int, max_latency: int) -> Adaptation {
    let n = hist.len() as int;
    if average_exceeds(cpu_total(hist), n, max_cpu) || average_exceeds(latency_total(hist), n, max_latency) {
        Adaptation::Downgrade
    } else if average_has_headroom(cpu_total(hist), n, max_cpu) && average_has_headroom(latency_total(hist), n, max_latency) {
        Adaptation::Upgrade
    } else {
        Adaptation::Hold
    }
}

/// The history after recording `s`: appended, the oldest evicted once full.
pub open spec fn recorded(hist: Seq<PerformanceSample>, s: PerformanceSample) -> Seq<PerformanceSample> {
    if hist.len() < HISTORY_CAPACITY {
        hist.push(s)
    } else {
        hist.subrange(1, hist.len() as int).push(s)
    }
}

/// Bounded rolling history of performance samples.
pub struct PerformanceMonitor {
    history: Vec<PerformanceSample>,
}

impl View for PerformanceMonitor {
    type V = Seq<PerformanceSample>;

    closed spec fn view(&self) -> Seq<PerformanceSample> {
        self.history@
    }
}

impl PerformanceMonitor {
    pub open spec fn wf(&self) -> bool {
        self@.len() <= HISTORY_CAPACITY
    }

    pub fn new() -> (r: Self)
        ensures
            r@ == Seq::<PerformanceSample>::empty(),
            r.wf(),
    {
        PerformanceMonitor { history: Vec::new() }
    }

    /// Appends a sample, evicting the oldest when the history is full.
    pub fn update(&mut self, sample: PerformanceSample)
        requires
            old(self).wf(),
        ensures
            final(self).wf(),
            final(self)@ == recorded(old(self)@, sample),
    {
        self.history.push(sample);
        if self.history.len() > HISTORY_CAPACITY {
            self.history.remove(0);
        }
        assert(self@ =~= recorded(old(self)@, sample));
    }

    /// Sums of the CPU and latency columns.
    pub fn totals(&self) -> (r: (u128, u128))
        requires
            self.wf(),
        ensures
            r.0 == cpu_total(self@),
            r.1 == latency_total(self@),
    {
        let mut cpu: u128 = 0;
        let mut latency: u128 = 0;
        let mut i: usize = 0;
        while i < self.history.len()
            invariant
                self.wf(),
                i <= self@.len(),
                cpu == cpu_total(self@.take(i as int)),
                latency == latency_total(self@.take(i as int)),
                cpu <= i * 0xFFFF_FFFF_FFFF_FFFFint,
                latency <= i * 0xFFFF_FFFF_FFFF_FFFFint,
            decreases self@.len() - i,
        {
            let s = self.history[i];
            assert(self@.take(i as int + 1).drop_last() =~= self@.take(i as int));
            cpu = cpu + s.cpu_usage_centipercent as u128;
            latency = latency + s.latency_us as u128;
            i = i + 1;
        }
        assert(self@.take(i as int) =~= self@);
        (cpu, latency)
    }

    /// The decision that the current history calls for.
    pub fn adaptation(&self, max_cpu: u64, max_latency: u64) -> (r: Adaptation)
        requires
            self.wf(),
        ensures
            r == adaptation_for(self@, max_cpu as int, max_latency as int),
    {
        let (cpu, latency) = self.totals();
        let n = self.history.len() as u128;
        let mc = max_cpu as u128;
        let ml = max_latency as u128;
        assert(cpu <= n * 0xFFFF_FFFF_FFFF_FFFFint && latency <= n * 0xFFFF_FFFF_FFFF_FFFFint) by {
            lemma_totals_bounded(self@);
        }
        assert(mc * n <= 0xFFFF_FFFF_FFFF_FFFFint * 100) by (nonlinear_arith)
            requires mc <= 0xFFFF_FFFF_FFFF_FFFFint, n <= 100;
        assert(ml * n <= 0xFFFF_FFFF_FFFF_FFFFint * 100) by (nonlinear_arith)
            requires ml <= 0xFFFF_FFFF_FFFF_FFFFint, n <= 100;
        let (over_cpu, over_latency, room_cpu, room_latency) = if n == 0 {
            (false, false, mc > 0, ml > 0)
        } else {
            (cpu > mc * n, latency > ml * n, 10 * cpu < 7 * (mc * n), 10 * latency < 7 * (ml * n))
        };
        if over_cpu || over_latency {
            Adaptation::Downgrade
        } else if room_cpu && room_latency {
            Adaptation::Upgrade
        } else {
            Adaptation::Hold
        }
    }
}

pub proof fn lemma_totals_bounded(s: Seq<PerformanceSample>)
    ensures
        0 <= cpu_total(s) <= s.len() * 0xFFFF_FFFF_FFFF_FFFFint,
        0 <= latency_total(s) <= s.len() * 0xFFFF_FFFF_FFFF_FFFFint,
    decreases s.len(),
{
    if s.len() > 0 {
        lemma_totals_bounded(s.drop_last());
    }
}

/// Settings of the denoising pipeline.
#[derive(Debug, Clone, Copy, PartialEq, Eq, Structural)]
pub struct AdvancedDenoisingConfig {
    pub mode: DenoisingMode,
    pub sample_rate: u32,
    /// Samples per processing frame.
    pub frame_size: usize,
    pub max_latency_us: u64,
    /// Highest acceptable CPU load, in hundredths of a percent.
    pub max_cpu_centipercent: u64,
    /// 0 favours speed, 100 favours quality.
    pub quality_preference_percent: u32,
    pub gpu_acceleration: bool,
    /// Whether the controller may change the mode on its own.
    pub adaptive_mode: bool,
}

impl Default for AdvancedDenoisingConfig {
    fn default() -> (r: Self)
        ensures
            r.mode == DenoisingMode::Enhanced,
            r.sample_rate == 48000,
            r.frame_size == 480,
            r.max_latency_us == 50_000,
            r.max_cpu_centipercent == 2500,
            r.quality_preference_percent == 70,
            r.gpu_acceleration,
            r.adaptive_mode,
    {
        AdvancedDenoisingConfig {
            mode: DenoisingMode::Enhanced,
            sample_rate: 48000,
            frame_size: 480,
            max_latency_us: 50_000,
            max_cpu_centipercent: 2500,
            quality_preference_percent: 70,
            gpu_acceleration: true,
            adaptive_mode: true,
        }
    }
}

/// Last measured cost of the pipeline.
#[derive(Debug, Clone, Copy, PartialEq, Eq, Structural)]
pub struct DenoisingMetrics {
    pub latency_us: u64,
    pub cpu_usage_centipercent: u64,
    pub memory_usage_kb: u64,
    /// 0 to 1000.
    pub quality_permille: u64,
}

/// CPU load of a cycle: processing time over frame duration
/// (`frame_size / sample_rate`), in hundredths of a percent, rounded down and
/// capped at `u64::MAX`; a zero-length frame counts as the cap.
pub open spec fn cpu_usage_for(processing_us: int, sample_rate: int, frame_size: int) -> int {
    if frame_size == 0 {
        0xFFFF_FFFF_FFFF_FFFFint
    } else {
        let v = (processing_us * sample_rate) / (frame_size * 100);
        if v > 0xFFFF_FFFF_FFFF_FFFFint { 0xFFFF_FFFF_FFFF_FFFFint } else { v }
    }
}

/// The modes offered when the given tiers are loaded.
pub open spec fn available_modes(avail: TierAvailability) -> Seq<DenoisingMode> {
    seq![DenoisingMode::Basic] + (if avail.deep_learning { seq![DenoisingMode::Enhanced] } else {
        Seq::empty()
    }) + (if avail.spectral { seq![DenoisingMode::Maximum] } else { Seq::empty() })
}

/// The multi-tier pipeline's control state. The sample processing of each tier
/// happens outside; this decides which tiers run, records what each cycle
/// cost, and adapts the mode.
pub struct AdvancedDenoisingSystem {
    config: AdvancedDenoisingConfig,
    tiers: TierAvailability,
    enabled: bool,
    metrics: DenoisingMetrics,
    performance_monitor: PerformanceMonitor,
    last_adaptation_ms: u64,
}

impl AdvancedDenoisingSystem {
    pub open spec fn wf(&self) -> bool {
        self.spec_history().len() <= HISTORY_CAPACITY
    }

    pub closed spec fn spec_config(&self) -> AdvancedDenoisingConfig {
        self.config
    }

    pub closed spec fn spec_tiers(&self) -> TierAvailability {
        self.tiers
    }

    pub closed spec fn spec_enabled(&self) -> bool {
        self.enabled
    }

    pub closed spec fn spec_metrics(&self) -> DenoisingMetrics {
        self.metrics
    }

    pub closed spec fn spec_history(&self) -> Seq<PerformanceSample> {
        self.performance_monitor@
    }

    pub closed spec fn spec_last_adaptation_ms(&self) -> u64 {
        self.last_adaptation_ms
    }

    /// A disabled pipeline with the fast tier loaded and an empty history.
    pub fn new(config: AdvancedDenoisingConfig) -> (r: Self)
        ensures
            r.wf(),
            r.spec_config() == config,
            r.spec_tiers() == (TierAvailability { rnnoise: true, deep_learning: false, spectral: false }),
            !r.spec_enabled(),
            r.spec_metrics() == (DenoisingMetrics { latency_us: 0, cpu_usage_centipercent: 0, memory_usage_kb: 0, quality_permille: 0 }),
            r.spec_history() == Seq::<PerformanceSample>::empty(),
            r.spec_last_adaptation_ms() == 0,
    {
        let mut system = AdvancedDenoisingSystem {
            config,
            tiers: TierAvailability { rnnoise: false, deep_learning: false, spectral: false },
            enabled: false,
            metrics: DenoisingMetrics { latency_us: 0, cpu_usage_centipercent: 0, memory_usage_kb: 0, quality_permille: 0 },
            performance_monitor: PerformanceMonitor::new(),
            last_adaptation_ms: 0,
        };
        system.initialize_denoisers();
        system
    }

    /// Marks the fast tier as loaded; the others are not available.
    fn initialize_denoisers(&mut self)
        ensures
            final(self).tiers == (TierAvailability { rnnoise: true, ..old(self).tiers }),
            final(self).config == old(self).config,
            final(self).enabled == old(self).enabled,
            final(self).metrics == old(self).metrics,
            final(self).performance_monitor == old(self).performance_monitor,
            final(self).last_adaptation_ms == old(self).last_adaptation_ms,
    {
        self.tiers.rnnoise = true;
    }

    pub fn set_mode(&mut self, mode: DenoisingMode)
        ensures
            final(self).spec_config() == (AdvancedDenoisingConfig { mode, ..old(self).spec_config() }),
            final(self).spec_tiers() == old(self).spec_tiers(),
            final(self).spec_enabled() == old(self).spec_enabled(),
            final(self).spec_metrics() == old(self).spec_metrics(),
            final(self).spec_history() == old(self).spec_history(),
            final(self).spec_last_adaptation_ms() == old(self).spec_last_adaptation_ms(),
            final(self).wf() == old(self).wf(),
    {
        self.config.mode = mode;
    }

    pub fn get_mode(&self) -> (r: DenoisingMode)
        ensures
            r == self.spec_config().mode,
    {
        self.config.mode
    }

    pub fn get_latency(&self) -> (r: u64)
        ensures
            r == self.spec_metrics().latency_us,
    {
        self.metrics.latency_us
    }

    pub fn get_cpu_usage(&self) -> (r: u64)
        ensures
            r == self.spec_metrics().cpu_usage_centipercent,
    {
        self.metrics.cpu_usage_centipercent
    }

    pub fn get_metrics(&self) -> (r: DenoisingMetrics)
        ensures
            r == self.spec_metrics(),
    {
        self.metrics
    }

    /// Ready once the fast tier is loaded.
    pub fn is_ready(&self) -> (r: bool)
        ensures
            r == self.spec_tiers().rnnoise,
    {
        self.tiers.rnnoise
    }

    pub fn set_enabled(&mut self, enabled: bool)
        ensures
            final(self).spec_enabled() == enabled,
            final(self).spec_config() == old(self).spec_config(),
            final(self).spec_tiers() == old(self).spec_tiers(),
            final(self).spec_metrics() == old(self).spec_metrics(),
            final(self).spec_history() == old(self).spec_history(),
            final(self).spec_last_adaptation_ms() == old(self).spec_last_adaptation_ms(),
            final(self).wf() == old(self).wf(),
    {
        self.enabled = enabled;
    }

    pub fn is_enabled(&self) -> (r: bool)
        ensures
            r == self.spec_enabled(),
    {
        self.enabled
    }

    /// The tiers to run on the next frame, in order: none while disabled.
    pub fn planned_tiers(&self) -> (r: Vec<DenoiserTier>)
        ensures
            r@ == (if self.spec_enabled() {
                tier_plan(self.spec_config().mode, self.spec_tiers())
            } else {
                Seq::empty()
            }),
    {
        if !self.enabled {
            return Vec::new();
        }
        plan_tiers(self.config.mode, self.tiers)
    }

    /// CPU load of a cycle that took `processing_us` microseconds.
    pub fn estimate_cpu_usage(&self, processing_us: u64) -> (r: u64)
        ensures
            r == cpu_usage_for(processing_us as int, self.spec_config().sample_rate as int, self.spec_config().frame_size as int),
    {
        if self.config.frame_size == 0 {
            return u64::MAX;
        }
        let p = processing_us as u128;
        let sr = self.config.sample_rate as u128;
        assert(p * sr <= 0xFFFF_FFFF_FFFF_FFFFint * 0xFFFF_FFFFint) by (nonlinear_arith)
            requires p <= 0xFFFF_FFFF_FFFF_FFFFint, sr <= 0xFFFF_FFFFint, p >= 0, sr >= 0;
        let num: u128 = p * sr;
        let den: u128 = self.config.frame_size as u128 * 100;
        let v = num / den;
        if v > u64::MAX as u128 {
            u64::MAX
        } else {
            v as u64
        }
    }

    /// Whether a full adaptation window has passed since the last adaptation.
    pub fn should_adapt(&self, now_ms: u64) -> (r: bool)
        ensures
            r == (now_ms >= self.spec_last_adaptation_ms() + ADAPT_INTERVAL_MS),
    {
        now_ms >= self.last_adaptation_ms && now_ms - self.last_adaptation_ms >= ADAPT_INTERVAL_MS
    }

    /// One adaptation cycle: when adaptive mode is on and a window has passed,
    /// move the mode one level as the history calls for and start a new window.
    pub fn adaptive_mode_adjustment(&mut self, now_ms: u64)
        requires
            old(self).wf(),
        ensures
            final(self).wf(),
            ({
                let due = old(self).spec_config().adaptive_mode && now_ms >= old(self).spec_last_adaptation_ms() + ADAPT_INTERVAL_MS;
                let cfg = old(self).spec_config();
                &&& final(self).spec_config() == (AdvancedDenoisingConfig {
                    mode: if due {
                        adapted_mode(cfg.mode, adaptation_for(old(self).spec_history(), cfg.max_cpu_centipercent as int, cfg.max_latency_us as int))
                    } else {
                        cfg.mode
                    },
                    ..cfg
                })
                &&& final(self).spec_last_adaptation_ms() == if due { now_ms } else { old(self).spec_last_adaptation_ms() }
            }),
            final(self).spec_tiers() == old(self).spec_tiers(),
            final(self).spec_enabled() == old(self).spec_enabled(),
            final(self).spec_metrics() == old(self).spec_metrics(),
            final(self).spec_history() == old(self).spec_history(),
    {
        if !self.config.adaptive_mode || !self.should_adapt(now_ms) {
            return;
        }
        let a = self.performance_monitor.adaptation(self.config.max_cpu_centipercent, self.config.max_latency_us);
        self.config.mode = adapt_mode(self.config.mode, a);
        self.last_adaptation_ms = now_ms;
    }

    /// Records the cost of a cycle whose tiers took `processing_us`
    /// microseconds, at `now_ms` milliseconds, then runs the adaptive
    /// controller. A disabled pipeline records nothing.
    pub fn record_cycle(&mut self, processing_us: u64, now_ms: u64)
        requires
            old(self).wf(),
        ensures
            final(self).wf(),
            !old(self).spec_enabled() ==> *final(self) == *old(self),
            old(self).spec_enabled() ==> {
                let cfg = old(self).spec_config();
                let cpu = cpu_usage_for(processing_us as int, cfg.sample_rate as int, cfg.frame_size as int);
                let sample = PerformanceSample { cpu_usage_centipercent: cpu as u64, latency_us: processing_us };
                let hist = recorded(old(self).spec_history(), sample);
                let due = cfg.adaptive_mode && now_ms >= old(self).spec_last_adaptation_ms() + ADAPT_INTERVAL_MS;
                &&& final(self).spec_history() == hist
                &&& final(self).spec_metrics() == (DenoisingMetrics { latency_us: processing_us, cpu_usage_centipercent: cpu as u64, ..old(self).spec_metrics() })
                &&& final(self).spec_config() == (AdvancedDenoisingConfig {
                    mode: if due {
                        adapted_mode(cfg.mode, adaptation_for(hist, cfg.max_cpu_centipercent as int, cfg.max_latency_us as int))
                    } else {
                        cfg.mode
                    },
                    ..cfg
                })
                &&& final(self).spec_last_adaptation_ms() == if due { now_ms } else { old(self).spec_last_adaptation_ms() }
                &&& final(self).spec_tiers() == old(self).spec_tiers()
                &&& final(self).spec_enabled()
            },
    {
        if !self.enabled {
            return;
        }
        let cpu = self.estimate_cpu_usage(processing_us);
        self.metrics.latency_us = processing_us;
        self.metrics.cpu_usage_centipercent = cpu;
        self.performance_monitor.update(PerformanceSample { cpu_usage_centipercent: cpu, latency_us: processing_us });
        self.adaptive_mode_adjustment(now_ms);
    }

    /// Basic always; Enhanced when the higher-quality tier is loaded; Maximum
    /// when the spectral tier is loaded.
    pub fn get_available_modes(&self) -> (r: Vec<DenoisingMode>)
        ensures
            r@ == available_modes(self.spec_tiers()),
    {
        let mut modes: Vec<DenoisingMode> = Vec::new();
        modes.push(DenoisingMode::Basic);
        if self.tiers.deep_learning {
            modes.push(DenoisingMode::Enhanced);
        }
        if self.tiers.spectral {
            modes.push(DenoisingMode::Maximum);
        }
        assert(modes@ =~= available_modes(self.tiers));
        modes
    }

    /// Replaces the settings, loading the fast tier if it is not loaded.
    pub fn update_config(&mut self, config: AdvancedDenoisingConfig)
        ensures
            final(self).spec_config() == config,
            final(self).spec_tiers() == (TierAvailability { rnnoise: true, ..old(self).spec_tiers() }),
            final(self).spec_enabled() == old(self).spec_enabled(),
            final(self).spec_metrics() == old(self).spec_metrics(),
            final(self).spec_history() == old(self).spec_history(),
            final(self).spec_last_adaptation_ms() == old(self).spec_last_adaptation_ms(),
            final(self).wf() == old(self).wf(),
    {
        self.config = config;
        if !self.is_ready() {
            self.initialize_denoisers();
        }
    }
}

/// Adaptive control law over a performance history: when the average CPU load
/// or latency is over its maximum, a preset mode above the bottom drops
/// exactly one level; when both are under 70% of their maxima, a preset mode
/// below the top rises exactly one level; a preset mode never moves more than
/// one level in a cycle, and a custom mode is never touched.
pub proof fn lemma_adaptive_control(
    mode: DenoisingMode,
    hist: Seq<PerformanceSample>,
    max_cpu: u64,
    max_latency: u64,
)
    ensures
        ({
            let n = hist.len() as int;
            let over = average_exceeds(cpu_total(hist), n, max_cpu as int)
                || average_exceeds(latency_total(hist), n, max_latency as int);
            let room = average_has_headroom(cpu_total(hist), n, max_cpu as int)
                && average_has_headroom(latency_total(hist), n, max_latency as int);
            let next = adapted_mode(mode, adaptation_for(hist, max_cpu as int, max_latency as int));
            &&& mode_level(mode) is None ==> next == mode
            &&& mode_level(mode) is Some ==> {
                let before = mode_level(mode)->0;
                let after = mode_level(next)->0;
                &&& mode_level(next) is Some
                &&& before - 1 <= after <= before + 1
                &&& over && before > 0 ==> after == before - 1
                &&& !over && room && before < 2 ==> after == before + 1
                &&& !over && !room ==> after == before
            }
        }),
{
    lemma_adaptation_moves_one_level(mode, adaptation_for(hist, max_cpu as int, max_latency as int));
}

} // verus!
