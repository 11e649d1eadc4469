//! Configuration of streaming pipelines and coordination of streaming charts.
use crate::error::{ChartError, ChartResult, DataError, DataErrorKind};
use crate::time::Milliseconds;
use vstd::prelude::*;

verus! {

/// How several data sources are synchronised.
#[derive(Debug, Clone, Copy, PartialEq, Eq, Structural)]
pub enum SyncMode {
    /// Sources update independently.
    Independent,
    /// Updates are synchronised across sources.
    Synchronized,
    /// The fastest source drives the others.
    FastestMaster,
}

/// What a pipeline does when a source fails.
#[derive(Debug, Clone, Copy, PartialEq, Eq, Structural)]
pub enum ErrorRecovery {
    /// Stop at the first error.
    StopOnError,
    /// Carry on with the other sources.
    ContinueOnError,
    /// Retry the failed operation.
    RetryOnError,
}

/// Settings of a streaming pipeline.
#[derive(Debug, Clone, Copy)]
pub struct PipelineConfig {
    /// Largest number of sources.
    pub max_sources: usize,
    /// Synchronisation of the sources.
    pub sync_mode: SyncMode,
    /// Behaviour on errors.
    pub error_recovery: ErrorRecovery,
    /// Whether performance is monitored.
    pub monitoring_enabled: bool,
}

impl Default for PipelineConfig {
    fn default() -> (r: Self)
        ensures
            r == (PipelineConfig {
                max_sources: 8,
                sync_mode: SyncMode::Independent,
                error_recovery: ErrorRecovery::ContinueOnError,
                monitoring_enabled: true,
            }),
    {
        PipelineConfig {
            max_sources: 8,
            sync_mode: SyncMode::Independent,
            error_recovery: ErrorRecovery::ContinueOnError,
            monitoring_enabled: true,
        }
    }
}

/// Settings of one data source.
#[derive(Debug, Clone, Copy)]
pub struct SourceConfig {
    /// Update interval in milliseconds.
    pub update_interval: u32,
    /// Priority; higher is more important.
    pub priority: u8,
    /// Whether incoming points are validated.
    pub validate_data: bool,
    /// Consecutive errors tolerated before the source is disabled.
    pub max_errors: u32,
}

impl Default for SourceConfig {
    fn default() -> (r: Self)
        ensures
            r == (SourceConfig {
                update_interval: 100,
                priority: 1,
                validate_data: true,
                max_errors: 5,
            }),
    {
        SourceConfig { update_interval: 100, priority: 1, validate_data: true, max_errors: 5 }
    }
}

/// State of a data source.
#[derive(Debug, Clone, Copy, PartialEq, Eq, Structural)]
pub enum SourceState {
    /// Receiving data.
    Active,
    /// Temporarily paused.
    Paused,
    /// Failing.
    Error,
    /// Switched off.
    Disabled,
}

/// Memory management policy of a chart manager.
#[derive(Debug, Clone, Copy, PartialEq, Eq, Structural)]
pub enum MemoryStrategy {
    /// Save memory first.
    Conservative,
    /// Balance memory and speed.
    Balanced,
    /// Speed first.
    Performance,
}

/// How closely a chart manager watches its performance.
#[derive(Debug, Clone, Copy, PartialEq, Eq, Structural)]
pub enum MonitoringLevel {
    /// No monitoring.
    Disabled,
    /// Basic counters.
    Basic,
    /// Detailed measurements.
    Detailed,
}

/// Settings of a chart manager.
#[derive(Debug, Clone, Copy)]
pub struct ManagerConfig {
    /// Global update rate in Hz.
    pub global_update_rate: u32,
    /// Whether charts are synchronised.
    pub enable_sync: bool,
    /// Memory policy.
    pub memory_strategy: MemoryStrategy,
    /// Monitoring level.
    pub monitoring_level: MonitoringLevel,
}

impl Default for ManagerConfig {
    fn default() -> (r: Self)
        ensures
            r == (ManagerConfig {
                global_update_rate: 30,
                enable_sync: true,
                memory_strategy: MemoryStrategy::Balanced,
                monitoring_level: MonitoringLevel::Basic,
            }),
    {
        ManagerConfig {
            global_update_rate: 30,
            enable_sync: true,
            memory_strategy: MemoryStrategy::Balanced,
            monitoring_level: MonitoringLevel::Basic,
        }
    }
}

/// Kinds of chart.
#[derive(Debug, Clone, Copy, PartialEq, Eq, Structural)]
pub enum ChartType {
    /// Line chart.
    Line,
    /// Bar chart.
    Bar,
    /// Scatter plot.
    Scatter,
    /// Gauge.
    Gauge,
    /// Anything else.
    Custom,
}

/// Settings of one managed chart.
#[derive(Debug, Clone, Copy)]
pub struct ChartInstanceConfig {
    /// Update priority.
    pub priority: u8,
    /// Whether animations are on.
    pub animations_enabled: bool,
    /// Memory budget in bytes.
    pub memory_limit_bytes: usize,
}

impl Default for ChartInstanceConfig {
    fn default() -> (r: Self)
        ensures
            r == (ChartInstanceConfig { priority: 1, animations_enabled: true, memory_limit_bytes: 4096 }),
    {
        ChartInstanceConfig { priority: 1, animations_enabled: true, memory_limit_bytes: 4096 }
    }
}

/// A chart registered with a manager.
#[derive(Debug, Clone, Copy)]
pub struct ChartInstance {
    /// Identifier given by the manager.
    pub id: u32,
    /// Kind of chart.
    pub chart_type: ChartType,
    /// The pipeline that feeds the chart.
    pub pipeline_id: u32,
    /// Settings of the chart.
    pub config: ChartInstanceConfig,
}

/// Counters of a chart manager.
#[derive(Debug, Clone, Copy)]
pub struct ManagerMetrics {
    /// Charts ever registered.
    pub total_charts: u32,
    /// Charts currently active.
    pub active_charts: u32,
    /// Updates processed.
    pub total_updates: u64,
    /// Moving average of the update latency in microseconds.
    pub avg_update_latency_us: u32,
    /// Memory used by all charts.
    pub total_memory_usage: usize,
}

impl ManagerMetrics {
    /// Every counter at zero.
    pub open spec fn zero() -> ManagerMetrics {
        ManagerMetrics {
            total_charts: 0,
            active_charts: 0,
            total_updates: 0,
            avg_update_latency_us: 0,
            total_memory_usage: 0,
        }
    }
}

impl Default for ManagerMetrics {
    fn default() -> (r: Self)
        ensures
            r == ManagerMetrics::zero(),
    {
        ManagerMetrics {
            total_charts: 0,
            active_charts: 0,
            total_updates: 0,
            avg_update_latency_us: 0,
            total_memory_usage: 0,
        }
    }
}

/// Synchronisation bookkeeping of a chart manager.
#[derive(Debug, Clone, Copy)]
pub struct SyncState {
    /// Time of the last synchronisation.
    pub last_sync_time: u32,
    /// Charts waiting to be synchronised.
    pub pending_sync_count: u32,
    /// Drift between charts in microseconds.
    pub sync_drift_us: i32,
}

impl SyncState {
    /// Everything at zero.
    pub open spec fn zero() -> SyncState {
        SyncState { last_sync_time: 0, pending_sync_count: 0, sync_drift_us: 0 }
    }
}

impl Default for SyncState {
    fn default() -> (r: Self)
        ensures
            r == SyncState::zero(),
    {
        SyncState { last_sync_time: 0, pending_sync_count: 0, sync_drift_us: 0 }
    }
}

/// The manager's clock reading in milliseconds: its update count, as a `u32`.
pub open spec fn clock_ms(updates: u64) -> int {
    updates as int % 0x1_0000_0000
}

/// The manager's clock reading in microseconds.
pub open spec fn clock_us(updates: u64) -> int {
    clock_ms(updates) * 1000
}

/// The moving average of latencies after one more measurement.
pub open spec fn next_average(avg: u32, latency: int) -> int {
    if avg == 0 {
        latency
    } else {
        (avg * 7 + latency) / 8
    }
}

/// Coordinates up to `MAX_CHARTS` streaming charts.
pub struct StreamingChartManager<const MAX_CHARTS: usize> {
    charts: Vec<ChartInstance>,
    config: ManagerConfig,
    metrics: ManagerMetrics,
    sync_state: SyncState,
}

impl<const MAX_CHARTS: usize> StreamingChartManager<MAX_CHARTS> {
    /// The registered charts.
    pub closed spec fn charts_view(&self) -> Seq<ChartInstance> {
        self.charts@
    }

    /// The settings.
    pub closed spec fn config_spec(&self) -> ManagerConfig {
        self.config
    }

    /// The counters.
    pub closed spec fn metrics_spec(&self) -> ManagerMetrics {
        self.metrics
    }

    /// The synchronisation bookkeeping.
    pub closed spec fn sync_spec(&self) -> SyncState {
        self.sync_state
    }

    /// At most `MAX_CHARTS` charts.
    pub open spec fn wf(&self) -> bool {
        self.charts_view().len() <= MAX_CHARTS
    }

    /// A manager with the default settings.
    pub fn new() -> (r: Self)
        ensures
            r.wf(),
            r.charts_view() == Seq::<ChartInstance>::empty(),
            r.config_spec() == (ManagerConfig {
                global_update_rate: 30,
                enable_sync: true,
                memory_strategy: MemoryStrategy::Balanced,
                monitoring_level: MonitoringLevel::Basic,
            }),
            r.metrics_spec() == ManagerMetrics::zero(),
            r.sync_spec() == SyncState::zero(),
    {
        Self::with_config(ManagerConfig::default())
    }

    /// A manager with the given settings.
    pub fn with_config(config: ManagerConfig) -> (r: Self)
        ensures
            r.wf(),
            r.charts_view() == Seq::<ChartInstance>::empty(),
            r.config_spec() == config,
            r.metrics_spec() == ManagerMetrics::zero(),
            r.sync_spec() == SyncState::zero(),
    {
        StreamingChartManager {
            charts: Vec::new(),
            config,
            metrics: ManagerMetrics::default(),
            sync_state: SyncState::default(),
        }
    }

    /// Registers a chart and returns its identifier, the number of charts
    /// registered before; fails with `BufferFull` when `MAX_CHARTS` are
    /// registered.
    pub fn add_chart(&mut self, chart_type: ChartType, pipeline_id: u32, config: ChartInstanceConfig) -> (r:
        ChartResult<u32>)
        requires
            old(self).wf(),
            old(self).metrics_spec().total_charts < u32::MAX,
            old(self).metrics_spec().active_charts < u32::MAX,
        ensures
            final(self).wf(),
            final(self).config_spec() == old(self).config_spec(),
            final(self).sync_spec() == old(self).sync_spec(),
            old(self).charts_view().len() >= MAX_CHARTS ==> final(self).charts_view() == old(
                self).charts_view() && final(self).metrics_spec() == old(self).metrics_spec() && (
            r matches Err(ChartError::DataError(e)) && e.is_simple(DataErrorKind::BufferFull)),
            old(self).charts_view().len() < MAX_CHARTS ==> ({
                let id = old(self).metrics_spec().total_charts;
                &&& r == Ok::<u32, ChartError>(id)
                &&& final(self).charts_view() == old(self).charts_view().push(
                    ChartInstance { id, chart_type, pipeline_id, config },
                )
                &&& final(self).metrics_spec() == (ManagerMetrics {
                    total_charts: (id + 1) as u32,
                    active_charts: (old(self).metrics_spec().active_charts + 1) as u32,
                    ..old(self).metrics_spec()
                })
            }),
    {
        if self.charts.len() >= MAX_CHARTS {
            return Err(ChartError::DataError(DataError::simple(DataErrorKind::BufferFull)));
        }
        let chart_id = self.metrics.total_charts;
        let instance = ChartInstance { id: chart_id, chart_type, pipeline_id, config };
        self.charts.push(instance);
        self.metrics.total_charts = self.metrics.total_charts + 1;
        self.metrics.active_charts = self.metrics.active_charts + 1;
        Ok(chart_id)
    }

    /// The arithmetic of `update` stays within the integer types.
    pub open spec fn update_fits(&self) -> bool {
        let n = self.metrics_spec().total_updates;
        &&& n < u64::MAX
        &&& clock_us(n) <= u32::MAX
        &&& self.config_spec().monitoring_level != MonitoringLevel::Disabled ==> {
            &&& clock_us((n + 1) as u64) <= u32::MAX
            &&& clock_us((n + 1) as u64) >= clock_us(n)
            &&& self.metrics_spec().avg_update_latency_us != 0 ==> self.metrics_spec().avg_update_latency_us
                * 7 + (clock_us((n + 1) as u64) - clock_us(n)) <= u32::MAX
        }
    }

    /// Processes one update tick: records the synchronisation time when
    /// enabled, counts the update and, when monitored, folds the measured
    /// latency into the moving average.
    pub fn update(&mut self, delta_time: Milliseconds) -> (r: ChartResult<()>)
        requires
            old(self).update_fits(),
        ensures
            r is Ok,
            final(self).wf() == old(self).wf(),
            final(self).charts_view() == old(self).charts_view(),
            final(self).config_spec() == old(self).config_spec(),
            final(self).metrics_spec().total_updates == old(self).metrics_spec().total_updates + 1,
            final(self).metrics_spec().total_charts == old(self).metrics_spec().total_charts,
            final(self).metrics_spec().active_charts == old(self).metrics_spec().active_charts,
            final(self).metrics_spec().total_memory_usage == old(self).metrics_spec().total_memory_usage,
            final(self).metrics_spec().avg_update_latency_us == (if old(self).config_spec().monitoring_level
                == MonitoringLevel::Disabled {
                old(self).metrics_spec().avg_update_latency_us as int
            } else {
                next_average(
                    old(self).metrics_spec().avg_update_latency_us,
                    clock_us((old(self).metrics_spec().total_updates + 1) as u64) - clock_us(
                        old(self).metrics_spec().total_updates,
                    ),
                )
            }),
            final(self).sync_spec() == (if old(self).config_spec().enable_sync {
                SyncState {
                    last_sync_time: clock_ms(old(self).metrics_spec().total_updates) as u32,
                    ..old(self).sync_spec()
                }
            } else {
                old(self).sync_spec()
            }),
    {
        let start_time = self.current_time_us();
        if self.config.enable_sync {
            self.sync_state.last_sync_time = self.current_time_ms();
        }
        self.metrics.total_updates = self.metrics.total_updates + 1;
        if self.config.monitoring_level != MonitoringLevel::Disabled {
            let end_time = self.current_time_us();
            let latency = end_time - start_time;
            if self.metrics.avg_update_latency_us == 0 {
                self.metrics.avg_update_latency_us = latency;
            } else {
                self.metrics.avg_update_latency_us = (self.metrics.avg_update_latency_us * 7 + latency)
                    / 8;
            }
        }
        Ok(())
    }

    fn current_time_ms(&self) -> (r: u32)
        ensures
            r == clock_ms(self.metrics.total_updates),
    {
        (self.metrics.total_updates % 0x1_0000_0000) as u32
    }

    fn current_time_us(&self) -> (r: u32)
        requires
            clock_us(self.metrics.total_updates) <= u32::MAX,
        ensures
            r == clock_us(self.metrics.total_updates),
    {
        self.current_time_ms() * 1000
    }

    /// The counters.
    pub fn metrics(&self) -> (r: &ManagerMetrics)
        ensures
            *r == self.metrics_spec(),
    {
        &self.metrics
    }

    /// The number of active charts.
    pub fn active_chart_count(&self) -> (r: usize)
        ensures
            r == self.metrics_spec().active_charts,
    {
        self.metrics.active_charts as usize
    }

    /// The synchronisation bookkeeping.
    pub fn sync_state(&self) -> (r: &SyncState)
        ensures
            *r == self.sync_spec(),
    {
        &self.sync_state
    }
}

} // verus!
