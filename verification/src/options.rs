//! The configuration that the engine is started with.
//!
//! `Options` records the settings that the caller chose. A setting that was never set reads
//! its default: the one the engine documents where it documents one, otherwise the value that
//! the engine itself starts with, which the caller reads from the engine and hands to `new`.
use vstd::prelude::*;

verus! {

/// Default of the setting read by `get_heartbeat_us`: 500 milliseconds.
pub const DEFAULT_HEARTBEAT_US: u64 = 500_000;

/// Default of the setting read by `get_target_ack_latency_ms`: 400 milliseconds.
pub const DEFAULT_TARGET_ACK_LATENCY_MS: u32 = 400;

/// Default of the setting read by `get_max_ack_latency_ms`: 600 milliseconds.
pub const DEFAULT_MAX_ACK_LATENCY_MS: u32 = 600;

/// Default of the setting read by `get_throttle_ack_latency_ms`: 900 milliseconds.
pub const DEFAULT_THROTTLE_ACK_LATENCY_MS: u32 = 900;

/// Default of the setting read by `get_reset_ack_latency_ms`: 2000 milliseconds.
pub const DEFAULT_RESET_ACK_LATENCY_MS: u32 = 2000;

/// Default of the setting read by `get_enable_dynamic_epoch_size`: `true`.
pub const DEFAULT_ENABLE_DYNAMIC_EPOCH_SIZE: bool = true;

/// Default of the setting read by `get_transaction_channel_size`: 32.
pub const DEFAULT_TRANSACTION_CHANNEL_SIZE: usize = 32;

/// Default of the setting read by `get_max_unacknowledged_bytes`: 500 MiB.
pub const DEFAULT_MAX_UNACKNOWLEDGED_BYTES: usize = 524_288_000;

/// Default of the setting read by `get_enable_state_sharing`: `false`.
pub const DEFAULT_ENABLE_STATE_SHARING: bool = false;

/// Default of the setting read by `get_epoch_states_to_cache`: 3.
pub const DEFAULT_EPOCH_STATES_TO_CACHE: u16 = 3;

/// Default of the setting read by `get_enable_hole_punching`: `true`.
pub const DEFAULT_ENABLE_HOLE_PUNCHING: bool = true;

/// The defaults that the engine documents none for, as a fresh native options container of
/// the engine holds them.
#[derive(Clone, Copy, Debug)]
pub struct EngineDefaults {
    pub base_min_event_interval_us: u64,
    pub report_gossip_events: bool,
    pub fallen_behind_kick_s: i64,
    pub max_blocking_verify_threads: usize,
}

/// For each setting, the value the caller chose, if any.
#[derive(Clone, Copy, Debug)]
pub struct Choices {
    pub base_min_event_interval_us: Option<u64>,
    pub report_gossip_events: Option<bool>,
    pub fallen_behind_kick_s: Option<i64>,
    pub heartbeat_us: Option<u64>,
    pub target_ack_latency_ms: Option<u32>,
    pub max_ack_latency_ms: Option<u32>,
    pub throttle_ack_latency_ms: Option<u32>,
    pub reset_ack_latency_ms: Option<u32>,
    pub enable_dynamic_epoch_size: Option<bool>,
    pub transaction_channel_size: Option<usize>,
    pub max_unacknowledged_bytes: Option<usize>,
    pub max_blocking_verify_threads: Option<usize>,
    pub enable_state_sharing: Option<bool>,
    pub epoch_states_to_cache: Option<u16>,
    pub enable_hole_punching: Option<bool>,
}

impl Choices {
    /// No setting chosen.
    pub open spec fn none() -> Choices {
        Choices {
            base_min_event_interval_us: None,
            report_gossip_events: None,
            fallen_behind_kick_s: None,
            heartbeat_us: None,
            target_ack_latency_ms: None,
            max_ack_latency_ms: None,
            throttle_ack_latency_ms: None,
            reset_ack_latency_ms: None,
            enable_dynamic_epoch_size: None,
            transaction_channel_size: None,
            max_unacknowledged_bytes: None,
            max_blocking_verify_threads: None,
            enable_state_sharing: None,
            epoch_states_to_cache: None,
            enable_hole_punching: None,
        }
    }
}

/// The settings of `Options`, one name each.
pub enum Setting {
    BaseMinEventIntervalUs,
    ReportGossipEvents,
    FallenBehindKickS,
    HeartbeatUs,
    TargetAckLatencyMs,
    MaxAckLatencyMs,
    ThrottleAckLatencyMs,
    ResetAckLatencyMs,
    EnableDynamicEpochSize,
    TransactionChannelSize,
    MaxUnacknowledgedBytes,
    MaxBlockingVerifyThreads,
    EnableStateSharing,
    EpochStatesToCache,
    EnableHolePunching,
}

/// A write of one setting, with the value written: what one setter of `Options` does.
pub enum Write {
    BaseMinEventIntervalUs(u64),
    ReportGossipEvents(bool),
    FallenBehindKickS(i64),
    HeartbeatUs(u64),
    TargetAckLatencyMs(u32),
    MaxAckLatencyMs(u32),
    ThrottleAckLatencyMs(u32),
    ResetAckLatencyMs(u32),
    EnableDynamicEpochSize(bool),
    TransactionChannelSize(usize),
    MaxUnacknowledgedBytes(usize),
    MaxBlockingVerifyThreads(usize),
    EnableStateSharing(bool),
    EpochStatesToCache(u16),
    EnableHolePunching(bool),
}

impl Write {
    /// The setting that this write changes.
    pub open spec fn setting(self) -> Setting {
        match self {
            Write::BaseMinEventIntervalUs(_) => Setting::BaseMinEventIntervalUs,
            Write::ReportGossipEvents(_) => Setting::ReportGossipEvents,
            Write::FallenBehindKickS(_) => Setting::FallenBehindKickS,
            Write::HeartbeatUs(_) => Setting::HeartbeatUs,
            Write::TargetAckLatencyMs(_) => Setting::TargetAckLatencyMs,
            Write::MaxAckLatencyMs(_) => Setting::MaxAckLatencyMs,
            Write::ThrottleAckLatencyMs(_) => Setting::ThrottleAckLatencyMs,
            Write::ResetAckLatencyMs(_) => Setting::ResetAckLatencyMs,
            Write::EnableDynamicEpochSize(_) => Setting::EnableDynamicEpochSize,
            Write::TransactionChannelSize(_) => Setting::TransactionChannelSize,
            Write::MaxUnacknowledgedBytes(_) => Setting::MaxUnacknowledgedBytes,
            Write::MaxBlockingVerifyThreads(_) => Setting::MaxBlockingVerifyThreads,
            Write::EnableStateSharing(_) => Setting::EnableStateSharing,
            Write::EpochStatesToCache(_) => Setting::EpochStatesToCache,
            Write::EnableHolePunching(_) => Setting::EnableHolePunching,
        }
    }
}

/// The abstract value of `Options`: the settings chosen, and the engine's own defaults.
pub struct OptionsView {
    pub chosen: Choices,
    pub engine: EngineDefaults,
}

impl OptionsView {
    pub open spec fn base_min_event_interval_us_value(self) -> u64 {
        match self.chosen.base_min_event_interval_us {
            Some(x) => x,
            None => self.engine.base_min_event_interval_us,
        }
    }

    pub open spec fn report_gossip_events_value(self) -> bool {
        match self.chosen.report_gossip_events {
            Some(x) => x,
            None => self.engine.report_gossip_events,
        }
    }

    pub open spec fn fallen_behind_kick_s_value(self) -> i64 {
        match self.chosen.fallen_behind_kick_s {
            Some(x) => x,
            None => self.engine.fallen_behind_kick_s,
        }
    }

    pub open spec fn heartbeat_us_value(self) -> u64 {
        match self.chosen.heartbeat_us {
            Some(x) => x,
            None => DEFAULT_HEARTBEAT_US,
        }
    }

    pub open spec fn target_ack_latency_ms_value(self) -> u32 {
        match self.chosen.target_ack_latency_ms {
            Some(x) => x,
            None => DEFAULT_TARGET_ACK_LATENCY_MS,
        }
    }

    pub open spec fn max_ack_latency_ms_value(self) -> u32 {
        match self.chosen.max_ack_latency_ms {
            Some(x) => x,
            None => DEFAULT_MAX_ACK_LATENCY_MS,
        }
    }

    pub open spec fn throttle_ack_latency_ms_value(self) -> u32 {
        match self.chosen.throttle_ack_latency_ms {
            Some(x) => x,
            None => DEFAULT_THROTTLE_ACK_LATENCY_MS,
        }
    }

    pub open spec fn reset_ack_latency_ms_value(self) -> u32 {
        match self.chosen.reset_ack_latency_ms {
            Some(x) => x,
            None => DEFAULT_RESET_ACK_LATENCY_MS,
        }
    }

    pub open spec fn enable_dynamic_epoch_size_value(self) -> bool {
        match self.chosen.enable_dynamic_epoch_size {
            Some(x) => x,
            None => DEFAULT_ENABLE_DYNAMIC_EPOCH_SIZE,
        }
    }

    pub open spec fn transaction_channel_size_value(self) -> usize {
        match self.chosen.transaction_channel_size {
            Some(x) => x,
            None => DEFAULT_TRANSACTION_CHANNEL_SIZE,
        }
    }

    pub open spec fn max_unacknowledged_bytes_value(self) -> usize {
        match self.chosen.max_unacknowledged_bytes {
            Some(x) => x,
            None => DEFAULT_MAX_UNACKNOWLEDGED_BYTES,
        }
    }

    pub open spec fn max_blocking_verify_threads_value(self) -> usize {
        match self.chosen.max_blocking_verify_threads {
            Some(x) => x,
            None => self.engine.max_blocking_verify_threads,
        }
    }

    pub open spec fn enable_state_sharing_value(self) -> bool {
        match self.chosen.enable_state_sharing {
            Some(x) => x,
            None => DEFAULT_ENABLE_STATE_SHARING,
        }
    }

    pub open spec fn epoch_states_to_cache_value(self) -> u16 {
        match self.chosen.epoch_states_to_cache {
            Some(x) => x,
            None => DEFAULT_EPOCH_STATES_TO_CACHE,
        }
    }

    pub open spec fn enable_hole_punching_value(self) -> bool {
        match self.chosen.enable_hole_punching {
            Some(x) => x,
            None => DEFAULT_ENABLE_HOLE_PUNCHING,
        }
    }

    /// The options after one write.
    pub open spec fn apply(self, w: Write) -> OptionsView {
        match w {
            Write::BaseMinEventIntervalUs(x) => OptionsView { chosen: Choices { base_min_event_interval_us: Some(x), ..self.chosen }, ..self },
            Write::ReportGossipEvents(x) => OptionsView { chosen: Choices { report_gossip_events: Some(x), ..self.chosen }, ..self },
            Write::FallenBehindKickS(x) => OptionsView { chosen: Choices { fallen_behind_kick_s: Some(x), ..self.chosen }, ..self },
            Write::HeartbeatUs(x) => OptionsView { chosen: Choices { heartbeat_us: Some(x), ..self.chosen }, ..self },
            Write::TargetAckLatencyMs(x) => OptionsView { chosen: Choices { target_ack_latency_ms: Some(x), ..self.chosen }, ..self },
            Write::MaxAckLatencyMs(x) => OptionsView { chosen: Choices { max_ack_latency_ms: Some(x), ..self.chosen }, ..self },
            Write::ThrottleAckLatencyMs(x) => OptionsView { chosen: Choices { throttle_ack_latency_ms: Some(x), ..self.chosen }, ..self },
            Write::ResetAckLatencyMs(x) => OptionsView { chosen: Choices { reset_ack_latency_ms: Some(x), ..self.chosen }, ..self },
            Write::EnableDynamicEpochSize(x) => OptionsView { chosen: Choices { enable_dynamic_epoch_size: Some(x), ..self.chosen }, ..self },
            Write::TransactionChannelSize(x) => OptionsView { chosen: Choices { transaction_channel_size: Some(x), ..self.chosen }, ..self },
            Write::MaxUnacknowledgedBytes(x) => OptionsView { chosen: Choices { max_unacknowledged_bytes: Some(x), ..self.chosen }, ..self },
            Write::MaxBlockingVerifyThreads(x) => OptionsView { chosen: Choices { max_blocking_verify_threads: Some(x), ..self.chosen }, ..self },
            Write::EnableStateSharing(x) => OptionsView { chosen: Choices { enable_state_sharing: Some(x), ..self.chosen }, ..self },
            Write::EpochStatesToCache(x) => OptionsView { chosen: Choices { epoch_states_to_cache: Some(x), ..self.chosen }, ..self },
            Write::EnableHolePunching(x) => OptionsView { chosen: Choices { enable_hole_punching: Some(x), ..self.chosen }, ..self },
        }
    }

    /// The options after a sequence of writes, in order.
    pub open spec fn apply_all(self, ws: Seq<Write>) -> OptionsView
        decreases ws.len(),
    {
        if ws.len() == 0 {
            self
        } else {
            self.apply_all(ws.drop_last()).apply(ws.last())
        }
    }

    /// Whether the setting that `w` writes reads the value that `w` writes.
    pub open spec fn reads(self, w: Write) -> bool {
        match w {
            Write::BaseMinEventIntervalUs(x) => self.base_min_event_interval_us_value() == x,
            Write::ReportGossipEvents(x) => self.report_gossip_events_value() == x,
            Write::FallenBehindKickS(x) => self.fallen_behind_kick_s_value() == x,
            Write::HeartbeatUs(x) => self.heartbeat_us_value() == x,
            Write::TargetAckLatencyMs(x) => self.target_ack_latency_ms_value() == x,
            Write::MaxAckLatencyMs(x) => self.max_ack_latency_ms_value() == x,
            Write::ThrottleAckLatencyMs(x) => self.throttle_ack_latency_ms_value() == x,
            Write::ResetAckLatencyMs(x) => self.reset_ack_latency_ms_value() == x,
            Write::EnableDynamicEpochSize(x) => self.enable_dynamic_epoch_size_value() == x,
            Write::TransactionChannelSize(x) => self.transaction_channel_size_value() == x,
            Write::MaxUnacknowledgedBytes(x) => self.max_unacknowledged_bytes_value() == x,
            Write::MaxBlockingVerifyThreads(x) => self.max_blocking_verify_threads_value() == x,
            Write::EnableStateSharing(x) => self.enable_state_sharing_value() == x,
            Write::EpochStatesToCache(x) => self.epoch_states_to_cache_value() == x,
            Write::EnableHolePunching(x) => self.enable_hole_punching_value() == x,
        }
    }

    /// Whether `self` and `other` read the same value for one setting.
    pub open spec fn agree_on(self, other: OptionsView, s: Setting) -> bool {
        match s {
            Setting::BaseMinEventIntervalUs => self.base_min_event_interval_us_value() == other.base_min_event_interval_us_value(),
            Setting::ReportGossipEvents => self.report_gossip_events_value() == other.report_gossip_events_value(),
            Setting::FallenBehindKickS => self.fallen_behind_kick_s_value() == other.fallen_behind_kick_s_value(),
            Setting::HeartbeatUs => self.heartbeat_us_value() == other.heartbeat_us_value(),
            Setting::TargetAckLatencyMs => self.target_ack_latency_ms_value() == other.target_ack_latency_ms_value(),
            Setting::MaxAckLatencyMs => self.max_ack_latency_ms_value() == other.max_ack_latency_ms_value(),
            Setting::ThrottleAckLatencyMs => self.throttle_ack_latency_ms_value() == other.throttle_ack_latency_ms_value(),
            Setting::ResetAckLatencyMs => self.reset_ack_latency_ms_value() == other.reset_ack_latency_ms_value(),
            Setting::EnableDynamicEpochSize => self.enable_dynamic_epoch_size_value() == other.enable_dynamic_epoch_size_value(),
            Setting::TransactionChannelSize => self.transaction_channel_size_value() == other.transaction_channel_size_value(),
            Setting::MaxUnacknowledgedBytes => self.max_unacknowledged_bytes_value() == other.max_unacknowledged_bytes_value(),
            Setting::MaxBlockingVerifyThreads => self.max_blocking_verify_threads_value() == other.max_blocking_verify_threads_value(),
            Setting::EnableStateSharing => self.enable_state_sharing_value() == other.enable_state_sharing_value(),
            Setting::EpochStatesToCache => self.epoch_states_to_cache_value() == other.epoch_states_to_cache_value(),
            Setting::EnableHolePunching => self.enable_hole_punching_value() == other.enable_hole_punching_value(),
        }
    }
}

/// Container of options for the engine.
pub struct Options {
    chosen: Choices,
    engine: EngineDefaults,
}

impl View for Options {
    type V = OptionsView;

    closed spec fn view(&self) -> OptionsView {
        OptionsView { chosen: self.chosen, engine: self.engine }
    }
}

impl Options {
    /// Initializes a default set of options: no setting chosen, so each one reads its default;
    /// `engine` holds the defaults that the engine starts with where it documents none.
    pub fn new(engine: EngineDefaults) -> (o: Self)
        ensures
            o@ == (OptionsView { chosen: Choices::none(), engine }),
            o@.base_min_event_interval_us_value() == engine.base_min_event_interval_us,
            o@.report_gossip_events_value() == engine.report_gossip_events,
            o@.fallen_behind_kick_s_value() == engine.fallen_behind_kick_s,
            o@.heartbeat_us_value() == DEFAULT_HEARTBEAT_US,
            o@.target_ack_latency_ms_value() == DEFAULT_TARGET_ACK_LATENCY_MS,
            o@.max_ack_latency_ms_value() == DEFAULT_MAX_ACK_LATENCY_MS,
            o@.throttle_ack_latency_ms_value() == DEFAULT_THROTTLE_ACK_LATENCY_MS,
            o@.reset_ack_latency_ms_value() == DEFAULT_RESET_ACK_LATENCY_MS,
            o@.enable_dynamic_epoch_size_value() == DEFAULT_ENABLE_DYNAMIC_EPOCH_SIZE,
            o@.transaction_channel_size_value() == DEFAULT_TRANSACTION_CHANNEL_SIZE,
            o@.max_unacknowledged_bytes_value() == DEFAULT_MAX_UNACKNOWLEDGED_BYTES,
            o@.max_blocking_verify_threads_value() == engine.max_blocking_verify_threads,
            o@.enable_state_sharing_value() == DEFAULT_ENABLE_STATE_SHARING,
            o@.epoch_states_to_cache_value() == DEFAULT_EPOCH_STATES_TO_CACHE,
            o@.enable_hole_punching_value() == DEFAULT_ENABLE_HOLE_PUNCHING,
    {
        Options {
            chosen: Choices {
                base_min_event_interval_us: None,
                report_gossip_events: None,
                fallen_behind_kick_s: None,
                heartbeat_us: None,
                target_ack_latency_ms: None,
                max_ack_latency_ms: None,
                throttle_ack_latency_ms: None,
                reset_ack_latency_ms: None,
                enable_dynamic_epoch_size: None,
                transaction_channel_size: None,
                max_unacknowledged_bytes: None,
                max_blocking_verify_threads: None,
                enable_state_sharing: None,
                epoch_states_to_cache: None,
                enable_hole_punching: None,
            },
            engine,
        }
    }

    /// The settings that were chosen, each `None` where it was never set.
    pub fn choices(&self) -> (c: Choices)
        ensures
            c == self@.chosen,
    {
        self.chosen
    }

    /// Sets the base minimum event interval (in microseconds).
    pub fn set_base_min_event_interval_us(&mut self, interval: u64)
        ensures
            final(self)@ == old(self)@.apply(Write::BaseMinEventIntervalUs(interval)),
    {
        self.chosen.base_min_event_interval_us = Some(interval);
    }

    /// Enables or disables reporting of gossip events.
    pub fn set_report_gossip_events(&mut self, enabled: bool)
        ensures
            final(self)@ == old(self)@.apply(Write::ReportGossipEvents(enabled)),
    {
        self.chosen.report_gossip_events = Some(enabled);
    }

    /// Sets the number of seconds a creator can fall behind before being kicked.
    ///
    /// If a creator falls behind for this many seconds or more, the engine votes to kick them.
    /// A negative value means it never votes to kick.
    pub fn set_fallen_behind_kick_s(&mut self, kick: i64)
        ensures
            final(self)@ == old(self)@.apply(Write::FallenBehindKickS(kick)),
    {
        self.chosen.fallen_behind_kick_s = Some(kick);
    }

    /// Sets the heartbeat interval (in microseconds).
    ///
    /// When there is no data to finalize, the engine creates empty events at this interval to
    /// keep the session alive.
    pub fn set_heartbeat_us(&mut self, heartbeat: u64)
        ensures
            final(self)@ == old(self)@.apply(Write::HeartbeatUs(heartbeat)),
    {
        self.chosen.heartbeat_us = Some(heartbeat);
    }

    /// Sets the target acknowledgment latency (in milliseconds).
    ///
    /// When the ack latency rises above this threshold, the engine votes that throughput across
    /// the session should not increase further.
    pub fn set_target_ack_latency_ms(&mut self, latency: u32)
        ensures
            final(self)@ == old(self)@.apply(Write::TargetAckLatencyMs(latency)),
    {
        self.chosen.target_ack_latency_ms = Some(latency);
    }

    /// Sets the maximum acknowledgment latency (in milliseconds).
    ///
    /// Above this threshold the engine votes to gradually reduce throughput across the session.
    pub fn set_max_ack_latency_ms(&mut self, latency: u32)
        ensures
            final(self)@ == old(self)@.apply(Write::MaxAckLatencyMs(latency)),
    {
        self.chosen.max_ack_latency_ms = Some(latency);
    }

    /// Sets the throttle acknowledgment latency (in milliseconds).
    ///
    /// Above this threshold the engine votes to drastically restrict throughput.
    pub fn set_throttle_ack_latency_ms(&mut self, latency: u32)
        ensures
            final(self)@ == old(self)@.apply(Write::ThrottleAckLatencyMs(latency)),
    {
        self.chosen.throttle_ack_latency_ms = Some(latency);
    }

    /// Sets the reset acknowledgment latency (in milliseconds).
    ///
    /// Above this threshold the engine votes to reset throughput restriction to its initial value.
    pub fn set_reset_ack_latency_ms(&mut self, latency: u32)
        ensures
            final(self)@ == old(self)@.apply(Write::ResetAckLatencyMs(latency)),
    {
        self.chosen.reset_ack_latency_ms = Some(latency);
    }

    /// Enables or disables dynamic epoch sizing.
    ///
    /// If `true`, the engine votes to resize the epoch depending on network conditions, keeping
    /// epoch lengths in the range of 1 to 3 seconds.
    pub fn set_enable_dynamic_epoch_size(&mut self, enabled: bool)
        ensures
            final(self)@ == old(self)@.apply(Write::EnableDynamicEpochSize(enabled)),
    {
        self.chosen.enable_dynamic_epoch_size = Some(enabled);
    }

    /// Sets the transaction channel size: the maximum number of transactions to buffer before
    /// applying backpressure.
    pub fn set_transaction_channel_size(&mut self, size: usize)
        ensures
            final(self)@ == old(self)@.apply(Write::TransactionChannelSize(size)),
    {
        self.chosen.transaction_channel_size = Some(size);
    }

    /// Sets the maximum number of unacknowledged bytes: how many bytes worth of transactions
    /// not yet seen by the network to pull from the transaction buffer.
    pub fn set_max_unacknowledged_bytes(&mut self, bytes: usize)
        ensures
            final(self)@ == old(self)@.apply(Write::MaxUnacknowledgedBytes(bytes)),
    {
        self.chosen.max_unacknowledged_bytes = Some(bytes);
    }

    /// Sets the maximum number of blocking verify threads.
    ///
    /// It should not be zero, or else events that grow larger than the threshold for blocking
    /// verification cannot be verified.
    pub fn set_max_blocking_verify_threads(&mut self, threads: usize)
        ensures
            final(self)@ == old(self)@.apply(Write::MaxBlockingVerifyThreads(threads)),
    {
        self.chosen.max_blocking_verify_threads = Some(threads);
    }

    /// Enables or disables state sharing.
    pub fn set_enable_state_sharing(&mut self, enabled: bool)
        ensures
            final(self)@ == old(self)@.apply(Write::EnableStateSharing(enabled)),
    {
        self.chosen.enable_state_sharing = Some(enabled);
    }

    /// Sets the number of epoch states to cache when state sharing is enabled.
    pub fn set_epoch_states_to_cache(&mut self, epochs: u16)
        ensures
            final(self)@ == old(self)@.apply(Write::EpochStatesToCache(epochs)),
    {
        self.chosen.epoch_states_to_cache = Some(epochs);
    }

    /// Enables or disables hole punching.
    ///
    /// If `true`, the engine attempts UDP hole punching to establish direct connections between
    /// creators behind NATs.
    pub fn set_enable_hole_punching(&mut self, enabled: bool)
        ensures
            final(self)@ == old(self)@.apply(Write::EnableHolePunching(enabled)),
    {
        self.chosen.enable_hole_punching = Some(enabled);
    }

    /// Gets the base minimum event interval (in microseconds).
    pub fn get_base_min_event_interval_us(&self) -> (r: u64)
        ensures
            r == self@.base_min_event_interval_us_value(),
    {
        match self.chosen.base_min_event_interval_us {
            Some(x) => x,
            None => self.engine.base_min_event_interval_us,
        }
    }

    /// Gets whether reporting of gossip events is enabled.
    pub fn get_report_gossip_events(&self) -> (r: bool)
        ensures
            r == self@.report_gossip_events_value(),
    {
        match self.chosen.report_gossip_events {
            Some(x) => x,
            None => self.engine.report_gossip_events,
        }
    }

    /// Gets the number of seconds a creator can fall behind before being kicked.
    pub fn get_fallen_behind_kick_s(&self) -> (r: i64)
        ensures
            r == self@.fallen_behind_kick_s_value(),
    {
        match self.chosen.fallen_behind_kick_s {
            Some(x) => x,
            None => self.engine.fallen_behind_kick_s,
        }
    }

    /// Gets the heartbeat interval (in microseconds).
    pub fn get_heartbeat_us(&self) -> (r: u64)
        ensures
            r == self@.heartbeat_us_value(),
    {
        match self.chosen.heartbeat_us {
            Some(x) => x,
            None => DEFAULT_HEARTBEAT_US,
        }
    }

    /// Gets the target acknowledgment latency (in milliseconds).
    pub fn get_target_ack_latency_ms(&self) -> (r: u32)
        ensures
            r == self@.target_ack_latency_ms_value(),
    {
        match self.chosen.target_ack_latency_ms {
            Some(x) => x,
            None => DEFAULT_TARGET_ACK_LATENCY_MS,
        }
    }

    /// Gets the maximum acknowledgment latency (in milliseconds).
    pub fn get_max_ack_latency_ms(&self) -> (r: u32)
        ensures
            r == self@.max_ack_latency_ms_value(),
    {
        match self.chosen.max_ack_latency_ms {
            Some(x) => x,
            None => DEFAULT_MAX_ACK_LATENCY_MS,
        }
    }

    /// Gets the throttle acknowledgment latency (in milliseconds).
    pub fn get_throttle_ack_latency_ms(&self) -> (r: u32)
        ensures
            r == self@.throttle_ack_latency_ms_value(),
    {
        match self.chosen.throttle_ack_latency_ms {
            Some(x) => x,
            None => DEFAULT_THROTTLE_ACK_LATENCY_MS,
        }
    }

    /// Gets the reset acknowledgment latency (in milliseconds).
    pub fn get_reset_ack_latency_ms(&self) -> (r: u32)
        ensures
            r == self@.reset_ack_latency_ms_value(),
    {
        match self.chosen.reset_ack_latency_ms {
            Some(x) => x,
            None => DEFAULT_RESET_ACK_LATENCY_MS,
        }
    }

    /// Gets whether dynamic epoch sizing is enabled.
    pub fn get_enable_dynamic_epoch_size(&self) -> (r: bool)
        ensures
            r == self@.enable_dynamic_epoch_size_value(),
    {
        match self.chosen.enable_dynamic_epoch_size {
            Some(x) => x,
            None => DEFAULT_ENABLE_DYNAMIC_EPOCH_SIZE,
        }
    }

    /// Gets the transaction channel size.
    pub fn get_transaction_channel_size(&self) -> (r: usize)
        ensures
            r == self@.transaction_channel_size_value(),
    {
        match self.chosen.transaction_channel_size {
            Some(x) => x,
            None => DEFAULT_TRANSACTION_CHANNEL_SIZE,
        }
    }

    /// Gets the maximum number of unacknowledged bytes.
    pub fn get_max_unacknowledged_bytes(&self) -> (r: usize)
        ensures
            r == self@.max_unacknowledged_bytes_value(),
    {
        match self.chosen.max_unacknowledged_bytes {
            Some(x) => x,
            None => DEFAULT_MAX_UNACKNOWLEDGED_BYTES,
        }
    }

    /// Gets the maximum number of blocking verify threads; unless set, the engine's default,
    /// the number of CPU cores available.
    pub fn get_max_blocking_verify_threads(&self) -> (r: usize)
        ensures
            r == self@.max_blocking_verify_threads_value(),
    {
        match self.chosen.max_blocking_verify_threads {
            Some(x) => x,
            None => self.engine.max_blocking_verify_threads,
        }
    }

    /// Gets whether state sharing is enabled.
    pub fn get_enable_state_sharing(&self) -> (r: bool)
        ensures
            r == self@.enable_state_sharing_value(),
    {
        match self.chosen.enable_state_sharing {
            Some(x) => x,
            None => DEFAULT_ENABLE_STATE_SHARING,
        }
    }

    /// Gets the number of epoch states to cache.
    pub fn get_epoch_states_to_cache(&self) -> (r: u16)
        ensures
            r == self@.epoch_states_to_cache_value(),
    {
        match self.chosen.epoch_states_to_cache {
            Some(x) => x,
            None => DEFAULT_EPOCH_STATES_TO_CACHE,
        }
    }

    /// Gets whether hole punching is enabled.
    pub fn get_enable_hole_punching(&self) -> (r: bool)
        ensures
            r == self@.enable_hole_punching_value(),
    {
        match self.chosen.enable_hole_punching {
            Some(x) => x,
            None => DEFAULT_ENABLE_HOLE_PUNCHING,
        }
    }

}

/// A read gives back a write: after a setting is written, it reads the value written.
pub proof fn lemma_read_back_write(o: OptionsView, w: Write)
    ensures
        o.apply(w).reads(w),
{
}

/// A write to one setting leaves every other setting reading as it did, and the engine's
/// defaults as they were.
pub proof fn lemma_write_leaves_others(o: OptionsView, w: Write, s: Setting)
    requires
        s != w.setting(),
    ensures
        o.apply(w).agree_on(o, s),
        o.apply(w).engine == o.engine,
{
}

/// Any sequence of writes to other settings leaves a setting reading as it did.
pub proof fn lemma_writes_to_others_leave_setting(o: OptionsView, ws: Seq<Write>, s: Setting)
    requires
        forall|i: int| 0 <= i < ws.len() ==> ws[i].setting() != s,
    ensures
        o.apply_all(ws).agree_on(o, s),
        o.apply_all(ws).engine == o.engine,
    decreases ws.len(),
{
    if ws.len() > 0 {
        lemma_writes_to_others_leave_setting(o, ws.drop_last(), s);
        lemma_write_leaves_others(o.apply_all(ws.drop_last()), ws.last(), s);
    }
}

/// A write reads back after any later writes to other settings: until the same setting is
/// written again, it reads the value written.
pub proof fn lemma_read_back_after_other_writes(o: OptionsView, w: Write, ws: Seq<Write>)
    requires
        forall|i: int| 0 <= i < ws.len() ==> ws[i].setting() != w.setting(),
    ensures
        o.apply(w).apply_all(ws).reads(w),
{
    lemma_writes_to_others_leave_setting(o.apply(w), ws, w.setting());
}

/// A later write to a setting replaces an earlier one.
pub proof fn lemma_last_write_wins(o: OptionsView, w1: Write, w2: Write)
    requires
        w1.setting() == w2.setting(),
    ensures
        o.apply(w1).apply(w2) == o.apply(w2),
{
}

} // verus!
