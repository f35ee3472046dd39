use lib::options::{EngineDefaults, Options};

fn engine() -> EngineDefaults {
    EngineDefaults {
        base_min_event_interval_us: 10_000,
        report_gossip_events: false,
        fallen_behind_kick_s: 60,
        max_blocking_verify_threads: 8,
    }
}

#[test]
fn documented_defaults() {
    let o = Options::new(engine());
    assert_eq!(o.get_heartbeat_us(), 500_000);
    assert_eq!(o.get_target_ack_latency_ms(), 400);
    assert_eq!(o.get_max_ack_latency_ms(), 600);
    assert_eq!(o.get_throttle_ack_latency_ms(), 900);
    assert_eq!(o.get_reset_ack_latency_ms(), 2000);
    assert!(o.get_enable_dynamic_epoch_size());
    assert_eq!(o.get_transaction_channel_size(), 32);
    assert_eq!(o.get_max_unacknowledged_bytes(), 500 * 1024 * 1024);
    assert!(!o.get_enable_state_sharing());
    assert_eq!(o.get_epoch_states_to_cache(), 3);
    assert!(o.get_enable_hole_punching());
}

#[test]
fn settings_without_documented_default_read_the_engines() {
    let o = Options::new(engine());
    assert_eq!(o.get_base_min_event_interval_us(), 10_000);
    assert!(!o.get_report_gossip_events());
    assert_eq!(o.get_fallen_behind_kick_s(), 60);
    assert_eq!(o.get_max_blocking_verify_threads(), 8);
}

#[test]
fn fresh_options_choose_nothing() {
    let c = Options::new(engine()).choices();
    assert_eq!(c.heartbeat_us, None);
    assert_eq!(c.max_blocking_verify_threads, None);
    assert_eq!(c.enable_hole_punching, None);
    assert_eq!(c.fallen_behind_kick_s, None);
}

#[test]
fn choices_hold_what_was_set() {
    let mut o = Options::new(engine());
    o.set_max_blocking_verify_threads(2);
    o.set_enable_state_sharing(false);
    let c = o.choices();
    assert_eq!(c.max_blocking_verify_threads, Some(2));
    assert_eq!(c.enable_state_sharing, Some(false));
    assert_eq!(c.heartbeat_us, None);
}

#[test]
fn two_instances_share_nothing() {
    let mut a = Options::new(engine());
    let b = Options::new(engine());
    a.set_heartbeat_us(1);
    assert_eq!(a.get_heartbeat_us(), 1);
    assert_eq!(b.get_heartbeat_us(), 500_000);
}

#[test]
fn every_setting_reads_back() {
    let mut o = Options::new(engine());
    o.set_base_min_event_interval_us(1_234);
    o.set_report_gossip_events(true);
    o.set_fallen_behind_kick_s(-1);
    o.set_heartbeat_us(250_000);
    o.set_target_ack_latency_ms(100);
    o.set_max_ack_latency_ms(200);
    o.set_throttle_ack_latency_ms(300);
    o.set_reset_ack_latency_ms(1_000);
    o.set_enable_dynamic_epoch_size(false);
    o.set_transaction_channel_size(64);
    o.set_max_unacknowledged_bytes(1 << 20);
    o.set_max_blocking_verify_threads(4);
    o.set_enable_state_sharing(true);
    o.set_epoch_states_to_cache(7);
    o.set_enable_hole_punching(false);
    assert_eq!(o.get_base_min_event_interval_us(), 1_234);
    assert_eq!(o.get_report_gossip_events(), true);
    assert_eq!(o.get_fallen_behind_kick_s(), -1);
    assert_eq!(o.get_heartbeat_us(), 250_000);
    assert_eq!(o.get_target_ack_latency_ms(), 100);
    assert_eq!(o.get_max_ack_latency_ms(), 200);
    assert_eq!(o.get_throttle_ack_latency_ms(), 300);
    assert_eq!(o.get_reset_ack_latency_ms(), 1_000);
    assert!(!o.get_enable_dynamic_epoch_size());
    assert_eq!(o.get_transaction_channel_size(), 64);
    assert_eq!(o.get_max_unacknowledged_bytes(), 1 << 20);
    assert_eq!(o.get_max_blocking_verify_threads(), 4);
    assert!(o.get_enable_state_sharing());
    assert_eq!(o.get_epoch_states_to_cache(), 7);
    assert!(!o.get_enable_hole_punching());
}

#[test]
fn a_write_leaves_other_settings_alone() {
    let mut o = Options::new(engine());
    o.set_heartbeat_us(1);
    assert_eq!(o.get_target_ack_latency_ms(), 400);
    assert_eq!(o.get_max_ack_latency_ms(), 600);
    assert_eq!(o.get_transaction_channel_size(), 32);
    assert_eq!(o.get_base_min_event_interval_us(), 10_000);
    o.set_enable_state_sharing(true);
    assert_eq!(o.get_heartbeat_us(), 1);
    assert_eq!(o.get_max_blocking_verify_threads(), 8);
    assert!(o.get_enable_hole_punching());
}

#[test]
fn last_write_wins() {
    let mut o = Options::new(engine());
    o.set_epoch_states_to_cache(5);
    o.set_epoch_states_to_cache(9);
    assert_eq!(o.get_epoch_states_to_cache(), 9);
    o.set_fallen_behind_kick_s(30);
    o.set_fallen_behind_kick_s(-5);
    assert_eq!(o.get_fallen_behind_kick_s(), -5);
}

#[test]
fn write_reads_back_after_other_writes() {
    let mut o = Options::new(engine());
    o.set_fallen_behind_kick_s(-1);
    o.set_heartbeat_us(3);
    o.set_report_gossip_events(true);
    o.set_max_blocking_verify_threads(1);
    o.set_epoch_states_to_cache(0);
    assert_eq!(o.get_fallen_behind_kick_s(), -1);
    assert_eq!(o.get_heartbeat_us(), 3);
}

#[test]
fn setting_a_value_equal_to_the_default_reads_the_same() {
    let mut o = Options::new(engine());
    o.set_heartbeat_us(500_000);
    assert_eq!(o.get_heartbeat_us(), 500_000);
    o.set_enable_hole_punching(true);
    assert!(o.get_enable_hole_punching());
}
