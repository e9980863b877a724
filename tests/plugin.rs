use phantomlink::plugin::{copy_frame, resolve_round_trip, PluginHost, PLUGIN_TIMEOUT_MS};
use std::time::{Duration, Instant};

#[test]
fn disabled_host_is_identity() {
    let (mut host, _rx) = PluginHost::<f32>::connect("gain".to_string());
    host.set_enabled(false);
    assert!(!host.is_enabled());
    let input = vec![0.25, -0.75, 1.0];
    assert_eq!(host.process(&input), input);
}

#[test]
fn empty_frame_makes_no_round_trip() {
    let (mut host, rx) = PluginHost::<f32>::connect("gain".to_string());
    assert_eq!(host.process(&[]), Vec::<f32>::new());
    assert!(rx.try_recv().is_err());
}

#[test]
fn silent_worker_times_out_with_input() {
    let (mut host, _rx) = PluginHost::<f32>::connect("hang".to_string());
    let input = vec![0.1, 0.2];
    let start = Instant::now();
    assert_eq!(host.process(&input), input);
    let waited = start.elapsed();
    assert!(waited >= Duration::from_millis(PLUGIN_TIMEOUT_MS));
    assert!(waited < Duration::from_millis(500));
    // the first request still occupies the channel: the next call does not wait
    let start = Instant::now();
    assert_eq!(host.process(&input), input);
    assert!(start.elapsed() < Duration::from_millis(PLUGIN_TIMEOUT_MS));
}

#[test]
fn disconnected_host_passes_through() {
    let (mut host, rx) = PluginHost::<f32>::connect("gone".to_string());
    host.disconnect();
    assert!(!host.is_connected());
    assert_eq!(host.process(&[1.0, -2.0]), vec![1.0, -2.0]);
    assert!(rx.try_recv().is_err());
}

#[test]
fn round_trip_resolution() {
    assert_eq!(resolve_round_trip(&[1, 2], Some(vec![3])), vec![3]);
    assert_eq!(resolve_round_trip(&[1, 2], None), vec![1, 2]);
    assert_eq!(copy_frame(&[4, 5, 6]), vec![4, 5, 6]);
}

#[test]
fn host_name() {
    let (host, _rx) = PluginHost::<f32>::connect("reverb".to_string());
    assert_eq!(host.get_plugin_name(), "reverb");
    assert!(host.is_connected());
    assert!(host.is_enabled());
}
