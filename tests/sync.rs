use mpd_sink_sync::command::VolumeCommand;
use mpd_sink_sync::playback::{reflect, ListenOutcome, MixerBaseline, ReflectOutcome};
use mpd_sink_sync::reconnect::{Reconnect, RETRY_DELAY_MS};
use mpd_sink_sync::scale::{native_to_percentage, percentage_to_native, NATIVE_MAX, NATIVE_NORM};
use mpd_sink_sync::session::{ListenAction, ListenEvent, ListenPhase, SinkListener};
use mpd_sink_sync::sink::{reply_command, same_bytes, sink_request, RequestSeq};

fn set(volume: u8, source: &str) -> VolumeCommand {
    VolumeCommand::SetTo { volume, source: source.to_string() }
}

#[test]
fn percentage_round_trip_is_exact() {
    for p in 0u8..=100 {
        assert_eq!(native_to_percentage(percentage_to_native(p)), p);
    }
}

#[test]
fn conversions_are_monotonic() {
    for p in 0u8..100 {
        assert!(percentage_to_native(p) <= percentage_to_native(p + 1));
    }
    let mut last = 0u8;
    for n in (0u32..200_000).step_by(97) {
        let p = native_to_percentage(n);
        assert!(p >= last);
        last = p;
    }
}

#[test]
fn percentage_to_native_values() {
    assert_eq!(percentage_to_native(0), 0);
    assert_eq!(percentage_to_native(1), 655);
    assert_eq!(percentage_to_native(50), 32768);
    assert_eq!(percentage_to_native(70), 45875);
    assert_eq!(percentage_to_native(100), NATIVE_NORM);
    assert_eq!(percentage_to_native(255), 167117);
}

#[test]
fn native_to_percentage_values() {
    assert_eq!(native_to_percentage(0), 0);
    assert_eq!(native_to_percentage(327), 0);
    assert_eq!(native_to_percentage(328), 1);
    assert_eq!(native_to_percentage(32768), 50);
    assert_eq!(native_to_percentage(NATIVE_NORM), 100);
    assert_eq!(native_to_percentage(NATIVE_NORM * 2), 100);
    assert_eq!(native_to_percentage(NATIVE_MAX), 100);
    assert_eq!(native_to_percentage(u32::MAX), 100);
}

#[test]
fn reflector_skips_its_own_echo() {
    let a = "host-a:6600".to_string();
    let b = "host-b:6600".to_string();
    let command = set(40, "host-a:6600");
    assert_eq!(reflect(&a, &command), ReflectOutcome::OwnEcho);
    assert_eq!(reflect(&b, &command), ReflectOutcome::Apply(40));
}

#[test]
fn reflector_skips_nothing_and_out_of_range() {
    let a = "host-a:6600".to_string();
    assert_eq!(reflect(&a, &VolumeCommand::NoChange), ReflectOutcome::Skip);
    assert_eq!(reflect(&a, &set(150, "host-b:6600")), ReflectOutcome::OutOfRange);
    assert_eq!(reflect(&a, &set(100, "")), ReflectOutcome::Apply(100));
}

#[test]
fn listener_acknowledges_reflected_change() {
    let a = "host-a:6600".to_string();
    let mut baseline = MixerBaseline::new(50);
    let published = set(40, "host-a:6600");
    assert_eq!(baseline.observe(&a, 40, &published), ListenOutcome::Acknowledged);
    assert_eq!(baseline.volume, 40);
    let from_sink = set(40, "");
    let mut other = MixerBaseline::new(50);
    assert_eq!(other.observe(&a, 40, &from_sink), ListenOutcome::Acknowledged);
}

#[test]
fn listener_enqueues_local_change() {
    let a = "host-a:6600".to_string();
    let mut baseline = MixerBaseline::new(50);
    assert_eq!(
        baseline.observe(&a, 40, &VolumeCommand::NoChange),
        ListenOutcome::Enqueue(set(40, "host-a:6600"))
    );
    assert_eq!(baseline.volume, 40);
    assert_eq!(
        baseline.observe(&a, 35, &set(40, "host-a:6600")),
        ListenOutcome::Enqueue(set(35, "host-a:6600"))
    );
    assert_eq!(baseline.volume, 35);
}

#[test]
fn listener_ignores_unchanged_and_invalid_volume() {
    let a = "host-a:6600".to_string();
    let mut baseline = MixerBaseline::new(50);
    assert_eq!(baseline.observe(&a, 50, &VolumeCommand::NoChange), ListenOutcome::Unchanged);
    assert_eq!(baseline.observe(&a, -1, &VolumeCommand::NoChange), ListenOutcome::OutOfRange);
    assert_eq!(baseline.volume, 50);
    assert_eq!(baseline.observe(&a, 101, &VolumeCommand::NoChange), ListenOutcome::OutOfRange);
    assert_eq!(baseline.volume, 50);
}

#[test]
fn actuator_applies_actions_in_order() {
    let queue = std::sync::mpsc::channel();
    for v in [10u8, 20, 30] {
        queue.0.send(set(v, "host-a:6600")).unwrap();
    }
    drop(queue.0);
    let applied: Vec<u32> = queue.1.iter().filter_map(|c| sink_request(&c, 100)).collect();
    assert_eq!(applied, vec![6554, 13107, 19661]);
}

#[test]
fn actuator_clamps_to_max_volume() {
    assert_eq!(sink_request(&set(95, "host-a:6600"), 80), Some(percentage_to_native(80)));
    assert_eq!(sink_request(&set(95, "host-a:6600"), 80), Some(52429));
    assert_eq!(sink_request(&set(60, "host-a:6600"), 80), Some(39322));
    assert_eq!(sink_request(&VolumeCommand::NoChange, 80), None);
}

#[test]
fn failures_are_reported_once_until_success() {
    assert_eq!(RETRY_DELAY_MS, 2000);
    let mut retry = Reconnect::new();
    assert!(retry.connect_failed());
    assert!(!retry.connect_failed());
    retry.connected();
    assert!(!retry.failing);
    assert!(retry.connect_failed());
}

#[test]
fn listener_session_reconnects_after_two_failures() {
    let mut listener = SinkListener::new();
    assert_eq!(listener.step(ListenEvent::ConnectFailed), ListenAction::RetryConnect { report: true });
    assert_eq!(listener.step(ListenEvent::ConnectFailed), ListenAction::RetryConnect { report: false });
    assert_eq!(listener.step(ListenEvent::Connected), ListenAction::QueryByName);
    assert_eq!(listener.phase, ListenPhase::QueryingInitial);
    assert!(!listener.retry.failing);
}

#[test]
fn listener_session_walks_through_phases() {
    let mut listener = SinkListener::new();
    assert_eq!(listener.step(ListenEvent::Connected), ListenAction::QueryByName);
    assert_eq!(listener.step(ListenEvent::Done), ListenAction::Subscribe);
    assert_eq!(listener.step(ListenEvent::Done), ListenAction::ReadAck);
    assert_eq!(listener.step(ListenEvent::Done), ListenAction::ReadEvent);
    assert_eq!(listener.phase, ListenPhase::Listening);
    assert_eq!(listener.step(ListenEvent::SinkChanged(Some(3))), ListenAction::QueryByIndex(3));
    assert_eq!(listener.step(ListenEvent::Done), ListenAction::ReadEvent);
    assert_eq!(listener.step(ListenEvent::SinkChanged(None)), ListenAction::ReadEvent);
    assert_eq!(listener.step(ListenEvent::OtherMessage), ListenAction::ReadEvent);
    assert_eq!(listener.step(ListenEvent::Failed), ListenAction::Restart);
    assert_eq!(listener.phase, ListenPhase::Connecting);
    assert_eq!(listener.step(ListenEvent::Done), ListenAction::Restart);
    assert_eq!(listener.step(ListenEvent::ConnectFailed), ListenAction::RetryConnect { report: true });
}

#[test]
fn sink_change_reaches_every_endpoint() {
    let reply = reply_command(b"alsa_output.speakers", b"alsa_output.speakers", &[45875, 45875]);
    assert_eq!(reply, Some(set(70, "")));
    let command = reply.unwrap();
    for address in ["host-a:6600", "host-b:6600", "/run/mpd/socket"] {
        assert_eq!(reflect(&address.to_string(), &command), ReflectOutcome::Apply(70));
    }
    assert_eq!(reply_command(b"speakers", b"speakers", &[32768]), Some(set(50, "")));
}

#[test]
fn reply_for_other_sink_or_without_channels_is_ignored() {
    assert_eq!(reply_command(b"speakers", b"headphones", &[32768]), None);
    assert_eq!(reply_command(b"speakers", b"speakers", &[]), None);
    assert_eq!(reply_command(b"speakers", b"speakers", &[NATIVE_MAX]), Some(set(100, "")));
}

#[test]
fn byte_strings_compare_exactly() {
    assert!(same_bytes(b"", b""));
    assert!(same_bytes(b"sink", b"sink"));
    assert!(!same_bytes(b"sink", b"sinks"));
    assert!(!same_bytes(b"sink", b"sunk"));
}

#[test]
fn request_tags_count_up_without_wrapping() {
    let mut seq = RequestSeq::after_handshake();
    assert_eq!(seq.take(), Some(2));
    assert_eq!(seq.take(), Some(3));
    assert_eq!(seq.next, 4);
    let mut resumed = RequestSeq::after_ack(7).unwrap();
    assert_eq!(resumed.take(), Some(8));
    assert!(RequestSeq::after_ack(u32::MAX).is_none());
    let mut spent = RequestSeq { next: u32::MAX };
    assert_eq!(spent.take(), None);
    assert_eq!(spent.next, u32::MAX);
}
