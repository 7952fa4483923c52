use prop_command_demo::command::{Command, CommandProcessor, TelemetryMsg};
use prop_command_demo::telemetry::{format_line, TelemetryHub};

fn handle(p: &mut CommandProcessor, delay: f64, now: u64) -> TelemetryMsg {
    let nanos: u64 = if delay.is_finite() && delay >= 0.0 {
        (delay * 1e9) as u64
    } else {
        0
    };
    let two = format!("{:.2}", delay);
    let plain = format!("{}", delay);
    p.handle(Command(delay.to_bits()), now, nanos, &two, &plain)
}

#[test]
fn line_format_is_tag_then_payload() {
    let line = format_line("scheduled", "Scheduled fire in 3.00s");
    assert_eq!(line, "[scheduled] Scheduled fire in 3.00s\n");
}

#[test]
fn no_observer_means_no_target() {
    let hub = TelemetryHub::new();
    let (line, target) = hub.send_telemetry("cancelled", "Cancelled fire command");
    assert_eq!(line, "[cancelled] Cancelled fire command\n");
    assert_eq!(target, None);
}

#[test]
fn lines_go_to_the_registered_observer() {
    let mut hub = TelemetryHub::new();
    hub.add_client(7);
    let (_, target) = hub.send_telemetry("fired", "Firing propulsion now!");
    assert_eq!(target, Some(7));
}

#[test]
fn second_observer_displaces_the_first() {
    let mut hub = TelemetryHub::new();
    hub.add_client(1);
    hub.add_client(2);
    let (_, target) = hub.send_telemetry("scheduled", "Scheduled fire in 1.00s");
    assert_eq!(target, Some(2));
    assert_ne!(target, Some(1));
    let (_, again) = hub.send_telemetry("cancelled", "Cancelled fire command");
    assert_eq!(again, Some(2));
}

#[test]
fn schedule_then_cancel_never_fires() {
    let mut p = CommandProcessor::new();
    let mut hub = TelemetryHub::new();
    hub.add_client(0);
    let mut lines: Vec<String> = Vec::new();

    let delay: f64 = serde_json::from_str("3.0").unwrap();
    let msg = handle(&mut p, delay, 0);
    lines.push(hub.send_telemetry(&msg.tag, &msg.payload).0);

    assert!(p.tick(1_000_000_000).is_none());

    let cancel: f64 = serde_json::from_str("-1.0").unwrap();
    let msg2 = handle(&mut p, cancel, 1_500_000_000);
    lines.push(hub.send_telemetry(&msg2.tag, &msg2.payload).0);

    assert!(p.tick(3_000_000_000).is_none());
    assert!(p.tick(u64::MAX).is_none());

    assert_eq!(
        lines,
        vec![
            "[scheduled] Scheduled fire in 3.00s\n",
            "[cancelled] Cancelled fire command\n",
        ]
    );
    assert!(lines.iter().all(|l| !l.contains("[fired]")));
}

#[test]
fn invalid_command_end_to_end() {
    let mut p = CommandProcessor::new();
    let mut hub = TelemetryHub::new();
    hub.add_client(0);

    let delay: f64 = serde_json::from_str("-2.5").unwrap();
    let before = p.current_deadline();
    let msg = handle(&mut p, delay, 0);
    let (line, target) = hub.send_telemetry(&msg.tag, &msg.payload);
    assert_eq!(line, "[invalid] Invalid delay value: -2.5\n");
    assert_eq!(target, Some(0));
    assert_eq!(p.current_deadline(), before);
    assert_eq!(p.current_deadline(), None);
}
