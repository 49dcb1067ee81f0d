use svg_to_png::watch::{watch_step, Notification};

fn b(s: &str) -> Vec<u8> {
    s.as_bytes().to_vec()
}

#[test]
fn test_watch_changed_converts_eligible_paths() {
    let delivery = Notification::Changed(vec![b("in/x.svg"), b("in/y.txt"), b("in/sub/z.svg")]);
    let step = watch_step(&b("out"), delivery);
    assert!(!step.stop);
    assert_eq!(step.requests.len(), 2);
    assert_eq!(step.requests[0].source, b("in/x.svg"));
    assert_eq!(step.requests[0].dest, b("out/x.png"));
    assert_eq!(step.requests[1].source, b("in/sub/z.svg"));
    assert_eq!(step.requests[1].dest, b("out/z.png"));
}

#[test]
fn test_watch_other_event_is_ignored() {
    let step = watch_step(&b("out"), Notification::Other);
    assert!(!step.stop);
    assert!(step.requests.is_empty());
}

#[test]
fn test_watch_error_is_not_fatal() {
    let step = watch_step(&b("out"), Notification::WatchError("watch error".to_string()));
    assert!(!step.stop);
    assert!(step.requests.is_empty());
}

#[test]
fn test_watch_timeout_keeps_waiting() {
    let step = watch_step(&b("out"), Notification::Timeout);
    assert!(!step.stop);
    assert!(step.requests.is_empty());
}

#[test]
fn test_watch_closed_channel_stops() {
    let step = watch_step(&b("out"), Notification::Closed);
    assert!(step.stop);
    assert!(step.requests.is_empty());
}
