use bass_haptics::channel::Polled;
use bass_haptics::event_loop::{LoopEvent, ServerEvent};
use bass_haptics::intensity::Intensity;
use bass_haptics::session::{Action, ConnectError, Device, ScanError, Session};

fn vibrator(id: u32) -> Device {
    Device { id, vibrates: true }
}

fn active() -> Session {
    let mut s = Session::new();
    assert!(s.begin_connect());
    assert_eq!(s.connect(true), Ok(()));
    assert!(s.begin_scan());
    assert_eq!(s.start_scan(true), Ok(()));
    s
}

fn half() -> Intensity {
    Intensity::from_ppm(500_000).unwrap()
}

#[test]
fn session_walks_through_its_states() {
    let mut s = Session::new();
    assert_eq!(s, Session::Disconnected);
    assert!(s.begin_connect());
    assert_eq!(s, Session::Connecting);
    assert_eq!(s.connect(true), Ok(()));
    assert_eq!(s, Session::Connected);
    assert!(s.begin_scan());
    assert_eq!(s, Session::Scanning);
    assert_eq!(s.start_scan(true), Ok(()));
    assert_eq!(s, Session::Active { bound: None });
    s.on_server_disconnect();
    assert_eq!(s, Session::Terminated);
    assert!(s.is_terminated());
}

#[test]
fn refused_connection_terminates() {
    let mut s = Session::new();
    s.begin_connect();
    assert_eq!(s.connect(false), Err(ConnectError::Refused));
    assert!(s.is_terminated());
    assert!(!s.begin_connect());
    assert_eq!(s.connect(true), Err(ConnectError::NotConnecting));
    assert!(s.is_terminated());
}

#[test]
fn refused_scan_terminates() {
    let mut s = Session::new();
    s.begin_connect();
    s.connect(true).unwrap();
    s.begin_scan();
    assert_eq!(s.start_scan(false), Err(ScanError::Refused));
    assert!(s.is_terminated());
    assert!(!s.begin_scan());
    assert_eq!(s.start_scan(true), Err(ScanError::NotScanning));
}

#[test]
fn answers_out_of_turn_change_nothing() {
    let mut s = Session::new();
    assert_eq!(s.connect(true), Err(ConnectError::NotConnecting));
    assert_eq!(s.start_scan(true), Err(ScanError::NotScanning));
    assert!(!s.begin_scan());
    assert_eq!(s, Session::Disconnected);
    s.begin_connect();
    assert!(!s.begin_connect());
    assert_eq!(s.start_scan(false), Err(ScanError::NotScanning));
    assert_eq!(s, Session::Connecting);
}

#[test]
fn newest_vibrating_device_is_bound() {
    let mut s = active();
    s.on_device_added(vibrator(1));
    assert_eq!(s.bound_device(), Some(vibrator(1)));
    s.on_device_added(Device { id: 2, vibrates: false });
    assert_eq!(s.bound_device(), Some(vibrator(1)));
    s.on_device_added(vibrator(3));
    assert_eq!(s.bound_device(), Some(vibrator(3)));
}

#[test]
fn devices_are_ignored_before_the_session_is_active() {
    let mut s = Session::new();
    s.on_device_added(vibrator(1));
    assert_eq!(s, Session::Disconnected);
    s.begin_connect();
    s.on_device_added(vibrator(1));
    s.on_device_removed(vibrator(1));
    assert_eq!(s, Session::Connecting);
    assert_eq!(s.drive(half()), Action::Idle);
}

#[test]
fn removing_another_device_keeps_the_bound_one() {
    let mut s = active();
    s.on_device_added(vibrator(1));
    s.on_device_removed(vibrator(2));
    assert_eq!(s.bound_device(), Some(vibrator(1)));
    // The same device, whatever the notice says of what it can do.
    s.on_device_removed(Device { id: 1, vibrates: false });
    assert_eq!(s.bound_device(), None);
    assert_eq!(s, Session::Active { bound: None });
}

#[test]
fn drive_after_added_and_removed_is_a_no_op() {
    let mut s = active();
    let d = vibrator(7);
    assert_eq!(s.step(LoopEvent::Server(ServerEvent::DeviceAdded(d))), Action::Idle);
    assert_eq!(s.drive(half()), Action::Vibrate { device: d, level: half() });
    assert_eq!(s.step(LoopEvent::Server(ServerEvent::Other)), Action::Idle);
    assert_eq!(s.step(LoopEvent::Tick(Polled::Empty)), Action::Idle);
    assert_eq!(s.step(LoopEvent::Server(ServerEvent::DeviceRemoved(d))), Action::Idle);
    assert_eq!(s.drive(half()), Action::Idle);
    assert_eq!(s.step(LoopEvent::Tick(Polled::Value(half()))), Action::Idle);
    assert_eq!(s, Session::Active { bound: None });
}

#[test]
fn drive_follows_a_device_announced_in_between() {
    let mut s = active();
    s.step(LoopEvent::Server(ServerEvent::DeviceAdded(vibrator(1))));
    s.step(LoopEvent::Server(ServerEvent::DeviceAdded(vibrator(2))));
    s.step(LoopEvent::Server(ServerEvent::DeviceRemoved(vibrator(1))));
    assert_eq!(s.drive(half()), Action::Vibrate { device: vibrator(2), level: half() });
}

#[test]
fn adopt_binds_the_last_vibrating_device_known() {
    let mut s = active();
    s.adopt(&[vibrator(1), vibrator(2), Device { id: 3, vibrates: false }]);
    assert_eq!(s.bound_device(), Some(vibrator(2)));
    s.adopt(&[]);
    assert_eq!(s.bound_device(), Some(vibrator(2)));
    s.adopt(&[Device { id: 4, vibrates: false }]);
    assert_eq!(s.bound_device(), Some(vibrator(2)));
    let mut idle = Session::new();
    idle.adopt(&[vibrator(1)]);
    assert_eq!(idle, Session::Disconnected);
}

#[test]
fn tick_with_value_drives_the_bound_device() {
    let mut s = active();
    s.on_device_added(vibrator(5));
    let level = Intensity::from_ppm(525_000).unwrap();
    assert_eq!(
        s.on_tick(Polled::Value(level)),
        Action::Vibrate { device: vibrator(5), level }
    );
    assert_eq!(s.on_tick(Polled::Empty), Action::Idle);
    assert_eq!(s.bound_device(), Some(vibrator(5)));
}

#[test]
fn tick_on_closed_channel_ends_the_session() {
    let mut s = active();
    s.on_device_added(vibrator(5));
    assert_eq!(s.on_tick(Polled::Closed), Action::Stop);
    assert!(s.is_terminated());
    let mut early = Session::new();
    assert_eq!(early.step(LoopEvent::Tick(Polled::Closed)), Action::Stop);
    assert!(early.is_terminated());
}

#[test]
fn goodbye_and_stream_end_both_stop() {
    let mut s = active();
    assert_eq!(s.step(LoopEvent::Server(ServerEvent::ServerDisconnect)), Action::Stop);
    assert!(s.is_terminated());
    let mut s = active();
    assert_eq!(s.step(LoopEvent::StreamEnded), Action::Stop);
    assert!(s.is_terminated());
}

#[test]
fn failed_command_leaves_the_session_active() {
    let mut s = active();
    s.on_device_added(vibrator(5));
    assert_eq!(s.step(LoopEvent::CommandFailed), Action::Idle);
    assert_eq!(s, Session::Active { bound: Some(vibrator(5)) });
    assert_eq!(s.drive(half()), Action::Vibrate { device: vibrator(5), level: half() });
}

#[test]
fn terminated_session_stays_terminated() {
    let mut s = active();
    s.on_server_disconnect();
    let events = [
        LoopEvent::Server(ServerEvent::DeviceAdded(vibrator(1))),
        LoopEvent::Server(ServerEvent::DeviceRemoved(vibrator(1))),
        LoopEvent::Server(ServerEvent::Other),
        LoopEvent::Server(ServerEvent::ServerDisconnect),
        LoopEvent::StreamEnded,
        LoopEvent::Tick(Polled::Value(half())),
        LoopEvent::Tick(Polled::Empty),
        LoopEvent::Tick(Polled::Closed),
        LoopEvent::CommandFailed,
    ];
    for e in events {
        assert_eq!(s.step(e), Action::Stop);
        assert_eq!(s, Session::Terminated);
    }
    s.on_device_added(vibrator(1));
    s.adopt(&[vibrator(2)]);
    assert!(!s.begin_connect());
    assert!(!s.begin_scan());
    assert_eq!(s.drive(half()), Action::Idle);
    assert_eq!(s, Session::Terminated);
}
