use cs2_buttplug::buttplug::{
    plan_command, transport_to, DeviceAction, DeviceCommand, DeviceInfo, Purpose, Transport, BYPASS_CERT_VERIFY,
    CLIENT_NAME, COMMAND_CAPACITY,
};
use cs2_buttplug::level::Level;
use cs2_buttplug::session::{failure_context, Event, Failure, Outcome, Reply, Request, ServerEvent, Session};
use cs2_buttplug::{BPCommand, ClientEvent, GuiEvent};
use std::collections::HashSet;

fn level(number: f64) -> Level {
    Level { bits: number.to_bits() }
}

fn device(index: u32, vibrate_attributes: usize, linear_attributes: usize) -> DeviceInfo {
    DeviceInfo { name: format!("device {}", index), index, vibrate_attributes, linear_attributes }
}

fn action(slot: usize, command: DeviceCommand, purpose: Purpose) -> DeviceAction {
    DeviceAction { slot, command, purpose }
}

fn devices() -> Vec<DeviceInfo> {
    vec![device(3, 2, 0), device(4, 0, 1), device(5, 1, 3), device(6, 0, 0)]
}

fn listening(reporting: bool) -> Session {
    let mut session = Session::new(reporting);
    assert_eq!(session.step(Reply::Done(true)), Request::StartScanning);
    assert_eq!(session.step(Reply::Done(true)), Request::NextEvent);
    session
}

fn hear(session: &mut Session, event: Event) -> Request {
    session.step(Reply::Event(event, devices()))
}

fn found(index: u32) -> Event {
    Event::Buttplug(ServerEvent::DeviceAdded(device(index, 1, 1)))
}

fn lost(index: u32) -> Event {
    Event::Buttplug(ServerEvent::DeviceRemoved(device(index, 1, 1)))
}

fn toggle(index: u32, checked: bool) -> Event {
    Event::GuiCommand(GuiEvent::DeviceToggle(index, checked))
}

#[test]
fn vibrate_goes_to_every_device_with_a_motor() {
    let plan = plan_command(BPCommand::Vibrate(level(1.5)), &devices(), &HashSet::new());
    assert_eq!(
        plan,
        vec![
            action(0, DeviceCommand::Vibrate(level(1.0)), Purpose::Vibrate),
            action(2, DeviceCommand::Vibrate(level(1.0)), Purpose::Vibrate),
        ]
    );
}

#[test]
fn vibrate_index_goes_to_enabled_devices() {
    let enabled = HashSet::from([3, 4, 5]);
    let plan = plan_command(BPCommand::VibrateIndex(level(0.5), 1), &devices(), &enabled);
    assert_eq!(
        plan,
        vec![
            action(0, DeviceCommand::VibrateMotor(1, level(0.5)), Purpose::VibrateIndex),
            action(2, DeviceCommand::VibrateMotor(0, level(0.5)), Purpose::VibrateIndex),
        ]
    );
    let plan = plan_command(BPCommand::VibrateIndex(level(0.5), 9), &devices(), &HashSet::from([3]));
    assert_eq!(plan, vec![action(0, DeviceCommand::VibrateMotor(1, level(0.5)), Purpose::VibrateIndex)]);
    assert!(plan_command(BPCommand::VibrateIndex(level(0.5), 0), &devices(), &HashSet::new()).is_empty());
}

#[test]
fn linear_goes_to_every_device_with_an_axis() {
    let plan = plan_command(BPCommand::Linear(250, level(1.75)), &devices(), &HashSet::new());
    assert_eq!(
        plan,
        vec![
            action(1, DeviceCommand::Linear(0, 250, level(1.0)), Purpose::Linear),
            action(2, DeviceCommand::Linear(1, 250, level(1.0)), Purpose::Linear),
        ]
    );
    let plan = plan_command(BPCommand::Linear(250, level(0.25)), &devices(), &HashSet::new());
    assert_eq!(plan[1], action(2, DeviceCommand::Linear(0, 250, level(0.25)), Purpose::Linear));
}

#[test]
fn stop_brings_everything_to_zero() {
    let plan = plan_command(BPCommand::Stop, &devices(), &HashSet::new());
    assert_eq!(
        plan,
        vec![
            action(0, DeviceCommand::Vibrate(level(0.0)), Purpose::StopVibration),
            action(1, DeviceCommand::Linear(0, 0, level(0.0)), Purpose::StopLinear),
            action(2, DeviceCommand::Vibrate(level(0.0)), Purpose::StopVibration),
            action(2, DeviceCommand::Linear(0, 0, level(0.0)), Purpose::StopLinear),
        ]
    );
}

#[test]
fn enabling_matters_to_vibrate_index_alone() {
    let all = HashSet::from([3, 4, 5, 6]);
    for command in [BPCommand::Vibrate(level(0.3)), BPCommand::Linear(1, level(0.3)), BPCommand::Stop] {
        assert_eq!(plan_command(command, &devices(), &all), plan_command(command, &devices(), &HashSet::new()));
    }
}

#[test]
fn messages_stay_in_range_and_in_order() {
    let all = HashSet::from([3, 4, 5, 6]);
    for number in [-2.0, 0.0, 0.7, 1.0, 2.5, 1e18, f64::INFINITY, f64::NAN] {
        for command in [
            BPCommand::Vibrate(level(number)),
            BPCommand::VibrateIndex(level(number), 7),
            BPCommand::Linear(10, level(number)),
        ] {
            let devices = devices();
            let plan = plan_command(command, &devices, &all);
            assert!(plan.windows(2).all(|pair| pair[0].slot <= pair[1].slot));
            for action in plan {
                let device = &devices[action.slot];
                match action.command {
                    DeviceCommand::Vibrate(speed) => {
                        assert!(device.vibrate_attributes > 0);
                        assert!(f64::from_bits(speed.bits) <= 1.0);
                    }
                    DeviceCommand::VibrateMotor(motor, speed) => {
                        assert!((motor as usize) < device.vibrate_attributes);
                        assert!(f64::from_bits(speed.bits) <= 1.0);
                    }
                    DeviceCommand::Linear(axis, _, position) => {
                        assert!((axis as usize) < device.linear_attributes);
                        assert!(f64::from_bits(position.bits) <= 1.0);
                    }
                }
            }
        }
    }
}

#[test]
fn lost_messages() {
    assert_eq!(Event::from_command_channel(None), Event::Command(BPCommand::Stop));
    assert_eq!(
        Event::from_command_channel(Some(BPCommand::Vibrate(level(0.5)))),
        Event::Command(BPCommand::Vibrate(level(0.5)))
    );
    assert_eq!(Event::from_gui_channel(None), Event::GuiCommand(GuiEvent::Nothing));
    assert_eq!(Event::from_gui_channel(Some(GuiEvent::DeviceToggle(1, true))), toggle(1, true));
}

#[test]
fn transports() {
    let secure = "wss://127.0.0.1:12345".to_string();
    assert_eq!(transport_to(&secure), Transport::Secure(secure.clone()));
    for url in ["ws://127.0.0.1:12345", "WSS://host", "wss:/", "", " wss://host", "http://wss://"] {
        assert_eq!(transport_to(&url.to_string()), Transport::Insecure(url.to_string()));
    }
    assert_eq!(transport_to(&"wss://".to_string()), Transport::Secure("wss://".to_string()));
    assert_eq!(CLIENT_NAME, "CS2 integration");
    assert_eq!(COMMAND_CAPACITY, 5);
    assert_eq!(BYPASS_CERT_VERIFY, false);
}

#[test]
fn failed_connection() {
    let mut session = Session::new(true);
    assert_eq!(session.step(Reply::Done(false)), Request::Finish(Outcome::Failed(Failure::Connect)));
    assert_eq!(failure_context(Failure::Connect), None);
}

#[test]
fn failed_scan() {
    let mut session = Session::new(true);
    assert_eq!(session.step(Reply::Done(true)), Request::StartScanning);
    assert_eq!(session.step(Reply::Done(false)), Request::Finish(Outcome::Failed(Failure::Scan)));
    assert_eq!(failure_context(Failure::Scan), Some("Couldn't start buttplug.io device scan"));
}

#[test]
fn failure_words() {
    let words = |purpose| failure_context(Failure::Send(purpose)).unwrap();
    assert_eq!(words(Purpose::Vibrate), "Couldn't send Vibrate command");
    assert_eq!(words(Purpose::VibrateIndex), "Couldn't send VibrateIndex command");
    assert_eq!(words(Purpose::Linear), "Couldn't send Linear command");
    assert_eq!(words(Purpose::StopVibration), "Couldn't send Stop command for vibration");
    assert_eq!(words(Purpose::StopLinear), "Couldn't send Stop command for linear movement");
}

#[test]
fn devices_are_reported() {
    let mut session = listening(true);
    assert_eq!(
        hear(&mut session, found(7)),
        Request::Report(ClientEvent::DeviceFound("device 7".to_string(), 7))
    );
    assert_eq!(session.step(Reply::Done(false)), Request::NextEvent);
    assert_eq!(
        hear(&mut session, lost(7)),
        Request::Report(ClientEvent::DeviceLost("device 7".to_string(), 7))
    );
    assert_eq!(session.step(Reply::Done(true)), Request::NextEvent);
}

#[test]
fn without_a_window_nothing_is_reported() {
    let mut session = listening(false);
    assert_eq!(hear(&mut session, found(7)), Request::NextEvent);
    assert_eq!(hear(&mut session, lost(7)), Request::NextEvent);
}

#[test]
fn the_last_event_decides_whether_a_device_is_enabled() {
    let rows: Vec<(Vec<Event>, bool)> = vec![
        (vec![], false),
        (vec![found(3)], true),
        (vec![found(5)], false),
        (vec![found(3), lost(3)], false),
        (vec![found(3), toggle(3, false)], false),
        (vec![found(3), toggle(3, false), toggle(3, true)], true),
        (vec![found(3), toggle(3, false), found(3)], true),
        (vec![toggle(3, true)], true),
        (vec![found(3), lost(5), toggle(5, false)], true),
        (vec![found(3), Event::GuiCommand(GuiEvent::Nothing)], true),
        (vec![found(3), Event::Buttplug(ServerEvent::ScanningFinished)], true),
    ];
    for (events, enabled) in rows {
        let mut session = listening(false);
        for event in events {
            assert_eq!(hear(&mut session, event), Request::NextEvent);
        }
        let command = Event::Command(BPCommand::VibrateIndex(level(0.5), 0));
        let request = session.step(Reply::Event(command, vec![device(3, 1, 0)]));
        let send = action(0, DeviceCommand::VibrateMotor(0, level(0.5)), Purpose::VibrateIndex);
        assert_eq!(request, if enabled { Request::Send(send) } else { Request::NextEvent });
    }
}

#[test]
fn commands_are_carried_out_message_by_message() {
    let mut session = listening(true);
    let plan = plan_command(BPCommand::Stop, &devices(), &HashSet::new());
    let mut request = hear(&mut session, Event::Command(BPCommand::Stop));
    for action in plan {
        assert_eq!(request, Request::Send(action));
        request = session.step(Reply::Done(true));
    }
    assert_eq!(request, Request::NextEvent);
}

#[test]
fn a_failed_message_ends_the_session() {
    let mut session = listening(true);
    let _ = hear(&mut session, Event::Command(BPCommand::Stop));
    let _ = session.step(Reply::Done(true));
    assert_eq!(
        session.step(Reply::Done(false)),
        Request::Finish(Outcome::Failed(Failure::Send(Purpose::StopLinear)))
    );
}

#[test]
fn closing_waits_for_the_server() {
    let mut session = listening(true);
    assert_eq!(hear(&mut session, Event::CloseCommand), Request::Disconnect);
    assert_eq!(session.step(Reply::Done(true)), Request::NextEvent);
    assert_eq!(
        hear(&mut session, Event::Buttplug(ServerEvent::ServerDisconnect)),
        Request::Finish(Outcome::Closed)
    );
}

#[test]
fn a_connection_that_cannot_be_taken_down() {
    let mut session = listening(true);
    let _ = hear(&mut session, Event::CloseCommand);
    assert_eq!(session.step(Reply::Done(false)), Request::Finish(Outcome::Crashed));
}

#[test]
fn the_end_of_events_ends_the_session() {
    assert_eq!(listening(true).step(Reply::EndOfEvents), Request::Finish(Outcome::Closed));
}

#[test]
fn other_server_events_are_passed_over() {
    let mut session = listening(true);
    for event in [
        ServerEvent::ServerConnect,
        ServerEvent::Error,
        ServerEvent::PingTimeout,
        ServerEvent::ScanningFinished,
    ] {
        assert_eq!(hear(&mut session, Event::Buttplug(event)), Request::NextEvent);
    }
}
