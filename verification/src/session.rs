//! The course of a session with the device server, step by step.
use vstd::prelude::*;
use std::collections::HashSet;
use crate::buttplug::{BPCommand, ClientEvent, DeviceAction, DeviceInfo, GuiEvent, Purpose};
use crate::buttplug::plan_command;

verus! {

/// What the device server reports.
#[derive(Clone, Debug, PartialEq, Eq)]
pub enum ServerEvent {
    DeviceAdded(DeviceInfo),
    DeviceRemoved(DeviceInfo),
    ServerDisconnect,
    ServerConnect,
    Error,
    PingTimeout,
    ScanningFinished,
}

/// What a running session hears of.
#[derive(Clone, Debug, PartialEq, Eq)]
pub enum Event {
    Buttplug(ServerEvent),
    Command(BPCommand),
    GuiCommand(GuiEvent),
    CloseCommand,
}

impl Event {
    /// What the command channel hands over. Where commands were lost, the devices are stopped.
    pub fn from_command_channel(received: Option<BPCommand>) -> (event: Event)
        ensures
            event == Event::Command(
                match received {
                    Some(command) => command,
                    None => BPCommand::Stop,
                },
            ),
    {
        match received {
            Some(command) => Event::Command(command),
            None => Event::Command(BPCommand::Stop),
        }
    }

    /// What the channel of the user interface hands over. Where messages were lost, nothing is
    /// done.
    pub fn from_gui_channel(received: Option<GuiEvent>) -> (event: Event)
        ensures
            event == Event::GuiCommand(
                match received {
                    Some(message) => message,
                    None => GuiEvent::Nothing,
                },
            ),
    {
        match received {
            Some(message) => Event::GuiCommand(message),
            None => Event::GuiCommand(GuiEvent::Nothing),
        }
    }
}

/// What a session is doing.
#[derive(Clone, Copy, Debug, PartialEq, Eq, Structural)]
pub enum Phase {
    Connecting,
    Scanning,
    /// Waiting for the next event.
    Listening,
    /// Telling the user interface of a device.
    Reporting,
    /// Sending the messages of a command.
    Driving,
    Disconnecting,
    Over,
}

/// What a session asks its surroundings to do next.
#[derive(Clone, Debug, PartialEq, Eq)]
pub enum Request {
    Connect,
    StartScanning,
    NextEvent,
    Report(ClientEvent),
    Send(DeviceAction),
    Disconnect,
    Finish(Outcome),
}

/// How the surroundings answer a request.
#[derive(Clone, Debug, PartialEq, Eq)]
pub enum Reply {
    /// The work is done; whether it went well.
    Done(bool),
    /// The next event, and the devices that are connected at that time.
    Event(Event, Vec<DeviceInfo>),
    /// There are no more events.
    EndOfEvents,
}

/// How a session ends.
#[derive(Clone, Copy, Debug, PartialEq, Eq)]
pub enum Outcome {
    /// The server went away, or there was nothing more to hear.
    Closed,
    /// Something that was asked for went wrong.
    Failed(Failure),
    /// The connection could not be taken down.
    Crashed,
}

/// What went wrong.
#[derive(Clone, Copy, Debug, PartialEq, Eq)]
pub enum Failure {
    Connect,
    Scan,
    Send(Purpose),
}

/// The words that the report of a failure starts with, where it has any of its own.
pub open spec fn context_of(failure: Failure) -> Option<Seq<char>> {
    match failure {
        Failure::Connect => None,
        Failure::Scan => Some("Couldn't start buttplug.io device scan"@),
        Failure::Send(Purpose::Vibrate) => Some("Couldn't send Vibrate command"@),
        Failure::Send(Purpose::VibrateIndex) => Some("Couldn't send VibrateIndex command"@),
        Failure::Send(Purpose::Linear) => Some("Couldn't send Linear command"@),
        Failure::Send(Purpose::StopVibration) => Some("Couldn't send Stop command for vibration"@),
        Failure::Send(Purpose::StopLinear) => Some(
            "Couldn't send Stop command for linear movement"@,
        ),
    }
}

/// The words that the report of a failure starts with. A failed connection is reported in the
/// words of the connector alone.
pub fn failure_context(failure: Failure) -> (context: Option<&'static str>)
    ensures
        context is Some <==> context_of(failure) is Some,
        context is Some ==> context->0@ == context_of(failure)->0,
{
    match failure {
        Failure::Connect => None,
        Failure::Scan => Some("Couldn't start buttplug.io device scan"),
        Failure::Send(Purpose::Vibrate) => Some("Couldn't send Vibrate command"),
        Failure::Send(Purpose::VibrateIndex) => Some("Couldn't send VibrateIndex command"),
        Failure::Send(Purpose::Linear) => Some("Couldn't send Linear command"),
        Failure::Send(Purpose::StopVibration) => Some("Couldn't send Stop command for vibration"),
        Failure::Send(Purpose::StopLinear) => Some(
            "Couldn't send Stop command for linear movement",
        ),
    }
}

/// The state of a session.
pub struct SessionState {
    pub phase: Phase,
    /// Whether there is a user interface to report to.
    pub reporting: bool,
    /// The devices that `VibrateIndex` drives.
    pub enabled: Set<u32>,
    /// The messages that are still to be sent, the one that is on its way first.
    pub pending: Seq<DeviceAction>,
}

impl SessionState {
    /// Messages are pending while the session is sending, and only then.
    pub open spec fn valid(self) -> bool {
        self.phase == Phase::Driving <==> self.pending.len() > 0
    }

    /// Whether a reply answers what the session is waiting for.
    pub open spec fn awaits(self, reply: Reply) -> bool {
        match reply {
            Reply::Done(_) => self.phase != Phase::Listening && self.phase != Phase::Over,
            Reply::Event(..) => self.phase == Phase::Listening,
            Reply::EndOfEvents => self.phase == Phase::Listening,
        }
    }

    /// The same session in another phase.
    pub open spec fn in_phase(self, phase: Phase) -> SessionState {
        SessionState { phase, ..self }
    }
}

/// The enabled devices after an event. A device is enabled when it is found, disabled when it
/// is lost, and either as the user says.
pub open spec fn enabled_after(enabled: Set<u32>, event: Event) -> Set<u32> {
    match event {
        Event::Buttplug(ServerEvent::DeviceAdded(device)) => enabled.insert(device.index),
        Event::Buttplug(ServerEvent::DeviceRemoved(device)) => enabled.remove(device.index),
        Event::GuiCommand(GuiEvent::DeviceToggle(index, true)) => enabled.insert(index),
        Event::GuiCommand(GuiEvent::DeviceToggle(index, false)) => enabled.remove(index),
        _ => enabled,
    }
}

/// The session that sends the messages of `actions`, and what it asks for first.
pub open spec fn driving(state: SessionState, actions: Seq<DeviceAction>) -> (
    SessionState,
    Request,
) {
    let next = SessionState { pending: actions, ..state };
    if actions.len() == 0 {
        (next.in_phase(Phase::Listening), Request::NextEvent)
    } else {
        (next.in_phase(Phase::Driving), Request::Send(actions[0]))
    }
}

/// The session that tells the user interface of something, where there is one to tell.
pub open spec fn reporting(state: SessionState, report: ClientEvent) -> (SessionState, Request) {
    if state.reporting {
        (state.in_phase(Phase::Reporting), Request::Report(report))
    } else {
        (state.in_phase(Phase::Listening), Request::NextEvent)
    }
}

/// The session that has ended.
pub open spec fn over(state: SessionState, outcome: Outcome) -> (SessionState, Request) {
    (
        SessionState { phase: Phase::Over, pending: seq![], ..state },
        Request::Finish(outcome),
    )
}

/// What a listening session does on an event.
pub open spec fn on_event(state: SessionState, event: Event, devices: Seq<DeviceInfo>) -> (
    SessionState,
    Request,
) {
    let next = SessionState { enabled: enabled_after(state.enabled, event), ..state };
    match event {
        Event::Buttplug(ServerEvent::DeviceAdded(device)) => reporting(
            next,
            ClientEvent::DeviceFound(device.name, device.index),
        ),
        Event::Buttplug(ServerEvent::DeviceRemoved(device)) => reporting(
            next,
            ClientEvent::DeviceLost(device.name, device.index),
        ),
        Event::Buttplug(ServerEvent::ServerDisconnect) => over(next, Outcome::Closed),
        Event::Buttplug(_) => (next, Request::NextEvent),
        Event::Command(command) => driving(
            next,
            crate::buttplug::plan(command, devices, state.enabled),
        ),
        Event::GuiCommand(_) => (next, Request::NextEvent),
        Event::CloseCommand => (next.in_phase(Phase::Disconnecting), Request::Disconnect),
    }
}

/// What a session does on a reply that it awaits.
pub open spec fn on_reply(state: SessionState, reply: Reply) -> (SessionState, Request) {
    match reply {
        Reply::Done(well) => match state.phase {
            Phase::Connecting => if well {
                (state.in_phase(Phase::Scanning), Request::StartScanning)
            } else {
                over(state, Outcome::Failed(Failure::Connect))
            },
            Phase::Scanning => if well {
                (state.in_phase(Phase::Listening), Request::NextEvent)
            } else {
                over(state, Outcome::Failed(Failure::Scan))
            },
            Phase::Driving => if well {
                driving(state, state.pending.drop_first())
            } else {
                over(state, Outcome::Failed(Failure::Send(state.pending[0].purpose)))
            },
            Phase::Disconnecting => if well {
                (state.in_phase(Phase::Listening), Request::NextEvent)
            } else {
                over(state, Outcome::Crashed)
            },
            _ => (state.in_phase(Phase::Listening), Request::NextEvent),
        },
        Reply::Event(event, devices) => on_event(state, event, devices@),
        Reply::EndOfEvents => over(state, Outcome::Closed),
    }
}

/// The phase in which a session waits for the answer to a request.
pub open spec fn phase_of(request: Request) -> Phase {
    match request {
        Request::Connect => Phase::Connecting,
        Request::StartScanning => Phase::Scanning,
        Request::NextEvent => Phase::Listening,
        Request::Report(_) => Phase::Reporting,
        Request::Send(_) => Phase::Driving,
        Request::Disconnect => Phase::Disconnecting,
        Request::Finish(_) => Phase::Over,
    }
}

/// A session with the device server.
pub struct Session {
    phase: Phase,
    reporting: bool,
    enabled: HashSet<u32>,
    actions: Vec<DeviceAction>,
    sent: usize,
}

impl View for Session {
    type V = SessionState;

    closed spec fn view(&self) -> SessionState {
        SessionState {
            phase: self.phase,
            reporting: self.reporting,
            enabled: self.enabled@,
            pending: self.actions@.skip(self.sent as int),
        }
    }
}

impl Session {
    /// A session is well formed when its state is valid.
    pub closed spec fn wf(&self) -> bool {
        &&& self.sent <= self.actions.len()
        &&& self@.valid()
    }

    /// A session that is about to connect. `reporting` says whether there is a user interface
    /// to report devices to.
    pub fn new(reporting: bool) -> (session: Session)
        ensures
            session.wf(),
            session@ == (SessionState {
                phase: Phase::Connecting,
                reporting,
                enabled: Set::empty(),
                pending: seq![],
            }),
            session@.phase == phase_of(Request::Connect),
    {
        let session = Session {
            phase: Phase::Connecting,
            reporting,
            enabled: HashSet::new(),
            actions: Vec::new(),
            sent: 0,
        };
        assert(session@.pending =~= seq![]);
        session
    }

    /// Ends the session.
    fn finish(&mut self, outcome: Outcome) -> (request: Request)
        ensures
            final(self).wf(),
            (final(self)@, request) == over(old(self)@, outcome),
    {
        self.phase = Phase::Over;
        self.actions = Vec::new();
        self.sent = 0;
        assert(self@.pending =~= seq![]);
        Request::Finish(outcome)
    }

    /// Goes back to listening.
    fn listen(&mut self) -> (request: Request)
        requires
            old(self).wf(),
            old(self)@.phase != Phase::Driving,
        ensures
            final(self).wf(),
            (final(self)@, request) == (old(self)@.in_phase(Phase::Listening), Request::NextEvent),
    {
        self.phase = Phase::Listening;
        Request::NextEvent
    }

    /// Tells the user interface of something, where there is one to tell.
    fn report(&mut self, report: ClientEvent) -> (request: Request)
        requires
            old(self).wf(),
            old(self)@.phase == Phase::Listening,
        ensures
            final(self).wf(),
            (final(self)@, request) == reporting(old(self)@, report),
    {
        if self.reporting {
            self.phase = Phase::Reporting;
            Request::Report(report)
        } else {
            self.listen()
        }
    }

    /// Goes on with the first message that has not been sent.
    fn drive(&mut self) -> (request: Request)
        requires
            old(self).sent <= old(self).actions.len(),
        ensures
            final(self).wf(),
            (final(self)@, request) == driving(old(self)@, old(self)@.pending),
    {
        if self.sent == self.actions.len() {
            self.phase = Phase::Listening;
            Request::NextEvent
        } else {
            self.phase = Phase::Driving;
            Request::Send(self.actions[self.sent])
        }
    }

    /// Deals with an event.
    fn hear(&mut self, event: Event, devices: &Vec<DeviceInfo>) -> (request: Request)
        requires
            old(self).wf(),
            old(self)@.phase == Phase::Listening,
        ensures
            final(self).wf(),
            (final(self)@, request) == on_event(old(self)@, event, devices@),
    {
        match event {
            Event::Buttplug(ServerEvent::DeviceAdded(device)) => {
                self.enabled.insert(device.index);
                self.report(ClientEvent::DeviceFound(device.name, device.index))
            },
            Event::Buttplug(ServerEvent::DeviceRemoved(device)) => {
                self.enabled.remove(&device.index);
                self.report(ClientEvent::DeviceLost(device.name, device.index))
            },
            Event::Buttplug(ServerEvent::ServerDisconnect) => self.finish(Outcome::Closed),
            Event::Buttplug(_) => Request::NextEvent,
            Event::Command(command) => {
                self.actions = plan_command(command, devices, &self.enabled);
                self.sent = 0;
                assert(self@.pending =~= self.actions@);
                self.drive()
            },
            Event::GuiCommand(GuiEvent::DeviceToggle(index, checked)) => {
                if checked {
                    self.enabled.insert(index);
                } else {
                    self.enabled.remove(&index);
                }
                Request::NextEvent
            },
            Event::GuiCommand(GuiEvent::Nothing) => Request::NextEvent,
            Event::CloseCommand => {
                self.phase = Phase::Disconnecting;
                Request::Disconnect
            },
        }
    }

    /// Takes the answer to the last request and says what is to be done next.
    pub fn step(&mut self, reply: Reply) -> (request: Request)
        requires
            old(self).wf(),
            old(self)@.awaits(reply),
        ensures
            final(self).wf(),
            (final(self)@, request) == on_reply(old(self)@, reply),
            final(self)@.phase == phase_of(request),
    {
        match reply {
            Reply::Done(well) => match self.phase {
                Phase::Connecting => {
                    if well {
                        self.phase = Phase::Scanning;
                        Request::StartScanning
                    } else {
                        self.finish(Outcome::Failed(Failure::Connect))
                    }
                },
                Phase::Scanning => {
                    if well {
                        self.listen()
                    } else {
                        self.finish(Outcome::Failed(Failure::Scan))
                    }
                },
                Phase::Driving => {
                    if well {
                        self.sent = self.sent + 1;
                        assert(self@.pending =~= old(self)@.pending.drop_first());
                        self.drive()
                    } else {
                        let purpose = self.actions[self.sent].purpose;
                        self.finish(Outcome::Failed(Failure::Send(purpose)))
                    }
                },
                Phase::Disconnecting => {
                    if well {
                        self.listen()
                    } else {
                        self.finish(Outcome::Crashed)
                    }
                },
                _ => self.listen(),
            },
            Reply::Event(event, devices) => self.hear(event, &devices),
            Reply::EndOfEvents => self.finish(Outcome::Closed),
        }
    }
}

} // verus!
