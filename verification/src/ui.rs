//! The state behind the window of the program, and what the user's doings ask for.
use vstd::prelude::*;
use vstd::string::StringExecFns;
use std::collections::HashMap;
use crate::buttplug::{ClientEvent, GuiEvent};
use crate::config::{Config, ConfigState, Saved, Setting};

verus! {

/// How many messages may wait in each of the channels of the window before the oldest are lost.
pub const CHANNEL_CAPACITY: usize = 64;

/// How a device stands.
#[derive(Clone, Copy, Debug, PartialEq, Eq, Structural)]
pub enum Status {
    /// It is not connected.
    Absent,
    /// It is connected, and the user has taken it out of use.
    Disabled,
    /// It is connected and in use.
    Enabled,
}

/// How a status is shown.
pub open spec fn label_of(status: Status) -> Seq<char> {
    match status {
        Status::Enabled => "Enabled"@,
        Status::Disabled => "Disabled"@,
        Status::Absent => "Disconnected"@,
    }
}

/// How a status is shown.
pub fn status_to_label(status: &Status) -> (label: &'static str)
    ensures
        label@ == label_of(*status),
{
    match status {
        Status::Enabled => "Enabled",
        Status::Disabled => "Disabled",
        Status::Absent => "Disconnected",
    }
}

/// The devices that are listed, by index: the name and the status of each.
pub type Roster = Map<u32, (String, Status)>;

/// The list of devices after a report of the session.
pub open spec fn roster_after(devices: Roster, event: ClientEvent) -> Roster {
    match event {
        ClientEvent::DeviceFound(name, index) => devices.insert(index, (name, Status::Enabled)),
        ClientEvent::DeviceLost(name, index) => devices.insert(index, (name, Status::Absent)),
    }
}

/// The list of devices after the user has ticked a device or taken the tick away.
pub open spec fn roster_toggled(devices: Roster, index: u32, checked: bool) -> Roster {
    let status = if checked {
        Status::Enabled
    } else {
        Status::Disabled
    };
    devices.insert(index, (devices[index].0, status))
}

/// A line of the list of devices.
#[derive(Clone, Debug, PartialEq, Eq)]
pub struct DeviceRow {
    pub index: u32,
    pub label: String,
    /// Whether the device is ticked.
    pub checked: bool,
    /// Whether the user can change that.
    pub changeable: bool,
}

/// Whether a line shows a device as it stands.
pub open spec fn shows(row: DeviceRow, device: (String, Status)) -> bool {
    &&& row.label@ == device.0@ + ": "@ + label_of(device.1)
    &&& row.checked == (device.1 == Status::Enabled)
    &&& row.changeable == (device.1 != Status::Absent)
}

/// What the window asks to have done.
#[derive(Clone, Debug, PartialEq, Eq)]
pub enum Order {
    /// Start the work with these settings.
    Launch(Config),
    /// Tell all work to end, and, where so said, wait until it has.
    Close(bool),
}

/// What the window asks to have done, with the settings as they read.
pub enum OrderState {
    Launch(ConfigState),
    Close(bool),
}

impl View for Order {
    type V = OrderState;

    open spec fn view(&self) -> OrderState {
        match *self {
            Order::Launch(config) => OrderState::Launch(config@),
            Order::Close(wait) => OrderState::Close(wait),
        }
    }
}

/// The orders of a row, as they read.
pub open spec fn orders_of(orders: Seq<Order>) -> Seq<OrderState> {
    orders.map_values(|order: Order| order@)
}

/// The button that starts the work.
#[derive(Clone, Copy, Debug, PartialEq, Eq, Structural)]
pub enum RunButton {
    Launch,
    Relaunch,
}

/// The state behind the window.
pub struct CsButtplugUi {
    /// Whether the work has been started and not been told to end.
    pub running: bool,
    /// Whether there are channels to and from a session. Once opened they stay.
    pub connected: bool,
    /// Whether the work has been started of its own accord once.
    pub autostarted: bool,
    pub config: Config,
    /// What stands in the field for the port.
    pub editor_port: String,
    pub devices: HashMap<u32, (String, Status)>,
}

/// The state behind the window, as it reads.
pub struct UiState {
    pub running: bool,
    pub connected: bool,
    pub autostarted: bool,
    pub config: ConfigState,
    pub editor_port: Seq<char>,
    pub devices: Roster,
}

impl View for CsButtplugUi {
    type V = UiState;

    open spec fn view(&self) -> UiState {
        UiState {
            running: self.running,
            connected: self.connected,
            autostarted: self.autostarted,
            config: self.config@,
            editor_port: self.editor_port@,
            devices: self.devices@,
        }
    }
}

/// The window when the work has been started.
pub open spec fn launched(state: UiState) -> UiState {
    UiState { running: true, connected: true, ..state }
}

/// The window when the work has been told to end.
pub open spec fn closed(state: UiState) -> UiState {
    UiState { running: false, ..state }
}

/// What becomes of the window, and what it orders, when the button that starts the work has been
/// drawn and perhaps clicked. Work that is not running is started when the button is clicked,
/// and once of its own accord; work that is running is ended and started anew when the button is
/// clicked.
pub open spec fn run_button_used(state: UiState, clicked: bool) -> (UiState, Seq<OrderState>) {
    let launch = OrderState::Launch(state.config);
    if state.running {
        if clicked {
            (launched(closed(state)), seq![OrderState::Close(true), launch])
        } else {
            (state, seq![])
        }
    } else {
        let by_click = if clicked {
            seq![launch]
        } else {
            seq![]
        };
        let by_itself = if state.autostarted {
            seq![]
        } else {
            seq![launch]
        };
        let next = if clicked || !state.autostarted {
            launched(state)
        } else {
            state
        };
        (UiState { autostarted: true, ..next }, by_click + by_itself)
    }
}

/// What becomes of the window, and what it orders, when the work is or is not to end.
pub open spec fn ending(state: UiState, asked: bool) -> (UiState, Seq<OrderState>) {
    if asked {
        (closed(state), seq![OrderState::Close(state.running)])
    } else {
        (state, seq![])
    }
}

/// Whether the settings can be changed: not while the work is running.
pub open spec fn settings_open(state: UiState) -> bool {
    !state.running
}

/// Whether a device can be ticked or its tick taken away: where it is listed, and not as absent.
pub open spec fn tickable(devices: Roster, index: u32) -> bool {
    devices.dom().contains(index) && devices[index].1 != Status::Absent
}

/// The window when the user has picked a directory.
pub open spec fn dir_picked(state: UiState, path: Seq<char>) -> UiState {
    UiState { config: (ConfigState { cs_script_dir: Some(path), ..state.config }), ..state }
}

/// The window when the user has typed an address.
pub open spec fn url_typed(state: UiState, url: Seq<char>) -> UiState {
    UiState { config: (ConfigState { buttplug_server_url: url, ..state.config }), ..state }
}

/// What is stored of an address that the user has typed: nothing of an empty one.
pub open spec fn url_save(url: Seq<char>) -> Option<(Setting, Seq<char>)> {
    if url.len() > 0 {
        Some((Setting::ServerUrl, url))
    } else {
        None
    }
}

/// The window when the user has typed something for the port.
pub open spec fn port_typed(state: UiState, typed: Seq<char>) -> UiState {
    UiState {
        editor_port: typed,
        config: (match crate::decimal::port_of(typed) {
            Some(port) => ConfigState { cs_integration_port: port, ..state.config },
            None => state.config,
        }),
        ..state
    }
}

/// What is stored of what the user has typed for the port: nothing of what is no port number.
pub open spec fn port_save(typed: Seq<char>) -> Option<(Setting, Seq<char>)> {
    match crate::decimal::port_of(typed) {
        Some(port) => Some((Setting::IntegrationPort, crate::decimal::numeral(port as nat))),
        None => None,
    }
}

impl CsButtplugUi {
    /// The window as it opens.
    pub fn new(config: Config) -> (ui: CsButtplugUi)
        ensures
            ui@ == (UiState {
                running: false,
                connected: false,
                autostarted: false,
                config: config@,
                editor_port: seq![],
                devices: Map::empty(),
            }),
    {
        let ui = CsButtplugUi {
            running: false,
            connected: false,
            autostarted: false,
            config,
            editor_port: String::new(),
            devices: HashMap::new(),
        };
        assert(ui@.editor_port =~= seq![]);
        ui
    }

    /// Starts the work with the settings as they are.
    pub fn launch_main(&mut self) -> (order: Order)
        ensures
            final(self)@ == launched(old(self)@),
            order@ == OrderState::Launch(old(self)@.config),
    {
        self.running = true;
        self.connected = true;
        Order::Launch(self.config.clone())
    }

    /// Ends the work. Whoever carries the order out waits for the work to end where it was
    /// running.
    pub fn close(&mut self) -> (order: Order)
        ensures
            final(self)@ == closed(old(self)@),
            order@ == OrderState::Close(old(self)@.running),
    {
        let wait = self.running;
        self.running = false;
        Order::Close(wait)
    }

    /// Which button starts the work.
    pub fn run_button(&self) -> (button: RunButton)
        ensures
            button == (if self@.running {
                RunButton::Relaunch
            } else {
                RunButton::Launch
            }),
    {
        if self.running {
            RunButton::Relaunch
        } else {
            RunButton::Launch
        }
    }

    /// Whether the settings can be changed: not while the work is running.
    pub fn settings_changeable(&self) -> (changeable: bool)
        ensures
            changeable == settings_open(self@),
    {
        !self.running
    }

    /// Whether the button that ends the work can be used.
    pub fn stop_usable(&self) -> (usable: bool)
        ensures
            usable == self@.running,
    {
        self.running
    }

    /// Says what is to be done when the button that starts the work has been drawn.
    pub fn use_run_button(&mut self, clicked: bool) -> (orders: Vec<Order>)
        ensures
            (final(self)@, orders_of(orders@)) == run_button_used(old(self)@, clicked),
    {
        let mut orders: Vec<Order> = Vec::new();
        if self.running {
            if clicked {
                orders.push(self.close());
                orders.push(self.launch_main());
            }
        } else {
            if clicked {
                orders.push(self.launch_main());
            }
            if !self.autostarted {
                orders.push(self.launch_main());
                self.autostarted = true;
            }
        }
        assert(orders_of(orders@) =~= run_button_used(old(self)@, clicked).1);
        orders
    }

    /// Ends the work where that is asked for.
    fn end_if(&mut self, asked: bool) -> (orders: Vec<Order>)
        ensures
            (final(self)@, orders_of(orders@)) == ending(old(self)@, asked),
    {
        let mut orders: Vec<Order> = Vec::new();
        if asked {
            orders.push(self.close());
        }
        assert(orders_of(orders@) =~= ending(old(self)@, asked).1);
        orders
    }

    /// Says what is to be done when the button that ends the work has been drawn.
    pub fn use_stop_button(&mut self, clicked: bool) -> (orders: Vec<Order>)
        ensures
            (final(self)@, orders_of(orders@)) == ending(old(self)@, clicked),
    {
        self.end_if(clicked)
    }

    /// Says what is to be done when the window has perhaps been asked to close.
    pub fn leave(&mut self, close_requested: bool) -> (orders: Vec<Order>)
        ensures
            (final(self)@, orders_of(orders@)) == ending(old(self)@, close_requested),
    {
        self.end_if(close_requested)
    }

    /// Takes a report of the session.
    pub fn hear(&mut self, event: ClientEvent)
        ensures
            final(self)@ == (UiState {
                devices: roster_after(old(self)@.devices, event),
                ..old(self)@
            }),
    {
        match event {
            ClientEvent::DeviceFound(name, index) => {
                self.devices.insert(index, (name, Status::Enabled));
            },
            ClientEvent::DeviceLost(name, index) => {
                self.devices.insert(index, (name, Status::Absent));
            },
        }
    }

    /// Takes note that the user has ticked a device or taken the tick away, and says what to tell
    /// the session, where there is one. The tick of an absent device cannot be changed.
    pub fn toggle(&mut self, index: u32, checked: bool) -> (message: Option<GuiEvent>)
        requires
            tickable(old(self)@.devices, index),
        ensures
            final(self)@ == (UiState {
                devices: roster_toggled(old(self)@.devices, index, checked),
                ..old(self)@
            }),
            message == (if old(self)@.connected {
                Some(GuiEvent::DeviceToggle(index, checked))
            } else {
                None
            }),
    {
        let name = match self.devices.get(&index) {
            Some(device) => device.0.clone(),
            None => String::new(),
        };
        let status = if checked {
            Status::Enabled
        } else {
            Status::Disabled
        };
        self.devices.insert(index, (name, status));
        if self.connected {
            Some(GuiEvent::DeviceToggle(index, checked))
        } else {
            None
        }
    }

    /// The lines of the list of devices: one for each, in no particular order.
    pub fn device_rows(&self) -> (rows: Vec<DeviceRow>)
        ensures
            rows@.len() == self@.devices.dom().len(),
            forall|i: int|
                0 <= i < rows@.len() ==> self@.devices.dom().contains((#[trigger] rows@[i]).index)
                    && shows(rows@[i], self@.devices[rows@[i].index]),
            forall|i: int, j: int|
                0 <= i < j < rows@.len() ==> (#[trigger] rows@[i]).index != (
                #[trigger] rows@[j]).index,
            forall|index: u32|
                self@.devices.dom().contains(index) ==> exists|i: int|
                    0 <= i < rows@.len() && (#[trigger] rows@[i]).index == index,
    {
        let mut rows: Vec<DeviceRow> = Vec::new();
        let listing = self.devices.iter();
        let ghost entries = vstd::std_specs::iter::IteratorSpec::remaining(&listing);
        for entry in it: listing
            invariant
                rows@.len() == it.index(),
                it.seq() == entries,
                forall|i: int|
                    0 <= i < rows@.len() ==> (#[trigger] rows@[i]).index == *it.seq()[i].0 && shows(
                        rows@[i],
                        *it.seq()[i].1,
                    ),
        {
            let (index, device) = entry;
            let mut label = device.0.clone();
            label.append(": ");
            label.append(status_to_label(&device.1));
            rows.push(
                DeviceRow {
                    index: *index,
                    label,
                    checked: device.1 == Status::Enabled,
                    changeable: device.1 != Status::Absent,
                },
            );
        }
        proof {
            assert forall|i: int, j: int| 0 <= i < j < rows@.len() implies (
            #[trigger] rows@[i]).index != (#[trigger] rows@[j]).index by {
                let (one, other) = (entries[i], entries[j]);
                assert(self.devices@.contains_key(*one.0));
                assert(self.devices@.contains_key(*other.0));
                assert(one != other);
            }
            assert forall|index: u32| self@.devices.dom().contains(index) implies exists|i: int|
                0 <= i < rows@.len() && (#[trigger] rows@[i]).index == index by {
                assert(entries.contains((&index, &self.devices@[index])));
                let i = choose|i: int|
                    0 <= i < entries.len() && entries[i] == (&index, &self.devices@[index]);
                assert(rows@[i].index == index);
            }
        }
        rows
    }

    /// Takes the directory that the user picked, and says what to store.
    pub fn pick_script_dir(&mut self, path: String) -> (save: Saved)
        requires
            settings_open(old(self)@),
        ensures
            final(self)@ == dir_picked(old(self)@, path@),
            (save.setting, save.text@) == (Setting::ScriptDir, path@),
    {
        self.config.pick_script_dir(path)
    }

    /// Takes the address that the user typed, and says what to store.
    pub fn edit_server_url(&mut self, url: String) -> (save: Option<Saved>)
        requires
            settings_open(old(self)@),
        ensures
            final(self)@ == url_typed(old(self)@, url@),
            crate::config::saved(save) == url_save(url@),
    {
        self.config.edit_server_url(url)
    }

    /// Takes what the user typed for the port, and says what to store.
    pub fn edit_port(&mut self, typed: String) -> (save: Option<Saved>)
        requires
            settings_open(old(self)@),
        ensures
            final(self)@ == port_typed(old(self)@, typed@),
            crate::config::saved(save) == port_save(typed@),
    {
        self.editor_port = typed;
        self.config.edit_port(self.editor_port.as_str())
    }
}

/// What happens to a window from one picture to the next, in the order in which it is dealt with:
/// the reports that have come in, what the user does to the settings, the two buttons, whether the
/// window is asked to close, and what the user does to the list of devices.
pub struct Frame {
    pub reports: Seq<ClientEvent>,
    pub dir: Option<Seq<char>>,
    pub url: Option<Seq<char>>,
    pub port: Option<Seq<char>>,
    pub run_clicked: bool,
    pub stop_clicked: bool,
    pub close_requested: bool,
    pub ticks: Seq<(u32, bool)>,
}

/// The list of devices after a row of reports.
pub open spec fn roster_after_all(devices: Roster, reports: Seq<ClientEvent>) -> Roster
    decreases reports.len(),
{
    if reports.len() == 0 {
        devices
    } else {
        roster_after(roster_after_all(devices, reports.drop_last()), reports.last())
    }
}

/// The list of devices after a row of ticks.
pub open spec fn roster_ticked(devices: Roster, ticks: Seq<(u32, bool)>) -> Roster
    decreases ticks.len(),
{
    if ticks.len() == 0 {
        devices
    } else {
        roster_toggled(
            roster_ticked(devices, ticks.drop_last()),
            ticks.last().0,
            ticks.last().1,
        )
    }
}

/// The window when the reports have been heard.
pub open spec fn reports_heard(state: UiState, frame: Frame) -> UiState {
    UiState { devices: roster_after_all(state.devices, frame.reports), ..state }
}

/// The window when the settings have been dealt with.
pub open spec fn settings_done(state: UiState, frame: Frame) -> UiState {
    let start = reports_heard(state, frame);
    let picked = match frame.dir {
        Some(path) => dir_picked(start, path),
        None => start,
    };
    let typed = match frame.url {
        Some(url) => url_typed(picked, url),
        None => picked,
    };
    match frame.port {
        Some(port) => port_typed(typed, port),
        None => typed,
    }
}

/// The window when the button that starts the work has been dealt with.
pub open spec fn run_button_done(state: UiState, frame: Frame) -> UiState {
    run_button_used(settings_done(state, frame), frame.run_clicked).0
}

/// The window when the work has been ended where that was asked for.
pub open spec fn endings_done(state: UiState, frame: Frame) -> UiState {
    let stopped = ending(run_button_done(state, frame), frame.stop_clicked).0;
    ending(stopped, frame.close_requested).0
}

/// The window at the end of a picture.
pub open spec fn frame_done(state: UiState, frame: Frame) -> UiState {
    let ended = endings_done(state, frame);
    UiState { devices: roster_ticked(ended.devices, frame.ticks), ..ended }
}

/// What is stored at the end of a picture.
pub open spec fn frame_stored(
    stored: Map<Setting, Seq<char>>,
    frame: Frame,
) -> Map<Setting, Seq<char>> {
    let dir_stored = match frame.dir {
        Some(path) => stored.insert(Setting::ScriptDir, path),
        None => stored,
    };
    let url_stored = match frame.url {
        Some(url) => crate::config::stored_after(dir_stored, url_save(url)),
        None => dir_stored,
    };
    match frame.port {
        Some(port) => crate::config::stored_after(url_stored, port_save(port)),
        None => url_stored,
    }
}

/// Whether the window lets all of this happen: the settings can be changed only where they are
/// open, the button that ends the work can be used only while the work runs, and a device can be
/// ticked only where it is tickable by then.
pub open spec fn frame_possible(state: UiState, frame: Frame) -> bool {
    &&& frame.dir is Some || frame.url is Some || frame.port is Some ==> settings_open(
        reports_heard(state, frame),
    )
    &&& frame.stop_clicked ==> run_button_done(state, frame).running
    &&& forall|k: int|
        0 <= k < frame.ticks.len() ==> tickable(
            roster_ticked(endings_done(state, frame).devices, frame.ticks.take(k)),
            (#[trigger] frame.ticks[k]).0,
        )
}

} // verus!
