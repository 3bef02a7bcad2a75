//! What callers can rely on, whatever they hand over: laws of the results of calls.
use vstd::prelude::*;
use crate::buttplug::{plan_command, transport_to};
use crate::buttplug::{BPCommand, ClientEvent, DeviceAction, DeviceInfo, GuiEvent, Transport};
use crate::config::{Config, Saved, Setting};
use crate::game::{game_labels, Player};
use crate::log::GuiLog;
use crate::session::{Event, Phase, Reply, Request, Session};
use crate::ui::{CsButtplugUi, DeviceRow, Order, RunButton, Status};
use std::collections::HashSet;

verus! {

/// The device server is reached at the address as it is, and over an encrypted connection just
/// where the address starts with the six characters of the secure scheme.
pub proof fn law_transport(url: String, transport: Transport)
    requires
        call_ensures(transport_to, (&url,), transport),
    ensures
        transport is Secure <==> {
            &&& url@.len() >= 6
            &&& url@[0] == 'w' && url@[1] == 's' && url@[2] == 's'
            &&& url@[3] == ':' && url@[4] == '/' && url@[5] == '/'
        },
        transport is Secure ==> transport->Secure_0 == url,
        transport is Insecure ==> transport->Insecure_0 == url,
{
    reveal_strlit("wss://");
    let scheme = "wss://"@;
    if url@.len() >= 6 && url@[0] == 'w' && url@[1] == 's' && url@[2] == 's' && url@[3] == ':'
        && url@[4] == '/' && url@[5] == '/' {
        assert(url@.subrange(0, 6) =~= scheme);
    }
    if transport is Secure {
        assert(scheme == url@.subrange(0, 6));
        assert(scheme[0] == url@[0] && scheme[1] == url@[1] && scheme[2] == url@[2]);
        assert(scheme[3] == url@[3] && scheme[4] == url@[4] && scheme[5] == url@[5]);
    }
}

/// Every command that gets through is heard as it is, and lost commands stop the devices.
pub proof fn law_commands_get_through(received: Option<BPCommand>, event: Event)
    requires
        call_ensures(Event::from_command_channel, (received,), event),
    ensures
        event is Command,
        received is Some ==> event->Command_0 == received->0,
        received is None ==> event->Command_0 is Stop,
{
}

/// Every message of the user interface that gets through is heard as it is, and lost messages
/// enable and disable nothing.
pub proof fn law_gui_messages_get_through(
    received: Option<GuiEvent>,
    event: Event,
    enabled: Set<u32>,
)
    requires
        call_ensures(Event::from_gui_channel, (received,), event),
    ensures
        event is GuiCommand,
        received is Some ==> event->GuiCommand_0 == received->0,
        received is None ==> crate::session::enabled_after(enabled, event) == enabled,
{
}

/// A new session waits to hear how connecting went, with no device enabled and nothing to send.
pub proof fn law_new_session(reporting: bool, session: Session, well: bool)
    requires
        call_ensures(Session::new, (reporting,), session),
    ensures
        session.wf(),
        session@.awaits(Reply::Done(well)),
        session@.reporting == reporting,
        session@.enabled.is_empty(),
        session@.pending.len() == 0,
        well <==> crate::session::on_reply(session@, Reply::Done(well)).1 is StartScanning,
{
}

/// A session stays well formed, and waits for the answer to what it asked for.
pub proof fn law_steps(reply: Reply)
    ensures
        forall|session: &mut Session, request: Request| #[trigger]
            call_ensures(Session::step, (session, reply), request) ==> {
                &&& final(session).wf()
                &&& (final(session)@, request) == crate::session::on_reply(session@, reply)
                &&& request is NextEvent <==> final(session)@.phase == Phase::Listening
                &&& request is Finish <==> final(session)@.phase == Phase::Over
            },
{
}

/// The messages of a command are those of its plan for the devices as they stand.
pub proof fn law_plans(
    command: BPCommand,
    devices: Vec<DeviceInfo>,
    enabled: HashSet<u32>,
    actions: Vec<DeviceAction>,
)
    requires
        call_ensures(plan_command, (command, &devices, &enabled), actions),
    ensures
        actions@ == crate::buttplug::plan(command, devices@, enabled@),
{
}

/// The directory for scripts is the one that the user picked, where there is one; it is then
/// shown as it is.
pub proof fn law_picked_dir_is_used(config: Config, dir: String, label: String)
    requires
        call_ensures(Config::script_dir, (&config,), dir),
        call_ensures(Config::script_dir_label, (&config,), label),
    ensures
        config.cs_script_dir is Some ==> dir@ == config.cs_script_dir->0@ && label@ == dir@,
        config.cs_script_dir is None ==> dir@ == crate::config::DEFAULT_GAME_DIR@ && label@
            == "[None]"@,
{
}

/// Texts that were stored for the directory and the address are taken as they are, and one for the
/// port where it gives a port number; what is missing is as it is by default.
pub proof fn law_stored_texts_are_restored(
    dir: Option<String>,
    port: Option<String>,
    url: Option<String>,
    config: Config,
)
    requires
        call_ensures(Config::restore, (dir, port, url), config),
    ensures
        dir is Some <==> config.cs_script_dir is Some,
        dir is Some ==> config.cs_script_dir->0@ == dir->0@,
        url is Some ==> config.buttplug_server_url@ == url->0@,
        url is None ==> config.buttplug_server_url@ == "ws://127.0.0.1:12345"@,
        port is Some && crate::decimal::port_of(port->0@) is Some
            ==> config.cs_integration_port == crate::decimal::port_of(port->0@)->0,
        port is None || crate::decimal::port_of(port->0@) is None ==> config.cs_integration_port
            == 42069,
{
}

/// What is shown of the game is shown line by line.
pub proof fn law_game_is_shown_line_by_line(player: Option<Player>, lines: Vec<String>, i: int)
    requires
        call_ensures(game_labels, (&player,), lines),
    ensures
        lines@.len() == crate::game::game_lines(player).len(),
        0 <= i < lines@.len() ==> lines@[i]@ == crate::game::game_lines(player)[i],
{
    if 0 <= i < lines@.len() {
        super::texts::law_texts_read_one_by_one(lines@, i);
    }
}

/// The port is shown behind a label, and what stands there gives the port when it is read.
pub proof fn law_shown_port_reads_back(config: Config, label: String)
    requires
        call_ensures(Config::port_label, (&config,), label),
    ensures
        ({
            let head = "Advanced: GSI integration port (default 42069): "@;
            &&& head.is_prefix_of(label@)
            &&& crate::decimal::port_of(label@.skip(head.len() as int)) == Some(
                config.cs_integration_port,
            )
            &&& label@.skip(head.len() as int) == crate::decimal::numeral(
                config.cs_integration_port as nat,
            )
        }),
{
    let head = "Advanced: GSI integration port (default 42069): "@;
    let number = crate::decimal::numeral(config.cs_integration_port as nat);
    assert(label@.subrange(0, head.len() as int) =~= head);
    assert(label@.skip(head.len() as int) =~= number);
    crate::decimal::law_port_reads_back(config.cs_integration_port);
}

/// A new window has the settings that it was given; nothing runs, nothing is listed, and the field
/// for the port is empty. When it is drawn the work starts, with these settings.
pub proof fn law_new_window(config: Config, ui: CsButtplugUi)
    requires
        call_ensures(CsButtplugUi::new, (config,), ui),
    ensures
        !ui@.running,
        !ui@.connected,
        !ui@.autostarted,
        ui@.config == config@,
        ui@.editor_port.len() == 0,
        ui@.devices.dom().is_empty(),
        crate::ui::run_button_used(ui@, false).1 == seq![
            crate::ui::OrderState::Launch(config@),
        ],
{
    assert(crate::ui::run_button_used(ui@, false).1 =~= seq![
        crate::ui::OrderState::Launch(config@),
    ]);
}

/// While the work runs it can be ended and started anew, and the settings are closed; while it
/// does not run, it can be started and the settings are open.
pub proof fn law_buttons_follow_the_work(
    ui: CsButtplugUi,
    button: RunButton,
    usable: bool,
    changeable: bool,
)
    requires
        call_ensures(CsButtplugUi::run_button, (&ui,), button),
        call_ensures(CsButtplugUi::stop_usable, (&ui,), usable),
        call_ensures(CsButtplugUi::settings_changeable, (&ui,), changeable),
    ensures
        button == RunButton::Relaunch <==> ui.running,
        usable <==> ui.running,
        changeable <==> !ui.running,
{
}

/// The list shows just the devices that are listed, each in one line, ticked where it is enabled.
pub proof fn law_rows(ui: CsButtplugUi, rows: Vec<DeviceRow>, index: u32)
    requires
        call_ensures(CsButtplugUi::device_rows, (&ui,), rows),
    ensures
        rows@.len() == ui@.devices.dom().len(),
        ui@.devices.dom().contains(index) <==> exists|i: int|
            0 <= i < rows@.len() && (#[trigger] rows@[i]).index == index,
        forall|i: int, j: int|
            0 <= i < rows@.len() && 0 <= j < rows@.len() && (#[trigger] rows@[i]).index == (
            #[trigger] rows@[j]).index ==> i == j,
        forall|i: int|
            0 <= i < rows@.len() && (#[trigger] rows@[i]).index == index ==> {
                &&& ui@.devices[index].0@.is_prefix_of(rows@[i].label@)
                &&& rows@[i].checked <==> ui@.devices[index].1 == Status::Enabled
                &&& rows@[i].changeable <==> crate::ui::tickable(ui@.devices, index)
            },
{
    assert forall|i: int, j: int|
        0 <= i < rows@.len() && 0 <= j < rows@.len() && (#[trigger] rows@[i]).index == (
        #[trigger] rows@[j]).index implies i == j by {
        if i < j {
            assert(rows@[i].index != rows@[j].index);
        } else if j < i {
            assert(rows@[j].index != rows@[i].index);
        }
    }
    assert forall|i: int| 0 <= i < rows@.len() && (#[trigger] rows@[i]).index == index implies {
        &&& ui@.devices[index].0@.is_prefix_of(rows@[i].label@)
        &&& rows@[i].checked <==> ui@.devices[index].1 == Status::Enabled
        &&& rows@[i].changeable <==> crate::ui::tickable(ui@.devices, index)
    } by {
        super::windows::law_lines_show_devices(
            rows@[i],
            ui@.devices[index].0,
            ui@.devices[index].1,
        );
    }
}

/// The work is launched with the settings as they stand in the window, and is waited for, when it
/// is ended, just where it was running.
pub proof fn law_orders()
    ensures
        forall|ui: &mut CsButtplugUi, order: Order| #[trigger]
            call_ensures(CsButtplugUi::launch_main, (ui,), order) ==> {
                &&& order is Launch
                &&& order->Launch_0@ == ui@.config
                &&& final(ui)@.running
                &&& final(ui)@.connected
                &&& final(ui)@.config == ui@.config
            },
        forall|ui: &mut CsButtplugUi, order: Order| #[trigger]
            call_ensures(CsButtplugUi::close, (ui,), order) ==> {
                &&& order is Close
                &&& order->Close_0 == ui@.running
                &&& !final(ui)@.running
                &&& final(ui)@.config == ui@.config
            },
{
}

/// When the button that starts the work is drawn, the work is launched just where the button was
/// clicked, or where the work neither runs nor has been started of its own accord; and always with
/// the settings as they stand in the window. The work is ended first just where it runs.
pub proof fn law_run_button_orders(clicked: bool)
    ensures
        forall|ui: &mut CsButtplugUi, orders: Vec<Order>| #[trigger]
            call_ensures(CsButtplugUi::use_run_button, (ui, clicked), orders) ==> {
                &&& (exists|i: int| 0 <= i < orders@.len() && #[trigger] orders@[i] is Launch)
                    <==> clicked || (!ui@.running && !ui@.autostarted)
                &&& forall|i: int|
                    0 <= i < orders@.len() && #[trigger] orders@[i] is Launch
                        ==> orders@[i]->Launch_0@ == ui@.config
                &&& (exists|i: int| 0 <= i < orders@.len() && #[trigger] orders@[i] is Close)
                    <==> clicked && ui@.running
            },
{
    assert forall|ui: &mut CsButtplugUi, orders: Vec<Order>| #[trigger]
        call_ensures(CsButtplugUi::use_run_button, (ui, clicked), orders) implies {
        &&& (exists|i: int| 0 <= i < orders@.len() && #[trigger] orders@[i] is Launch) <==> clicked
            || (!ui@.running && !ui@.autostarted)
        &&& forall|i: int|
            0 <= i < orders@.len() && #[trigger] orders@[i] is Launch ==> orders@[i]->Launch_0@
                == ui@.config
        &&& (exists|i: int| 0 <= i < orders@.len() && #[trigger] orders@[i] is Close) <==> clicked
            && ui@.running
    } by {
        let read = crate::ui::orders_of(orders@);
        assert(read == crate::ui::run_button_used(ui@, clicked).1);
        assert forall|i: int| 0 <= i < orders@.len() implies read[i] == (
        #[trigger] orders@[i])@ by {}
        super::windows::law_launches_with_the_settings(ui@, clicked);
        if clicked || (!ui@.running && !ui@.autostarted) {
            let i = choose|i: int| 0 <= i < read.len() && #[trigger] read[i] is Launch;
            assert(orders@[i] is Launch);
        }
        assert forall|i: int| 0 <= i < orders@.len() && #[trigger] orders@[i] is Close implies
            clicked && ui@.running by {
            super::windows::law_orders_are_counted(ui@, clicked, i);
            assert(read[i] is Close);
        }
        if clicked && ui@.running {
            assert(read[0] is Close);
            assert(orders@[0] is Close);
        }
    }
}

/// The button that ends the work, and the request to close the window, end the work just where
/// they are used, and have it waited for just where it was running.
pub proof fn law_ending_orders(asked: bool)
    ensures
        forall|ui: &mut CsButtplugUi, orders: Vec<Order>| #[trigger]
            call_ensures(CsButtplugUi::use_stop_button, (ui, asked), orders) ==> ends(
                ui@,
                final(ui)@,
                orders@,
                asked,
            ),
        forall|ui: &mut CsButtplugUi, orders: Vec<Order>| #[trigger]
            call_ensures(CsButtplugUi::leave, (ui, asked), orders) ==> ends(
                ui@,
                final(ui)@,
                orders@,
                asked,
            ),
{
    assert forall|ui: &mut CsButtplugUi, orders: Vec<Order>| #[trigger]
        call_ensures(CsButtplugUi::use_stop_button, (ui, asked), orders) implies ends(
        ui@,
        final(ui)@,
        orders@,
        asked,
    ) by {
        assert(crate::ui::orders_of(orders@).len() == orders@.len());
        if asked {
            assert(crate::ui::orders_of(orders@)[0] == orders@[0]@);
        }
    }
    assert forall|ui: &mut CsButtplugUi, orders: Vec<Order>| #[trigger]
        call_ensures(CsButtplugUi::leave, (ui, asked), orders) implies ends(
        ui@,
        final(ui)@,
        orders@,
        asked,
    ) by {
        assert(crate::ui::orders_of(orders@).len() == orders@.len());
        if asked {
            assert(crate::ui::orders_of(orders@)[0] == orders@[0]@);
        }
    }
}

/// Whether a window has ended the work as asked: with one order to close where asked, and with
/// none else.
pub open spec fn ends(
    before: crate::ui::UiState,
    after: crate::ui::UiState,
    orders: Seq<Order>,
    asked: bool,
) -> bool {
    &&& asked ==> orders.len() == 1 && orders[0] == Order::Close(before.running)
    &&& !asked ==> orders.len() == 0
    &&& after.running <==> before.running && !asked
    &&& after.config == before.config
    &&& after.devices == before.devices
}

/// A tick is passed on to the session just where there is one, and is just what the user did.
/// Nothing but the list of devices changes.
pub proof fn law_ticks_are_passed_on(index: u32, checked: bool)
    ensures
        forall|ui: &mut CsButtplugUi, message: Option<GuiEvent>| #[trigger]
            call_ensures(CsButtplugUi::toggle, (ui, index, checked), message) ==> {
                &&& message is Some <==> ui@.connected
                &&& message is Some ==> message->0 is DeviceToggle
                &&& message is Some ==> message->0->DeviceToggle_0 == index
                &&& message is Some ==> message->0->DeviceToggle_1 == checked
                &&& final(ui)@.devices == crate::ui::roster_toggled(ui@.devices, index, checked)
                &&& only_devices_differ(ui@, final(ui)@)
            },
{
}

/// A report of the session changes the list of devices and nothing else.
pub proof fn law_reports_change_the_list(report: ClientEvent)
    ensures
        forall|ui: &mut CsButtplugUi, done: ()| #[trigger]
            call_ensures(CsButtplugUi::hear, (ui, report), done) ==> {
                &&& final(ui)@.devices == crate::ui::roster_after(ui@.devices, report)
                &&& only_devices_differ(ui@, final(ui)@)
            },
{
}

/// Whether two states of the window differ at most in the list of devices.
pub open spec fn only_devices_differ(
    one: crate::ui::UiState,
    other: crate::ui::UiState,
) -> bool {
    &&& one.running == other.running
    &&& one.connected == other.connected
    &&& one.autostarted == other.autostarted
    &&& one.config == other.config
    &&& one.editor_port == other.editor_port
}

/// What is stored of a picked directory or a typed address is what the settings hold from then
/// on; nothing is stored of an empty address.
pub proof fn law_what_is_stored_is_what_is_set(text: String)
    ensures
        forall|ui: &mut CsButtplugUi, save: Saved| #[trigger]
            call_ensures(CsButtplugUi::pick_script_dir, (ui, text), save) ==> {
                &&& save.setting == Setting::ScriptDir
                &&& final(ui)@.config.cs_script_dir == Some(save.text@)
                &&& save.text@ == text@
            },
        forall|ui: &mut CsButtplugUi, save: Option<Saved>| #[trigger]
            call_ensures(CsButtplugUi::edit_server_url, (ui, text), save) ==> {
                &&& final(ui)@.config.buttplug_server_url == text@
                &&& save is Some <==> text@.len() > 0
                &&& save is Some ==> save->0.setting == Setting::ServerUrl
                &&& save is Some ==> save->0.text@ == final(ui)@.config.buttplug_server_url
            },
        forall|ui: &mut CsButtplugUi, save: Option<Saved>| #[trigger]
            call_ensures(CsButtplugUi::edit_port, (ui, text), save) ==> {
                &&& final(ui)@.editor_port == text@
                &&& save is None ==> final(ui)@.config == ui@.config
                &&& save is Some ==> save->0.setting == Setting::IntegrationPort
                &&& save is Some ==> crate::decimal::port_of(save->0.text@) == Some(
                    final(ui)@.config.cs_integration_port,
                )
                &&& crate::decimal::port_of(text@) is Some <==> save is Some
                &&& save is Some ==> crate::decimal::port_of(text@) == Some(
                    final(ui)@.config.cs_integration_port,
                )
            },
{
    if let Some(port) = crate::decimal::port_of(text@) {
        crate::decimal::law_port_reads_back(port);
    }
}

/// A logger's bytes are all taken, and the log then reads as before with their text at the end.
pub proof fn law_log_takes_everything(bytes: &[u8])
    ensures
        forall|log: &mut GuiLog, taken: usize| #[trigger]
            call_ensures(GuiLog::write, (log, bytes), taken) ==> {
                &&& taken == bytes@.len()
                &&& crate::log::joined(final(log)@) == crate::log::joined(log@)
                    + vstd::utf8::decode_utf8(bytes@)
            },
{
    assert forall|log: &mut GuiLog, taken: usize| #[trigger]
        call_ensures(GuiLog::write, (log, bytes), taken) implies {
        &&& taken == bytes@.len()
        &&& crate::log::joined(final(log)@) == crate::log::joined(log@)
            + vstd::utf8::decode_utf8(bytes@)
    } by {
        crate::log::law_log_grows_at_the_end(log@, vstd::utf8::decode_utf8(bytes@));
    }
}

/// The log is shown as its pieces one after the other; a new one is empty.
pub proof fn law_log_is_shown_whole(log: GuiLog, text: String, new: GuiLog, nothing: String)
    requires
        call_ensures(GuiLog::text, (&log,), text),
        call_ensures(GuiLog::new, (), new),
        call_ensures(GuiLog::text, (&new,), nothing),
    ensures
        text@ == crate::log::joined(log@),
        nothing@.len() == 0,
{
}

} // verus!
