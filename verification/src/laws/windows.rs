//! What the window orders, lists and takes from the user.
use vstd::prelude::*;
use crate::buttplug::ClientEvent;
use crate::config::{Config, Setting};
use crate::ui::{CsButtplugUi, DeviceRow, Order, OrderState, Roster, Status, UiState};

verus! {

/// The window reads as it is.
pub proof fn law_window_reads_as_it_is(ui: CsButtplugUi)
    ensures
        ui@.running == ui.running,
        ui@.connected == ui.connected,
        ui@.autostarted == ui.autostarted,
        ui@.config == ui.config@,
        ui@.editor_port == ui.editor_port@,
        ui@.devices == ui.devices@,
{
}

/// An order reads as it is.
pub proof fn law_order_reads_as_it_is(config: Config, wait: bool)
    ensures
        Order::Launch(config)@ == OrderState::Launch(config@),
        Order::Close(wait)@ == OrderState::Close(wait),
{
}

/// A row of orders reads order by order.
pub proof fn law_orders_read_one_by_one(orders: Seq<Order>, i: int)
    requires
        0 <= i < orders.len(),
    ensures
        crate::ui::orders_of(orders).len() == orders.len(),
        crate::ui::orders_of(orders)[i] == orders[i]@,
{
}

/// The work is launched just where the button was clicked, or where it neither runs nor has been
/// started of its own accord; and always with the settings as they stand in the window.
pub proof fn law_launches_with_the_settings(state: UiState, clicked: bool)
    ensures
        ({
            let orders = crate::ui::run_button_used(state, clicked).1;
            &&& (exists|i: int| 0 <= i < orders.len() && #[trigger] orders[i] is Launch) <==> (
            clicked || (!state.running && !state.autostarted))
            &&& forall|i: int|
                0 <= i < orders.len() && #[trigger] orders[i] is Launch ==> orders[i]->Launch_0
                    == state.config
        }),
{
    let orders = crate::ui::run_button_used(state, clicked).1;
    if clicked || (!state.running && !state.autostarted) {
        assert(orders[orders.len() - 1] is Launch);
    }
}

/// How many orders there are: to close and then to launch for running work, and one to launch for
/// each reason to start work that is not running.
pub proof fn law_orders_are_counted(state: UiState, clicked: bool, i: int)
    ensures
        ({
            let orders = crate::ui::run_button_used(state, clicked).1;
            let by_click: nat = if clicked {
                1
            } else {
                0
            };
            let by_itself: nat = if state.autostarted {
                0
            } else {
                1
            };
            &&& state.running ==> orders.len() == 2 * by_click
            &&& !state.running ==> orders.len() == by_click + by_itself
            &&& 0 <= i < orders.len() && orders[i] is Close ==> {
                &&& state.running
                &&& i == 0
                &&& orders[i]->Close_0
            }
        }),
{
}

/// The work runs after the button has been drawn just where it ran before or was launched, and
/// there are channels just where there were some before or the work was launched. The work counts
/// as having been started of its own accord just where it did before or where it did not run.
pub proof fn law_run_button_keeps_book(state: UiState, clicked: bool)
    ensures
        ({
            let (after, orders) = crate::ui::run_button_used(state, clicked);
            let any = exists|i: int| 0 <= i < orders.len() && #[trigger] orders[i] is Launch;
            &&& after.running <==> state.running || any
            &&& after.connected <==> state.connected || any
            &&& after.autostarted <==> state.autostarted || !state.running
        }),
{
    law_launches_with_the_settings(state, clicked);
}

/// Launching and closing change whether the work runs and, the first, whether there are channels;
/// nothing else. So what was launched can be closed, and what was closed launched again.
pub proof fn law_launching_and_closing(state: UiState)
    ensures
        crate::ui::launched(state).running,
        crate::ui::launched(state).connected,
        !crate::ui::closed(state).running,
        crate::ui::closed(state).connected == state.connected,
        crate::ui::launched(state).autostarted == state.autostarted,
        crate::ui::launched(state).config == state.config,
        crate::ui::launched(state).editor_port == state.editor_port,
        crate::ui::launched(state).devices == state.devices,
        crate::ui::closed(state).autostarted == state.autostarted,
        crate::ui::closed(state).config == state.config,
        crate::ui::closed(state).editor_port == state.editor_port,
        crate::ui::closed(state).devices == state.devices,
        crate::ui::launched(crate::ui::closed(state)) == crate::ui::launched(state),
{
}

/// The work is told to end just where that is asked for, and is waited for just where it was
/// running. Then it does not run; nothing else about the window changes.
pub proof fn law_ending(state: UiState, asked: bool)
    ensures
        ({
            let (after, orders) = crate::ui::ending(state, asked);
            &&& asked ==> orders.len() == 1 && orders[0] is Close && orders[0]->Close_0
                == state.running
            &&& !asked ==> orders.len() == 0
            &&& after.running <==> state.running && !asked
            &&& after.connected == state.connected
            &&& after.autostarted == state.autostarted
            &&& after.config == state.config
            &&& after.editor_port == state.editor_port
            &&& after.devices == state.devices
        }),
{
}

/// Ending the work keeps whether it has been started of its own accord, so that it is not started
/// by itself again.
pub proof fn law_ending_is_final(state: UiState)
    requires
        state.autostarted,
    ensures
        crate::ui::run_button_used(crate::ui::ending(state, true).0, false).1.len() == 0,
        !crate::ui::run_button_used(crate::ui::ending(state, true).0, false).0.running,
{
}

/// A device that is found is listed as enabled and one that is lost as absent, each under the name
/// that was reported; all other devices stay as they were.
pub proof fn law_reports_are_listed(devices: Roster, report: ClientEvent, other: u32)
    ensures
        ({
            let after = crate::ui::roster_after(devices, report);
            let (index, name, status) = match report {
                ClientEvent::DeviceFound(name, index) => (index, name, Status::Enabled),
                ClientEvent::DeviceLost(name, index) => (index, name, Status::Absent),
            };
            &&& after.dom().contains(index)
            &&& after[index].0 == name
            &&& after[index].1 == status
            &&& other != index ==> (after.dom().contains(other) <==> devices.dom().contains(other))
            &&& other != index ==> after[other] == devices[other]
        }),
{
}

/// A ticked device is enabled, and one whose tick is taken away is disabled.
pub proof fn law_ticks_set_the_status(devices: Roster, index: u32)
    ensures
        crate::ui::roster_toggled(devices, index, true)[index].1 == Status::Enabled,
        crate::ui::roster_toggled(devices, index, false)[index].1 == Status::Disabled,
        crate::ui::roster_toggled(crate::ui::roster_toggled(devices, index, false), index, true)
            == crate::ui::roster_toggled(devices, index, true),
{
    assert(crate::ui::roster_toggled(
        crate::ui::roster_toggled(devices, index, false),
        index,
        true,
    ) =~= crate::ui::roster_toggled(devices, index, true));
}

/// Just the listed devices that are not absent can be ticked.
pub proof fn law_present_devices_can_be_ticked(devices: Roster, index: u32)
    ensures
        crate::ui::tickable(devices, index) <==> devices.dom().contains(index) && (
        devices[index].1 == Status::Enabled || devices[index].1 == Status::Disabled),
{
}

/// The settings can be changed just while the work does not run.
pub proof fn law_settings_are_open_while_idle(state: UiState)
    ensures
        crate::ui::settings_open(crate::ui::closed(state)),
        !crate::ui::settings_open(crate::ui::launched(state)),
        crate::ui::settings_open(state) <==> !state.running,
{
}

/// A line of the list names the device first and its status last, is ticked just for an enabled
/// device, and can be changed just for one that is present.
pub proof fn law_lines_show_devices(row: DeviceRow, name: String, status: Status)
    requires
        crate::ui::shows(row, (name, status)),
    ensures
        name@.is_prefix_of(row.label@),
        crate::ui::label_of(status).is_suffix_of(row.label@),
        row.label@.len() == name@.len() + 2 + crate::ui::label_of(status).len(),
        row.label@[name@.len() as int] == ':',
        row.label@[(name@.len() + 1) as int] == ' ',
        status == Status::Enabled ==> "Enabled"@.is_suffix_of(row.label@),
        status == Status::Disabled ==> "Disabled"@.is_suffix_of(row.label@),
        status == Status::Absent ==> "Disconnected"@.is_suffix_of(row.label@),
        row.checked <==> status == Status::Enabled,
        row.changeable <==> (status == Status::Enabled || status == Status::Disabled),
{
    reveal_strlit(": ");
    let label = crate::ui::label_of(status);
    assert(row.label@.subrange(0, name@.len() as int) =~= name@);
    assert(row.label@.subrange(row.label@.len() - label.len(), row.label@.len() as int) =~= label);
}

/// The three statuses are shown in three different ways.
pub proof fn law_statuses_are_told_apart(one: Status, other: Status)
    requires
        one != other,
    ensures
        crate::ui::label_of(one) != crate::ui::label_of(other),
{
    reveal_strlit("Enabled");
    reveal_strlit("Disabled");
    reveal_strlit("Disconnected");
    assert(crate::ui::label_of(Status::Enabled).len() == 7);
    assert(crate::ui::label_of(Status::Disabled).len() == 8);
    assert(crate::ui::label_of(Status::Absent).len() == 12);
}

/// A picked directory is taken as it is, and nothing else changes.
pub proof fn law_picked_dir_is_taken(state: UiState, path: Seq<char>)
    ensures
        ({
            let after = crate::ui::dir_picked(state, path);
            &&& after.config.cs_script_dir == Some(path)
            &&& after.config.buttplug_server_url == state.config.buttplug_server_url
            &&& after.config.cs_integration_port == state.config.cs_integration_port
            &&& same_but_settings(state, after)
            &&& after.editor_port == state.editor_port
        }),
{
}

/// A typed address is taken as it is, even an empty one, and nothing else changes; it is stored as
/// it is just where it is not empty.
pub proof fn law_typed_url_is_taken(state: UiState, url: Seq<char>)
    ensures
        ({
            let after = crate::ui::url_typed(state, url);
            &&& after.config.buttplug_server_url == url
            &&& after.config.cs_script_dir == state.config.cs_script_dir
            &&& after.config.cs_integration_port == state.config.cs_integration_port
            &&& same_but_settings(state, after)
            &&& after.editor_port == state.editor_port
        }),
        crate::ui::url_save(url) is Some <==> url != Seq::<char>::empty(),
        crate::ui::url_save(url) is Some ==> crate::ui::url_save(url)->0 == (
            Setting::ServerUrl,
            url,
        ),
{
    if url.len() == 0 {
        assert(url =~= Seq::<char>::empty());
    }
}

/// What is typed for the port stands in its field, whatever it is. Where it gives a port number,
/// that is taken, and what is stored gives that number again; else the port stays and nothing is
/// stored. Nothing else changes.
pub proof fn law_typed_port_is_taken(state: UiState, typed: Seq<char>)
    ensures
        ({
            let after = crate::ui::port_typed(state, typed);
            let save = crate::ui::port_save(typed);
            &&& after.editor_port == typed
            &&& after.config.buttplug_server_url == state.config.buttplug_server_url
            &&& after.config.cs_script_dir == state.config.cs_script_dir
            &&& same_but_settings(state, after)
            &&& save is Some <==> crate::decimal::port_of(typed) is Some
            &&& save matches Some((setting, text)) ==> {
                &&& setting == Setting::IntegrationPort
                &&& crate::decimal::port_of(text) == crate::decimal::port_of(typed)
                &&& Some(after.config.cs_integration_port) == crate::decimal::port_of(typed)
            }
            &&& save is None ==> after.config.cs_integration_port
                == state.config.cs_integration_port
        }),
{
    if let Some(port) = crate::decimal::port_of(typed) {
        crate::decimal::law_port_reads_back(port);
    }
}

/// Whether two states of the window differ at most in the settings and the field for the port.
pub open spec fn same_but_settings(one: UiState, other: UiState) -> bool {
    &&& one.running == other.running
    &&& one.connected == other.connected
    &&& one.autostarted == other.autostarted
    &&& one.devices == other.devices
}

} // verus!
