//! What holds of levels, commands and sessions as a whole.
use vstd::prelude::*;
use crate::buttplug::{
    BPCommand, ClientEvent, DeviceAction, DeviceCommand, DeviceInfo, GuiEvent, Purpose,
};
use crate::config::Setting;
use crate::level::Level;
use crate::session::{Event, Failure, Outcome, Phase, Reply, Request, ServerEvent, SessionState};
use crate::ui::{Frame, OrderState, Roster, Status, UiState};

pub mod calls;
pub mod commands;
pub mod levels;
pub mod sessions;
pub mod settings;
pub mod texts;
pub mod windows;

verus! {

/// Whether a level is a number that is not above one.
pub open spec fn within_one(level: Level) -> bool {
    !level.is_nan() && level.scaled() <= crate::level::scaled_one()
}

/// Capping brings every level to at most one and leaves alone what is at most one already;
/// so capping twice is capping once.
pub proof fn law_capping(level: Level)
    ensures
        within_one(level.capped()),
        within_one(level) ==> level.capped() == level,
        level.capped().capped() == level.capped(),
{
    crate::level::lemma_one();
}

/// Capping keeps the order of levels.
pub proof fn law_capping_keeps_order(low: Level, high: Level)
    requires
        !low.is_nan(),
        !high.is_nan(),
        low.scaled() <= high.scaled(),
    ensures
        low.capped().scaled() <= high.capped().scaled(),
{
    crate::level::lemma_one();
}

/// What a command asks of a list of devices is what it asks of each of them: every action of
/// the plan belongs to the device at its slot.
pub proof fn law_plan_is_made_of_device_plans(
    command: BPCommand,
    devices: Seq<DeviceInfo>,
    enabled: Set<u32>,
    i: int,
)
    requires
        devices.len() <= usize::MAX,
        0 <= i < crate::buttplug::plan(command, devices, enabled).len(),
    ensures
        ({
            let action = crate::buttplug::plan(command, devices, enabled)[i];
            &&& action.slot < devices.len()
            &&& crate::buttplug::device_plan(
                command,
                devices[action.slot as int],
                enabled,
                action.slot as int,
            ).contains(action)
        }),
    decreases devices.len(),
{
    let before = crate::buttplug::plan(command, devices.drop_last(), enabled);
    let last = crate::buttplug::device_plan(command, devices.last(), enabled, devices.len() - 1);
    if i < before.len() {
        law_plan_is_made_of_device_plans(command, devices.drop_last(), enabled, i);
    } else {
        assert(last[i - before.len()] == crate::buttplug::plan(command, devices, enabled)[i]);
    }
}

/// The plan leaves no device out: it holds whatever the command asks of the device at `slot`.
pub proof fn law_plan_leaves_no_device_out(
    command: BPCommand,
    devices: Seq<DeviceInfo>,
    enabled: Set<u32>,
    slot: int,
    action: DeviceAction,
)
    requires
        0 <= slot < devices.len(),
        crate::buttplug::device_plan(command, devices[slot], enabled, slot).contains(action),
    ensures
        crate::buttplug::plan(command, devices, enabled).contains(action),
    decreases devices.len(),
{
    let before = crate::buttplug::plan(command, devices.drop_last(), enabled);
    let last = crate::buttplug::device_plan(command, devices.last(), enabled, devices.len() - 1);
    let whole = crate::buttplug::plan(command, devices, enabled);
    if slot == devices.len() - 1 {
        let k = choose|k: int| 0 <= k < last.len() && last[k] == action;
        assert(whole[before.len() + k] == action);
    } else {
        law_plan_leaves_no_device_out(command, devices.drop_last(), enabled, slot, action);
        let k = choose|k: int| 0 <= k < before.len() && before[k] == action;
        assert(whole[k] == action);
    }
}

/// The plan takes the devices in the order of the list.
pub proof fn law_plan_keeps_the_order_of_devices(
    command: BPCommand,
    devices: Seq<DeviceInfo>,
    enabled: Set<u32>,
    i: int,
    j: int,
)
    requires
        devices.len() <= usize::MAX,
        0 <= i <= j < crate::buttplug::plan(command, devices, enabled).len(),
    ensures
        crate::buttplug::plan(command, devices, enabled)[i].slot <= crate::buttplug::plan(
            command,
            devices,
            enabled,
        )[j].slot,
    decreases devices.len(),
{
    let before = crate::buttplug::plan(command, devices.drop_last(), enabled);
    if j < before.len() {
        law_plan_keeps_the_order_of_devices(command, devices.drop_last(), enabled, i, j);
    } else if i < before.len() {
        law_plan_is_made_of_device_plans(command, devices.drop_last(), enabled, i);
    }
}

/// No message asks for more than one, and every index in a message is one that the device has.
pub proof fn law_messages_stay_in_range(
    command: BPCommand,
    devices: Seq<DeviceInfo>,
    enabled: Set<u32>,
    i: int,
)
    requires
        devices.len() <= usize::MAX,
        0 <= i < crate::buttplug::plan(command, devices, enabled).len(),
    ensures
        ({
            let action = crate::buttplug::plan(command, devices, enabled)[i];
            let device = devices[action.slot as int];
            match action.command {
                DeviceCommand::Vibrate(speed) => {
                    &&& device.vibrate_attributes > 0
                    &&& within_one(speed)
                },
                DeviceCommand::VibrateMotor(motor, speed) => {
                    &&& motor < device.vibrate_attributes
                    &&& within_one(speed)
                },
                DeviceCommand::Linear(axis, _, position) => {
                    &&& axis < device.linear_attributes
                    &&& within_one(position)
                },
            }
        }),
{
    law_plan_is_made_of_device_plans(command, devices, enabled, i);
    match command {
        BPCommand::Vibrate(speed) => law_capping(speed),
        BPCommand::VibrateIndex(speed, _) => law_capping(speed),
        BPCommand::Linear(_, position) => {
            law_capping(position);
            let action = crate::buttplug::plan(command, devices, enabled)[i];
            let axes = crate::buttplug::count_of(devices[action.slot as int].linear_attributes);
            lemma_whole_within_range(position, axes - 1);
        },
        BPCommand::Stop => {
            law_capping(Level { bits: 0 });
            crate::level::lemma_one();
            vstd::arithmetic::power2::lemma_pow2_pos(1074);
        },
    }
}

/// The index that a level stands for lies in the range that it was brought into.
proof fn lemma_whole_within_range(level: Level, last: int)
    requires
        0 <= last,
    ensures
        0 <= level.whole_within(last) <= last,
{
    vstd::arithmetic::power2::lemma_pow2_pos(1074);
    if level.scaled() > 0 {
        vstd::arithmetic::div_mod::lemma_div_pos_is_pos(
            level.scaled(),
            crate::level::scaled_one(),
        );
    }
}

/// `VibrateIndex` leaves disabled devices alone.
pub proof fn law_disabled_devices_are_left_alone(
    speed: Level,
    index: u32,
    devices: Seq<DeviceInfo>,
    enabled: Set<u32>,
    i: int,
)
    requires
        devices.len() <= usize::MAX,
        0 <= i < crate::buttplug::plan(
            BPCommand::VibrateIndex(speed, index),
            devices,
            enabled,
        ).len(),
    ensures
        enabled.contains(
            devices[crate::buttplug::plan(
                BPCommand::VibrateIndex(speed, index),
                devices,
                enabled,
            )[i].slot as int].index,
        ),
{
    law_plan_is_made_of_device_plans(
        BPCommand::VibrateIndex(speed, index),
        devices,
        enabled,
        i,
    );
}

/// The other commands take no notice of which devices are enabled.
pub proof fn law_enabling_matters_to_vibrate_index_alone(
    command: BPCommand,
    devices: Seq<DeviceInfo>,
    enabled: Set<u32>,
    other: Set<u32>,
)
    requires
        !(command is VibrateIndex),
    ensures
        crate::buttplug::plan(command, devices, enabled) == crate::buttplug::plan(
            command,
            devices,
            other,
        ),
    decreases devices.len(),
{
    if devices.len() > 0 {
        law_enabling_matters_to_vibrate_index_alone(
            command,
            devices.drop_last(),
            enabled,
            other,
        );
    }
}

/// `Stop` brings every motor and the first axis of every device to zero.
pub proof fn law_stop_reaches_every_device(
    devices: Seq<DeviceInfo>,
    enabled: Set<u32>,
    slot: int,
)
    requires
        0 <= slot < devices.len(),
    ensures
        devices[slot].vibrate_attributes > 0 ==> crate::buttplug::plan(
            BPCommand::Stop,
            devices,
            enabled,
        ).contains(
            DeviceAction {
                slot: slot as usize,
                command: DeviceCommand::Vibrate(Level { bits: 0 }),
                purpose: Purpose::StopVibration,
            },
        ),
        devices[slot].linear_attributes > 0 ==> crate::buttplug::plan(
            BPCommand::Stop,
            devices,
            enabled,
        ).contains(
            DeviceAction {
                slot: slot as usize,
                command: DeviceCommand::Linear(0, 0, Level { bits: 0 }),
                purpose: Purpose::StopLinear,
            },
        ),
{
    let own = crate::buttplug::device_plan(BPCommand::Stop, devices[slot], enabled, slot);
    if devices[slot].vibrate_attributes > 0 {
        assert(own.contains(own[0]));
        law_plan_leaves_no_device_out(BPCommand::Stop, devices, enabled, slot, own[0]);
    }
    if devices[slot].linear_attributes > 0 {
        let k = own.len() - 1;
        assert(own.contains(own[k]));
        law_plan_leaves_no_device_out(BPCommand::Stop, devices, enabled, slot, own[k]);
    }
}

/// What an event says of a device: that it is enabled, that it is disabled, or nothing.
pub open spec fn says_of(event: Event, index: u32) -> Option<bool> {
    match event {
        Event::Buttplug(ServerEvent::DeviceAdded(device)) => if device.index == index {
            Some(true)
        } else {
            None
        },
        Event::Buttplug(ServerEvent::DeviceRemoved(device)) => if device.index == index {
            Some(false)
        } else {
            None
        },
        Event::GuiCommand(GuiEvent::DeviceToggle(toggled, checked)) => if toggled == index {
            Some(checked)
        } else {
            None
        },
        _ => None,
    }
}

/// The enabled devices after a row of events.
pub open spec fn enabled_after_all(enabled: Set<u32>, events: Seq<Event>) -> Set<u32>
    decreases events.len(),
{
    if events.len() == 0 {
        enabled
    } else {
        crate::session::enabled_after(
            enabled_after_all(enabled, events.drop_last()),
            events.last(),
        )
    }
}

/// A device of which no event says anything stays as it was.
pub proof fn law_unmentioned_device_stays(enabled: Set<u32>, events: Seq<Event>, index: u32)
    requires
        forall|j: int| 0 <= j < events.len() ==> says_of(#[trigger] events[j], index) is None,
    ensures
        enabled_after_all(enabled, events).contains(index) == enabled.contains(index),
    decreases events.len(),
{
    if events.len() > 0 {
        assert forall|j: int| 0 <= j < events.len() - 1 implies says_of(
            #[trigger] events.drop_last()[j],
            index,
        ) is None by {
            assert(events.drop_last()[j] == events[j]);
        }
        law_unmentioned_device_stays(enabled, events.drop_last(), index);
        assert(says_of(events[events.len() - 1], index) is None);
    }
}

/// Whether a device is enabled is what the last event that says anything of it says.
pub proof fn law_last_event_decides(enabled: Set<u32>, events: Seq<Event>, index: u32, k: int)
    requires
        0 <= k < events.len(),
        says_of(events[k], index) is Some,
        forall|j: int| k < j < events.len() ==> says_of(#[trigger] events[j], index) is None,
    ensures
        enabled_after_all(enabled, events).contains(index) == says_of(events[k], index)->0,
    decreases events.len(),
{
    if k < events.len() - 1 {
        assert(says_of(events[events.len() - 1], index) is None);
        assert forall|j: int| k < j < events.len() - 1 implies says_of(
            #[trigger] events.drop_last()[j],
            index,
        ) is None by {
            assert(events.drop_last()[j] == events[j]);
        }
        law_last_event_decides(enabled, events.drop_last(), index, k);
    }
}

/// A session that awaits a reply is valid after it too, waits for the answer to what it then
/// asks for, and keeps to whom it reports.
pub proof fn law_sessions_stay_valid(state: SessionState, reply: Reply)
    requires
        state.valid(),
        state.awaits(reply),
    ensures
        crate::session::on_reply(state, reply).0.valid(),
        crate::session::on_reply(state, reply).0.phase == crate::session::phase_of(
            crate::session::on_reply(state, reply).1,
        ),
        crate::session::on_reply(state, reply).0.reporting == state.reporting,
{
}

/// Nothing happens in a session that is over.
pub proof fn law_over_is_over(state: SessionState, reply: Reply)
    requires
        state.phase == Phase::Over,
    ensures
        !state.awaits(reply),
{
}

/// A session closes in good order just where the server has gone or the events have ended. In
/// particular a request to close is not the end: the session goes on until the server is gone.
pub proof fn law_closes_when_the_server_is_gone(state: SessionState, reply: Reply)
    requires
        state.awaits(reply),
    ensures
        crate::session::on_reply(state, reply).1 == Request::Finish(Outcome::Closed) <==> (reply
            == Reply::EndOfEvents || (reply is Event && reply->Event_0 == Event::Buttplug(
            ServerEvent::ServerDisconnect,
        ))),
{
}

/// The course of a session over a row of replies: where it gets to and what it asks for.
pub open spec fn course(state: SessionState, replies: Seq<Reply>) -> (SessionState, Seq<Request>)
    decreases replies.len(),
{
    if replies.len() == 0 {
        (state, seq![])
    } else {
        let (before, requests) = course(state, replies.drop_last());
        let (after, request) = crate::session::on_reply(before, replies.last());
        (after, requests.push(request))
    }
}

/// The events among a row of replies.
pub open spec fn events_among(replies: Seq<Reply>) -> Seq<Event>
    decreases replies.len(),
{
    if replies.len() == 0 {
        seq![]
    } else {
        match replies.last() {
            Reply::Event(event, _) => events_among(replies.drop_last()).push(event),
            _ => events_among(replies.drop_last()),
        }
    }
}

/// Over its whole course, the events that a session hears are all that decides which devices
/// are enabled.
pub proof fn law_events_alone_enable(state: SessionState, replies: Seq<Reply>)
    ensures
        course(state, replies).0.enabled == enabled_after_all(
            state.enabled,
            events_among(replies),
        ),
    decreases replies.len(),
{
    if replies.len() > 0 {
        law_events_alone_enable(state, replies.drop_last());
        if let Reply::Event(event, _) = replies.last() {
            assert(events_among(replies).drop_last() =~= events_among(replies.drop_last()));
        }
    }
}

/// The replies that hand a session a command and let `sent` messages go out well.
pub open spec fn command_replies(
    command: BPCommand,
    devices: Vec<DeviceInfo>,
    sent: nat,
) -> Seq<Reply> {
    seq![Reply::Event(Event::Command(command), devices)] + Seq::new(sent, |i: int| Reply::Done(true))
}

/// A command is carried out message by message, in the order of its plan; when all messages are
/// out, the session listens again, and the enabled devices are what they were.
pub proof fn law_commands_are_carried_out(
    state: SessionState,
    command: BPCommand,
    devices: Vec<DeviceInfo>,
    sent: nat,
)
    requires
        state.valid(),
        state.phase == Phase::Listening,
        sent <= crate::buttplug::plan(command, devices@, state.enabled).len(),
    ensures
        ({
            let plan = crate::buttplug::plan(command, devices@, state.enabled);
            let (after, requests) = course(state, command_replies(command, devices, sent));
            &&& requests.len() == sent + 1
            &&& forall|i: int|
                0 <= i <= sent ==> #[trigger] requests[i] == (if i < plan.len() {
                    Request::Send(plan[i])
                } else {
                    Request::NextEvent
                })
            &&& after.phase == (if sent < plan.len() {
                Phase::Driving
            } else {
                Phase::Listening
            })
            &&& after.pending == plan.skip(sent as int)
            &&& after.enabled == state.enabled
            &&& after.reporting == state.reporting
        }),
    decreases sent,
{
    let plan = crate::buttplug::plan(command, devices@, state.enabled);
    let replies = command_replies(command, devices, sent);
    if sent == 0 {
        assert(replies.drop_last() =~= seq![]);
        assert(course(state, seq![]) == (state, Seq::<Request>::empty()));
        assert(plan.skip(0) =~= plan);
    } else {
        let fewer = (sent - 1) as nat;
        law_commands_are_carried_out(state, command, devices, fewer);
        assert(replies.drop_last() =~= command_replies(command, devices, fewer));
        assert(replies.last() == Reply::Done(true));
        assert(plan.skip(fewer as int).drop_first() =~= plan.skip(sent as int));
    }
}

/// Where a message of a command does not go out, the session ends with the failure of that
/// message, and the messages after it are not sent.
pub proof fn law_failed_message_ends_the_session(
    state: SessionState,
    command: BPCommand,
    devices: Vec<DeviceInfo>,
    sent: nat,
)
    requires
        state.valid(),
        state.phase == Phase::Listening,
        sent < crate::buttplug::plan(command, devices@, state.enabled).len(),
    ensures
        ({
            let plan = crate::buttplug::plan(command, devices@, state.enabled);
            let (after, requests) = course(
                state,
                command_replies(command, devices, sent).push(Reply::Done(false)),
            );
            &&& requests.len() == sent + 2
            &&& requests.last() == Request::Finish(
                Outcome::Failed(Failure::Send(plan[sent as int].purpose)),
            )
            &&& after.phase == Phase::Over
        }),
{
    law_commands_are_carried_out(state, command, devices, sent);
    let replies = command_replies(command, devices, sent);
    assert(replies.push(Reply::Done(false)).drop_last() =~= replies);
}

/// Whether the list of devices in the window shows as enabled just those devices that a session
/// has enabled.
pub open spec fn agree(enabled: Set<u32>, devices: Roster) -> bool {
    forall|index: u32| #[trigger]
        enabled.contains(index) <==> devices.dom().contains(index) && devices[index].1
            == Status::Enabled
}

/// A window that has just opened agrees with a session that has just begun.
pub proof fn law_window_and_session_begin_in_agreement()
    ensures
        agree(Set::empty(), Map::empty()),
{
}

/// The window agrees with the session after each event that the session hears from elsewhere,
/// once it has heard the report that the session makes of it.
pub proof fn law_reports_keep_agreement(
    state: SessionState,
    event: Event,
    connected: Seq<DeviceInfo>,
    devices: Roster,
)
    requires
        state.reporting,
        !(event is GuiCommand),
        agree(state.enabled, devices),
    ensures
        ({
            let (after, request) = crate::session::on_event(state, event, connected);
            agree(
                after.enabled,
                match request {
                    Request::Report(report) => crate::ui::roster_after(devices, report),
                    _ => devices,
                },
            )
        }),
{
}

/// The window agrees with the session after the user has ticked a listed device or taken the
/// tick away, once the session has heard of it.
pub proof fn law_toggles_keep_agreement(
    enabled: Set<u32>,
    devices: Roster,
    index: u32,
    checked: bool,
)
    requires
        devices.dom().contains(index),
        agree(enabled, devices),
    ensures
        agree(
            crate::session::enabled_after(
                enabled,
                Event::GuiCommand(GuiEvent::DeviceToggle(index, checked)),
            ),
            crate::ui::roster_toggled(devices, index, checked),
        ),
{
}

/// Ticking a listed device or taking the tick away changes nothing but the status of that device.
pub proof fn law_toggles_touch_one_device(
    devices: Roster,
    index: u32,
    other: u32,
    checked: bool,
)
    requires
        devices.dom().contains(index),
    ensures
        ({
            let after = crate::ui::roster_toggled(devices, index, checked);
            &&& after.dom() == devices.dom()
            &&& after[index].0 == devices[index].0
            &&& other != index ==> after[other] == devices[other]
        }),
{
    assert(devices.dom().insert(index) =~= devices.dom());
}

/// The work is started of its own accord when the window opens, and only then: work that has
/// been ended stays so until the button is clicked.
pub proof fn law_work_starts_by_itself_once(state: UiState, clicked: bool)
    requires
        !state.running,
    ensures
        !state.autostarted ==> crate::ui::run_button_used(state, clicked).0.running,
        crate::ui::run_button_used(state, clicked).0.autostarted,
        state.autostarted && !clicked ==> crate::ui::run_button_used(state, clicked) == (
            state,
            Seq::<OrderState>::empty(),
        ),
{
}

/// Running work is always ended, and waited for, before it is started anew.
pub proof fn law_running_work_ends_before_it_starts_anew(state: UiState, clicked: bool, i: int)
    requires
        state.running,
        0 <= i < crate::ui::run_button_used(state, clicked).1.len(),
        crate::ui::run_button_used(state, clicked).1[i] is Launch,
    ensures
        i > 0 && crate::ui::run_button_used(state, clicked).1[i - 1] == OrderState::Close(true),
{
}

/// After the work has been asked to end it is not running, and it is waited for just where it
/// was running.
pub proof fn law_ended_work_is_not_running(state: UiState)
    ensures
        !crate::ui::ending(state, true).0.running,
        crate::ui::ending(state, true).1 == seq![OrderState::Close(state.running)],
        crate::ui::ending(state, false) == (state, Seq::<OrderState>::empty()),
{
}

/// No button changes the settings or the list of devices, and channels that were opened stay.
pub proof fn law_buttons_leave_settings_alone(state: UiState, clicked: bool)
    ensures
        ({
            let after = crate::ui::run_button_used(state, clicked).0;
            &&& after.config == state.config
            &&& after.devices == state.devices
            &&& after.editor_port == state.editor_port
            &&& state.connected ==> after.connected
        }),
        ({
            let after = crate::ui::ending(state, clicked).0;
            &&& after.config == state.config
            &&& after.devices == state.devices
            &&& after.editor_port == state.editor_port
            &&& after.connected == state.connected
        }),
{
}

/// A device that is listed stays listed, whatever is reported.
pub proof fn law_reports_keep_devices_listed(devices: Roster, report: ClientEvent, index: u32)
    requires
        devices.dom().contains(index),
    ensures
        crate::ui::roster_after(devices, report).dom().contains(index),
{
}

/// Whether a device is listed as absent.
pub open spec fn absent(devices: Roster, index: u32) -> bool {
    devices.dom().contains(index) && devices[index].1 == Status::Absent
}

/// Whether a report says that a device has been found.
pub open spec fn finds(report: ClientEvent, index: u32) -> bool {
    report is DeviceFound && report->DeviceFound_1 == index
}

/// An absent device stays absent under every report but that it has been found.
pub proof fn law_absent_until_found(devices: Roster, report: ClientEvent, index: u32)
    requires
        absent(devices, index),
        !finds(report, index),
    ensures
        absent(crate::ui::roster_after(devices, report), index),
{
}

/// An absent device stays absent whichever device is ticked, for it cannot itself be.
pub proof fn law_ticks_keep_absent_devices(
    devices: Roster,
    index: u32,
    ticked: u32,
    checked: bool,
)
    requires
        absent(devices, index),
        crate::ui::tickable(devices, ticked),
    ensures
        ticked != index,
        absent(crate::ui::roster_toggled(devices, ticked, checked), index),
{
}

/// An absent device is still absent after a row of reports none of which finds it, and any listed
/// device is still listed after any row of reports.
proof fn lemma_reports(devices: Roster, reports: Seq<ClientEvent>, index: u32)
    requires
        devices.dom().contains(index),
    ensures
        crate::ui::roster_after_all(devices, reports).dom().contains(index),
        absent(devices, index) && (forall|j: int|
            0 <= j < reports.len() ==> !finds(#[trigger] reports[j], index)) ==> absent(
            crate::ui::roster_after_all(devices, reports),
            index,
        ),
    decreases reports.len(),
{
    if reports.len() > 0 {
        lemma_reports(devices, reports.drop_last(), index);
        if absent(devices, index) && (forall|j: int|
            0 <= j < reports.len() ==> !finds(#[trigger] reports[j], index)) {
            assert forall|j: int| 0 <= j < reports.len() - 1 implies !finds(
                #[trigger] reports.drop_last()[j],
                index,
            ) by {
                assert(reports.drop_last()[j] == reports[j]);
            }
            assert(!finds(reports[reports.len() - 1], index));
        }
    }
}

/// A tick keeps devices listed, and an absent device absent; and it is not on an absent device.
proof fn lemma_tick(devices: Roster, ticked: u32, checked: bool, index: u32)
    requires
        devices.dom().contains(index),
        crate::ui::tickable(devices, ticked),
    ensures
        crate::ui::roster_toggled(devices, ticked, checked).dom().contains(index),
        absent(devices, index) ==> absent(
            crate::ui::roster_toggled(devices, ticked, checked),
            index,
        ),
        absent(devices, index) ==> ticked != index,
{
}

/// Ticks keep devices listed, and an absent device absent; so no tick is on an absent device.
#[verifier::spinoff_prover]
proof fn lemma_ticks(devices: Roster, ticks: Seq<(u32, bool)>, index: u32)
    requires
        devices.dom().contains(index),
        forall|k: int|
            0 <= k < ticks.len() ==> crate::ui::tickable(
                crate::ui::roster_ticked(devices, ticks.take(k)),
                (#[trigger] ticks[k]).0,
            ),
    ensures
        crate::ui::roster_ticked(devices, ticks).dom().contains(index),
        absent(devices, index) ==> absent(crate::ui::roster_ticked(devices, ticks), index),
        absent(devices, index) ==> forall|k: int|
            0 <= k < ticks.len() ==> (#[trigger] ticks[k]).0 != index,
    decreases ticks.len(),
{
    if ticks.len() > 0 {
        let fewer = ticks.drop_last();
        let last = ticks.len() - 1;
        assert forall|k: int| 0 <= k < fewer.len() implies crate::ui::tickable(
            crate::ui::roster_ticked(devices, fewer.take(k)),
            (#[trigger] fewer[k]).0,
        ) by {
            assert(fewer[k] == ticks[k]);
            assert(fewer.take(k) =~= ticks.take(k));
        }
        lemma_ticks(devices, fewer, index);
        assert(crate::ui::tickable(
            crate::ui::roster_ticked(devices, ticks.take(last)),
            ticks[last].0,
        ));
        assert(ticks.take(last) =~= fewer);
        lemma_tick(
            crate::ui::roster_ticked(devices, fewer),
            ticks[last].0,
            ticks[last].1,
            index,
        );
        assert forall|k: int| absent(devices, index) && 0 <= k < ticks.len() implies (
        #[trigger] ticks[k]).0 != index by {
            if k < last {
                assert(fewer[k] == ticks[k]);
            }
        }
    }
}

/// From one picture to the next, every listed device stays listed; and a device that is absent
/// stays so unless a report finds it, and is not ticked, so that no message about it goes out.
pub proof fn law_lost_devices_stay_listed_as_absent(state: UiState, frame: Frame, index: u32)
    requires
        crate::ui::frame_possible(state, frame),
        state.devices.dom().contains(index),
    ensures
        crate::ui::frame_done(state, frame).devices.dom().contains(index),
        absent(state.devices, index) && (forall|j: int|
            0 <= j < frame.reports.len() ==> !finds(#[trigger] frame.reports[j], index)) ==> {
            &&& absent(crate::ui::frame_done(state, frame).devices, index)
            &&& forall|k: int|
                0 <= k < frame.ticks.len() ==> (#[trigger] frame.ticks[k]).0 != index
        },
{
    lemma_reports(state.devices, frame.reports, index);
    lemma_ticks(crate::ui::endings_done(state, frame).devices, frame.ticks, index);
}

/// While the work runs, nothing that can happen from one picture to the next changes the settings
/// or what stands in the field for the port, or is stored.
pub proof fn law_settings_stay_while_the_work_runs(
    state: UiState,
    frame: Frame,
    stored: Map<Setting, Seq<char>>,
)
    requires
        state.running,
        crate::ui::frame_possible(state, frame),
    ensures
        crate::ui::frame_done(state, frame).config == state.config,
        crate::ui::frame_done(state, frame).editor_port == state.editor_port,
        crate::ui::frame_stored(stored, frame) == stored,
{
}

/// What the user does to the settings from one picture to the next survives a restart, unless an
/// empty address was typed.
pub proof fn law_changed_settings_survive(
    state: UiState,
    frame: Frame,
    stored: Map<Setting, Seq<char>>,
)
    requires
        crate::ui::frame_possible(state, frame),
        crate::config::restored(stored) == state.config,
        frame.url != Some(Seq::<char>::empty()),
    ensures
        crate::config::restored(crate::ui::frame_stored(stored, frame)) == crate::ui::frame_done(
            state,
            frame,
        ).config,
{
    if let Some(url) = frame.url {
        if url.len() == 0 {
            assert(url =~= Seq::<char>::empty());
        }
    }
    if let Some(typed) = frame.port {
        if let Some(port) = crate::decimal::port_of(typed) {
            crate::decimal::law_port_reads_back(port);
        }
    }
}

} // verus!
