//! What a session asks for, and just when.
use vstd::prelude::*;
use crate::buttplug::{BPCommand, ClientEvent, DeviceInfo, GuiEvent};
use crate::session::{Event, Failure, Outcome, Phase, Reply, Request, ServerEvent, SessionState};

verus! {

/// Whether a reply is this event.
pub open spec fn brings(reply: Reply, event: Event) -> bool {
    reply is Event && reply->Event_0 == event
}

/// Whether a reply brings an event of the server.
pub open spec fn brings_server_event(reply: Reply) -> bool {
    reply is Event && reply->Event_0 is Buttplug
}

/// Whether a reply brings the news that a device has been found.
pub open spec fn brings_found(reply: Reply) -> bool {
    brings_server_event(reply) && reply->Event_0->Buttplug_0 is DeviceAdded
}

/// Whether a reply brings the news that a device has been lost.
pub open spec fn brings_lost(reply: Reply) -> bool {
    brings_server_event(reply) && reply->Event_0->Buttplug_0 is DeviceRemoved
}

/// A request can be answered just by the replies that are meant for it: one for the next event by
/// an event or by the end of events, one for work by how the work went, and an end by nothing.
pub proof fn law_replies_fit_requests(state: SessionState, reply: Reply, answer: Reply)
    requires
        state.valid(),
        state.awaits(reply),
    ensures
        ({
            let (after, request) = crate::session::on_reply(state, reply);
            &&& request is NextEvent ==> (after.awaits(answer) <==> !(answer is Done))
            &&& request is Finish ==> !after.awaits(answer)
            &&& !(request is NextEvent) && !(request is Finish) ==> (after.awaits(answer)
                <==> answer is Done)
        }),
{
}

/// A session connects when it begins, and never again.
pub proof fn law_connects_once(state: SessionState, reply: Reply)
    requires
        state.awaits(reply),
    ensures
        !(crate::session::on_reply(state, reply).1 is Connect),
        crate::session::on_reply(state, reply).0.phase != Phase::Connecting,
{
}

/// A session asks to scan just where it has been connected.
pub proof fn law_scans_when_connected(state: SessionState, reply: Reply)
    requires
        state.awaits(reply),
    ensures
        crate::session::on_reply(state, reply).1 is StartScanning <==> (state.phase
            == Phase::Connecting && reply == Reply::Done(true)),
        crate::session::on_reply(state, reply).0.phase == Phase::Scanning <==> (state.phase
            == Phase::Connecting && reply == Reply::Done(true)),
{
}

/// A session asks to disconnect just where it is told to close.
pub proof fn law_disconnects_when_told_to_close(state: SessionState, reply: Reply)
    requires
        state.awaits(reply),
    ensures
        crate::session::on_reply(state, reply).1 is Disconnect <==> brings(
            reply,
            Event::CloseCommand,
        ),
        crate::session::on_reply(state, reply).0.phase == Phase::Disconnecting <==> brings(
            reply,
            Event::CloseCommand,
        ),
{
}

/// A session reports just the devices that have been found or lost, by their names and indices,
/// and only where there is somebody to report to.
pub proof fn law_reports_devices(state: SessionState, reply: Reply)
    requires
        state.awaits(reply),
    ensures
        ({
            let request = crate::session::on_reply(state, reply).1;
            &&& request is Report <==> state.reporting && (brings_found(reply) || brings_lost(
                reply,
            ))
            &&& request is Report && brings_found(reply) ==> {
                let device = reply->Event_0->Buttplug_0->DeviceAdded_0;
                &&& request->Report_0 is DeviceFound
                &&& request->Report_0->DeviceFound_0 == device.name
                &&& request->Report_0->DeviceFound_1 == device.index
            }
            &&& request is Report && brings_lost(reply) ==> {
                let device = reply->Event_0->Buttplug_0->DeviceRemoved_0;
                &&& request->Report_0 is DeviceLost
                &&& request->Report_0->DeviceLost_0 == device.name
                &&& request->Report_0->DeviceLost_1 == device.index
            }
        }),
{
}

/// A session sends the first message of a command that it hears, where the command asks for any,
/// and the next message when one has gone out well, where there is a next; and nothing else.
pub proof fn law_sends_messages(state: SessionState, reply: Reply)
    requires
        state.valid(),
        state.awaits(reply),
    ensures
        ({
            let request = crate::session::on_reply(state, reply).1;
            let heard = reply is Event && reply->Event_0 is Command;
            let messages = crate::buttplug::plan(
                reply->Event_0->Command_0,
                reply->Event_1@,
                state.enabled,
            );
            let on_the_way = state.phase == Phase::Driving && reply == Reply::Done(true);
            &&& request is Send <==> (heard && messages.len() > 0) || (on_the_way
                && state.pending.len() > 1)
            &&& request is Send && heard ==> request->Send_0 == messages[0]
            &&& request is Send && on_the_way ==> request->Send_0 == state.pending[1]
        }),
{
}

/// The messages that a session has still to send: those of a command that it hears; one less when
/// one has gone out well; and none otherwise.
pub proof fn law_keeps_count_of_messages(state: SessionState, reply: Reply)
    requires
        state.valid(),
        state.awaits(reply),
    ensures
        ({
            let (after, request) = crate::session::on_reply(state, reply);
            if reply is Event && reply->Event_0 is Command {
                after.pending == crate::buttplug::plan(
                    reply->Event_0->Command_0,
                    reply->Event_1@,
                    state.enabled,
                )
            } else if state.phase == Phase::Driving && reply == Reply::Done(true) {
                &&& after.pending.len() == state.pending.len() - 1
                &&& forall|i: int|
                    0 <= i < after.pending.len() ==> #[trigger] after.pending[i] == state.pending[i
                        + 1]
            } else {
                after.pending.len() == 0
            }
        }),
{
}

/// A session fails just where work of its own does: connecting, scanning, or sending, and then
/// with the purpose of the message that was on its way.
pub proof fn law_fails_with_its_work(state: SessionState, reply: Reply)
    requires
        state.valid(),
        state.awaits(reply),
    ensures
        ({
            let request = crate::session::on_reply(state, reply).1;
            let failed = reply == Reply::Done(false);
            &&& request == Request::Finish(Outcome::Failed(Failure::Connect)) <==> (failed
                && state.phase == Phase::Connecting)
            &&& request == Request::Finish(Outcome::Failed(Failure::Scan)) <==> (failed
                && state.phase == Phase::Scanning)
            &&& (request is Finish && request->Finish_0 is Failed && request->Finish_0->Failed_0
                is Send) <==> (failed && state.phase == Phase::Driving)
            &&& failed && state.phase == Phase::Driving ==> request->Finish_0->Failed_0->Send_0
                == state.pending[0].purpose
            &&& request == Request::Finish(Outcome::Crashed) <==> (failed && state.phase
                == Phase::Disconnecting)
        }),
{
}

/// A session ends just where its work fails, the server goes or the events end. A report that
/// does not get through is not the end.
pub proof fn law_ends_only_for_cause(state: SessionState, reply: Reply)
    requires
        state.valid(),
        state.awaits(reply),
    ensures
        crate::session::on_reply(state, reply).1 is Finish <==> {
            ||| reply is EndOfEvents
            ||| brings(reply, Event::Buttplug(ServerEvent::ServerDisconnect))
            ||| reply == Reply::Done(false) && state.phase != Phase::Reporting
        },
        crate::session::on_reply(state, reply).0.phase == Phase::Over
            <==> crate::session::on_reply(state, reply).1 is Finish,
{
}

/// Whatever the user interface says, a session goes on listening.
pub proof fn law_gui_messages_leave_it_listening(
    state: SessionState,
    message: GuiEvent,
    devices: Vec<DeviceInfo>,
)
    requires
        state.valid(),
        state.phase == Phase::Listening,
    ensures
        ({
            let (after, request) = crate::session::on_reply(
                state,
                Reply::Event(Event::GuiCommand(message), devices),
            );
            &&& request is NextEvent
            &&& after.phase == Phase::Listening
            &&& after.pending == state.pending
            &&& after.reporting == state.reporting
        }),
{
}

/// What the server says of itself, but that it has gone, leaves a session as it is.
pub proof fn law_server_news_is_passed_over(
    state: SessionState,
    event: ServerEvent,
    devices: Vec<DeviceInfo>,
)
    requires
        state.phase == Phase::Listening,
        !(event is DeviceAdded),
        !(event is DeviceRemoved),
        !(event is ServerDisconnect),
    ensures
        crate::session::on_reply(state, Reply::Event(Event::Buttplug(event), devices)).0 == state,
        crate::session::on_reply(
            state,
            Reply::Event(Event::Buttplug(event), devices),
        ).1 is NextEvent,
{
}

/// A device is enabled after a reply just as the reply says, or as it was where the reply says
/// nothing of it. To whom a session reports stays the same.
pub proof fn law_enables_as_told(state: SessionState, reply: Reply, index: u32)
    requires
        state.awaits(reply),
    ensures
        ({
            let after = crate::session::on_reply(state, reply).0;
            let said = if reply is Event {
                super::says_of(reply->Event_0, index)
            } else {
                None
            };
            &&& after.enabled.contains(index) == (match said {
                Some(on) => on,
                None => state.enabled.contains(index),
            })
            &&& after.reporting == state.reporting
        }),
{
}

/// A command that asks for nothing leaves a session listening.
pub proof fn law_idle_command_leaves_it_listening(
    state: SessionState,
    command: BPCommand,
    devices: Vec<DeviceInfo>,
)
    requires
        state.valid(),
        state.phase == Phase::Listening,
        crate::buttplug::plan(command, devices@, state.enabled).len() == 0,
    ensures
        crate::session::on_reply(state, Reply::Event(Event::Command(command), devices)).1
            is NextEvent,
        crate::session::on_reply(
            state,
            Reply::Event(Event::Command(command), devices),
        ).0.phase == Phase::Listening,
{
}

/// A device that is found and then lost is reported twice, by the same name and index, and is
/// enabled in between.
pub proof fn law_found_then_lost(
    state: SessionState,
    device: DeviceInfo,
    devices: Vec<DeviceInfo>,
)
    requires
        state.valid(),
        state.phase == Phase::Listening,
        state.reporting,
    ensures
        ({
            let found = crate::session::on_reply(
                state,
                Reply::Event(Event::Buttplug(ServerEvent::DeviceAdded(device)), devices),
            );
            let told = crate::session::on_reply(found.0, Reply::Done(true));
            let lost = crate::session::on_reply(
                told.0,
                Reply::Event(Event::Buttplug(ServerEvent::DeviceRemoved(device)), devices),
            );
            &&& found.1 == Request::Report(ClientEvent::DeviceFound(device.name, device.index))
            &&& told.1 == Request::NextEvent
            &&& lost.1 == Request::Report(ClientEvent::DeviceLost(device.name, device.index))
            &&& found.0.enabled.contains(device.index)
            &&& !lost.0.enabled.contains(device.index)
        }),
{
}

/// Each kind of failure but that of the connection has words of its own, and different failures
/// have different words.
pub proof fn law_failures_are_told_apart(one: Failure, other: Failure)
    ensures
        crate::session::context_of(one) is None <==> one == Failure::Connect,
        one != other && one != Failure::Connect && other != Failure::Connect
            ==> crate::session::context_of(one)->0 != crate::session::context_of(other)->0,
{
    reveal_strlit("Couldn't start buttplug.io device scan");
    reveal_strlit("Couldn't send Vibrate command");
    reveal_strlit("Couldn't send VibrateIndex command");
    reveal_strlit("Couldn't send Linear command");
    reveal_strlit("Couldn't send Stop command for vibration");
    reveal_strlit("Couldn't send Stop command for linear movement");
    assert("Couldn't start buttplug.io device scan"@.len() == 38);
    assert("Couldn't send Vibrate command"@.len() == 29);
    assert("Couldn't send VibrateIndex command"@.len() == 34);
    assert("Couldn't send Linear command"@.len() == 28);
    assert("Couldn't send Stop command for vibration"@.len() == 40);
    assert("Couldn't send Stop command for linear movement"@.len() == 46);
}

} // verus!
