//! What each command sends to each device.
use vstd::prelude::*;
use crate::buttplug::{BPCommand, DeviceAction, DeviceCommand, DeviceInfo, Purpose};
use crate::level::Level;

verus! {

/// The messages of a plan that go to the device at `slot`.
pub open spec fn sent_to(actions: Seq<DeviceAction>, slot: int) -> Seq<DeviceAction> {
    actions.filter(|action: DeviceAction| action.slot == slot)
}

proof fn lemma_filter_keeps_all(actions: Seq<DeviceAction>, slot: int)
    requires
        forall|i: int| 0 <= i < actions.len() ==> (#[trigger] actions[i]).slot == slot,
    ensures
        sent_to(actions, slot) == actions,
    decreases actions.len(),
{
    reveal(Seq::filter);
    if actions.len() > 0 {
        assert forall|i: int| 0 <= i < actions.len() - 1 implies (
        #[trigger] actions.drop_last()[i]).slot == slot by {
            assert(actions.drop_last()[i] == actions[i]);
        }
        lemma_filter_keeps_all(actions.drop_last(), slot);
        assert(actions[actions.len() - 1].slot == slot);
        assert(actions.drop_last().push(actions.last()) =~= actions);
    }
}

proof fn lemma_filter_keeps_none(actions: Seq<DeviceAction>, slot: int)
    requires
        forall|i: int| 0 <= i < actions.len() ==> (#[trigger] actions[i]).slot != slot,
    ensures
        sent_to(actions, slot) == Seq::<DeviceAction>::empty(),
    decreases actions.len(),
{
    reveal(Seq::filter);
    if actions.len() > 0 {
        assert forall|i: int| 0 <= i < actions.len() - 1 implies (
        #[trigger] actions.drop_last()[i]).slot != slot by {
            assert(actions.drop_last()[i] == actions[i]);
        }
        lemma_filter_keeps_none(actions.drop_last(), slot);
        assert(actions[actions.len() - 1].slot != slot);
    }
}

/// What a command asks of a device goes to the slot of that device.
proof fn lemma_own_slot(command: BPCommand, device: DeviceInfo, enabled: Set<u32>, slot: int)
    requires
        0 <= slot <= usize::MAX,
    ensures
        forall|i: int|
            0 <= i < crate::buttplug::device_plan(command, device, enabled, slot).len() ==> (
            #[trigger] crate::buttplug::device_plan(command, device, enabled, slot)[i]).slot
                == slot,
{
}

/// A plan is that of the devices but the last, and then what is asked of the last.
proof fn lemma_plan_grows(command: BPCommand, devices: Seq<DeviceInfo>, enabled: Set<u32>)
    requires
        devices.len() > 0,
    ensures
        crate::buttplug::plan(command, devices, enabled) == crate::buttplug::plan(
            command,
            devices.drop_last(),
            enabled,
        ) + crate::buttplug::device_plan(command, devices.last(), enabled, devices.len() - 1),
{
}

/// What a plan sends to the device at a slot is what the command asks of that device.
proof fn lemma_sent_to(
    command: BPCommand,
    devices: Seq<DeviceInfo>,
    enabled: Set<u32>,
    slot: int,
)
    requires
        devices.len() <= usize::MAX,
        0 <= slot,
    ensures
        sent_to(crate::buttplug::plan(command, devices, enabled), slot) == (if slot
            < devices.len() {
            crate::buttplug::device_plan(command, devices[slot], enabled, slot)
        } else {
            Seq::<DeviceAction>::empty()
        }),
    decreases devices.len(),
{
    if devices.len() == 0 {
        lemma_filter_keeps_none(crate::buttplug::plan(command, devices, enabled), slot);
    } else {
        lemma_plan_grows(command, devices, enabled);
        let last = devices.len() - 1;
        let before = crate::buttplug::plan(command, devices.drop_last(), enabled);
        let own = crate::buttplug::device_plan(command, devices.last(), enabled, last);
        lemma_sent_to(command, devices.drop_last(), enabled, slot);
        lemma_own_slot(command, devices.last(), enabled, last);
        Seq::filter_distributes_over_add(
            before,
            own,
            |action: DeviceAction| action.slot == slot,
        );
        if slot == last {
            lemma_filter_keeps_all(own, slot);
            assert(sent_to(before, slot) + own =~= own);
        } else {
            lemma_filter_keeps_none(own, slot);
            assert(sent_to(before, slot) + Seq::<DeviceAction>::empty() =~= sent_to(before, slot));
            assert(slot < last ==> devices.drop_last()[slot] == devices[slot]);
        }
    }
}

/// Nothing is sent to a device that is not in the list.
pub proof fn law_only_listed_devices_are_sent_to(
    command: BPCommand,
    devices: Seq<DeviceInfo>,
    enabled: Set<u32>,
    slot: int,
)
    requires
        devices.len() <= usize::MAX,
        slot >= devices.len(),
    ensures
        sent_to(crate::buttplug::plan(command, devices, enabled), slot).len() == 0,
{
    lemma_sent_to(command, devices, enabled, slot);
}

/// `Vibrate` sends one message to every device that has a motor, enabled or not, whatever the
/// speed: all its motors at the speed, capped. It sends nothing to other devices.
pub proof fn law_vibrate(
    speed: Level,
    devices: Seq<DeviceInfo>,
    enabled: Set<u32>,
    slot: int,
)
    requires
        devices.len() <= usize::MAX,
        0 <= slot < devices.len(),
    ensures
        ({
            let sent = sent_to(
                crate::buttplug::plan(BPCommand::Vibrate(speed), devices, enabled),
                slot,
            );
            &&& sent.len() == (if devices[slot].vibrate_attributes > 0 {
                1nat
            } else {
                0nat
            })
            &&& sent.len() == 1 ==> {
                &&& sent[0].slot == slot
                &&& sent[0].purpose == Purpose::Vibrate
                &&& sent[0].command == DeviceCommand::Vibrate(speed.capped())
            }
        }),
{
    lemma_sent_to(BPCommand::Vibrate(speed), devices, enabled, slot);
}

/// `VibrateIndex` sends one message to every enabled device that has a motor: to the motor with
/// the index asked for, or to the last motor where there is none with that index, the speed,
/// capped. It sends nothing to other devices. Motors are counted in 32 bits.
pub proof fn law_vibrate_index(
    speed: Level,
    index: u32,
    devices: Seq<DeviceInfo>,
    enabled: Set<u32>,
    slot: int,
)
    requires
        devices.len() <= usize::MAX,
        0 <= slot < devices.len(),
    ensures
        ({
            let motors = devices[slot].vibrate_attributes as int % 0x1_0000_0000;
            let sent = sent_to(
                crate::buttplug::plan(BPCommand::VibrateIndex(speed, index), devices, enabled),
                slot,
            );
            &&& sent.len() == (if enabled.contains(devices[slot].index) && motors > 0 {
                1nat
            } else {
                0nat
            })
            &&& sent.len() == 1 ==> {
                &&& sent[0].slot == slot
                &&& sent[0].purpose == Purpose::VibrateIndex
                &&& sent[0].command is VibrateMotor
                &&& sent[0].command->VibrateMotor_1 == speed.capped()
                &&& index < motors ==> sent[0].command->VibrateMotor_0 == index
                &&& index >= motors ==> sent[0].command->VibrateMotor_0 == motors - 1
            }
        }),
{
    lemma_sent_to(BPCommand::VibrateIndex(speed, index), devices, enabled, slot);
}

/// `Linear` sends one message to every device that has an axis, enabled or not: the duration as
/// it is, the position, capped, and the axis with the largest index that is not above the
/// position. It sends nothing to other devices. Axes are counted in 32 bits.
pub proof fn law_linear(
    duration: u32,
    position: Level,
    devices: Seq<DeviceInfo>,
    enabled: Set<u32>,
    slot: int,
)
    requires
        devices.len() <= usize::MAX,
        0 <= slot < devices.len(),
    ensures
        ({
            let axes = devices[slot].linear_attributes as int % 0x1_0000_0000;
            let sent = sent_to(
                crate::buttplug::plan(BPCommand::Linear(duration, position), devices, enabled),
                slot,
            );
            &&& sent.len() == (if axes > 0 {
                1nat
            } else {
                0nat
            })
            &&& sent.len() == 1 ==> {
                let axis = sent[0].command->Linear_0 as int;
                let one = crate::level::scaled_one();
                &&& sent[0].slot == slot
                &&& sent[0].purpose == Purpose::Linear
                &&& sent[0].command is Linear
                &&& sent[0].command->Linear_1 == duration
                &&& sent[0].command->Linear_2 == position.capped()
                &&& axis < axes
                &&& position.is_nan() ==> axis == axes - 1
                &&& !position.is_nan() && position.scaled() <= 0 ==> axis == 0
                &&& !position.is_nan() && position.scaled() > 0 ==> axis * one
                    <= position.scaled()
                &&& !position.is_nan() && axis < axes - 1 ==> position.scaled() < (axis + 1) * one
            }
        }),
{
    lemma_sent_to(BPCommand::Linear(duration, position), devices, enabled, slot);
    let axes = devices[slot].linear_attributes as int % 0x1_0000_0000;
    if axes > 0 {
        super::levels::law_index_is_the_largest_that_fits(position, axes - 1);
        vstd::arithmetic::power2::lemma_pow2_pos(1074);
        let one = crate::level::scaled_one();
        assert((0 + 1) * one == one) by (nonlinear_arith);
    }
}

/// `Stop` sends to every device, enabled or not, just this: speed zero for all motors, where it
/// has any, and then position zero at once for its first axis, where it has any.
pub proof fn law_stop(devices: Seq<DeviceInfo>, enabled: Set<u32>, slot: int)
    requires
        devices.len() <= usize::MAX,
        0 <= slot < devices.len(),
    ensures
        ({
            let device = devices[slot];
            let sent = sent_to(crate::buttplug::plan(BPCommand::Stop, devices, enabled), slot);
            let motors: nat = if device.vibrate_attributes > 0 {
                1
            } else {
                0
            };
            let axes: nat = if device.linear_attributes > 0 {
                1
            } else {
                0
            };
            &&& sent.len() == motors + axes
            &&& motors == 1 ==> {
                &&& sent[0].slot == slot
                &&& sent[0].purpose == Purpose::StopVibration
                &&& sent[0].command == DeviceCommand::Vibrate(Level { bits: 0 })
            }
            &&& axes == 1 ==> {
                &&& sent.last().slot == slot
                &&& sent.last().purpose == Purpose::StopLinear
                &&& sent.last().command == DeviceCommand::Linear(0, 0, Level { bits: 0 })
            }
        }),
{
    lemma_sent_to(BPCommand::Stop, devices, enabled, slot);
}

/// A list of devices is served as its parts would be: a longer list gets the messages of the
/// shorter one first, unchanged.
pub proof fn law_more_devices_change_nothing_for_the_first(
    command: BPCommand,
    devices: Seq<DeviceInfo>,
    more: DeviceInfo,
    enabled: Set<u32>,
)
    ensures
        crate::buttplug::plan(command, devices, enabled).is_prefix_of(
            crate::buttplug::plan(command, devices.push(more), enabled),
        ),
{
    assert(devices.push(more).drop_last() =~= devices);
}

} // verus!
