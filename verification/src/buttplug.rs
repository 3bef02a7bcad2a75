//! The session with the device server: which devices are in use, and what each event and each
//! command asks of them.
use vstd::prelude::*;
use std::collections::HashSet;
use crate::level::Level;

verus! {

/// What the session tells the user interface.
#[derive(Clone, Debug, PartialEq, Eq)]
pub enum ClientEvent {
    DeviceFound(String, u32),
    DeviceLost(String, u32),
}

/// What the user interface tells the session.
#[derive(Clone, Copy, Debug, PartialEq, Eq)]
pub enum GuiEvent {
    DeviceToggle(u32, bool),
    /// A message that carries nothing, as where messages were lost.
    Nothing,
}

/// What the game scripts ask of the devices.
#[derive(Clone, Copy, Debug, PartialEq, Eq)]
pub enum BPCommand {
    /// All motors of every device at one speed.
    Vibrate(Level),
    /// One motor of every enabled device at a speed.
    VibrateIndex(Level, u32),
    /// A linear movement: the duration in milliseconds and the position.
    Linear(u32, Level),
    /// Everything to zero.
    Stop,
}

/// A device as the server describes it.
#[derive(Clone, Debug, PartialEq, Eq)]
pub struct DeviceInfo {
    pub name: String,
    pub index: u32,
    /// How many vibration motors it has.
    pub vibrate_attributes: usize,
    /// How many linear axes it has.
    pub linear_attributes: usize,
}

/// A message to one device.
#[derive(Clone, Copy, Debug, PartialEq, Eq)]
pub enum DeviceCommand {
    /// All motors at this speed.
    Vibrate(Level),
    /// The motor with this index at this speed.
    VibrateMotor(u32, Level),
    /// The axis with this index, over this duration in milliseconds, to this position.
    Linear(u32, u32, Level),
}

/// The purpose for which a message goes to a device.
#[derive(Clone, Copy, Debug, PartialEq, Eq)]
pub enum Purpose {
    Vibrate,
    VibrateIndex,
    Linear,
    StopVibration,
    StopLinear,
}

/// A message together with the device it goes to: its place in the list of devices.
#[derive(Clone, Copy, Debug, PartialEq, Eq)]
pub struct DeviceAction {
    pub slot: usize,
    pub command: DeviceCommand,
    pub purpose: Purpose,
}

/// The number of attributes as the server counts it, in 32 bits.
pub open spec fn count_of(attributes: usize) -> int {
    attributes as int % 0x1_0000_0000
}

/// What a command asks of one device, which stands at `slot` in the list of devices.
///
/// Only `VibrateIndex` looks at whether a device is enabled.
pub open spec fn device_plan(
    command: BPCommand,
    device: DeviceInfo,
    enabled: Set<u32>,
    slot: int,
) -> Seq<DeviceAction> {
    let slot = slot as usize;
    let motors = count_of(device.vibrate_attributes);
    let axes = count_of(device.linear_attributes);
    match command {
        BPCommand::Vibrate(speed) => if device.vibrate_attributes == 0 {
            seq![]
        } else {
            seq![
                DeviceAction {
                    slot,
                    command: DeviceCommand::Vibrate(speed.capped()),
                    purpose: Purpose::Vibrate,
                },
            ]
        },
        BPCommand::VibrateIndex(speed, index) => if !enabled.contains(device.index) || motors
            == 0 {
            seq![]
        } else {
            let motor = if index < motors {
                index
            } else {
                (motors - 1) as u32
            };
            seq![
                DeviceAction {
                    slot,
                    command: DeviceCommand::VibrateMotor(motor, speed.capped()),
                    purpose: Purpose::VibrateIndex,
                },
            ]
        },
        BPCommand::Linear(duration, position) => if axes == 0 {
            seq![]
        } else {
            let axis = position.whole_within(axes - 1) as u32;
            seq![
                DeviceAction {
                    slot,
                    command: DeviceCommand::Linear(axis, duration, position.capped()),
                    purpose: Purpose::Linear,
                },
            ]
        },
        BPCommand::Stop => {
            let vibration = if device.vibrate_attributes == 0 {
                seq![]
            } else {
                seq![
                    DeviceAction {
                        slot,
                        command: DeviceCommand::Vibrate(Level { bits: 0 }),
                        purpose: Purpose::StopVibration,
                    },
                ]
            };
            let linear = if device.linear_attributes == 0 {
                seq![]
            } else {
                seq![
                    DeviceAction {
                        slot,
                        command: DeviceCommand::Linear(0, 0, Level { bits: 0 }),
                        purpose: Purpose::StopLinear,
                    },
                ]
            };
            vibration + linear
        },
    }
}

/// What a command asks of the devices of a list, device after device.
pub open spec fn plan(
    command: BPCommand,
    devices: Seq<DeviceInfo>,
    enabled: Set<u32>,
) -> Seq<DeviceAction>
    decreases devices.len(),
{
    if devices.len() == 0 {
        seq![]
    } else {
        plan(command, devices.drop_last(), enabled) + device_plan(
            command,
            devices.last(),
            enabled,
            devices.len() - 1,
        )
    }
}

/// The low 32 bits of a count.
fn count(attributes: usize) -> (low: u32)
    ensures
        low == count_of(attributes),
{
    let wide: u64 = attributes as u64;
    assert(wide as u32 == wide % 0x1_0000_0000u64) by (bit_vector);
    #[verifier::truncate]
    (wide as u32)
}

/// Appends what a command asks of one device.
fn push_device_plan(
    actions: &mut Vec<DeviceAction>,
    command: BPCommand,
    device: &DeviceInfo,
    enabled: &HashSet<u32>,
    slot: usize,
)
    ensures
        final(actions)@ == old(actions)@ + device_plan(command, *device, enabled@, slot as int),
{
    match command {
        BPCommand::Vibrate(speed) => {
            if device.vibrate_attributes != 0 {
                let command = DeviceCommand::Vibrate(speed.at_most_one());
                actions.push(DeviceAction { slot, command, purpose: Purpose::Vibrate });
            }
        },
        BPCommand::VibrateIndex(speed, index) => {
            let motors = count(device.vibrate_attributes);
            if enabled.contains(&device.index) && motors != 0 {
                let motor = if index < motors {
                    index
                } else {
                    motors - 1
                };
                let command = DeviceCommand::VibrateMotor(motor, speed.at_most_one());
                actions.push(DeviceAction { slot, command, purpose: Purpose::VibrateIndex });
            }
        },
        BPCommand::Linear(duration, position) => {
            let axes = count(device.linear_attributes);
            if axes != 0 {
                let axis = position.index_up_to(axes - 1);
                let command = DeviceCommand::Linear(axis, duration, position.at_most_one());
                actions.push(DeviceAction { slot, command, purpose: Purpose::Linear });
            }
        },
        BPCommand::Stop => {
            if device.vibrate_attributes != 0 {
                let command = DeviceCommand::Vibrate(Level::zero());
                actions.push(DeviceAction { slot, command, purpose: Purpose::StopVibration });
            }
            if device.linear_attributes != 0 {
                let command = DeviceCommand::Linear(0, 0, Level::zero());
                actions.push(DeviceAction { slot, command, purpose: Purpose::StopLinear });
            }
        },
    }
    assert(actions@ =~= old(actions)@ + device_plan(command, *device, enabled@, slot as int));
}

/// The messages that a command sends to the devices of a list, in the order in which they go out.
pub fn plan_command(
    command: BPCommand,
    devices: &Vec<DeviceInfo>,
    enabled: &HashSet<u32>,
) -> (actions: Vec<DeviceAction>)
    ensures
        actions@ == plan(command, devices@, enabled@),
{
    let mut actions: Vec<DeviceAction> = Vec::new();
    let mut slot: usize = 0;
    while slot < devices.len()
        invariant
            slot <= devices.len(),
            actions@ == plan(command, devices@.take(slot as int), enabled@),
        decreases devices.len() - slot,
    {
        push_device_plan(&mut actions, command, &devices[slot], enabled, slot);
        slot += 1;
        assert(devices@.take(slot as int).drop_last() =~= devices@.take(slot - 1));
    }
    assert(devices@.take(slot as int) =~= devices@);
    actions
}

/// The name under which the session presents itself to the device server.
pub const CLIENT_NAME: &'static str = "CS2 integration";

/// How many commands may wait for the session before the oldest are lost.
pub const COMMAND_CAPACITY: usize = 5;

/// Whether an encrypted connection is made without the server having to prove who it is.
pub const BYPASS_CERT_VERIFY: bool = false;

/// How the device server is reached.
#[derive(Clone, Debug, PartialEq, Eq)]
pub enum Transport {
    /// An encrypted connection to this address, with the certificate of the server checked as
    /// `BYPASS_CERT_VERIFY` says.
    Secure(String),
    /// A plain connection to this address.
    Insecure(String),
}

/// Whether a text starts with another.
fn starts_with(text: &str, start: &str) -> (found: bool)
    ensures
        found == start@.is_prefix_of(text@),
{
    let len: usize = start.unicode_len();
    if text.unicode_len() < len {
        return false;
    }
    let mut i: usize = 0;
    while i < len
        invariant
            i <= len,
            len == start@.len(),
            len <= text@.len(),
            start@.take(i as int) == text@.take(i as int),
        decreases len - i,
    {
        if text.get_char(i) != start.get_char(i) {
            assert(text@.take(len as int)[i as int] != start@[i as int]);
            return false;
        }
        i += 1;
        assert(start@.take(i as int) =~= start@.take(i - 1).push(start@[i - 1]));
        assert(text@.take(i as int) =~= text@.take(i - 1).push(text@[i - 1]));
    }
    assert(start@.take(len as int) =~= start@);
    true
}

/// The way to reach the device server at an address: encrypted where the address starts with
/// `wss://`, plain otherwise.
pub fn transport_to(connect_url: &String) -> (transport: Transport)
    ensures
        transport == (if "wss://"@.is_prefix_of(connect_url@) {
            Transport::Secure(*connect_url)
        } else {
            Transport::Insecure(*connect_url)
        }),
{
    if starts_with(connect_url.as_str(), "wss://") {
        Transport::Secure(connect_url.clone())
    } else {
        Transport::Insecure(connect_url.clone())
    }
}

} // verus!
