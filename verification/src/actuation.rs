//! What a command does to the relays, given the sensed state of the machine.
use vstd::prelude::*;

verus! {

/// Sensed state of the machine's power line.
#[derive(Clone, Copy, Debug, PartialEq, Eq, Structural)]
pub enum MachineLevel {
    Low,
    High,
}

/// The action a controller asks for.
#[derive(Clone, Copy, Debug, PartialEq, Eq, Structural)]
pub enum ActionCommand {
    PowerOn,
    PowerOff,
    Reset,
    /// A tag outside the closed set, kept so that it can be rejected by name.
    Invalid(u8),
}

/// One of the two relay outputs.
#[derive(Clone, Copy, Debug, PartialEq, Eq, Structural)]
pub enum Relay {
    Power,
    Reset,
}

/// What the node does for an authenticated command.
#[derive(Clone, Copy, Debug, PartialEq, Eq, Structural)]
pub enum Actuation {
    /// Hold the relay active for one pulse, then return it to its safe level.
    Pulse(Relay),
    /// The machine is already where the command wants it: tell the
    /// controller so and leave the relays alone.
    AlreadySatisfied,
    /// The tag names no action: nothing is actuated.
    Rejected,
}

/// Output level that activates a relay: the relays are active low.
pub const ACTIVATE_RELAY: MachineLevel = MachineLevel::Low;

/// Output level at which a relay is safe: deactivated.
pub const DEACTIVATE_RELAY: MachineLevel = MachineLevel::High;

/// Tag of `PowerOn` on the wire.
pub const TAG_POWER_ON: u8 = 1;

/// Tag of `PowerOff` on the wire.
pub const TAG_POWER_OFF: u8 = 2;

/// Tag of `Reset` on the wire.
pub const TAG_RESET: u8 = 3;

/// The command that a tag byte stands for.
pub open spec fn command_of(tag: u8) -> ActionCommand {
    if tag == TAG_POWER_ON {
        ActionCommand::PowerOn
    } else if tag == TAG_POWER_OFF {
        ActionCommand::PowerOff
    } else if tag == TAG_RESET {
        ActionCommand::Reset
    } else {
        ActionCommand::Invalid(tag)
    }
}

/// The level a command wants the machine to reach, if it wants one.
pub open spec fn target_level(command: ActionCommand) -> Option<MachineLevel> {
    match command {
        ActionCommand::PowerOn => Some(MachineLevel::High),
        ActionCommand::PowerOff => Some(MachineLevel::Low),
        ActionCommand::Reset => None,
        ActionCommand::Invalid(_) => None,
    }
}

/// What `command` does when the machine is sensed at `level`: the power
/// relay is pulsed only when that would change the level, the reset relay
/// always.
pub open spec fn actuation_of(command: ActionCommand, level: MachineLevel) -> Actuation {
    match command {
        ActionCommand::Invalid(_) => Actuation::Rejected,
        ActionCommand::Reset => Actuation::Pulse(Relay::Reset),
        _ => if target_level(command) == Some(level) {
            Actuation::AlreadySatisfied
        } else {
            Actuation::Pulse(Relay::Power)
        },
    }
}

/// The byte that reports a level to the controller.
pub open spec fn level_byte(level: MachineLevel) -> u8 {
    match level {
        MachineLevel::Low => 0,
        MachineLevel::High => 1,
    }
}

impl MachineLevel {
    /// The byte that reports this level: 0 for low, 1 for high.
    pub fn report_byte(self) -> (byte: u8)
        ensures
            byte == level_byte(self),
    {
        match self {
            MachineLevel::Low => 0,
            MachineLevel::High => 1,
        }
    }
}

impl ActionCommand {
    /// Reads a command from its tag. Every byte is taken; one outside the
    /// closed set comes back as `Invalid` with the byte in it.
    pub fn from_tag(tag: u8) -> (command: ActionCommand)
        ensures
            command == command_of(tag),
    {
        if tag == TAG_POWER_ON {
            ActionCommand::PowerOn
        } else if tag == TAG_POWER_OFF {
            ActionCommand::PowerOff
        } else if tag == TAG_RESET {
            ActionCommand::Reset
        } else {
            ActionCommand::Invalid(tag)
        }
    }

    /// Whether the command belongs to the closed set.
    pub fn is_valid(self) -> (valid: bool)
        ensures
            valid == !(self is Invalid),
    {
        match self {
            ActionCommand::Invalid(_) => false,
            _ => true,
        }
    }
}

/// Decides what an authenticated `command` does while the machine is sensed
/// at `level`.
pub fn dispatch(command: ActionCommand, level: MachineLevel) -> (actuation: Actuation)
    ensures
        actuation == actuation_of(command, level),
{
    match command {
        ActionCommand::PowerOn => match level {
            MachineLevel::Low => Actuation::Pulse(Relay::Power),
            MachineLevel::High => Actuation::AlreadySatisfied,
        },
        ActionCommand::PowerOff => match level {
            MachineLevel::High => Actuation::Pulse(Relay::Power),
            MachineLevel::Low => Actuation::AlreadySatisfied,
        },
        ActionCommand::Reset => Actuation::Pulse(Relay::Reset),
        ActionCommand::Invalid(_) => Actuation::Rejected,
    }
}

/// A command never pulses the power relay while the machine already is at
/// the level the command asks for: power-on at high and power-off at low
/// are answered with the acknowledgement instead.
pub proof fn lemma_idempotent_actuation(command: ActionCommand, level: MachineLevel)
    ensures
        target_level(command) == Some(level) ==> actuation_of(command, level)
            == Actuation::AlreadySatisfied,
        actuation_of(ActionCommand::PowerOn, MachineLevel::High) == Actuation::AlreadySatisfied,
        actuation_of(ActionCommand::PowerOff, MachineLevel::Low) == Actuation::AlreadySatisfied,
        actuation_of(command, level) == Actuation::Pulse(Relay::Power) <==> (target_level(command)
            is Some && target_level(command) != Some(level)),
{
}

} // verus!
