use relay_node::actuation::{
    dispatch, ActionCommand, Actuation, MachineLevel, Relay, ACTIVATE_RELAY, DEACTIVATE_RELAY,
    TAG_POWER_OFF, TAG_POWER_ON, TAG_RESET,
};

#[test]
fn tags_name_the_three_commands() {
    assert_eq!(TAG_POWER_ON, 1);
    assert_eq!(TAG_POWER_OFF, 2);
    assert_eq!(TAG_RESET, 3);
    assert_eq!(ActionCommand::from_tag(1), ActionCommand::PowerOn);
    assert_eq!(ActionCommand::from_tag(2), ActionCommand::PowerOff);
    assert_eq!(ActionCommand::from_tag(3), ActionCommand::Reset);
}

#[test]
fn every_other_tag_is_invalid() {
    for tag in 0..=255u8 {
        let command = ActionCommand::from_tag(tag);
        if tag == 1 || tag == 2 || tag == 3 {
            assert!(command.is_valid());
        } else {
            assert_eq!(command, ActionCommand::Invalid(tag));
            assert!(!command.is_valid());
        }
    }
}

#[test]
fn power_on_pulses_only_when_low() {
    assert_eq!(dispatch(ActionCommand::PowerOn, MachineLevel::Low), Actuation::Pulse(Relay::Power));
    assert_eq!(dispatch(ActionCommand::PowerOn, MachineLevel::High), Actuation::AlreadySatisfied);
}

#[test]
fn power_off_pulses_only_when_high() {
    assert_eq!(dispatch(ActionCommand::PowerOff, MachineLevel::High), Actuation::Pulse(Relay::Power));
    assert_eq!(dispatch(ActionCommand::PowerOff, MachineLevel::Low), Actuation::AlreadySatisfied);
}

#[test]
fn reset_pulses_at_either_level() {
    assert_eq!(dispatch(ActionCommand::Reset, MachineLevel::Low), Actuation::Pulse(Relay::Reset));
    assert_eq!(dispatch(ActionCommand::Reset, MachineLevel::High), Actuation::Pulse(Relay::Reset));
}

#[test]
fn invalid_command_is_rejected_at_either_level() {
    assert_eq!(dispatch(ActionCommand::Invalid(0), MachineLevel::Low), Actuation::Rejected);
    assert_eq!(dispatch(ActionCommand::Invalid(9), MachineLevel::High), Actuation::Rejected);
}

#[test]
fn level_is_reported_as_zero_or_one() {
    assert_eq!(MachineLevel::Low.report_byte(), 0);
    assert_eq!(MachineLevel::High.report_byte(), 1);
}

#[test]
fn relays_are_active_low() {
    assert_eq!(ACTIVATE_RELAY, MachineLevel::Low);
    assert_eq!(DEACTIVATE_RELAY, MachineLevel::High);
}
