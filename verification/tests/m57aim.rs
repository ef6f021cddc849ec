use ossm::m57aim::{
    absolute_position_request, configure_max_tracking_writes, disable_driver_writes,
    enable_driver_writes, register_pair_value, set_acceleration_write, set_max_output_write,
    set_speed_write, trigger_homing_writes, Homing, HomingAction, HomingPhase, Modbus, Motor57AIM,
    Motor57AIMConfig, RegisterWrite, RoRegister, RwRegister,
};

fn w(register: u16, value: u16) -> RegisterWrite {
    RegisterWrite { register, value }
}

#[test]
fn register_addresses() {
    assert_eq!(RwRegister::ModbusEnable.address(), 0x00);
    assert_eq!(RwRegister::DirPolarity.address(), 0x09);
    assert_eq!(RwRegister::ParameterSaveFlag.address(), 0x14);
    assert_eq!(RwRegister::AbsolutePositionLowU16.address(), 0x16);
    assert_eq!(RwRegister::SpecificFunction.address(), 0x19);
    assert_eq!(RoRegister::TargetPositionLowU16.address(), 0x0C);
    assert_eq!(RoRegister::SystemCurrent.address(), 0x0F);
    assert_eq!(RoRegister::DeviceAddress.address(), 0x15);
}

#[test]
fn config_and_constructor() {
    let c = Motor57AIMConfig::default();
    assert_eq!(c.steps_per_rev, 32_768);
    assert_eq!(c.max_output, 600);
    let m = Motor57AIM::new(Modbus::new((), 0x01), c, ());
    assert_eq!(m.steps_per_rev(), 32_768);
    assert_eq!(m.max_output(), 600);
    assert_eq!(m.interface.device_addr, 0x01);
}

#[test]
fn write_sequences() {
    assert_eq!(enable_driver_writes(), vec![w(0x00, 1), w(0x01, 1)]);
    assert_eq!(disable_driver_writes(), vec![w(0x01, 0), w(0x00, 0)]);
    assert_eq!(
        configure_max_tracking_writes(),
        vec![w(0x02, 3000), w(0x03, 50000), w(0x18, 600)]
    );
    assert_eq!(trigger_homing_writes(), vec![w(0x02, 80), w(0x18, 89), w(0x19, 1)]);
    assert_eq!(set_speed_write(1234), w(0x02, 1234));
    assert_eq!(set_acceleration_write(7), w(0x03, 7));
    assert_eq!(set_max_output_write(450), w(0x18, 450));
}

#[test]
fn position_frame() {
    assert_eq!(absolute_position_request(0x01, 0x1234_5678), [0x01, 0x7B, 0x12, 0x34, 0x56, 0x78]);
    assert_eq!(absolute_position_request(0x02, -1), [0x02, 0x7B, 0xFF, 0xFF, 0xFF, 0xFF]);
    assert_eq!(absolute_position_request(0x01, -2), [0x01, 0x7B, 0xFF, 0xFF, 0xFF, 0xFE]);
}

#[test]
fn register_pairs() {
    assert_eq!(register_pair_value(&[0x5678, 0x1234]), 0x1234_5678);
    assert_eq!(register_pair_value(&[0xFFFF, 0xFFFF]), -1);
    assert_eq!(register_pair_value(&[0x0000, 0x8000, 0x9999]), i32::MIN);
    let v: i32 = -123_456;
    let u = v as u32;
    assert_eq!(register_pair_value(&[(u & 0xFFFF) as u16, (u >> 16) as u16]), v);
}

#[test]
fn homing_sequence() {
    let mut h = Homing::new();
    assert!(matches!(h.advance(0), HomingAction::WriteRegisters(ws) if ws == trigger_homing_writes()));
    assert!(matches!(h.advance(0), HomingAction::DelayMs(50)));
    assert!(matches!(h.advance(0), HomingAction::ReadRemainingSteps));
    assert!(matches!(h.advance(-15), HomingAction::DelayMs(50)));
    assert_eq!(h.phase(), HomingPhase::PollRead);
    assert!(matches!(h.advance(0), HomingAction::ReadRemainingSteps));
    assert!(matches!(h.advance(i32::MAX), HomingAction::DelayMs(50)));
    assert!(matches!(h.advance(0), HomingAction::ReadRemainingSteps));
    assert!(matches!(h.advance(14), HomingAction::DelayMs(20)));
    assert!(matches!(h.advance(0), HomingAction::WriteRegisters(ws) if ws == enable_driver_writes()));
    assert!(matches!(h.advance(0), HomingAction::DelayMs(800)));
    assert!(matches!(h.advance(0), HomingAction::WriteRegisters(ws) if ws == configure_max_tracking_writes()));
    assert!(matches!(h.advance(0), HomingAction::Finished));
    assert_eq!(h.phase(), HomingPhase::Done);
    assert!(matches!(h.advance(0), HomingAction::Finished));
}
