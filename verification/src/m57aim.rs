//! The 57AIM BLDC servo motor's Modbus register map and command encoding.
//!
//! Register reads and writes travel over a Modbus transport (asynchronous
//! I/O done by the caller); here are the register addresses, the values and
//! order of the writes each operation makes, the vendor position frame, the
//! decoding of 32-bit register pairs, and the homing sequence as a state
//! machine.

use vstd::prelude::*;

verus! {

/// Read-write holding registers.
#[derive(Debug, Clone, Copy, PartialEq, Eq, Structural)]
pub enum RwRegister {
    ModbusEnable,
    DriverOutputEnable,
    MotorTargetSpeed,
    MotorAcceleration,
    WeakMagneticAngle,
    SpeedRingProportionalCoefficient,
    SpeedLoopIntegrationTime,
    PositionRingProportionalCoefficient,
    SpeedFeedForward,
    DirPolarity,
    ElectronicGearNumerator,
    ElectronicGearDenominator,
    ParameterSaveFlag,
    AbsolutePositionLowU16,
    AbsolutePositionHighU16,
    StandstillMaxOutput,
    SpecificFunction,
}

/// Read-only registers.
#[derive(Debug, Clone, Copy, PartialEq, Eq, Structural)]
pub enum RoRegister {
    TargetPositionLowU16,
    TargetPositionHighU16,
    AlarmCode,
    SystemCurrent,
    MotorCurrentSpeed,
    SystemVoltage,
    SystemTemperature,
    SystemOutputPwm,
    DeviceAddress,
}

/// The Modbus address of a read-write register.
pub open spec fn rw_address(r: RwRegister) -> u16 {
    match r {
        RwRegister::ModbusEnable => 0x00,
        RwRegister::DriverOutputEnable => 0x01,
        RwRegister::MotorTargetSpeed => 0x02,
        RwRegister::MotorAcceleration => 0x03,
        RwRegister::WeakMagneticAngle => 0x04,
        RwRegister::SpeedRingProportionalCoefficient => 0x05,
        RwRegister::SpeedLoopIntegrationTime => 0x06,
        RwRegister::PositionRingProportionalCoefficient => 0x07,
        RwRegister::SpeedFeedForward => 0x08,
        RwRegister::DirPolarity => 0x09,
        RwRegister::ElectronicGearNumerator => 0x0A,
        RwRegister::ElectronicGearDenominator => 0x0B,
        RwRegister::ParameterSaveFlag => 0x14,
        RwRegister::AbsolutePositionLowU16 => 0x16,
        RwRegister::AbsolutePositionHighU16 => 0x17,
        RwRegister::StandstillMaxOutput => 0x18,
        RwRegister::SpecificFunction => 0x19,
    }
}

/// The Modbus address of a read-only register.
pub open spec fn ro_address(r: RoRegister) -> u16 {
    match r {
        RoRegister::TargetPositionLowU16 => 0x0C,
        RoRegister::TargetPositionHighU16 => 0x0D,
        RoRegister::AlarmCode => 0x0E,
        RoRegister::SystemCurrent => 0x0F,
        RoRegister::MotorCurrentSpeed => 0x10,
        RoRegister::SystemVoltage => 0x11,
        RoRegister::SystemTemperature => 0x12,
        RoRegister::SystemOutputPwm => 0x13,
        RoRegister::DeviceAddress => 0x15,
    }
}

impl RwRegister {
    /// The register's Modbus address.
    pub fn address(self) -> (a: u16)
        ensures
            a == rw_address(self),
    {
        match self {
            RwRegister::ModbusEnable => 0x00,
            RwRegister::DriverOutputEnable => 0x01,
            RwRegister::MotorTargetSpeed => 0x02,
            RwRegister::MotorAcceleration => 0x03,
            RwRegister::WeakMagneticAngle => 0x04,
            RwRegister::SpeedRingProportionalCoefficient => 0x05,
            RwRegister::SpeedLoopIntegrationTime => 0x06,
            RwRegister::PositionRingProportionalCoefficient => 0x07,
            RwRegister::SpeedFeedForward => 0x08,
            RwRegister::DirPolarity => 0x09,
            RwRegister::ElectronicGearNumerator => 0x0A,
            RwRegister::ElectronicGearDenominator => 0x0B,
            RwRegister::ParameterSaveFlag => 0x14,
            RwRegister::AbsolutePositionLowU16 => 0x16,
            RwRegister::AbsolutePositionHighU16 => 0x17,
            RwRegister::StandstillMaxOutput => 0x18,
            RwRegister::SpecificFunction => 0x19,
        }
    }
}

impl RoRegister {
    /// The register's Modbus address.
    pub fn address(self) -> (a: u16)
        ensures
            a == ro_address(self),
    {
        match self {
            RoRegister::TargetPositionLowU16 => 0x0C,
            RoRegister::TargetPositionHighU16 => 0x0D,
            RoRegister::AlarmCode => 0x0E,
            RoRegister::SystemCurrent => 0x0F,
            RoRegister::MotorCurrentSpeed => 0x10,
            RoRegister::SystemVoltage => 0x11,
            RoRegister::SystemTemperature => 0x12,
            RoRegister::SystemOutputPwm => 0x13,
            RoRegister::DeviceAddress => 0x15,
        }
    }
}

/// Vendor function code of the atomic absolute-position command.
pub const SET_ABSOLUTE_POSITION_FUNC: u8 = 0x7B;

pub const HOME_SPEED_RPM: u16 = 80;

pub const HOME_MAX_OUTPUT: u16 = 89;

/// Homing ends once fewer than this many steps remain to the target.
pub const HOME_STEP_THRESHOLD: i32 = 15;

pub const HOME_POLL_INTERVAL_MS: u32 = 50;

pub const POST_HOME_SETTLE_MS: u32 = 20;

pub const POST_ENABLE_SETTLE_MS: u32 = 800;

pub const OPERATING_SPEED_RPM: u16 = 3000;

pub const OPERATING_ACCELERATION: u16 = 50000;

pub const OPERATING_MAX_OUTPUT: u16 = 600;

/// Motor parameters.
#[derive(Debug, Clone, Copy, PartialEq, Eq, Structural)]
pub struct Motor57AIMConfig {
    pub steps_per_rev: u32,
    pub max_output: u16,
}

impl Default for Motor57AIMConfig {
    /// 32768 steps per revolution and a maximum output of 600.
    fn default() -> (c: Self)
        ensures
            c.steps_per_rev == 32_768,
            c.max_output == 600,
    {
        Motor57AIMConfig { steps_per_rev: 32_768, max_output: 600 }
    }
}

/// Modbus interface: a transport and the device address on it.
pub struct Modbus<T> {
    pub transport: T,
    pub device_addr: u8,
}

impl<T> Modbus<T> {
    pub fn new(transport: T, device_addr: u8) -> (m: Self)
        ensures
            m.transport == transport,
            m.device_addr == device_addr,
    {
        Modbus { transport, device_addr }
    }
}

/// 57AIM BLDC servo motor, generic over communication interface and delay.
pub struct Motor57AIM<I, D> {
    pub interface: I,
    pub config: Motor57AIMConfig,
    pub delay: D,
}

impl<I, D> Motor57AIM<I, D> {
    pub fn new(interface: I, config: Motor57AIMConfig, delay: D) -> (m: Self)
        ensures
            m.interface == interface,
            m.config == config,
            m.delay == delay,
    {
        Motor57AIM { interface, config, delay }
    }

    /// Steps per revolution.
    pub fn steps_per_rev(&self) -> (s: u32)
        ensures
            s == self.config.steps_per_rev,
    {
        self.config.steps_per_rev
    }

    /// Maximum output value for torque scaling.
    pub fn max_output(&self) -> (o: u16)
        ensures
            o == self.config.max_output,
    {
        self.config.max_output
    }
}

/// A single holding-register write.
#[derive(Debug, Clone, Copy, PartialEq, Eq, Structural)]
pub struct RegisterWrite {
    pub register: u16,
    pub value: u16,
}

pub open spec fn write_of(r: RwRegister, value: u16) -> RegisterWrite {
    RegisterWrite { register: rw_address(r), value }
}

fn write(r: RwRegister, value: u16) -> (w: RegisterWrite)
    ensures
        w == write_of(r, value),
{
    RegisterWrite { register: r.address(), value }
}

/// Enable Modbus control, then driver output.
pub fn enable_driver_writes() -> (w: Vec<RegisterWrite>)
    ensures
        w@ == seq![write_of(RwRegister::ModbusEnable, 1), write_of(RwRegister::DriverOutputEnable, 1)],
{
    let mut w = Vec::new();
    w.push(write(RwRegister::ModbusEnable, 1));
    w.push(write(RwRegister::DriverOutputEnable, 1));
    w
}

/// Disable driver output, then Modbus control.
pub fn disable_driver_writes() -> (w: Vec<RegisterWrite>)
    ensures
        w@ == seq![write_of(RwRegister::DriverOutputEnable, 0), write_of(RwRegister::ModbusEnable, 0)],
{
    let mut w = Vec::new();
    w.push(write(RwRegister::DriverOutputEnable, 0));
    w.push(write(RwRegister::ModbusEnable, 0));
    w
}

/// Set the target speed in rpm.
pub fn set_speed_write(rpm: u16) -> (w: RegisterWrite)
    ensures
        w == write_of(RwRegister::MotorTargetSpeed, rpm),
{
    write(RwRegister::MotorTargetSpeed, rpm)
}

/// Set the acceleration.
pub fn set_acceleration_write(value: u16) -> (w: RegisterWrite)
    ensures
        w == write_of(RwRegister::MotorAcceleration, value),
{
    write(RwRegister::MotorAcceleration, value)
}

/// Set the standstill maximum output.
pub fn set_max_output_write(output: u16) -> (w: RegisterWrite)
    ensures
        w == write_of(RwRegister::StandstillMaxOutput, output),
{
    write(RwRegister::StandstillMaxOutput, output)
}

/// Maximum tracking: operating speed, acceleration, then output, so the motor
/// acts as a pure position servo.
pub fn configure_max_tracking_writes() -> (w: Vec<RegisterWrite>)
    ensures
        w@ == seq![
            write_of(RwRegister::MotorTargetSpeed, OPERATING_SPEED_RPM),
            write_of(RwRegister::MotorAcceleration, OPERATING_ACCELERATION),
            write_of(RwRegister::StandstillMaxOutput, OPERATING_MAX_OUTPUT),
        ],
{
    let mut w = Vec::new();
    w.push(set_speed_write(OPERATING_SPEED_RPM));
    w.push(set_acceleration_write(OPERATING_ACCELERATION));
    w.push(set_max_output_write(OPERATING_MAX_OUTPUT));
    w
}

/// Trigger the built-in homing: homing speed, homing output, then the
/// specific-function trigger.
pub fn trigger_homing_writes() -> (w: Vec<RegisterWrite>)
    ensures
        w@ == seq![
            write_of(RwRegister::MotorTargetSpeed, HOME_SPEED_RPM),
            write_of(RwRegister::StandstillMaxOutput, HOME_MAX_OUTPUT),
            write_of(RwRegister::SpecificFunction, 1),
        ],
{
    let mut w = Vec::new();
    w.push(write(RwRegister::MotorTargetSpeed, HOME_SPEED_RPM));
    w.push(write(RwRegister::StandstillMaxOutput, HOME_MAX_OUTPUT));
    w.push(write(RwRegister::SpecificFunction, 1));
    w
}

/// The bits of a step count.
pub open spec fn step_bits(steps: i32) -> u32 {
    steps as u32
}

/// The vendor absolute-position frame: device address, function 0x7B, then
/// the step count as a big-endian 32-bit integer.
pub fn absolute_position_request(device_addr: u8, steps: i32) -> (req: [u8; 6])
    ensures
        req@[0] == device_addr,
        req@[1] == SET_ABSOLUTE_POSITION_FUNC,
        req@[2] == (step_bits(steps) >> 24u32) as u8,
        req@[3] == ((step_bits(steps) >> 16u32) & 0xff) as u8,
        req@[4] == ((step_bits(steps) >> 8u32) & 0xff) as u8,
        req@[5] == (step_bits(steps) & 0xff) as u8,
        request_steps(req@) == steps,
{
    let u: u32 = steps as u32;
    let b0: u8 = (u >> 24u32) as u8;
    let b1: u8 = ((u >> 16u32) & 0xff) as u8;
    let b2: u8 = ((u >> 8u32) & 0xff) as u8;
    let b3: u8 = (u & 0xff) as u8;
    let req = [device_addr, SET_ABSOLUTE_POSITION_FUNC, b0, b1, b2, b3];
    assert(((b0 as u32) << 24u32 | (b1 as u32) << 16u32 | (b2 as u32) << 8u32 | (b3 as u32)) == u)
        by (bit_vector)
        requires
            b0 == (u >> 24u32) as u8,
            b1 == ((u >> 16u32) & 0xff) as u8,
            b2 == ((u >> 8u32) & 0xff) as u8,
            b3 == (u & 0xff) as u8,
    ;
    assert(u as i32 == steps) by (bit_vector)
        requires
            u == steps as u32,
    ;
    req
}

/// The step count that a position frame carries.
pub open spec fn request_steps(req: Seq<u8>) -> i32 {
    ((req[2] as u32) << 24u32 | (req[3] as u32) << 16u32 | (req[4] as u32) << 8u32 | (
    req[5] as u32)) as i32
}

/// The signed 32-bit value of a low/high register pair, as read from
/// consecutive registers starting at the low word.
pub open spec fn pair_value(low: u16, high: u16) -> i32 {
    ((high as u32) << 16u32 | (low as u32)) as i32
}

/// Decode the first two registers of a pair read (`regs[0]` low, `regs[1]`
/// high) as a signed 32-bit value.
pub fn register_pair_value(regs: &[u16]) -> (v: i32)
    requires
        regs@.len() >= 2,
    ensures
        v == pair_value(regs@[0], regs@[1]),
{
    let raw: u32 = ((regs[1] as u32) << 16u32) | (regs[0] as u32);
    raw as i32
}

/// Splitting a position into its register pair and decoding the pair gives
/// the position back.
pub proof fn lemma_register_pair_round_trip(v: i32)
    ensures
        pair_value((v as u32 & 0xffff) as u16, (v as u32 >> 16u32) as u16) == v,
{
    let u = v as u32;
    assert((((u >> 16u32) as u16) as u32) << 16u32 | (((u & 0xffff) as u16) as u32) == u)
        by (bit_vector);
    assert(u as i32 == v) by (bit_vector)
        requires
            u == v as u32,
    ;
}

/// Whether homing has settled: fewer than `HOME_STEP_THRESHOLD` steps remain
/// in either direction.
pub open spec fn homing_settled(remaining: i32) -> bool {
    -HOME_STEP_THRESHOLD < remaining < HOME_STEP_THRESHOLD
}

/// Phase of the homing sequence.
#[derive(Debug, Clone, Copy, PartialEq, Eq, Structural)]
pub enum HomingPhase {
    /// Nothing done yet: the homing trigger is written first.
    Start,
    /// Waiting the poll interval.
    PollWait,
    /// Reading the remaining steps.
    PollRead,
    /// Deciding from the remaining steps whether homing settled.
    Check,
    /// Re-enabling Modbus control and driver output (homing resets them).
    Reenable,
    /// Waiting after re-enabling.
    EnableSettle,
    /// Writing the tracking configuration.
    Configure,
    /// Homing is complete.
    Done,
}

/// The next step of the homing sequence.
#[derive(Debug)]
pub enum HomingAction {
    /// Write these registers in order (the sequence stops at the first error).
    WriteRegisters(Vec<RegisterWrite>),
    /// Wait this many milliseconds.
    DelayMs(u32),
    /// Read the remaining steps and pass them to the next `advance`.
    ReadRemainingSteps,
    /// Homing is complete.
    Finished,
}

/// The phase after `p`, given the remaining steps (consulted in `Check`).
pub open spec fn homing_next_phase(p: HomingPhase, remaining: i32) -> HomingPhase {
    match p {
        HomingPhase::Start => HomingPhase::PollWait,
        HomingPhase::PollWait => HomingPhase::PollRead,
        HomingPhase::PollRead => HomingPhase::Check,
        HomingPhase::Check => if homing_settled(remaining) {
            HomingPhase::Reenable
        } else {
            HomingPhase::PollRead
        },
        HomingPhase::Reenable => HomingPhase::EnableSettle,
        HomingPhase::EnableSettle => HomingPhase::Configure,
        HomingPhase::Configure => HomingPhase::Done,
        HomingPhase::Done => HomingPhase::Done,
    }
}

/// The action taken in phase `p`, given the remaining steps (consulted in
/// `Check`).
pub open spec fn homing_action_ok(p: HomingPhase, remaining: i32, a: HomingAction) -> bool {
    match p {
        HomingPhase::Start => a matches HomingAction::WriteRegisters(w) && w@ == seq![
            write_of(RwRegister::MotorTargetSpeed, HOME_SPEED_RPM),
            write_of(RwRegister::StandstillMaxOutput, HOME_MAX_OUTPUT),
            write_of(RwRegister::SpecificFunction, 1),
        ],
        HomingPhase::PollWait => a == HomingAction::DelayMs(HOME_POLL_INTERVAL_MS),
        HomingPhase::PollRead => a == HomingAction::ReadRemainingSteps,
        HomingPhase::Check => if homing_settled(remaining) {
            a == HomingAction::DelayMs(POST_HOME_SETTLE_MS)
        } else {
            a == HomingAction::DelayMs(HOME_POLL_INTERVAL_MS)
        },
        HomingPhase::Reenable => a matches HomingAction::WriteRegisters(w) && w@ == seq![
            write_of(RwRegister::ModbusEnable, 1),
            write_of(RwRegister::DriverOutputEnable, 1),
        ],
        HomingPhase::EnableSettle => a == HomingAction::DelayMs(POST_ENABLE_SETTLE_MS),
        HomingPhase::Configure => a matches HomingAction::WriteRegisters(w) && w@ == seq![
            write_of(RwRegister::MotorTargetSpeed, OPERATING_SPEED_RPM),
            write_of(RwRegister::MotorAcceleration, OPERATING_ACCELERATION),
            write_of(RwRegister::StandstillMaxOutput, OPERATING_MAX_OUTPUT),
        ],
        HomingPhase::Done => a == HomingAction::Finished,
    }
}

/// The homing sequence: trigger homing; then, every `HOME_POLL_INTERVAL_MS`,
/// read the remaining steps until homing settles; wait `POST_HOME_SETTLE_MS`;
/// re-enable the driver; wait `POST_ENABLE_SETTLE_MS`; configure maximum
/// tracking.
pub struct Homing {
    phase: HomingPhase,
}

impl Homing {
    pub closed spec fn spec_phase(&self) -> HomingPhase {
        self.phase
    }

    pub fn new() -> (h: Self)
        ensures
            h.spec_phase() == HomingPhase::Start,
    {
        Homing { phase: HomingPhase::Start }
    }

    pub fn phase(&self) -> (p: HomingPhase)
        ensures
            p == self.spec_phase(),
    {
        self.phase
    }

    /// The next action. `remaining` is what the last `ReadRemainingSteps`
    /// read; it is consulted only in `Check`, right after that read, where its
    /// absolute value is compared with the threshold (so it must not be
    /// `i32::MIN`, whose absolute value overflows).
    pub fn advance(&mut self, remaining: i32) -> (a: HomingAction)
        requires
            old(self).spec_phase() == HomingPhase::Check ==> remaining != i32::MIN,
        ensures
            final(self).spec_phase() == homing_next_phase(old(self).spec_phase(), remaining),
            homing_action_ok(old(self).spec_phase(), remaining, a),
    {
        match self.phase {
            HomingPhase::Start => {
                self.phase = HomingPhase::PollWait;
                HomingAction::WriteRegisters(trigger_homing_writes())
            },
            HomingPhase::PollWait => {
                self.phase = HomingPhase::PollRead;
                HomingAction::DelayMs(HOME_POLL_INTERVAL_MS)
            },
            HomingPhase::PollRead => {
                self.phase = HomingPhase::Check;
                HomingAction::ReadRemainingSteps
            },
            HomingPhase::Check => {
                if -HOME_STEP_THRESHOLD < remaining && remaining < HOME_STEP_THRESHOLD {
                    self.phase = HomingPhase::Reenable;
                    HomingAction::DelayMs(POST_HOME_SETTLE_MS)
                } else {
                    self.phase = HomingPhase::PollRead;
                    HomingAction::DelayMs(HOME_POLL_INTERVAL_MS)
                }
            },
            HomingPhase::Reenable => {
                self.phase = HomingPhase::EnableSettle;
                HomingAction::WriteRegisters(enable_driver_writes())
            },
            HomingPhase::EnableSettle => {
                self.phase = HomingPhase::Configure;
                HomingAction::DelayMs(POST_ENABLE_SETTLE_MS)
            },
            HomingPhase::Configure => {
                self.phase = HomingPhase::Done;
                HomingAction::WriteRegisters(configure_max_tracking_writes())
            },
            HomingPhase::Done => HomingAction::Finished,
        }
    }
}

/// Homing ends only once the motor has settled: from `Check`, the sequence
/// moves on toward re-enabling exactly when fewer than `HOME_STEP_THRESHOLD`
/// steps remain, and otherwise waits another poll interval and reads again.
pub proof fn lemma_homing_waits_until_settled(remaining: i32)
    requires
        remaining != i32::MIN,
    ensures
        homing_next_phase(HomingPhase::Check, remaining) == HomingPhase::Reenable <==> homing_settled(
            remaining,
        ),
        !homing_settled(remaining) ==> homing_next_phase(
            homing_next_phase(HomingPhase::Check, remaining),
            remaining,
        ) == HomingPhase::Check,
        homing_settled(remaining) <==> -15 < remaining < 15,
{
}

} // verus!
