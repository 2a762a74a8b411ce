//! Bring-up of the motion sensor and its two logical sensors.
//!
//! Initialization is a fixed plan of register writes followed by one
//! read-back of the power-management register. It is written as a state
//! machine: the caller performs the bus transaction that the machine asks
//! for, reports how it went, and is told the next one. The caller holds the
//! bus for the whole run, so that no other reader's transaction falls between
//! two steps.

use crate::spi_core::is_register_address;
use crate::spi_core::lemma_mode_bit;
use crate::spi_core::read_address;
use crate::spi_core::write_address;
use crate::spi_core::SpiCore;
use crate::spi_core::READ_FLAG;
use vstd::prelude::*;

pub mod accelerometer;
pub mod axes;
pub mod gyroscope;

verus! {

/// Master-control register of the auxiliary bus.
pub const REG_I2C_MST_CTRL: u8 = 0x03;

/// First power-management register: clock source.
pub const REG_PWR_MGMT_1: u8 = 0x06;

/// Second power-management register: which sensing elements are enabled.
pub const REG_PWR_MGMT_2: u8 = 0x07;

/// Gyroscope full-scale range.
pub const REG_GYRO_CONFIG: u8 = 0x1B;

/// Gyroscope low-pass filter bandwidth.
pub const REG_GYRO_DLPF_CONFIG: u8 = 0x1A;

/// Gyroscope sample-rate divider.
pub const REG_GYRO_SMPLRT_DIV: u8 = 0x19;

/// Accelerometer full-scale range.
pub const REG_ACCEL_CONFIG: u8 = 0x1C;

/// Accelerometer low-pass filter bandwidth.
pub const REG_ACCEL_DLPF_CONFIG: u8 = 0x1D;

/// Accelerometer sample-rate divider.
pub const REG_ACCEL_SMPLRT_DIV: u8 = 0x1A;

/// Register that selects the bank the other addresses refer to.
pub const USER_BANK_SELECT: u8 = 0x7F;

/// Value of the bank-select register for the default bank.
pub const USER_BANK_0: u8 = 0x00;

/// Value of the bank-select register for the configuration bank.
pub const USER_BANK_2: u8 = 0x20;

/// Value of the first power-management register once the PLL is the clock
/// source. The read-back at the end of initialization expects it.
pub const PWR_MGMT_1_PLL: u8 = 0x01;

/// Number of register writes in the initialization plan.
pub const INIT_WRITES: usize = 11;

/// The register writes of initialization, as (register, value), in the order
/// in which they are transmitted.
///
/// The configuration bank is selected first. Then the power source is
/// configured, with the PLL as clock, and the sensing elements are enabled.
/// Then the low-pass filter bandwidth and the sample-rate divider of each
/// sensor are programmed, then the full-scale range of each. The last write
/// returns to the default bank.
pub open spec fn init_plan() -> Seq<(u8, u8)> {
    seq![
        (USER_BANK_SELECT, USER_BANK_2),
        (REG_I2C_MST_CTRL, 0x30u8),
        (REG_PWR_MGMT_1, PWR_MGMT_1_PLL),
        (REG_PWR_MGMT_2, 0x00u8),
        (REG_GYRO_DLPF_CONFIG, 0x07u8),
        (REG_GYRO_SMPLRT_DIV, 0x02u8),
        (REG_ACCEL_DLPF_CONFIG, 0x07u8),
        (REG_ACCEL_SMPLRT_DIV, 0x02u8),
        (REG_GYRO_CONFIG, 0x00u8),
        (REG_ACCEL_CONFIG, 0x00u8),
        (USER_BANK_SELECT, USER_BANK_0),
    ]
}

/// The power-management register did not read back as written. The device
/// is still usable; the mismatch is reported, not fatal.
#[derive(Clone, Copy, Debug, PartialEq, Eq)]
pub struct InitializationWarning {
    pub register: u8,
    pub expected: u8,
    pub observed: u8,
}

/// How far initialization has come.
#[derive(Clone, Copy, Debug, PartialEq, Eq)]
pub enum InitState {
    /// The write at index `step` of the plan is the next one to transmit.
    Writing { step: usize },
    /// All writes are done; the read-back is outstanding.
    Verifying,
    /// Initialization is complete, with or without a warning.
    Ready { warning: Option<InitializationWarning> },
    /// A bus transaction failed; the run was abandoned at that point.
    Aborted,
}

/// The bus transaction that initialization asks for next.
#[derive(Clone, Copy, Debug, PartialEq, Eq)]
pub enum InitAction {
    /// Transmit this frame.
    Write { frame: [u8; 2] },
    /// Transmit this frame and receive two bytes in exchange.
    ReadBack { frame: [u8; 2] },
    /// Nothing is left to do.
    Finished,
}

/// How the transaction that was asked for went.
#[derive(Clone, Copy, Debug, PartialEq, Eq)]
pub enum BusEvent {
    /// The frame was transmitted.
    Written,
    /// The frame was exchanged for this response.
    Received { response: [u8; 2] },
    /// The transport reported a failure.
    Failed,
}

/// A state that the machine can be in.
pub open spec fn init_state_valid(state: InitState) -> bool {
    state matches InitState::Writing { step } ==> step < INIT_WRITES
}

/// What the read-back says about the device.
pub open spec fn check_power(observed: u8) -> Option<InitializationWarning> {
    if observed == PWR_MGMT_1_PLL {
        None
    } else {
        Some(
            InitializationWarning {
                register: REG_PWR_MGMT_1,
                expected: PWR_MGMT_1_PLL,
                observed,
            },
        )
    }
}

/// The transaction outstanding in `state`.
pub open spec fn pending_action(state: InitState) -> InitAction {
    match state {
        InitState::Writing { step } => InitAction::Write {
            frame: [write_address(init_plan()[step as int].0), init_plan()[step as int].1],
        },
        InitState::Verifying => InitAction::ReadBack { frame: [read_address(REG_PWR_MGMT_1), 0u8] },
        InitState::Ready { .. } => InitAction::Finished,
        InitState::Aborted => InitAction::Finished,
    }
}

/// The state after `event` is reported in `state`. A completed write moves
/// to the next write, or to the read-back after the last one. The read-back
/// completes initialization. A failure abandons the run. An event that does
/// not answer the outstanding transaction changes nothing.
pub open spec fn init_step(state: InitState, event: BusEvent) -> InitState {
    match state {
        InitState::Writing { step } => match event {
            BusEvent::Written => if step + 1 < INIT_WRITES {
                InitState::Writing { step: (step + 1) as usize }
            } else {
                InitState::Verifying
            },
            BusEvent::Received { .. } => state,
            BusEvent::Failed => InitState::Aborted,
        },
        InitState::Verifying => match event {
            BusEvent::Written => state,
            BusEvent::Received { response } => InitState::Ready { warning: check_power(response[1]) },
            BusEvent::Failed => InitState::Aborted,
        },
        InitState::Ready { .. } => state,
        InitState::Aborted => state,
    }
}

/// The state after a sequence of events, reported in order.
pub open spec fn init_run(state: InitState, events: Seq<BusEvent>) -> InitState
    decreases events.len(),
{
    if events.len() == 0 {
        state
    } else {
        init_step(init_run(state, events.drop_last()), events.last())
    }
}

/// `count` completed writes in a row.
pub open spec fn writes_done(count: nat) -> Seq<BusEvent> {
    Seq::new(count, |i: int| BusEvent::Written)
}

/// While the bus does not fail, the writes are asked for in plan order: after
/// `count` completed writes the next transaction is the write at index
/// `count`, and after the last one it is the read-back.
pub proof fn lemma_writes_in_order(count: nat)
    requires
        count <= INIT_WRITES,
    ensures
        init_run(InitState::Writing { step: 0 }, writes_done(count)) == if count < INIT_WRITES {
            InitState::Writing { step: count as usize }
        } else {
            InitState::Verifying
        },
    decreases count,
{
    if count > 0 {
        lemma_writes_in_order((count - 1) as nat);
        assert(writes_done(count).drop_last() =~= writes_done((count - 1) as nat));
    }
}

/// A run in which every transaction succeeds ends ready, and it warns exactly
/// when the power-management register did not read back as written.
pub proof fn lemma_clean_run_completes(response: [u8; 2])
    ensures
        init_run(
            InitState::Writing { step: 0 },
            writes_done(INIT_WRITES as nat).push(BusEvent::Received { response }),
        ) == (InitState::Ready { warning: check_power(response[1]) }),
        check_power(response[1]) is None <==> response[1] == PWR_MGMT_1_PLL,
        check_power(response[1]) matches Some(w) ==> w.observed == response[1] && w.expected
            == PWR_MGMT_1_PLL && w.register == REG_PWR_MGMT_1,
{
    let events = writes_done(INIT_WRITES as nat).push(BusEvent::Received { response });
    lemma_writes_in_order(INIT_WRITES as nat);
    assert(events.drop_last() =~= writes_done(INIT_WRITES as nat));
}

/// A failure while a transaction is outstanding abandons the run, and a run
/// that is over, either way, asks for nothing more and is moved by nothing.
pub proof fn lemma_failure_and_final_states(state: InitState, event: BusEvent)
    requires
        init_state_valid(state),
    ensures
        (state is Writing || state is Verifying) ==> init_step(state, BusEvent::Failed)
            == InitState::Aborted,
        (state is Ready || state is Aborted) ==> init_step(state, event) == state,
        (state is Ready || state is Aborted) <==> pending_action(state) is Finished,
{
}

/// Every write of the plan goes out with the mode bit clear, and the
/// read-back with the mode bit set.
pub proof fn lemma_init_frames_mode_bit(state: InitState)
    requires
        init_state_valid(state),
    ensures
        pending_action(state) matches InitAction::Write { frame } ==> frame[0] & READ_FLAG == 0,
        pending_action(state) matches InitAction::ReadBack { frame } ==> frame[0] & READ_FLAG
            == READ_FLAG,
{
    if let InitState::Writing { step } = state {
        lemma_mode_bit(init_plan()[step as int].0);
    }
    lemma_mode_bit(REG_PWR_MGMT_1);
}

/// Every register of the plan is a logical address, so each write goes out
/// as the register itself followed by the value.
pub proof fn lemma_plan_frames(step: usize)
    requires
        step < INIT_WRITES,
    ensures
        is_register_address(init_plan()[step as int].0),
        pending_action(InitState::Writing { step }) matches InitAction::Write { frame }
            && frame@ == seq![init_plan()[step as int].0, init_plan()[step as int].1],
{
    let plan = init_plan();
    assert(forall|i: int| 0 <= i < plan.len() ==> is_register_address(#[trigger] plan[i].0));
    lemma_mode_bit(plan[step as int].0);
    let frame = pending_action(InitState::Writing { step })->Write_frame;
    assert(frame@ =~= seq![plan[step as int].0, plan[step as int].1]);
}

/// The write at index `step` of the initialization plan.
fn planned_write(step: usize) -> (write: (u8, u8))
    requires
        step < INIT_WRITES,
    ensures
        write == init_plan()[step as int],
{
    if step == 0 {
        (USER_BANK_SELECT, USER_BANK_2)
    } else if step == 1 {
        (REG_I2C_MST_CTRL, 0x30)
    } else if step == 2 {
        (REG_PWR_MGMT_1, PWR_MGMT_1_PLL)
    } else if step == 3 {
        (REG_PWR_MGMT_2, 0x00)
    } else if step == 4 {
        (REG_GYRO_DLPF_CONFIG, 0x07)
    } else if step == 5 {
        (REG_GYRO_SMPLRT_DIV, 0x02)
    } else if step == 6 {
        (REG_ACCEL_DLPF_CONFIG, 0x07)
    } else if step == 7 {
        (REG_ACCEL_SMPLRT_DIV, 0x02)
    } else if step == 8 {
        (REG_GYRO_CONFIG, 0x00)
    } else if step == 9 {
        (REG_ACCEL_CONFIG, 0x00)
    } else {
        (USER_BANK_SELECT, USER_BANK_0)
    }
}

/// The initialization of one device.
#[derive(Clone, Copy, Debug)]
pub struct IMU {
    state: InitState,
}

impl View for IMU {
    type V = InitState;

    closed spec fn view(&self) -> InitState {
        self.state
    }
}

impl IMU {
    #[verifier::type_invariant]
    spec fn valid(self) -> bool {
        init_state_valid(self.state)
    }

    /// A device on which nothing has been written yet.
    pub fn new() -> (imu: Self)
        ensures
            imu@ == (InitState::Writing { step: 0 }),
    {
        IMU { state: InitState::Writing { step: 0 } }
    }

    /// How far initialization has come.
    pub fn state(&self) -> (state: InitState)
        ensures
            state == self@,
            init_state_valid(state),
    {
        proof {
            use_type_invariant(self);
        }
        self.state
    }

    /// Whether initialization is complete, so that samples may be read.
    pub fn is_initialized(&self) -> (ready: bool)
        ensures
            ready <==> self@ is Ready,
    {
        match self.state {
            InitState::Ready { .. } => true,
            _ => false,
        }
    }

    /// The warning that the read-back gave, if initialization is complete
    /// and gave one.
    pub fn warning(&self) -> (warning: Option<InitializationWarning>)
        ensures
            warning == match self@ {
                InitState::Ready { warning } => warning,
                _ => None,
            },
    {
        match self.state {
            InitState::Ready { warning } => warning,
            _ => None,
        }
    }

    /// The transaction that is outstanding now.
    pub fn pending(&self) -> (action: InitAction)
        ensures
            action == pending_action(self@),
    {
        proof {
            use_type_invariant(self);
        }
        let core = SpiCore::new();
        match self.state {
            InitState::Writing { step } => {
                let (reg, value) = planned_write(step);
                let frame = core.write_register(reg, value);
                assert(frame@ =~= pending_action(self@)->Write_frame@);
                assert(frame == pending_action(self@)->Write_frame);
                InitAction::Write { frame }
            },
            InitState::Verifying => {
                let frame = core.read_register_request(REG_PWR_MGMT_1);
                assert(frame@ =~= pending_action(self@)->ReadBack_frame@);
                assert(frame == pending_action(self@)->ReadBack_frame);
                InitAction::ReadBack { frame }
            },
            InitState::Ready { .. } => InitAction::Finished,
            InitState::Aborted => InitAction::Finished,
        }
    }

    /// Takes the report on the outstanding transaction and returns the next
    /// transaction to perform.
    pub fn initialize(&mut self, event: BusEvent) -> (action: InitAction)
        ensures
            final(self)@ == init_step(old(self)@, event),
            action == pending_action(final(self)@),
    {
        proof {
            use_type_invariant(&*self);
        }
        let core = SpiCore::new();
        let next = match self.state {
            InitState::Writing { step } => match event {
                BusEvent::Written => if step + 1 < INIT_WRITES {
                    InitState::Writing { step: step + 1 }
                } else {
                    InitState::Verifying
                },
                BusEvent::Received { .. } => self.state,
                BusEvent::Failed => InitState::Aborted,
            },
            InitState::Verifying => match event {
                BusEvent::Written => self.state,
                BusEvent::Received { response } => {
                    let observed = core.read_register(&response);
                    if observed == PWR_MGMT_1_PLL {
                        InitState::Ready { warning: None }
                    } else {
                        InitState::Ready {
                            warning: Some(
                                InitializationWarning {
                                    register: REG_PWR_MGMT_1,
                                    expected: PWR_MGMT_1_PLL,
                                    observed,
                                },
                            ),
                        }
                    }
                },
                BusEvent::Failed => InitState::Aborted,
            },
            InitState::Ready { .. } => self.state,
            InitState::Aborted => self.state,
        };
        self.state = next;
        self.pending()
    }
}

} // verus!
