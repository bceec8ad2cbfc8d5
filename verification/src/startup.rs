//! Bringing the radio up.

use vstd::prelude::*;

use crate::error::IntoRailResult;
use crate::operation::{Operation, Progress};
use crate::radio::Radio;
use crate::rail::{RailCall, RailConfig, RailConstants, RailReply};

verus! {

/// How far an [`Init`] has come: the call that it waits on.
#[derive(Debug, Clone, Copy, PartialEq, Eq, Structural)]
pub enum InitStage {
    PaInit,
    RailInit,
    Channels,
    Events,
}

/// Prepares RAIL for sending and receiving packets. Gives back RAIL's handle.
#[derive(Debug, Clone, Copy, PartialEq, Eq, Structural)]
pub struct Init {
    pub rail: RailConstants,
    pub config: RailConfig,
    /// The handle to work with: RAIL's own, once it is initialised.
    pub rail_handle: usize,
    pub stage: InitStage,
}

/// The events that the driver subscribes to: packets sent and received, and frames
/// that arrive broken.
pub open spec fn subscribed_events(rail: RailConstants) -> u64 {
    (rail.event_tx_packet_sent | rail.event_rx_packet_received | rail.event_rx_frame_error) as u64
}

impl<'p> Operation<'p> for Init {
    type Output = usize;

    open spec fn pending(self) -> RailCall<'p> {
        match self.stage {
            InitStage::PaInit => RailCall::PaInit,
            InitStage::RailInit => RailCall::Init {
                rail_handle: self.rail_handle,
                config: self.config,
            },
            InitStage::Channels => RailCall::ConfigChannels { rail_handle: self.rail_handle },
            InitStage::Events => RailCall::ConfigEvents {
                rail_handle: self.rail_handle,
                mask: self.rail.events_all,
                events: subscribed_events(self.rail),
            },
        }
    }

    open spec fn admits(self, reply: RailReply) -> bool {
        true
    }

    open spec fn after(self, reply: RailReply) -> Progress<Self, usize> {
        match (self.stage, reply) {
            (InitStage::PaInit, RailReply::Nothing) => Progress::Pending(
                Init { stage: InitStage::RailInit, ..self },
            ),
            (InitStage::RailInit, RailReply::Initialized { status, rail_handle }) =>
                match self.rail.status.result(status) {
                    Ok(()) => Progress::Pending(
                        Init { rail_handle, stage: InitStage::Channels, ..self },
                    ),
                    Err(error) => Progress::Done(Err(error)),
                },
            (InitStage::Channels, RailReply::Status(status)) =>
                match self.rail.status.result(status) {
                    Ok(()) => Progress::Pending(Init { stage: InitStage::Events, ..self }),
                    Err(error) => Progress::Done(Err(error)),
                },
            (InitStage::Events, RailReply::Status(status)) =>
                match self.rail.status.result(status) {
                    Ok(()) => Progress::Done(Ok(self.rail_handle)),
                    Err(error) => Progress::Done(Err(error)),
                },
            _ => Progress::Pending(self),
        }
    }

    open spec fn remaining(self) -> nat {
        match self.stage {
            InitStage::PaInit => 4,
            InitStage::RailInit => 3,
            InitStage::Channels => 2,
            InitStage::Events => 1,
        }
    }

    proof fn law_progress(self, reply: RailReply) {
    }

    fn call(&self) -> (call: RailCall<'p>) {
        let rail_handle: usize = self.rail_handle;
        match self.stage {
            InitStage::PaInit => RailCall::PaInit,
            InitStage::RailInit => RailCall::Init { rail_handle, config: self.config },
            InitStage::Channels => RailCall::ConfigChannels { rail_handle },
            InitStage::Events => RailCall::ConfigEvents {
                rail_handle,
                mask: self.rail.events_all,
                events: (self.rail.event_tx_packet_sent | self.rail.event_rx_packet_received
                    | self.rail.event_rx_frame_error) as u64,
            },
        }
    }

    fn can_resume(&self, _reply: &RailReply) -> (can: bool) {
        true
    }

    fn resume(self, reply: RailReply) -> (progress: Progress<Self, usize>) {
        match (self.stage, reply) {
            (InitStage::PaInit, RailReply::Nothing) => Progress::Pending(
                Init { stage: InitStage::RailInit, ..self },
            ),
            (InitStage::RailInit, RailReply::Initialized { status, rail_handle }) => {
                match self.rail.status.status(status).into_rail_result() {
                    Ok(()) => Progress::Pending(
                        Init { rail_handle, stage: InitStage::Channels, ..self },
                    ),
                    Err(error) => Progress::Done(Err(error)),
                }
            },
            (InitStage::Channels, RailReply::Status(status)) => {
                match self.rail.status.status(status).into_rail_result() {
                    Ok(()) => Progress::Pending(Init { stage: InitStage::Events, ..self }),
                    Err(error) => Progress::Done(Err(error)),
                }
            },
            (InitStage::Events, RailReply::Status(status)) => {
                match self.rail.status.status(status).into_rail_result() {
                    Ok(()) => Progress::Done(Ok(self.rail_handle)),
                    Err(error) => Progress::Done(Err(error)),
                }
            },
            _ => Progress::Pending(self),
        }
    }
}

/// How far a [`ConfigureTxPower`] has come: the call that it waits on.
#[derive(Debug, Clone, Copy, PartialEq, Eq, Structural)]
pub enum TxPowerStage {
    Amplifier,
    Power { deci_dbm: i16 },
}

/// Sets up the power amplifier for sending with a given power.
#[derive(Debug, Clone, Copy, PartialEq, Eq, Structural)]
pub struct ConfigureTxPower {
    pub rail: RailConstants,
    pub rail_handle: usize,
    pub tx_power_dbm: i16,
    pub stage: TxPowerStage,
}

/// The mode of the power amplifier that suits a sending power: below 0 dBm the
/// low-power one. This holds for the EFR32MG22; other boards differ.
pub open spec fn tx_power_mode(rail: RailConstants, tx_power_dbm: i16) -> u32 {
    if tx_power_dbm < 0 {
        rail.tx_power_mode_2p4_ghz_lp
    } else {
        rail.tx_power_mode_2p4_ghz_hp
    }
}

impl<'p> Operation<'p> for ConfigureTxPower {
    type Output = ();

    open spec fn pending(self) -> RailCall<'p> {
        match self.stage {
            TxPowerStage::Amplifier => RailCall::ConfigTxPower {
                rail_handle: self.rail_handle,
                mode: tx_power_mode(self.rail, self.tx_power_dbm) as u8,
                voltage: self.rail.pa_voltage_mv as u16,
                ramp_time: self.rail.pa_ramp_time_us as u16,
            },
            TxPowerStage::Power { deci_dbm } => RailCall::SetTxPowerDbm {
                rail_handle: self.rail_handle,
                deci_dbm,
            },
        }
    }

    /// RAIL expects the power in tenths of a dBm, so it has to be small enough to
    /// be written like that when it comes to setting it.
    open spec fn admits(self, reply: RailReply) -> bool {
        match (self.stage, reply) {
            (TxPowerStage::Amplifier, RailReply::Status(status)) =>
                self.rail.status.succeeds(status) ==> i16::MIN <= self.tx_power_dbm * 10
                    <= i16::MAX,
            _ => true,
        }
    }

    open spec fn after(self, reply: RailReply) -> Progress<Self, ()> {
        match (self.stage, reply) {
            (TxPowerStage::Amplifier, RailReply::Status(status)) =>
                match self.rail.status.result(status) {
                    Ok(()) => Progress::Pending(
                        ConfigureTxPower {
                            stage: TxPowerStage::Power {
                                deci_dbm: (self.tx_power_dbm * 10) as i16,
                            },
                            ..self
                        },
                    ),
                    Err(error) => Progress::Done(Err(error)),
                },
            (TxPowerStage::Power { .. }, RailReply::Status(status)) => Progress::Done(
                self.rail.status.result(status),
            ),
            _ => Progress::Pending(self),
        }
    }

    open spec fn remaining(self) -> nat {
        match self.stage {
            TxPowerStage::Amplifier => 2,
            TxPowerStage::Power { .. } => 1,
        }
    }

    proof fn law_progress(self, reply: RailReply) {
    }

    fn call(&self) -> (call: RailCall<'p>) {
        match self.stage {
            TxPowerStage::Amplifier => {
                let mode: u32 = if self.tx_power_dbm < 0 {
                    self.rail.tx_power_mode_2p4_ghz_lp
                } else {
                    self.rail.tx_power_mode_2p4_ghz_hp
                };
                RailCall::ConfigTxPower {
                    rail_handle: self.rail_handle,
                    mode: #[verifier::truncate] (mode as u8),
                    voltage: #[verifier::truncate] (self.rail.pa_voltage_mv as u16),
                    ramp_time: #[verifier::truncate] (self.rail.pa_ramp_time_us as u16),
                }
            },
            TxPowerStage::Power { deci_dbm } => RailCall::SetTxPowerDbm {
                rail_handle: self.rail_handle,
                deci_dbm,
            },
        }
    }

    fn can_resume(&self, reply: &RailReply) -> (can: bool) {
        match (self.stage, *reply) {
            (TxPowerStage::Amplifier, RailReply::Status(status)) => {
                match self.rail.status.status(status).into_rail_result() {
                    Ok(()) => -3276 <= self.tx_power_dbm && self.tx_power_dbm <= 3276,
                    Err(_) => true,
                }
            },
            _ => true,
        }
    }

    fn resume(self, reply: RailReply) -> (progress: Progress<Self, ()>) {
        match (self.stage, reply) {
            (TxPowerStage::Amplifier, RailReply::Status(status)) => {
                match self.rail.status.status(status).into_rail_result() {
                    Ok(()) => {
                        let deci_dbm: i16 = self.tx_power_dbm * 10;
                        Progress::Pending(
                            ConfigureTxPower { stage: TxPowerStage::Power { deci_dbm }, ..self },
                        )
                    },
                    Err(error) => Progress::Done(Err(error)),
                }
            },
            (TxPowerStage::Power { .. }, RailReply::Status(status)) => Progress::Done(
                self.rail.status.status(status).into_rail_result(),
            ),
            _ => Progress::Pending(self),
        }
    }
}

/// Brings the radio up: prepares RAIL, then sets the sending power.
#[derive(Debug, Clone, Copy, PartialEq, Eq, Structural)]
pub enum NewRadio {
    Initializing { init: Init, tx_power_dbm: i16 },
    Powering { power: ConfigureTxPower },
}

impl<'p> Operation<'p> for NewRadio {
    type Output = Radio;

    open spec fn pending(self) -> RailCall<'p> {
        match self {
            NewRadio::Initializing { init, .. } => init.pending(),
            NewRadio::Powering { power } => power.pending(),
        }
    }

    open spec fn admits(self, reply: RailReply) -> bool {
        match self {
            NewRadio::Initializing { .. } => true,
            NewRadio::Powering { power } => power.admits(reply),
        }
    }

    open spec fn after(self, reply: RailReply) -> Progress<Self, Radio> {
        match self {
            NewRadio::Initializing { init, tx_power_dbm } =>
                match init.after(reply) {
                    Progress::Pending(init) => Progress::Pending(
                        NewRadio::Initializing { init, tx_power_dbm },
                    ),
                    Progress::Done(Ok(rail_handle)) => Progress::Pending(
                        NewRadio::Powering {
                            power: ConfigureTxPower {
                                rail: init.rail,
                                rail_handle,
                                tx_power_dbm,
                                stage: TxPowerStage::Amplifier,
                            },
                        },
                    ),
                    Progress::Done(Err(error)) => Progress::Done(Err(error)),
                },
            NewRadio::Powering { power } => match power.after(reply) {
                Progress::Pending(power) => Progress::Pending(NewRadio::Powering { power }),
                Progress::Done(Ok(())) => Progress::Done(
                    Ok(Radio { rail_handle: power.rail_handle }),
                ),
                Progress::Done(Err(error)) => Progress::Done(Err(error)),
            },
        }
    }

    open spec fn remaining(self) -> nat {
        match self {
            NewRadio::Initializing { init, .. } => init.remaining() + 2,
            NewRadio::Powering { power } => power.remaining(),
        }
    }

    proof fn law_progress(self, reply: RailReply) {
    }

    fn call(&self) -> (call: RailCall<'p>) {
        match self {
            NewRadio::Initializing { init, .. } => init.call(),
            NewRadio::Powering { power } => power.call(),
        }
    }

    fn can_resume(&self, reply: &RailReply) -> (can: bool) {
        match self {
            NewRadio::Initializing { .. } => true,
            NewRadio::Powering { power } => power.can_resume(reply),
        }
    }

    fn resume(self, reply: RailReply) -> (progress: Progress<Self, Radio>) {
        match self {
            NewRadio::Initializing { init, tx_power_dbm } => {
                match init.resume(reply) {
                    Progress::Pending(init) => Progress::Pending(
                        NewRadio::Initializing { init, tx_power_dbm },
                    ),
                    Progress::Done(Ok(rail_handle)) => Progress::Pending(
                        NewRadio::Powering {
                            power: Radio::configure_tx_power(
                                &init.rail,
                                rail_handle,
                                tx_power_dbm,
                            ),
                        },
                    ),
                    Progress::Done(Err(error)) => Progress::Done(Err(error)),
                }
            },
            NewRadio::Powering { power } => {
                match power.resume(reply) {
                    Progress::Pending(power) => Progress::Pending(NewRadio::Powering { power }),
                    Progress::Done(Ok(())) => Progress::Done(Ok(Radio::from(power.rail_handle))),
                    Progress::Done(Err(error)) => Progress::Done(Err(error)),
                }
            },
        }
    }
}

/// An initialisation makes its calls in a fixed order, each with the handle that
/// RAIL gave out, and stops at the first that fails. Success gives that handle.
pub proof fn law_init(
    rail: RailConstants,
    config: RailConfig,
    unset: usize,
    rail_handle: usize,
    statuses: Seq<u32>,
)
    requires
        statuses.len() == 3,
    ensures
        crate::operation::run(
            Init { rail, config, rail_handle: unset, stage: InitStage::PaInit },
            seq![
                RailReply::Nothing,
                RailReply::Initialized { status: statuses[0], rail_handle },
                RailReply::Status(statuses[1]),
                RailReply::Status(statuses[2]),
            ],
        ) == crate::operation::until_failure(
            rail.status,
            seq![
                RailCall::Init { rail_handle: unset, config },
                RailCall::ConfigChannels { rail_handle },
                RailCall::ConfigEvents {
                    rail_handle,
                    mask: rail.events_all,
                    events: (rail.event_tx_packet_sent | rail.event_rx_packet_received
                        | rail.event_rx_frame_error) as u64,
                },
            ],
            statuses,
            rail_handle,
        ).preceded_by(RailCall::PaInit),
{
    reveal_with_fuel(crate::operation::run, 5);
    reveal_with_fuel(crate::operation::until_failure, 5);
}

/// Setting the power makes two calls, one for the amplifier and one for the power in
/// tenths of a dBm, and stops at the first that fails.
pub proof fn law_configure_tx_power(
    rail: RailConstants,
    rail_handle: usize,
    tx_power_dbm: i16,
    statuses: Seq<u32>,
)
    requires
        statuses.len() == 2,
        rail.status.succeeds(statuses[0]) ==> i16::MIN <= tx_power_dbm * 10 <= i16::MAX,
    ensures
        crate::operation::run(
            ConfigureTxPower { rail, rail_handle, tx_power_dbm, stage: TxPowerStage::Amplifier },
            seq![RailReply::Status(statuses[0]), RailReply::Status(statuses[1])],
        ) == crate::operation::until_failure(
            rail.status,
            tx_power_calls(rail, rail_handle, tx_power_dbm),
            statuses,
            (),
        ),
        tx_power_calls(rail, rail_handle, tx_power_dbm).len() == 2,
        tx_power_calls(rail, rail_handle, tx_power_dbm)[0] == (RailCall::ConfigTxPower {
            rail_handle,
            mode: if tx_power_dbm < 0 {
                rail.tx_power_mode_2p4_ghz_lp as u8
            } else {
                rail.tx_power_mode_2p4_ghz_hp as u8
            },
            voltage: rail.pa_voltage_mv as u16,
            ramp_time: rail.pa_ramp_time_us as u16,
        }),
        tx_power_calls(rail, rail_handle, tx_power_dbm)[1] == (RailCall::SetTxPowerDbm {
            rail_handle,
            deci_dbm: (tx_power_dbm * 10) as i16,
        }),
{
    reveal_with_fuel(crate::operation::run, 3);
    reveal_with_fuel(crate::operation::until_failure, 4);
}

/// The calls that set the sending power.
pub open spec fn tx_power_calls<'p>(
    rail: RailConstants,
    rail_handle: usize,
    tx_power_dbm: i16,
) -> Seq<RailCall<'p>> {
    seq![
        RailCall::ConfigTxPower {
            rail_handle,
            mode: tx_power_mode(rail, tx_power_dbm) as u8,
            voltage: rail.pa_voltage_mv as u16,
            ramp_time: rail.pa_ramp_time_us as u16,
        },
        RailCall::SetTxPowerDbm { rail_handle, deci_dbm: (tx_power_dbm * 10) as i16 },
    ]
}

/// Bringing the radio up makes the calls of the initialisation, then those that set
/// the sending power, and stops at the first that fails. Where none fails, there is
/// a radio with the handle that RAIL gave out. Nothing makes it listen yet.
pub proof fn law_new(
    rail: RailConstants,
    config: RailConfig,
    unset: usize,
    rail_handle: usize,
    tx_power_dbm: i16,
    statuses: Seq<u32>,
)
    requires
        statuses.len() == 5,
        (forall|i: int| 0 <= i < 4 ==> rail.status.succeeds(#[trigger] statuses[i])) ==> i16::MIN
            <= tx_power_dbm * 10 <= i16::MAX,
    ensures
        crate::operation::run(
            NewRadio::Initializing {
                init: Init { rail, config, rail_handle: unset, stage: InitStage::PaInit },
                tx_power_dbm,
            },
            seq![
                RailReply::Nothing,
                RailReply::Initialized { status: statuses[0], rail_handle },
                RailReply::Status(statuses[1]),
                RailReply::Status(statuses[2]),
                RailReply::Status(statuses[3]),
                RailReply::Status(statuses[4]),
            ],
        ) == crate::operation::until_failure(
            rail.status,
            seq![
                RailCall::Init { rail_handle: unset, config },
                RailCall::ConfigChannels { rail_handle },
                RailCall::ConfigEvents {
                    rail_handle,
                    mask: rail.events_all,
                    events: (rail.event_tx_packet_sent | rail.event_rx_packet_received
                        | rail.event_rx_frame_error) as u64,
                },
                RailCall::ConfigTxPower {
                    rail_handle,
                    mode: if tx_power_dbm < 0 {
                        rail.tx_power_mode_2p4_ghz_lp as u8
                    } else {
                        rail.tx_power_mode_2p4_ghz_hp as u8
                    },
                    voltage: rail.pa_voltage_mv as u16,
                    ramp_time: rail.pa_ramp_time_us as u16,
                },
                RailCall::SetTxPowerDbm { rail_handle, deci_dbm: (tx_power_dbm * 10) as i16 },
            ],
            statuses,
            Radio { rail_handle },
        ).preceded_by(RailCall::PaInit),
{
    reveal_with_fuel(crate::operation::run, 7);
    reveal_with_fuel(crate::operation::until_failure, 7);
}

/// Whether a call that has to do with the sending power suits the power
/// `tx_power_dbm`: below 0 dBm the amplifier works in its low-power mode and otherwise
/// in its high-power mode, and the power is set in tenths of a dBm.
spec fn suits_power<'p>(
    rail: RailConstants,
    tx_power_dbm: i16,
    call: RailCall<'p>,
) -> bool {
    &&& call matches RailCall::ConfigTxPower { mode, voltage, ramp_time, .. } ==> {
        &&& 0 <= tx_power_dbm ==> mode == rail.tx_power_mode_2p4_ghz_hp as u8
        &&& tx_power_dbm < 0 ==> mode == rail.tx_power_mode_2p4_ghz_lp as u8
        &&& voltage == rail.pa_voltage_mv as u16
        &&& ramp_time == rail.pa_ramp_time_us as u16
    }
    &&& call matches RailCall::SetTxPowerDbm { deci_dbm, .. } ==> deci_dbm == tx_power_dbm * 10
}

/// Whatever RAIL replies while the radio is brought up: every call that sets up the
/// amplifier asks for the high-power mode if the power is 0 dBm or more and for the
/// low-power mode if it is less, and the power that is set is ten times that in dBm.
pub proof fn law_amplifier_suits_the_power(
    init: Init,
    tx_power_dbm: i16,
    replies: Seq<RailReply>,
    i: int,
)
    requires
        i16::MIN <= tx_power_dbm * 10 <= i16::MAX,
        0 <= i < crate::operation::run(
            NewRadio::Initializing { init, tx_power_dbm },
            replies,
        ).calls.len(),
    ensures
        crate::operation::run(NewRadio::Initializing { init, tx_power_dbm }, replies).calls[i]
            matches RailCall::ConfigTxPower { mode, voltage, ramp_time, .. } ==> {
            &&& 0 <= tx_power_dbm ==> mode == init.rail.tx_power_mode_2p4_ghz_hp as u8
            &&& tx_power_dbm < 0 ==> mode == init.rail.tx_power_mode_2p4_ghz_lp as u8
            &&& voltage == init.rail.pa_voltage_mv as u16
            &&& ramp_time == init.rail.pa_ramp_time_us as u16
        },
        crate::operation::run(NewRadio::Initializing { init, tx_power_dbm }, replies).calls[i]
            matches RailCall::SetTxPowerDbm { deci_dbm, .. } ==> deci_dbm == tx_power_dbm * 10,
{
    let rail = init.rail;
    let op = NewRadio::Initializing { init, tx_power_dbm };
    let shown = |call: RailCall| suits_power(rail, tx_power_dbm, call);
    let inv = |o: NewRadio|
        match o {
            NewRadio::Initializing { init, tx_power_dbm: dbm } => init.rail == rail && dbm
                == tx_power_dbm,
            NewRadio::Powering { power } => power.rail == rail && power.tx_power_dbm
                == tx_power_dbm && (power.stage matches TxPowerStage::Power { deci_dbm }
                ==> deci_dbm == tx_power_dbm * 10),
        };
    crate::operation::lemma_every_call(op, replies, inv, shown);
    assert(shown(crate::operation::run(op, replies).calls[i]));
}

/// Setting the power by itself does the same: the mode goes by the sign of the power,
/// and the power that is set is ten times that in dBm.
pub proof fn law_power_is_set_in_tenths(op: ConfigureTxPower, replies: Seq<RailReply>, i: int)
    requires
        op.stage == TxPowerStage::Amplifier,
        i16::MIN <= op.tx_power_dbm * 10 <= i16::MAX,
        0 <= i < crate::operation::run(op, replies).calls.len(),
    ensures
        crate::operation::run(op, replies).calls[i] matches RailCall::ConfigTxPower {
            mode,
            voltage,
            ramp_time,
            ..
        } ==> {
            &&& 0 <= op.tx_power_dbm ==> mode == op.rail.tx_power_mode_2p4_ghz_hp as u8
            &&& op.tx_power_dbm < 0 ==> mode == op.rail.tx_power_mode_2p4_ghz_lp as u8
            &&& voltage == op.rail.pa_voltage_mv as u16
            &&& ramp_time == op.rail.pa_ramp_time_us as u16
        },
        crate::operation::run(op, replies).calls[i] matches RailCall::SetTxPowerDbm {
            deci_dbm,
            ..
        } ==> deci_dbm == op.tx_power_dbm * 10,
{
    let rail = op.rail;
    let tx_power_dbm = op.tx_power_dbm;
    let shown = |call: RailCall| suits_power(rail, tx_power_dbm, call);
    let inv = |o: ConfigureTxPower|
        o.rail == rail && o.tx_power_dbm == tx_power_dbm && (o.stage matches TxPowerStage::Power {
            deci_dbm,
        } ==> deci_dbm == tx_power_dbm * 10);
    crate::operation::lemma_every_call(op, replies, inv, shown);
    assert(shown(crate::operation::run(op, replies).calls[i]));
}

/// Bringing the radio up goes on from every reply, with one exception: a power that
/// cannot be written in tenths of a dBm, when the amplifier is set up and the power is
/// the next thing to set.
pub proof fn law_startup_goes_on(
    new: NewRadio,
    init: Init,
    power: ConfigureTxPower,
    reply: RailReply,
)
    ensures
        init.admits(reply),
        power.admits(reply) <==> !(power.stage is Amplifier && (reply matches RailReply::Status(
            status,
        ) && (status == power.rail.status.no_error || status == power.rail.status.suspended))
            && !(-32768 <= power.tx_power_dbm * 10 <= 32767)),
        new is Initializing ==> new.admits(reply),
        new matches NewRadio::Powering { power: inner } ==> (new.admits(reply) <==> inner.admits(
            reply,
        )),
{
}

} // verus!
