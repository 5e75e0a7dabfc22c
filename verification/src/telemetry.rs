//! The telemetry snapshot decoded from one controller report.
//!
//! A report is a buffer of [`REPORT_LEN`] bytes. The steering angle and the
//! brake pedal sit at fixed offsets; where the gas pedal sits differs between
//! hardware revisions, so the decoder takes that offset as a calibration
//! value.

use vstd::prelude::*;
use vstd::std_specs::convert::FromSpecImpl;

verus! {

/// Number of bytes in one controller report.
pub const REPORT_LEN: usize = 32;

/// Offset of the steering angle in a report.
pub const STEERING_OFFSET: usize = 2;

/// Offset of the brake pedal's fine byte; its coarse byte follows.
pub const BRAKE_OFFSET: usize = 3;

/// Offset of the gas pedal's fine byte unless calibration says otherwise;
/// its coarse byte follows.
pub const GAS_OFFSET: usize = 5;

/// Raw magnitude of a fully released pedal, and the full scale of a pedal
/// value.
pub const PEDAL_FULL_SCALE: usize = 1020;

/// One pedal's depression depth as the controller reports it: a fine byte and
/// a coarse byte. Neither byte is restricted; their meaning comes from
/// [`dual_precision_value`].
#[derive(Clone, Copy, Debug, PartialEq, Eq, Structural)]
pub struct DualPrecisionPedal {
    pub precise: u8,
    pub general: u8,
}

/// Where the gas pedal sits in the reports of the device at hand. The offset
/// is that of the fine byte, and both bytes of the pedal lie within a report.
#[derive(Clone, Copy, Debug, PartialEq, Eq)]
pub struct ReportLayout {
    gas_offset: usize,
}

/// The decoded content of one report.
#[derive(Clone, Copy, Debug, PartialEq, Eq, Structural)]
pub struct SteeringWheelData {
    pub steering_angle: u8,
    pub gas_pedal: DualPrecisionPedal,
    pub brake_pedal: DualPrecisionPedal,
}

/// What the throttle output follows.
#[derive(Clone, Copy, Debug, PartialEq, Eq, Structural)]
pub enum ThrottleSource {
    /// The brake reading.
    Brake,
    /// The gas reading.
    Gas,
    /// Neither pedal: the output rests at the idle voltage.
    Idle,
}

/// The magnitude that a coarse and a fine byte encode together.
pub open spec fn raw_magnitude(precise: u8, general: u8) -> int {
    general as int * 255 + precise as int
}

/// The value of a pedal: its raw magnitude, or, for a pedal whose raw
/// magnitude falls as it is pressed, the distance of that magnitude from
/// `max_value`, the magnitude of the released pedal.
pub open spec fn dual_precision_value(
    precise: u8,
    general: u8,
    max_value: usize,
    invert: bool,
) -> int {
    let raw = raw_magnitude(precise, general);
    if !invert {
        raw
    } else if raw >= max_value {
        raw - max_value
    } else {
        max_value - raw
    }
}

/// The pedal whose fine byte stands at `offset` in `bytes` and whose coarse
/// byte follows it.
pub open spec fn pedal_at(bytes: Seq<u8>, offset: int) -> DualPrecisionPedal {
    DualPrecisionPedal { precise: bytes[offset], general: bytes[offset + 1] }
}

/// The snapshot that a report holds when its gas pedal starts at
/// `gas_offset`.
pub open spec fn decoded_report(report: Seq<u8>, gas_offset: int) -> SteeringWheelData {
    SteeringWheelData {
        steering_angle: report[STEERING_OFFSET as int],
        gas_pedal: pedal_at(report, gas_offset),
        brake_pedal: pedal_at(report, BRAKE_OFFSET as int),
    }
}

/// Which pedal the throttle follows: the brake as long as it reads below full
/// scale, otherwise the gas if it reads above zero, otherwise neither.
pub open spec fn throttle_source_of(brake: int, gas: int) -> ThrottleSource {
    if brake < PEDAL_FULL_SCALE {
        ThrottleSource::Brake
    } else if gas > 0 {
        ThrottleSource::Gas
    } else {
        ThrottleSource::Idle
    }
}

impl DualPrecisionPedal {
    /// Reconstructs a pedal value from its two bytes. The difference is
    /// formed in a signed type wide enough for any `max_value`.
    pub fn convert_dual_precision(precise: u8, general: u8, max_value: usize, invert: bool) -> (value:
        usize)
        ensures
            value as int == dual_precision_value(precise, general, max_value, invert),
    {
        let raw: usize = general as usize * 255 + precise as usize;
        if invert {
            let distance: i128 = raw as i128 - max_value as i128;
            if distance < 0 {
                (-distance) as usize
            } else {
                distance as usize
            }
        } else {
            raw
        }
    }
}

impl From<[u8; 2]> for DualPrecisionPedal {
    fn from(value: [u8; 2]) -> (pedal: Self) {
        DualPrecisionPedal { precise: value[0], general: value[1] }
    }
}

impl FromSpecImpl<[u8; 2]> for DualPrecisionPedal {
    open spec fn obeys_from_spec() -> bool {
        true
    }

    open spec fn from_spec(value: [u8; 2]) -> Self {
        pedal_at(value@, 0)
    }
}

impl ReportLayout {
    #[verifier::type_invariant]
    spec fn gas_pedal_in_report(self) -> bool {
        self.gas_offset + 1 < REPORT_LEN
    }

    /// The offset of the gas pedal's fine byte.
    pub closed spec fn spec_gas_offset(&self) -> nat {
        self.gas_offset as nat
    }

    /// The layout with the gas pedal at `gas_offset`, if the pedal's two
    /// bytes lie within a report there.
    pub fn new(gas_offset: usize) -> (layout: Option<Self>)
        ensures
            match layout {
                Some(layout) => gas_offset + 1 < REPORT_LEN && layout.spec_gas_offset()
                    == gas_offset,
                None => gas_offset + 1 >= REPORT_LEN,
            },
    {
        if gas_offset < REPORT_LEN - 1 {
            Some(ReportLayout { gas_offset })
        } else {
            None
        }
    }

    pub fn gas_offset(&self) -> (gas_offset: usize)
        ensures
            gas_offset == self.spec_gas_offset(),
            gas_offset + 1 < REPORT_LEN,
    {
        proof {
            use_type_invariant(self);
        }
        self.gas_offset
    }
}

impl Default for ReportLayout {
    /// The layout with the gas pedal at [`GAS_OFFSET`].
    fn default() -> (layout: Self)
        ensures
            layout.spec_gas_offset() == GAS_OFFSET,
    {
        ReportLayout { gas_offset: GAS_OFFSET }
    }
}

impl SteeringWheelData {
    /// The gas pedal's value: its raw magnitude.
    pub open spec fn gas_value(&self) -> int {
        dual_precision_value(self.gas_pedal.precise, self.gas_pedal.general, PEDAL_FULL_SCALE, false)
    }

    /// The brake pedal's value: the distance of its raw magnitude from that
    /// of the released pedal, so that it grows as the brake is pressed.
    pub open spec fn brake_value(&self) -> int {
        dual_precision_value(
            self.brake_pedal.precise,
            self.brake_pedal.general,
            PEDAL_FULL_SCALE,
            true,
        )
    }

    /// Decodes a report of a device with the given layout.
    pub fn decode(report: &[u8; 32], layout: ReportLayout) -> (data: Self)
        ensures
            data == decoded_report(report@, layout.spec_gas_offset() as int),
    {
        let gas_offset = layout.gas_offset();
        SteeringWheelData {
            steering_angle: report[STEERING_OFFSET],
            gas_pedal: DualPrecisionPedal::from([report[gas_offset], report[gas_offset + 1]]),
            brake_pedal: DualPrecisionPedal::from([report[BRAKE_OFFSET], report[BRAKE_OFFSET + 1]]),
        }
    }

    pub fn gas(&self) -> (value: usize)
        ensures
            value as int == self.gas_value(),
    {
        DualPrecisionPedal::convert_dual_precision(
            self.gas_pedal.precise,
            self.gas_pedal.general,
            PEDAL_FULL_SCALE,
            false,
        )
    }

    pub fn brake(&self) -> (value: usize)
        ensures
            value as int == self.brake_value(),
    {
        DualPrecisionPedal::convert_dual_precision(
            self.brake_pedal.precise,
            self.brake_pedal.general,
            PEDAL_FULL_SCALE,
            true,
        )
    }

    /// Arbitrates between the two pedals. The brake has priority: the gas is
    /// consulted only while the brake reads full scale or more.
    pub fn throttle_source(&self) -> (source: ThrottleSource)
        ensures
            source == throttle_source_of(self.brake_value(), self.gas_value()),
    {
        if self.brake() < PEDAL_FULL_SCALE {
            ThrottleSource::Brake
        } else if self.gas() > 0 {
            ThrottleSource::Gas
        } else {
            ThrottleSource::Idle
        }
    }
}

impl From<[u8; 32]> for SteeringWheelData {
    /// Decodes a report of a device with the default layout.
    fn from(value: [u8; 32]) -> (data: Self) {
        SteeringWheelData::decode(&value, ReportLayout::default())
    }
}

impl FromSpecImpl<[u8; 32]> for SteeringWheelData {
    open spec fn obeys_from_spec() -> bool {
        true
    }

    open spec fn from_spec(value: [u8; 32]) -> Self {
        decoded_report(value@, GAS_OFFSET as int)
    }
}

/// Without inversion a pedal value never falls when either byte grows.
pub proof fn lemma_plain_value_is_monotone(
    precise_a: u8,
    general_a: u8,
    precise_b: u8,
    general_b: u8,
    max_value: usize,
)
    requires
        precise_a <= precise_b,
        general_a <= general_b,
    ensures
        dual_precision_value(precise_a, general_a, max_value, false) <= dual_precision_value(
            precise_b,
            general_b,
            max_value,
            false,
        ),
{
}

/// With inversion a pedal value is never negative, whatever the two bytes
/// and the calibration are.
pub proof fn lemma_inverted_value_is_non_negative(precise: u8, general: u8, max_value: usize)
    ensures
        dual_precision_value(precise, general, max_value, true) >= 0,
{
}

} // verus!
