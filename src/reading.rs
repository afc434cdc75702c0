//! Sensor readings: the upstream wire record and its normalized form.
use vstd::prelude::*;

verus! {

/// Bit pattern of the single-precision value -10.0.
pub const MINUS_TEN_BITS: u32 = 0xc120_0000;

/// Bit pattern of the single-precision value 60.0.
pub const SIXTY_BITS: u32 = 0x4270_0000;

/// Bit pattern of the single-precision value 10.0.
pub const TEN_BITS: u32 = 0x4120_0000;

/// Bit pattern of the single-precision value 90.0.
pub const NINETY_BITS: u32 = 0x42b4_0000;

/// A single-precision IEEE 754 value held as its bit pattern.
///
/// Equality is equality of bit patterns; the numeric order is `float_lt`.
#[derive(Clone, Copy, Debug, PartialEq, Eq, Hash)]
pub struct F32Bits {
    pub bits: u32,
}

/// The pattern encodes a NaN: every exponent bit set and a non-zero fraction.
pub open spec fn is_nan(x: u32) -> bool {
    x % 0x8000_0000 > 0x7f80_0000
}

/// Position of a non-NaN pattern on the number line: the magnitude bits
/// order values of one sign, and the sign bit mirrors them (both zeros map to 0).
pub open spec fn order_key(x: u32) -> int {
    if x >= 0x8000_0000 {
        -((x - 0x8000_0000) as int)
    } else {
        x as int
    }
}

/// IEEE 754 `a < b` on bit patterns: false whenever either side is NaN.
pub open spec fn float_lt(a: u32, b: u32) -> bool {
    !is_nan(a) && !is_nan(b) && order_key(a) < order_key(b)
}

/// Temperature anomaly rule: strictly below -10.0 or strictly above 60.0 degrees Celsius.
pub open spec fn temperature_alert_of(t: u32) -> bool {
    float_lt(t, MINUS_TEN_BITS) || float_lt(SIXTY_BITS, t)
}

/// Humidity anomaly rule: strictly below 10.0 or strictly above 90.0 percent.
pub open spec fn humidity_alert_of(h: u32) -> bool {
    float_lt(h, TEN_BITS) || float_lt(NINETY_BITS, h)
}

impl F32Bits {
    /// Whether the bit pattern is a NaN.
    pub fn is_nan(self) -> (r: bool)
        ensures
            r == is_nan(self.bits),
    {
        self.bits % 0x8000_0000 > 0x7f80_0000
    }

    /// IEEE 754 `self < other`.
    pub fn less_than(self, other: F32Bits) -> (r: bool)
        ensures
            r == float_lt(self.bits, other.bits),
    {
        if self.is_nan() || other.is_nan() {
            return false;
        }
        let a: i64 = if self.bits >= 0x8000_0000 {
            -((self.bits - 0x8000_0000) as i64)
        } else {
            self.bits as i64
        };
        let b: i64 = if other.bits >= 0x8000_0000 {
            -((other.bits - 0x8000_0000) as i64)
        } else {
            other.bits as i64
        };
        a < b
    }
}

/// Whether a temperature in degrees Celsius is anomalous.
pub fn temperature_alert(t: F32Bits) -> (r: bool)
    ensures
        r == temperature_alert_of(t.bits),
{
    t.less_than(F32Bits { bits: MINUS_TEN_BITS }) || F32Bits { bits: SIXTY_BITS }.less_than(t)
}

/// Whether a relative humidity in percent is anomalous.
pub fn humidity_alert(h: F32Bits) -> (r: bool)
    ensures
        r == humidity_alert_of(h.bits),
{
    h.less_than(F32Bits { bits: TEN_BITS }) || F32Bits { bits: NINETY_BITS }.less_than(h)
}

/// An instant in UTC: whole seconds since the Unix epoch and the nanoseconds
/// past that second (a leap second carries 1_000_000_000 or more).
#[derive(Clone, Copy, Debug, PartialEq, Eq, Hash)]
pub struct UtcTimestamp {
    pub secs: i64,
    pub nanos: u32,
}

impl UtcTimestamp {
    /// The instant as a pair of integers, seconds then nanoseconds.
    pub open spec fn instant(self) -> (int, int) {
        (self.secs as int, self.nanos as int)
    }

    /// Whether `self` lies strictly after `other`.
    pub fn is_after(&self, other: &UtcTimestamp) -> (r: bool)
        ensures
            r == instant_after(self.instant(), other.instant()),
    {
        self.secs > other.secs || (self.secs == other.secs && self.nanos > other.nanos)
    }
}

/// Instants ordered by seconds, then by nanoseconds.
pub open spec fn instant_after(a: (int, int), b: (int, int)) -> bool {
    a.0 > b.0 || (a.0 == b.0 && a.1 > b.1)
}

/// A reading as the upstream API sends it.
#[derive(Debug)]
pub struct RawSensorReading {
    pub mesh_id: String,
    pub device_id: String,
    pub timestamp: UtcTimestamp,
    pub temperature_c: F32Bits,
    pub humidity: F32Bits,
    pub status: String,
}

/// A normalized reading, as stored and served.
#[derive(Debug)]
pub struct SensorReading {
    pub mesh_id: String,
    pub device_id: String,
    pub timestamp_utc: UtcTimestamp,
    pub temperature_c: F32Bits,
    pub humidity: F32Bits,
    pub status: String,
    pub temperature_alert: bool,
    pub humidity_alert: bool,
}

pub struct RawReadingView {
    pub mesh_id: Seq<char>,
    pub device_id: Seq<char>,
    pub timestamp: UtcTimestamp,
    pub temperature_c: u32,
    pub humidity: u32,
    pub status: Seq<char>,
}

pub struct ReadingView {
    pub mesh_id: Seq<char>,
    pub device_id: Seq<char>,
    pub timestamp_utc: UtcTimestamp,
    pub temperature_c: u32,
    pub humidity: u32,
    pub status: Seq<char>,
    pub temperature_alert: bool,
    pub humidity_alert: bool,
}

impl View for RawSensorReading {
    type V = RawReadingView;

    open spec fn view(&self) -> RawReadingView {
        RawReadingView {
            mesh_id: self.mesh_id@,
            device_id: self.device_id@,
            timestamp: self.timestamp,
            temperature_c: self.temperature_c.bits,
            humidity: self.humidity.bits,
            status: self.status@,
        }
    }
}

impl View for SensorReading {
    type V = ReadingView;

    open spec fn view(&self) -> ReadingView {
        ReadingView {
            mesh_id: self.mesh_id@,
            device_id: self.device_id@,
            timestamp_utc: self.timestamp_utc,
            temperature_c: self.temperature_c.bits,
            humidity: self.humidity.bits,
            status: self.status@,
            temperature_alert: self.temperature_alert,
            humidity_alert: self.humidity_alert,
        }
    }
}

impl ReadingView {
    /// The alert flags agree with the values they flag.
    pub open spec fn wf(self) -> bool {
        &&& self.temperature_alert == temperature_alert_of(self.temperature_c)
        &&& self.humidity_alert == humidity_alert_of(self.humidity)
    }
}

/// The normalized form of a raw reading: fields copied, alert flags computed.
pub open spec fn normalized(raw: RawReadingView) -> ReadingView {
    ReadingView {
        mesh_id: raw.mesh_id,
        device_id: raw.device_id,
        timestamp_utc: raw.timestamp,
        temperature_c: raw.temperature_c,
        humidity: raw.humidity,
        status: raw.status,
        temperature_alert: temperature_alert_of(raw.temperature_c),
        humidity_alert: humidity_alert_of(raw.humidity),
    }
}

impl RawSensorReading {
    /// Builds the normalized reading.
    pub fn to_transformed(&self) -> (r: SensorReading)
        ensures
            r@ == normalized(self@),
            r@.wf(),
    {
        SensorReading {
            mesh_id: self.mesh_id.clone(),
            device_id: self.device_id.clone(),
            timestamp_utc: self.timestamp,
            temperature_c: self.temperature_c,
            humidity: self.humidity,
            status: self.status.clone(),
            temperature_alert: temperature_alert(self.temperature_c),
            humidity_alert: humidity_alert(self.humidity),
        }
    }
}

impl SensorReading {
    /// A copy of the reading.
    pub fn duplicate(&self) -> (r: SensorReading)
        ensures
            r@ == self@,
    {
        SensorReading {
            mesh_id: self.mesh_id.clone(),
            device_id: self.device_id.clone(),
            timestamp_utc: self.timestamp_utc,
            temperature_c: self.temperature_c,
            humidity: self.humidity,
            status: self.status.clone(),
            temperature_alert: self.temperature_alert,
            humidity_alert: self.humidity_alert,
        }
    }
}

} // verus!
