//! Hardware and sensor classification, and the reading a sensor
//! provider hands to the test run.
//!
//! Readings are carried as plain integer sensor units (the provider
//! adapter rounds its native value to these units); everything the
//! control and statistics logic reads is therefore a machine integer.
use vstd::prelude::*;

verus! {

use crate::text::str_eq;

/// The kinds of hardware component a provider can be asked about.
#[derive(Clone, Copy, Debug, PartialEq, Eq, Structural)]
pub enum HardwareType {
    ALL,
    Mainboard,
    SuperIO,
    CPU,
    GpuNvidia,
    GpuAti,
    TBalancer,
    Heatmaster,
    HDD,
    RAM,
    Unknown,
}

/// The kinds of sensor a provider can report, each with its unit.
#[derive(Clone, Copy, Debug, PartialEq, Eq, Structural)]
pub enum SensorType {
    ALL,
    Voltage,
    Clock,
    Temperature,
    Load,
    Fan,
    Flow,
    Control,
    Level,
    Power,
    Data,
    GBData,
    Throughput,
    DataRate,
    SmallData,
    GBSmallData,
    FSB,
    Multiplexer,
    ClockAverage,
    Unknown,
}

/// The hardware type a name denotes, when it is one of the
/// recognised variant names.
pub open spec fn spec_hardware_from_name(s: Seq<char>) -> Option<HardwareType> {
    if s == "ALL"@ {
        Some(HardwareType::ALL)
    } else if s == "Mainboard"@ {
        Some(HardwareType::Mainboard)
    } else if s == "SuperIO"@ {
        Some(HardwareType::SuperIO)
    } else if s == "CPU"@ {
        Some(HardwareType::CPU)
    } else if s == "GpuNvidia"@ {
        Some(HardwareType::GpuNvidia)
    } else if s == "GpuAti"@ {
        Some(HardwareType::GpuAti)
    } else if s == "TBalancer"@ {
        Some(HardwareType::TBalancer)
    } else if s == "Heatmaster"@ {
        Some(HardwareType::Heatmaster)
    } else if s == "HDD"@ {
        Some(HardwareType::HDD)
    } else if s == "RAM"@ {
        Some(HardwareType::RAM)
    } else if s == "Unknown"@ {
        Some(HardwareType::Unknown)
    } else {
        None
    }
}

impl HardwareType {
    /// Parses a hardware type from its variant name.
    pub fn from_name(s: &str) -> (r: Option<HardwareType>)
        ensures
            r == spec_hardware_from_name(s@),
    {
        if str_eq(s, "ALL") {
            Some(HardwareType::ALL)
        } else if str_eq(s, "Mainboard") {
            Some(HardwareType::Mainboard)
        } else if str_eq(s, "SuperIO") {
            Some(HardwareType::SuperIO)
        } else if str_eq(s, "CPU") {
            Some(HardwareType::CPU)
        } else if str_eq(s, "GpuNvidia") {
            Some(HardwareType::GpuNvidia)
        } else if str_eq(s, "GpuAti") {
            Some(HardwareType::GpuAti)
        } else if str_eq(s, "TBalancer") {
            Some(HardwareType::TBalancer)
        } else if str_eq(s, "Heatmaster") {
            Some(HardwareType::Heatmaster)
        } else if str_eq(s, "HDD") {
            Some(HardwareType::HDD)
        } else if str_eq(s, "RAM") {
            Some(HardwareType::RAM)
        } else if str_eq(s, "Unknown") {
            Some(HardwareType::Unknown)
        } else {
            None
        }
    }
}

impl HardwareType {
    /// The concrete hardware types a query for this type spans: the
    /// catch-all expands to every concrete type, anything else to
    /// itself.
    pub fn all(self) -> (r: Vec<HardwareType>)
        ensures
            self == HardwareType::ALL ==> r@ =~= seq![
                HardwareType::Mainboard,
                HardwareType::SuperIO,
                HardwareType::CPU,
                HardwareType::GpuNvidia,
                HardwareType::GpuAti,
                HardwareType::TBalancer,
                HardwareType::Heatmaster,
                HardwareType::HDD,
                HardwareType::RAM,
                HardwareType::Unknown,
            ],
            self != HardwareType::ALL ==> r@ =~= seq![self],
    {
        if self == HardwareType::ALL {
            let mut v: Vec<HardwareType> = Vec::new();
            v.push(HardwareType::Mainboard);
            v.push(HardwareType::SuperIO);
            v.push(HardwareType::CPU);
            v.push(HardwareType::GpuNvidia);
            v.push(HardwareType::GpuAti);
            v.push(HardwareType::TBalancer);
            v.push(HardwareType::Heatmaster);
            v.push(HardwareType::HDD);
            v.push(HardwareType::RAM);
            v.push(HardwareType::Unknown);
            v
        } else {
            let mut v: Vec<HardwareType> = Vec::new();
            v.push(self);
            v
        }
    }
}

/// The unit string shown beside a reading of the given sensor type.
pub open spec fn spec_unit(t: SensorType) -> Seq<char> {
    match t {
        SensorType::Voltage => "V"@,
        SensorType::ClockAverage => "MHz"@,
        SensorType::Clock => "MHz"@,
        SensorType::FSB => "MHz"@,
        SensorType::Multiplexer => "MHz"@,
        SensorType::Temperature => "°C"@,
        SensorType::Load => "%"@,
        SensorType::Fan => "RPM"@,
        SensorType::Flow => "L/h"@,
        SensorType::Control => "%"@,
        SensorType::Level => "%"@,
        SensorType::Power => "W"@,
        SensorType::Data => "B"@,
        SensorType::GBData => "GB"@,
        SensorType::GBSmallData => "GB"@,
        SensorType::Throughput => "B/s"@,
        SensorType::DataRate => "B/s"@,
        SensorType::SmallData => "SB"@,
        SensorType::ALL => "*"@,
        SensorType::Unknown => "*"@,
    }
}

/// The sensor type a name denotes, when it is one of the
/// recognised variant names.
pub open spec fn spec_sensor_from_name(s: Seq<char>) -> Option<SensorType> {
    if s == "ALL"@ {
        Some(SensorType::ALL)
    } else if s == "Voltage"@ {
        Some(SensorType::Voltage)
    } else if s == "Clock"@ {
        Some(SensorType::Clock)
    } else if s == "Temperature"@ {
        Some(SensorType::Temperature)
    } else if s == "Load"@ {
        Some(SensorType::Load)
    } else if s == "Fan"@ {
        Some(SensorType::Fan)
    } else if s == "Flow"@ {
        Some(SensorType::Flow)
    } else if s == "Control"@ {
        Some(SensorType::Control)
    } else if s == "Level"@ {
        Some(SensorType::Level)
    } else if s == "Power"@ {
        Some(SensorType::Power)
    } else if s == "Data"@ {
        Some(SensorType::Data)
    } else if s == "GBData"@ {
        Some(SensorType::GBData)
    } else if s == "Throughput"@ {
        Some(SensorType::Throughput)
    } else if s == "DataRate"@ {
        Some(SensorType::DataRate)
    } else if s == "SmallData"@ {
        Some(SensorType::SmallData)
    } else if s == "GBSmallData"@ {
        Some(SensorType::GBSmallData)
    } else if s == "FSB"@ {
        Some(SensorType::FSB)
    } else if s == "Multiplexer"@ {
        Some(SensorType::Multiplexer)
    } else if s == "ClockAverage"@ {
        Some(SensorType::ClockAverage)
    } else if s == "Unknown"@ {
        Some(SensorType::Unknown)
    } else {
        None
    }
}

impl SensorType {
    /// Parses a sensor type from its variant name.
    pub fn from_name(s: &str) -> (r: Option<SensorType>)
        ensures
            r == spec_sensor_from_name(s@),
    {
        if str_eq(s, "ALL") {
            Some(SensorType::ALL)
        } else if str_eq(s, "Voltage") {
            Some(SensorType::Voltage)
        } else if str_eq(s, "Clock") {
            Some(SensorType::Clock)
        } else if str_eq(s, "Temperature") {
            Some(SensorType::Temperature)
        } else if str_eq(s, "Load") {
            Some(SensorType::Load)
        } else if str_eq(s, "Fan") {
            Some(SensorType::Fan)
        } else if str_eq(s, "Flow") {
            Some(SensorType::Flow)
        } else if str_eq(s, "Control") {
            Some(SensorType::Control)
        } else if str_eq(s, "Level") {
            Some(SensorType::Level)
        } else if str_eq(s, "Power") {
            Some(SensorType::Power)
        } else if str_eq(s, "Data") {
            Some(SensorType::Data)
        } else if str_eq(s, "GBData") {
            Some(SensorType::GBData)
        } else if str_eq(s, "Throughput") {
            Some(SensorType::Throughput)
        } else if str_eq(s, "DataRate") {
            Some(SensorType::DataRate)
        } else if str_eq(s, "SmallData") {
            Some(SensorType::SmallData)
        } else if str_eq(s, "GBSmallData") {
            Some(SensorType::GBSmallData)
        } else if str_eq(s, "FSB") {
            Some(SensorType::FSB)
        } else if str_eq(s, "Multiplexer") {
            Some(SensorType::Multiplexer)
        } else if str_eq(s, "ClockAverage") {
            Some(SensorType::ClockAverage)
        } else if str_eq(s, "Unknown") {
            Some(SensorType::Unknown)
        } else {
            None
        }
    }
}

impl SensorType {
    /// The concrete sensor types a query for this type spans: the
    /// catch-all expands to every concrete type, anything else to
    /// itself.
    pub fn all(self) -> (r: Vec<SensorType>)
        ensures
            self == SensorType::ALL ==> r@ =~= seq![
                SensorType::Voltage,
                SensorType::Clock,
                SensorType::Temperature,
                SensorType::Load,
                SensorType::Fan,
                SensorType::Flow,
                SensorType::Control,
                SensorType::Level,
                SensorType::Power,
                SensorType::Data,
                SensorType::GBData,
                SensorType::Throughput,
                SensorType::DataRate,
                SensorType::SmallData,
                SensorType::GBSmallData,
                SensorType::FSB,
                SensorType::Multiplexer,
                SensorType::ClockAverage,
                SensorType::Unknown,
            ],
            self != SensorType::ALL ==> r@ =~= seq![self],
    {
        if self == SensorType::ALL {
            let mut v: Vec<SensorType> = Vec::new();
            v.push(SensorType::Voltage);
            v.push(SensorType::Clock);
            v.push(SensorType::Temperature);
            v.push(SensorType::Load);
            v.push(SensorType::Fan);
            v.push(SensorType::Flow);
            v.push(SensorType::Control);
            v.push(SensorType::Level);
            v.push(SensorType::Power);
            v.push(SensorType::Data);
            v.push(SensorType::GBData);
            v.push(SensorType::Throughput);
            v.push(SensorType::DataRate);
            v.push(SensorType::SmallData);
            v.push(SensorType::GBSmallData);
            v.push(SensorType::FSB);
            v.push(SensorType::Multiplexer);
            v.push(SensorType::ClockAverage);
            v.push(SensorType::Unknown);
            v
        } else {
            let mut v: Vec<SensorType> = Vec::new();
            v.push(self);
            v
        }
    }

    /// The measurement unit this sensor type is displayed with.
    pub fn unit(&self) -> (r: &'static str)
        ensures
            r@ == spec_unit(*self),
    {
        match self {
            SensorType::Voltage => "V",
            SensorType::ClockAverage => "MHz",
            SensorType::Clock => "MHz",
            SensorType::FSB => "MHz",
            SensorType::Multiplexer => "MHz",
            SensorType::Temperature => "°C",
            SensorType::Load => "%",
            SensorType::Fan => "RPM",
            SensorType::Flow => "L/h",
            SensorType::Control => "%",
            SensorType::Level => "%",
            SensorType::Power => "W",
            SensorType::Data => "B",
            SensorType::GBData => "GB",
            SensorType::GBSmallData => "GB",
            SensorType::Throughput => "B/s",
            SensorType::DataRate => "B/s",
            SensorType::SmallData => "SB",
            SensorType::ALL => "*",
            SensorType::Unknown => "*",
        }
    }
}

/// Whether a test on this hardware/sensor combination needs the
/// synthetic load pool: only CPU load and CPU clock measurements do.
pub open spec fn spec_needs_load(hw: HardwareType, s: SensorType) -> bool {
    hw == HardwareType::CPU && (s == SensorType::Load || s == SensorType::Clock || s
        == SensorType::ClockAverage)
}

/// Decides whether the worker pool must be spawned for a run on the
/// given hardware/sensor combination.
pub fn needs_load(hw: &HardwareType, s: &SensorType) -> (r: bool)
    ensures
        r == spec_needs_load(*hw, *s),
{
    matches!(
        (hw, s),
        (HardwareType::CPU, SensorType::Load | SensorType::Clock | SensorType::ClockAverage)
    )
}

/// What the logic reads of one sensor reading.
pub ghost struct SensorModel {
    /// Human-readable sensor name.
    pub name: Seq<char>,
    /// The reading, in integer sensor units.
    pub value: i64,
    /// Optional data payload the provider attached to the reading.
    pub data: Seq<char>,
}

/// One reading returned by a sensor provider's query.
#[derive(Clone, Debug)]
pub struct Sensor {
    /// Human-readable sensor name.
    pub name: String,
    /// Unique identifier of the measurement point.
    pub identifier: String,
    /// What kind of quantity this sensor measures.
    pub sensor_type: SensorType,
    /// Identifier of the parent hardware.
    pub parent: String,
    /// The current reading, in integer sensor units.
    pub value: i64,
    /// Smallest reading the provider has seen.
    pub min: i64,
    /// Largest reading the provider has seen.
    pub max: i64,
    /// Provider-side index of the sensor.
    pub index: i32,
    /// Optional data payload attached to the reading.
    pub data: String,
}

impl View for Sensor {
    type V = SensorModel;

    open spec fn view(&self) -> SensorModel {
        SensorModel { name: self.name@, value: self.value, data: self.data@ }
    }
}

/// The readings of a returned batch, in order.
pub open spec fn spec_sensor_views(s: Seq<Sensor>) -> Seq<SensorModel> {
    s.map_values(|x: Sensor| x@)
}

/// One hardware record as a management-instrumentation provider
/// reports it, its type tag already decoded to `T`.
#[allow(non_snake_case)]
#[derive(Clone, Debug)]
pub struct Hardware<T> {
    /// Combination of make and model.
    pub Name: String,
    /// Unique identifier of this hardware.
    pub Identifier: String,
    /// The type tag as raw text.
    pub _HardwareType: String,
    /// The decoded type of hardware.
    pub HardwareType: T,
    /// Identifier of the parent hardware, empty when none.
    pub Parent: String,
}

} // verus!
