//! Records of the AIDA64 shared-memory sensor provider and the pure
//! classification of its entries into hardware and sensor types.
//! Reading the shared memory itself is the surrounding program's
//! work; everything here is text classification.
use vstd::prelude::*;

verus! {

use crate::sensor::{HardwareType, SensorType};
use crate::text::{spec_contains, str_contains, str_eq};
use vstd::string::StrSliceExecFns;

/// One raw sensor entry as AIDA64 reports it.
#[allow(non_snake_case)]
#[derive(Clone, Debug)]
pub struct AIDA64Sensor {
    /// Provider-side identifier.
    pub ID: String,
    /// Reading rendered as text.
    pub Value: String,
    /// Human-readable label.
    pub Label: String,
    /// One-letter type tag followed by a number.
    pub Type: String,
}

/// The sensor type an entry's tag letter and label dictate: the
/// letter settles most kinds, and the `S` system entries are told
/// apart by their label.
pub open spec fn spec_aida_sensor_type(ty: Seq<char>, label: Seq<char>) -> SensorType {
    if ty.len() == 0 {
        SensorType::Data
    } else if ty[0] == 'T' {
        SensorType::Temperature
    } else if ty[0] == 'V' {
        SensorType::Voltage
    } else if ty[0] == 'P' {
        SensorType::Power
    } else if ty[0] == 'F' {
        SensorType::Fan
    } else if ty[0] == 'C' {
        SensorType::Control
    } else if ty[0] == 'D' {
        SensorType::Data
    } else if ty[0] == 'S' {
        if spec_contains(label, "CPU"@) {
            if spec_contains(label, "Core #"@) && spec_contains(label, "Clock"@) {
                SensorType::Clock
            } else if label == "CPU Clock"@ {
                SensorType::ClockAverage
            } else if spec_contains(label, "FSB"@) {
                SensorType::FSB
            } else if spec_contains(label, "Multiplier"@) {
                SensorType::Multiplexer
            } else if spec_contains(label, "Utilization"@) {
                SensorType::Load
            } else {
                SensorType::Data
            }
        } else if spec_contains(label, "Rate"@) || spec_contains(label, "Speed"@) {
            SensorType::DataRate
        } else if spec_contains(label, "Space"@) || spec_contains(label, "Size"@) {
            SensorType::Data
        } else if spec_contains(label, "Memory"@) {
            SensorType::Data
        } else if spec_contains(label, "Activity"@) {
            SensorType::Load
        } else if spec_contains(label, "Level"@) {
            SensorType::Level
        } else {
            SensorType::Data
        }
    } else {
        SensorType::Data
    }
}

/// The hardware type an entry's label suggests.
pub open spec fn spec_aida_hardware_type(label: Seq<char>) -> HardwareType {
    if spec_contains(label, "CPU"@) {
        HardwareType::CPU
    } else if spec_contains(label, "GPU"@) || spec_contains(label, "Graphics"@) {
        if spec_contains(label, "NVIDIA"@) {
            HardwareType::GpuNvidia
        } else if spec_contains(label, "ATI"@) || spec_contains(label, "AMD"@) {
            HardwareType::GpuAti
        } else {
            HardwareType::ALL
        }
    } else if spec_contains(label, "Memory"@) || spec_contains(label, "DIMM"@) {
        HardwareType::RAM
    } else if spec_contains(label, "Motherboard"@) || spec_contains(label, "MOBO"@) {
        HardwareType::Mainboard
    } else if spec_contains(label, "Disk"@) || spec_contains(label, "Drive"@) {
        HardwareType::HDD
    } else {
        HardwareType::ALL
    }
}

impl AIDA64Sensor {
    /// Classifies this entry's sensor type from its tag letter and,
    /// for system entries, its label.
    pub fn parse_sensor_type(&self) -> (r: SensorType)
        ensures
            r == spec_aida_sensor_type(self.Type@, self.Label@),
    {
        let ty = self.Type.as_str();
        if ty.is_empty() {
            return SensorType::Data;
        }
        let c = ty.get_char(0);
        if c == 'T' {
            SensorType::Temperature
        } else if c == 'V' {
            SensorType::Voltage
        } else if c == 'P' {
            SensorType::Power
        } else if c == 'F' {
            SensorType::Fan
        } else if c == 'C' {
            SensorType::Control
        } else if c == 'D' {
            SensorType::Data
        } else if c == 'S' {
            let label = self.Label.as_str();
            if str_contains(label, "CPU") {
                if str_contains(label, "Core #") && str_contains(label, "Clock") {
                    SensorType::Clock
                } else if str_eq(label, "CPU Clock") {
                    SensorType::ClockAverage
                } else if str_contains(label, "FSB") {
                    SensorType::FSB
                } else if str_contains(label, "Multiplier") {
                    SensorType::Multiplexer
                } else if str_contains(label, "Utilization") {
                    SensorType::Load
                } else {
                    SensorType::Data
                }
            } else if str_contains(label, "Rate") || str_contains(label, "Speed") {
                SensorType::DataRate
            } else if str_contains(label, "Space") || str_contains(label, "Size") {
                SensorType::Data
            } else if str_contains(label, "Memory") {
                SensorType::Data
            } else if str_contains(label, "Activity") {
                SensorType::Load
            } else if str_contains(label, "Level") {
                SensorType::Level
            } else {
                SensorType::Data
            }
        } else {
            SensorType::Data
        }
    }

    /// Classifies this entry's hardware type from its label.
    pub fn parse_hardware_type(&self) -> (r: HardwareType)
        ensures
            r == spec_aida_hardware_type(self.Label@),
    {
        let label = self.Label.as_str();
        if str_contains(label, "CPU") {
            HardwareType::CPU
        } else if str_contains(label, "GPU") || str_contains(label, "Graphics") {
            if str_contains(label, "NVIDIA") {
                HardwareType::GpuNvidia
            } else if str_contains(label, "ATI") || str_contains(label, "AMD") {
                HardwareType::GpuAti
            } else {
                HardwareType::ALL
            }
        } else if str_contains(label, "Memory") || str_contains(label, "DIMM") {
            HardwareType::RAM
        } else if str_contains(label, "Motherboard") || str_contains(label, "MOBO") {
            HardwareType::Mainboard
        } else if str_contains(label, "Disk") || str_contains(label, "Drive") {
            HardwareType::HDD
        } else {
            HardwareType::ALL
        }
    }
}

} // verus!
