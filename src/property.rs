use vstd::prelude::*;

verus! {

/// A property of the device that can be read back over a feature report.
#[derive(Debug, Clone, Copy, PartialEq, Eq, Structural)]
pub enum Property {
    Color,
    Distance,
    Dpi,
    PollingRate,
}

/// The opcode with which the device is told to configure `p`.
pub open spec fn write_opcode(p: Property) -> u8 {
    match p {
        Property::Color => 0xB2,
        Property::Dpi => 0x96,
        Property::PollingRate => 0x83,
        Property::Distance => 0xB8,
    }
}

/// The opcode with which the device is asked for the current value of `p`.
pub open spec fn read_opcode(p: Property) -> u8 {
    match p {
        Property::Color => 0xB3,
        Property::Dpi => 0x97,
        Property::PollingRate => 0x84,
        Property::Distance => 0xB6,
    }
}

impl Property {
    /// The opcode that configures this property.
    pub fn as_write_byte(self) -> (r: u8)
        ensures
            r == write_opcode(self),
    {
        match self {
            Property::Color => 0xB2,
            Property::Dpi => 0x96,
            Property::PollingRate => 0x83,
            Property::Distance => 0xB8,
        }
    }

    /// The read opcode is derived from the write opcode: two below it for
    /// `Distance`, one above it for every other property.
    pub fn as_read_byte(self) -> (r: u8)
        ensures
            r == read_opcode(self),
            self == Property::Distance ==> r as int == write_opcode(self) - 2,
            self != Property::Distance ==> r as int == write_opcode(self) + 1,
    {
        if self == Property::Distance {
            self.as_write_byte() - 2
        } else {
            self.as_write_byte() + 1
        }
    }
}

/// The lift-off distance of the sensor.
#[derive(Debug, Clone, Copy, PartialEq, Eq, Structural)]
pub enum Distance {
    Two,
    Three,
}

/// How often the device reports to the host.
#[derive(Debug, Clone, Copy, PartialEq, Eq, Structural)]
pub enum PollingRate {
    Rate1000,
    Rate500,
    Rate125,
}

/// The distance that the wire byte `b` stands for, if any.
pub open spec fn distance_of(b: u8) -> Option<Distance> {
    if b == 0 {
        Some(Distance::Two)
    } else if b == 1 {
        Some(Distance::Three)
    } else {
        None
    }
}

/// The polling rate that the wire byte `b` stands for, if any.
pub open spec fn polling_rate_of(b: u8) -> Option<PollingRate> {
    if b == 0 {
        Some(PollingRate::Rate1000)
    } else if b == 1 {
        Some(PollingRate::Rate500)
    } else if b == 2 {
        Some(PollingRate::Rate125)
    } else {
        None
    }
}

impl Distance {
    /// Decodes a wire byte; `None` for a byte that names no distance.
    pub fn from_byte(byte: u8) -> (r: Option<Distance>)
        ensures
            r == distance_of(byte),
    {
        match byte {
            0 => Some(Distance::Two),
            1 => Some(Distance::Three),
            _ => None,
        }
    }
}

impl PollingRate {
    /// Decodes a wire byte; `None` for a byte that names no rate.
    pub fn from_byte(byte: u8) -> (r: Option<PollingRate>)
        ensures
            r == polling_rate_of(byte),
    {
        match byte {
            0 => Some(PollingRate::Rate1000),
            1 => Some(PollingRate::Rate500),
            2 => Some(PollingRate::Rate125),
            _ => None,
        }
    }
}

/// A decoded property value, tagged with the property it belongs to.
#[derive(Debug, Clone, Copy, PartialEq, Eq, Structural)]
pub enum PropertyValue {
    Color(u32),
    Distance(Distance),
    Dpi(u32),
    PollingRate(PollingRate),
}

impl PropertyValue {
    /// The property that this value answers.
    pub open spec fn property(self) -> Property {
        match self {
            PropertyValue::Color(_) => Property::Color,
            PropertyValue::Distance(_) => Property::Distance,
            PropertyValue::Dpi(_) => Property::Dpi,
            PropertyValue::PollingRate(_) => Property::PollingRate,
        }
    }
}

} // verus!
