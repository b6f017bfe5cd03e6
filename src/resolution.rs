use vstd::prelude::*;

verus! {

/// Conversion resolution of the sensor. Each variant stands for its
/// configuration register pattern, given by `config_register_of`.
#[derive(Clone, Copy, Debug, PartialEq, Eq, Structural)]
pub enum ResolutionAsync {
    Bits9,
    Bits10,
    Bits11,
    Bits12,
}

/// The configuration register byte that selects a resolution.
pub open spec fn config_register_of(r: ResolutionAsync) -> u8 {
    match r {
        ResolutionAsync::Bits9 => 0x1F,
        ResolutionAsync::Bits10 => 0x3F,
        ResolutionAsync::Bits11 => 0x5F,
        ResolutionAsync::Bits12 => 0x7F,
    }
}

/// The resolution that a configuration register byte selects, if any.
pub open spec fn resolution_of_register(config: u8) -> Option<ResolutionAsync> {
    if config == 0x1F {
        Some(ResolutionAsync::Bits9)
    } else if config == 0x3F {
        Some(ResolutionAsync::Bits10)
    } else if config == 0x5F {
        Some(ResolutionAsync::Bits11)
    } else if config == 0x7F {
        Some(ResolutionAsync::Bits12)
    } else {
        None
    }
}

/// Worst-case conversion time in milliseconds.
pub open spec fn measurement_time_of(r: ResolutionAsync) -> u32 {
    match r {
        ResolutionAsync::Bits9 => 94,
        ResolutionAsync::Bits10 => 188,
        ResolutionAsync::Bits11 => 375,
        ResolutionAsync::Bits12 => 750,
    }
}

/// What one unit of the raw temperature register is divided by to give
/// degrees Celsius.
pub open spec fn divisor_of(r: ResolutionAsync) -> u16 {
    match r {
        ResolutionAsync::Bits9 => 2,
        ResolutionAsync::Bits10 => 4,
        ResolutionAsync::Bits11 => 8,
        ResolutionAsync::Bits12 => 16,
    }
}

impl ResolutionAsync {
    /// How long a conversion at this resolution may take, in milliseconds.
    pub fn max_measurement_time_millis(&self) -> (r: u32)
        ensures
            r == measurement_time_of(*self),
    {
        match self {
            ResolutionAsync::Bits9 => 94,
            ResolutionAsync::Bits10 => 188,
            ResolutionAsync::Bits11 => 375,
            ResolutionAsync::Bits12 => 750,
        }
    }

    /// Decodes a configuration register byte; `None` for any byte that is
    /// not one of the four exact patterns.
    pub fn from_config_register(config: u8) -> (r: Option<ResolutionAsync>)
        ensures
            r == resolution_of_register(config),
    {
        match config {
            0x1F => Some(ResolutionAsync::Bits9),
            0x3F => Some(ResolutionAsync::Bits10),
            0x5F => Some(ResolutionAsync::Bits11),
            0x7F => Some(ResolutionAsync::Bits12),
            _ => None,
        }
    }

    /// The configuration register byte that selects this resolution.
    pub fn to_config_register(self) -> (r: u8)
        ensures
            r == config_register_of(self),
    {
        match self {
            ResolutionAsync::Bits9 => 0x1F,
            ResolutionAsync::Bits10 => 0x3F,
            ResolutionAsync::Bits11 => 0x5F,
            ResolutionAsync::Bits12 => 0x7F,
        }
    }

    /// The divisor that turns a raw temperature at this resolution into
    /// degrees Celsius: 2, 4, 8 or 16 for 9 to 12 bits.
    pub fn divisor(&self) -> (r: u16)
        ensures
            r == divisor_of(*self),
    {
        match self {
            ResolutionAsync::Bits9 => 2,
            ResolutionAsync::Bits10 => 4,
            ResolutionAsync::Bits11 => 8,
            ResolutionAsync::Bits12 => 16,
        }
    }
}

/// Every resolution survives encoding to its register byte and decoding back.
pub proof fn lemma_config_register_round_trip(r: ResolutionAsync)
    ensures
        resolution_of_register(config_register_of(r)) == Some(r),
{
}

/// A register byte decodes to a resolution only if it is that resolution's
/// encoding.
pub proof fn lemma_config_register_exact(config: u8)
    ensures
        resolution_of_register(config) matches Some(r) ==> config_register_of(r) == config,
{
}

} // verus!
