//! Metadata of the machine's energy supply and disk: charge and usage
//! percentages with the statuses that describe them, as plain values handed
//! over by whatever queried the hardware.

use vstd::prelude::*;

verus! {

/// Represents the battery charge percentage.
pub type ChargePercentage = u8;

/// Represents the disk usage percentage.
pub type UsagePercentage = u8;

/// Contains the possible statuses for the battery charge.
#[derive(Debug, Clone, Copy, PartialEq, Eq, Structural)]
pub enum ChargeStatus {
    /// The charge is at a critical level (from 0% to 5%).
    Critical,
    /// The charge is at a low level (from 5% to 30%).
    Low,
    /// The charge is at a moderate level (from 30% to 60%).
    Moderate,
    /// The charge is at a high level (from 60% to 100%).
    High,
}

/// The status that describes a charge percentage.
pub open spec fn spec_charge_status(percentage: ChargePercentage) -> ChargeStatus {
    if percentage < 5 {
        ChargeStatus::Critical
    } else if percentage < 30 {
        ChargeStatus::Low
    } else if percentage < 60 {
        ChargeStatus::Moderate
    } else {
        ChargeStatus::High
    }
}

impl From<ChargePercentage> for ChargeStatus {
    fn from(percentage: ChargePercentage) -> (r: Self) {
        if percentage < 5 {
            ChargeStatus::Critical
        } else if percentage < 30 {
            ChargeStatus::Low
        } else if percentage < 60 {
            ChargeStatus::Moderate
        } else {
            ChargeStatus::High
        }
    }
}

impl vstd::std_specs::convert::FromSpecImpl<ChargePercentage> for ChargeStatus {
    open spec fn obeys_from_spec() -> bool {
        true
    }

    open spec fn from_spec(percentage: ChargePercentage) -> Self {
        spec_charge_status(percentage)
    }
}

/// The state the energy supply reports for a battery.
#[derive(Debug, Clone, Copy, PartialEq, Eq, Structural)]
pub enum PowerState {
    /// The state cannot be determined.
    Unknown,
    /// The battery is gaining charge.
    Charging,
    /// The battery is losing charge.
    Discharging,
    /// The battery is empty.
    Empty,
    /// The battery is full.
    Full,
}

/// Whether a power state counts as charging: charging, full, and unknown
/// states all display the charging decorations.
pub open spec fn spec_is_charging(state: PowerState) -> bool {
    state == PowerState::Charging || state == PowerState::Full || state == PowerState::Unknown
}

/// One battery as the energy supply reported it.
#[derive(Debug, Clone, Copy, PartialEq, Eq, Structural)]
pub struct BatteryReading {
    /// The charge percentage of the battery.
    pub percentage: ChargePercentage,
    /// The state of the battery.
    pub state: PowerState,
}

/// Represents the battery charge metadata.
#[derive(Debug, Clone, Copy, PartialEq, Eq, Structural)]
pub struct Charge {
    /// The current charge percentage.
    pub percentage: ChargePercentage,
    /// A boolean that states the battery is being charged.
    pub is_charging: bool,
}

impl Charge {
    /// Gets the battery status that better describes its current charge.
    pub fn status(&self) -> (r: ChargeStatus)
        ensures
            r == spec_charge_status(self.percentage),
    {
        ChargeStatus::from(self.percentage)
    }
}

/// The charge the first readable battery carries, if any.
pub open spec fn spec_charge(readings: Seq<BatteryReading>) -> Option<Charge> {
    if readings.len() == 0 {
        None
    } else {
        Some(
            Charge {
                percentage: readings[0].percentage,
                is_charging: spec_is_charging(readings[0].state),
            },
        )
    }
}

/// Gets the charge metadata of the battery from the readable batteries the
/// energy supply enumerated: the first battery read, or `None` where the
/// machine has none.
pub fn charge(readings: &Vec<BatteryReading>) -> (r: Option<Charge>)
    ensures
        r == spec_charge(readings@),
{
    if readings.len() == 0 {
        None
    } else {
        let first = readings[0];
        let is_charging = match first.state {
            PowerState::Charging => true,
            PowerState::Full => true,
            PowerState::Unknown => true,
            _ => false,
        };
        Some(Charge { percentage: first.percentage, is_charging })
    }
}

/// Contains the possible statuses for the disk usage.
#[derive(Debug, Clone, Copy, PartialEq, Eq, Structural)]
pub enum UsageStatus {
    /// The usage is low (0% to 60%).
    Low,
    /// The usage is moderate (60% to 80%).
    Moderate,
    /// The usage is high (80% to 100%).
    High,
}

/// The status that describes a usage percentage.
pub open spec fn spec_usage_status(percentage: UsagePercentage) -> UsageStatus {
    if percentage < 60 {
        UsageStatus::Low
    } else if percentage < 80 {
        UsageStatus::Moderate
    } else {
        UsageStatus::High
    }
}

impl From<UsagePercentage> for UsageStatus {
    fn from(percentage: UsagePercentage) -> (r: Self) {
        if percentage < 60 {
            UsageStatus::Low
        } else if percentage < 80 {
            UsageStatus::Moderate
        } else {
            UsageStatus::High
        }
    }
}

impl vstd::std_specs::convert::FromSpecImpl<UsagePercentage> for UsageStatus {
    open spec fn obeys_from_spec() -> bool {
        true
    }

    open spec fn from_spec(percentage: UsagePercentage) -> Self {
        spec_usage_status(percentage)
    }
}

/// Represents the disk usage metadata.
#[derive(Debug, Clone, Copy, PartialEq, Eq, Structural)]
pub struct Usage(pub UsagePercentage);

impl Usage {
    /// Gets the disk status that better describes its current usage.
    pub fn status(&self) -> (r: UsageStatus)
        ensures
            r == spec_usage_status(self.0),
    {
        UsageStatus::from(self.0)
    }
}

} // verus!
