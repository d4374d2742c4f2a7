//! Battery report: the first battery's state, or the reason there is none.
use vstd::prelude::*;

use crate::format::{duration_text, format_duration};
use crate::platform::{supports_battery, Target};

verus! {

/// Charging state as the power API reports it.
#[derive(Clone, Copy, PartialEq, Eq, Structural, Debug)]
pub enum BatteryState {
    Charging,
    Discharging,
    Full,
    Empty,
    Unknown,
}

/// Readings of one battery. Charge and health are in hundredths of a
/// percent, times in seconds, the temperature in tenths of a degree Celsius.
pub struct BatteryReading {
    pub state: BatteryState,
    pub percentage: u32,
    pub time_to_full: Option<u64>,
    pub time_to_empty: Option<u64>,
    pub health: u32,
    pub technology: String,
    pub temperature: Option<i32>,
}

/// What the power API gave when asked for the batteries.
pub enum BatteryOutcome {
    /// The battery manager could not be set up.
    ManagerFailed(String),
    /// The list of batteries could not be obtained.
    AccessFailed(String),
    /// A battery in the list could not be read.
    EnumerationFailed(String),
    /// The readings of every battery, in the order the API lists them.
    Listed(Vec<BatteryReading>),
}

/// One battery as reported: charge and health in hundredths of a percent,
/// times as "XhYm", temperature in tenths of a degree Celsius.
pub struct BatteryData {
    pub state: String,
    pub percentage: u32,
    pub time_to_full: Option<String>,
    pub time_to_empty: Option<String>,
    pub health: u32,
    pub technology: String,
    pub temperature: Option<i32>,
}

/// The battery report: exactly one of `data` and `error` is present.
pub struct BatteryInfo {
    pub data: Option<BatteryData>,
    pub error: Option<String>,
}

/// Name of a charging state.
pub open spec fn state_text(s: BatteryState) -> Seq<char> {
    match s {
        BatteryState::Charging => "Charging"@,
        BatteryState::Discharging => "Discharging"@,
        BatteryState::Full => "Full"@,
        BatteryState::Empty => "Empty"@,
        BatteryState::Unknown => "Unknown"@,
    }
}

/// An optional time in seconds, written as hours and minutes.
pub open spec fn opt_duration_text(t: Option<u64>) -> Option<Seq<char>> {
    match t {
        Some(secs) => Some(duration_text(secs as nat)),
        None => None,
    }
}

/// The view of an optional string.
pub open spec fn opt_text(t: Option<String>) -> Option<Seq<char>> {
    match t {
        Some(s) => Some(s@),
        None => None,
    }
}

/// The message for a failed battery query.
pub open spec fn outcome_error_text(o: BatteryOutcome) -> Seq<char> {
    match o {
        BatteryOutcome::ManagerFailed(e) => "Failed to initialize battery manager: "@ + e@,
        BatteryOutcome::AccessFailed(e) => "Failed to access batteries: "@ + e@,
        BatteryOutcome::EnumerationFailed(e) => "Failed to enumerate batteries: "@ + e@,
        BatteryOutcome::Listed(_) => "No battery found (this may be a desktop system)"@,
    }
}

/// The message for a platform where batteries are not supported.
pub open spec fn unsupported_text() -> Seq<char> {
    "Battery information is not supported on 32-bit Windows"@
}

impl BatteryInfo {
    /// Exactly one of data and error is present.
    pub open spec fn wf(&self) -> bool {
        self.data is Some <==> self.error is None
    }

    /// On a platform without battery support, the final report, made without
    /// asking the power API; `None` where the API is to be asked.
    pub fn unsupported_on(target: &Target) -> (r: Option<BatteryInfo>)
        ensures
            r is Some <==> !supports_battery(*target),
            r matches Some(info) ==> {
                &&& info.wf()
                &&& info.data is None
                &&& info.error matches Some(m) && m@ == unsupported_text()
            },
    {
        if target.battery_supported() {
            None
        } else {
            Some(
                BatteryInfo {
                    data: None,
                    error: Some(
                        String::from_str("Battery information is not supported on 32-bit Windows"),
                    ),
                },
            )
        }
    }

    /// Builds the report from the power API's answer: the readings of the
    /// first battery listed, or a message that names the failure. A machine
    /// without a battery gets a message too.
    pub fn collect(outcome: BatteryOutcome) -> (r: BatteryInfo)
        ensures
            r.wf(),
            match outcome {
                BatteryOutcome::Listed(v) if v@.len() > 0 => r.data matches Some(d) && {
                    let b = v@[0];
                    &&& d.state@ == state_text(b.state)
                    &&& d.percentage == b.percentage
                    &&& opt_text(d.time_to_full) == opt_duration_text(b.time_to_full)
                    &&& opt_text(d.time_to_empty) == opt_duration_text(b.time_to_empty)
                    &&& d.health == b.health
                    &&& d.technology@ == b.technology@
                    &&& d.temperature == b.temperature
                },
                _ => r.error matches Some(m) && m@ == outcome_error_text(outcome),
            },
    {
        match outcome {
            BatteryOutcome::ManagerFailed(e) => BatteryInfo {
                data: None,
                error: Some(
                    String::from_str("Failed to initialize battery manager: ").concat(e.as_str()),
                ),
            },
            BatteryOutcome::AccessFailed(e) => BatteryInfo {
                data: None,
                error: Some(String::from_str("Failed to access batteries: ").concat(e.as_str())),
            },
            BatteryOutcome::EnumerationFailed(e) => BatteryInfo {
                data: None,
                error: Some(String::from_str("Failed to enumerate batteries: ").concat(e.as_str())),
            },
            BatteryOutcome::Listed(mut v) => {
                if v.len() == 0 {
                    return BatteryInfo {
                        data: None,
                        error: Some(
                            String::from_str("No battery found (this may be a desktop system)"),
                        ),
                    };
                }
                let b = v.swap_remove(0);
                let state = match b.state {
                    BatteryState::Charging => String::from_str("Charging"),
                    BatteryState::Discharging => String::from_str("Discharging"),
                    BatteryState::Full => String::from_str("Full"),
                    BatteryState::Empty => String::from_str("Empty"),
                    BatteryState::Unknown => String::from_str("Unknown"),
                };
                let time_to_full = match b.time_to_full {
                    Some(secs) => Some(format_duration(secs)),
                    None => None,
                };
                let time_to_empty = match b.time_to_empty {
                    Some(secs) => Some(format_duration(secs)),
                    None => None,
                };
                BatteryInfo {
                    data: Some(
                        BatteryData {
                            state,
                            percentage: b.percentage,
                            time_to_full,
                            time_to_empty,
                            health: b.health,
                            technology: b.technology,
                            temperature: b.temperature,
                        },
                    ),
                    error: None,
                }
            },
        }
    }
}

} // verus!
