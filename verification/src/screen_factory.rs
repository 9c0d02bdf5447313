//! The registry: resolves the closed set of screen identifiers to
//! screen kinds. Resolution of a list is all-or-nothing: one unknown
//! identifier rejects the whole list and constructs nothing.

use vstd::prelude::*;
use vstd::string::*;
use crate::screens::ScreenKind;
use crate::text::str_eq;

verus! {

/// Rejection of an identifier outside the closed set; carries the
/// identifier.
#[derive(Clone, Debug)]
pub enum ScreenError {
    UnknownScreen(String),
}

impl ScreenError {
    /// The rejected identifier.
    pub fn unknown_name(&self) -> (r: &String)
        ensures
            *self matches ScreenError::UnknownScreen(t) && r@ == t@,
    {
        match self {
            ScreenError::UnknownScreen(t) => t,
        }
    }
}

/// The screen kind an identifier resolves to, if any.
pub open spec fn kind_of_name(s: Seq<char>) -> Option<ScreenKind> {
    if s == "network"@ {
        Some(ScreenKind::Network)
    } else if s == "system"@ {
        Some(ScreenKind::System)
    } else if s == "storage"@ {
        Some(ScreenKind::Storage)
    } else if s == "hardware"@ {
        Some(ScreenKind::Hardware)
    } else if s == "temperature"@ {
        Some(ScreenKind::Temperature)
    } else if s == "gpio"@ {
        Some(ScreenKind::Gpio)
    } else if s == "overview"@ {
        Some(ScreenKind::Overview)
    } else {
        None
    }
}

/// Is the identifier one of the closed set?
pub open spec fn is_known_screen(s: Seq<char>) -> bool {
    kind_of_name(s) is Some
}

/// Resolves screen identifiers to screen kinds.
pub struct ScreenFactory;

impl ScreenFactory {
    /// Resolves one identifier; an unknown one is a hard
    /// `UnknownScreen` error.
    pub fn create_screen(screen_type: &str) -> (r: Result<ScreenKind, ScreenError>)
        ensures
            is_known_screen(screen_type@) ==> r == Result::<ScreenKind, ScreenError>::Ok(
                kind_of_name(screen_type@)->0,
            ),
            !is_known_screen(screen_type@) ==> (r matches Err(ScreenError::UnknownScreen(t))
                && t@ == screen_type@),
    {
        if str_eq(screen_type, "network") {
            Ok(ScreenKind::Network)
        } else if str_eq(screen_type, "system") {
            Ok(ScreenKind::System)
        } else if str_eq(screen_type, "storage") {
            Ok(ScreenKind::Storage)
        } else if str_eq(screen_type, "hardware") {
            Ok(ScreenKind::Hardware)
        } else if str_eq(screen_type, "temperature") {
            Ok(ScreenKind::Temperature)
        } else if str_eq(screen_type, "gpio") {
            Ok(ScreenKind::Gpio)
        } else if str_eq(screen_type, "overview") {
            Ok(ScreenKind::Overview)
        } else {
            Err(ScreenError::UnknownScreen(screen_type.to_owned()))
        }
    }

    /// Resolves a list of identifiers, all or nothing: the result is
    /// either every screen, in order, or the error for the first
    /// unknown identifier, with nothing constructed.
    pub fn create_screens(screen_types: &Vec<&str>) -> (r: Result<Vec<ScreenKind>, ScreenError>)
        ensures
            (r is Ok) <==> (forall|i: int|
                0 <= i < screen_types@.len() ==> is_known_screen(screen_types@[i]@)),
            r matches Ok(v) ==> v@.len() == screen_types@.len() && (forall|i: int|
                0 <= i < v@.len() ==> Some(v@[i]) == kind_of_name(screen_types@[i]@)),
            r matches Err(ScreenError::UnknownScreen(t)) ==> exists|j: int|
                0 <= j < screen_types@.len() && t@ == screen_types@[j]@ && !is_known_screen(t@)
                    && (forall|k: int| 0 <= k < j ==> is_known_screen(screen_types@[k]@)),
    {
        let mut kinds: Vec<ScreenKind> = Vec::new();
        let mut i: usize = 0;
        while i < screen_types.len()
            invariant
                0 <= i <= screen_types@.len(),
                kinds@.len() == i,
                forall|k: int| 0 <= k < i ==> is_known_screen(screen_types@[k]@),
                forall|k: int| 0 <= k < i ==> Some(kinds@[k]) == kind_of_name(screen_types@[k]@),
            decreases screen_types@.len() - i,
        {
            match Self::create_screen(screen_types[i]) {
                Ok(kind) => {
                    kinds.push(kind);
                },
                Err(e) => {
                    return Err(e);
                },
            }
            i += 1;
        }
        Ok(kinds)
    }

    /// Every identifier of the closed set, in its fixed order.
    pub fn get_available_screens() -> (r: Vec<&'static str>)
        ensures
            r@.len() == 7,
            r@[0]@ == "network"@,
            r@[1]@ == "system"@,
            r@[2]@ == "storage"@,
            r@[3]@ == "hardware"@,
            r@[4]@ == "temperature"@,
            r@[5]@ == "gpio"@,
            r@[6]@ == "overview"@,
    {
        let mut v: Vec<&'static str> = Vec::new();
        v.push("network");
        v.push("system");
        v.push("storage");
        v.push("hardware");
        v.push("temperature");
        v.push("gpio");
        v.push("overview");
        v
    }

    /// Each identifier of the closed set with a one-line description.
    pub fn get_screen_descriptions() -> (r: Vec<(&'static str, &'static str)>)
        ensures
            r@.len() == 7,
            r@[0].0@ == "network"@,
            r@[1].0@ == "system"@,
            r@[2].0@ == "storage"@,
            r@[3].0@ == "hardware"@,
            r@[4].0@ == "temperature"@,
            r@[5].0@ == "gpio"@,
            r@[6].0@ == "overview"@,
            r@[0].1@ == "Display hostname, domain, IP address, and MAC address"@,
            r@[1].1@ == "Show CPU temperature, uptime, and boot partition"@,
            r@[2].1@ == "Display memory usage and disk usage information"@,
            r@[3].1@ == "Show Pi model, serial number, and firmware version"@,
            r@[4].1@ == "Display CPU/GPU temperatures, frequency, and throttling status"@,
            r@[5].1@ == "Show I2C devices, GPIO states, SPI devices, and 1-Wire sensors"@,
            r@[6].1@ == "Combined view with all essential system information"@,
    {
        let mut v: Vec<(&'static str, &'static str)> = Vec::new();
        v.push(("network", "Display hostname, domain, IP address, and MAC address"));
        v.push(("system", "Show CPU temperature, uptime, and boot partition"));
        v.push(("storage", "Display memory usage and disk usage information"));
        v.push(("hardware", "Show Pi model, serial number, and firmware version"));
        v.push(("temperature", "Display CPU/GPU temperatures, frequency, and throttling status"));
        v.push(("gpio", "Show I2C devices, GPIO states, SPI devices, and 1-Wire sensors"));
        v.push(("overview", "Combined view with all essential system information"));
        v
    }

    /// Does the identifier belong to the closed set?
    pub fn validate_screen_type(screen_type: &str) -> (r: bool)
        ensures
            r == is_known_screen(screen_type@),
    {
        match Self::create_screen(screen_type) {
            Ok(_) => true,
            Err(_) => false,
        }
    }
}

} // verus!
