//! Enumerations of the API, with the names that the API gives their values.

use super::error::ConversionError;
use crate::text::{owned, str_eq};
use vstd::prelude::*;

verus! {

/// Cause of this alert.
#[derive(Clone, Copy, Debug, Eq, Hash, Ord, PartialEq, PartialOrd)]
pub enum AlertCause {
    UnknownCause,
    OtherCause,
    TechnicalProblem,
    Strike,
    Demonstration,
    Accident,
    Holiday,
    Weather,
    Maintenance,
    Construction,
    PoliceActivity,
    MedicalEmergency,
}

impl AlertCause {
    /// The name of the value in the API.
    pub open spec fn spec_name(self) -> Seq<char> {
        match self {
            AlertCause::UnknownCause => "UNKNOWN_CAUSE"@,
            AlertCause::OtherCause => "OTHER_CAUSE"@,
            AlertCause::TechnicalProblem => "TECHNICAL_PROBLEM"@,
            AlertCause::Strike => "STRIKE"@,
            AlertCause::Demonstration => "DEMONSTRATION"@,
            AlertCause::Accident => "ACCIDENT"@,
            AlertCause::Holiday => "HOLIDAY"@,
            AlertCause::Weather => "WEATHER"@,
            AlertCause::Maintenance => "MAINTENANCE"@,
            AlertCause::Construction => "CONSTRUCTION"@,
            AlertCause::PoliceActivity => "POLICE_ACTIVITY"@,
            AlertCause::MedicalEmergency => "MEDICAL_EMERGENCY"@,
        }
    }

    /// The value that `name` names in the API, if any.
    pub open spec fn spec_named(name: Seq<char>) -> Option<AlertCause> {
        if name == "UNKNOWN_CAUSE"@ {
            Some(AlertCause::UnknownCause)
        } else if name == "OTHER_CAUSE"@ {
            Some(AlertCause::OtherCause)
        } else if name == "TECHNICAL_PROBLEM"@ {
            Some(AlertCause::TechnicalProblem)
        } else if name == "STRIKE"@ {
            Some(AlertCause::Strike)
        } else if name == "DEMONSTRATION"@ {
            Some(AlertCause::Demonstration)
        } else if name == "ACCIDENT"@ {
            Some(AlertCause::Accident)
        } else if name == "HOLIDAY"@ {
            Some(AlertCause::Holiday)
        } else if name == "WEATHER"@ {
            Some(AlertCause::Weather)
        } else if name == "MAINTENANCE"@ {
            Some(AlertCause::Maintenance)
        } else if name == "CONSTRUCTION"@ {
            Some(AlertCause::Construction)
        } else if name == "POLICE_ACTIVITY"@ {
            Some(AlertCause::PoliceActivity)
        } else if name == "MEDICAL_EMERGENCY"@ {
            Some(AlertCause::MedicalEmergency)
        } else {
            None
        }
    }

    /// The name of the value in the API (what `Display` writes).
    pub fn as_str(&self) -> (r: &'static str)
        ensures
            r@ == self.spec_name(),
    {
        match self {
            AlertCause::UnknownCause => "UNKNOWN_CAUSE",
            AlertCause::OtherCause => "OTHER_CAUSE",
            AlertCause::TechnicalProblem => "TECHNICAL_PROBLEM",
            AlertCause::Strike => "STRIKE",
            AlertCause::Demonstration => "DEMONSTRATION",
            AlertCause::Accident => "ACCIDENT",
            AlertCause::Holiday => "HOLIDAY",
            AlertCause::Weather => "WEATHER",
            AlertCause::Maintenance => "MAINTENANCE",
            AlertCause::Construction => "CONSTRUCTION",
            AlertCause::PoliceActivity => "POLICE_ACTIVITY",
            AlertCause::MedicalEmergency => "MEDICAL_EMERGENCY",
        }
    }

    /// The name of the value in the API, as an owned string.
    pub fn to_string(&self) -> (r: String)
        ensures
            r@ == self.spec_name(),
    {
        owned(self.as_str())
    }

    /// The value that `value` names; an "invalid value" error where it names none.
    pub fn parse(value: &str) -> (r: Result<AlertCause, ConversionError>)
        ensures
            match r {
                Ok(v) => AlertCause::spec_named(value@) == Some(v),
                Err(e) => AlertCause::spec_named(value@) is None && e@ == "invalid value"@,
            },
    {
        if str_eq(value, "UNKNOWN_CAUSE") {
            Ok(AlertCause::UnknownCause)
        } else if str_eq(value, "OTHER_CAUSE") {
            Ok(AlertCause::OtherCause)
        } else if str_eq(value, "TECHNICAL_PROBLEM") {
            Ok(AlertCause::TechnicalProblem)
        } else if str_eq(value, "STRIKE") {
            Ok(AlertCause::Strike)
        } else if str_eq(value, "DEMONSTRATION") {
            Ok(AlertCause::Demonstration)
        } else if str_eq(value, "ACCIDENT") {
            Ok(AlertCause::Accident)
        } else if str_eq(value, "HOLIDAY") {
            Ok(AlertCause::Holiday)
        } else if str_eq(value, "WEATHER") {
            Ok(AlertCause::Weather)
        } else if str_eq(value, "MAINTENANCE") {
            Ok(AlertCause::Maintenance)
        } else if str_eq(value, "CONSTRUCTION") {
            Ok(AlertCause::Construction)
        } else if str_eq(value, "POLICE_ACTIVITY") {
            Ok(AlertCause::PoliceActivity)
        } else if str_eq(value, "MEDICAL_EMERGENCY") {
            Ok(AlertCause::MedicalEmergency)
        } else {
            Err(ConversionError::new("invalid value"))
        }
    }

    /// The name of every value names that value.
    pub proof fn lemma_named_by_name(self)
        ensures
            AlertCause::spec_named(self.spec_name()) == Some(self),
    {
        broadcast use vstd::string::group_string_axioms;

        reveal_strlit("UNKNOWN_CAUSE");
        reveal_strlit("OTHER_CAUSE");
        reveal_strlit("TECHNICAL_PROBLEM");
        reveal_strlit("STRIKE");
        reveal_strlit("DEMONSTRATION");
        reveal_strlit("ACCIDENT");
        reveal_strlit("HOLIDAY");
        reveal_strlit("WEATHER");
        reveal_strlit("MAINTENANCE");
        reveal_strlit("CONSTRUCTION");
        reveal_strlit("POLICE_ACTIVITY");
        reveal_strlit("MEDICAL_EMERGENCY");
        match self {
            AlertCause::UnknownCause => {},
            AlertCause::OtherCause => {
                assert("OTHER_CAUSE"@.len() != "UNKNOWN_CAUSE"@.len());
            },
            AlertCause::TechnicalProblem => {
                assert("TECHNICAL_PROBLEM"@.len() != "UNKNOWN_CAUSE"@.len());
                assert("TECHNICAL_PROBLEM"@.len() != "OTHER_CAUSE"@.len());
            },
            AlertCause::Strike => {
                assert("STRIKE"@.len() != "UNKNOWN_CAUSE"@.len());
                assert("STRIKE"@.len() != "OTHER_CAUSE"@.len());
                assert("STRIKE"@.len() != "TECHNICAL_PROBLEM"@.len());
            },
            AlertCause::Demonstration => {
                assert("DEMONSTRATION"@[0] != "UNKNOWN_CAUSE"@[0]);
                assert("DEMONSTRATION"@.len() != "OTHER_CAUSE"@.len());
                assert("DEMONSTRATION"@.len() != "TECHNICAL_PROBLEM"@.len());
                assert("DEMONSTRATION"@.len() != "STRIKE"@.len());
            },
            AlertCause::Accident => {
                assert("ACCIDENT"@.len() != "UNKNOWN_CAUSE"@.len());
                assert("ACCIDENT"@.len() != "OTHER_CAUSE"@.len());
                assert("ACCIDENT"@.len() != "TECHNICAL_PROBLEM"@.len());
                assert("ACCIDENT"@.len() != "STRIKE"@.len());
                assert("ACCIDENT"@.len() != "DEMONSTRATION"@.len());
            },
            AlertCause::Holiday => {
                assert("HOLIDAY"@.len() != "UNKNOWN_CAUSE"@.len());
                assert("HOLIDAY"@.len() != "OTHER_CAUSE"@.len());
                assert("HOLIDAY"@.len() != "TECHNICAL_PROBLEM"@.len());
                assert("HOLIDAY"@.len() != "STRIKE"@.len());
                assert("HOLIDAY"@.len() != "DEMONSTRATION"@.len());
                assert("HOLIDAY"@.len() != "ACCIDENT"@.len());
            },
            AlertCause::Weather => {
                assert("WEATHER"@.len() != "UNKNOWN_CAUSE"@.len());
                assert("WEATHER"@.len() != "OTHER_CAUSE"@.len());
                assert("WEATHER"@.len() != "TECHNICAL_PROBLEM"@.len());
                assert("WEATHER"@.len() != "STRIKE"@.len());
                assert("WEATHER"@.len() != "DEMONSTRATION"@.len());
                assert("WEATHER"@.len() != "ACCIDENT"@.len());
                assert("WEATHER"@[0] != "HOLIDAY"@[0]);
            },
            AlertCause::Maintenance => {
                assert("MAINTENANCE"@.len() != "UNKNOWN_CAUSE"@.len());
                assert("MAINTENANCE"@[0] != "OTHER_CAUSE"@[0]);
                assert("MAINTENANCE"@.len() != "TECHNICAL_PROBLEM"@.len());
                assert("MAINTENANCE"@.len() != "STRIKE"@.len());
                assert("MAINTENANCE"@.len() != "DEMONSTRATION"@.len());
                assert("MAINTENANCE"@.len() != "ACCIDENT"@.len());
                assert("MAINTENANCE"@.len() != "HOLIDAY"@.len());
                assert("MAINTENANCE"@.len() != "WEATHER"@.len());
            },
            AlertCause::Construction => {
                assert("CONSTRUCTION"@.len() != "UNKNOWN_CAUSE"@.len());
                assert("CONSTRUCTION"@.len() != "OTHER_CAUSE"@.len());
                assert("CONSTRUCTION"@.len() != "TECHNICAL_PROBLEM"@.len());
                assert("CONSTRUCTION"@.len() != "STRIKE"@.len());
                assert("CONSTRUCTION"@.len() != "DEMONSTRATION"@.len());
                assert("CONSTRUCTION"@.len() != "ACCIDENT"@.len());
                assert("CONSTRUCTION"@.len() != "HOLIDAY"@.len());
                assert("CONSTRUCTION"@.len() != "WEATHER"@.len());
                assert("CONSTRUCTION"@.len() != "MAINTENANCE"@.len());
            },
            AlertCause::PoliceActivity => {
                assert("POLICE_ACTIVITY"@.len() != "UNKNOWN_CAUSE"@.len());
                assert("POLICE_ACTIVITY"@.len() != "OTHER_CAUSE"@.len());
                assert("POLICE_ACTIVITY"@.len() != "TECHNICAL_PROBLEM"@.len());
                assert("POLICE_ACTIVITY"@.len() != "STRIKE"@.len());
                assert("POLICE_ACTIVITY"@.len() != "DEMONSTRATION"@.len());
                assert("POLICE_ACTIVITY"@.len() != "ACCIDENT"@.len());
                assert("POLICE_ACTIVITY"@.len() != "HOLIDAY"@.len());
                assert("POLICE_ACTIVITY"@.len() != "WEATHER"@.len());
                assert("POLICE_ACTIVITY"@.len() != "MAINTENANCE"@.len());
                assert("POLICE_ACTIVITY"@.len() != "CONSTRUCTION"@.len());
            },
            AlertCause::MedicalEmergency => {
                assert("MEDICAL_EMERGENCY"@.len() != "UNKNOWN_CAUSE"@.len());
                assert("MEDICAL_EMERGENCY"@.len() != "OTHER_CAUSE"@.len());
                assert("MEDICAL_EMERGENCY"@[0] != "TECHNICAL_PROBLEM"@[0]);
                assert("MEDICAL_EMERGENCY"@.len() != "STRIKE"@.len());
                assert("MEDICAL_EMERGENCY"@.len() != "DEMONSTRATION"@.len());
                assert("MEDICAL_EMERGENCY"@.len() != "ACCIDENT"@.len());
                assert("MEDICAL_EMERGENCY"@.len() != "HOLIDAY"@.len());
                assert("MEDICAL_EMERGENCY"@.len() != "WEATHER"@.len());
                assert("MEDICAL_EMERGENCY"@.len() != "MAINTENANCE"@.len());
                assert("MEDICAL_EMERGENCY"@.len() != "CONSTRUCTION"@.len());
                assert("MEDICAL_EMERGENCY"@.len() != "POLICE_ACTIVITY"@.len());
            },
        }
    }

    /// Every value is named by its name, and no two values share a name.
    pub proof fn lemma_name_roundtrip(self)
        ensures
            AlertCause::spec_named(self.spec_name()) == Some(self),
            forall|other: AlertCause| #[trigger] other.spec_name() == self.spec_name() ==> other == self,
    {
        self.lemma_named_by_name();
        assert forall|other: AlertCause| #[trigger] other.spec_name() == self.spec_name() implies other == self by {
            other.lemma_named_by_name();
        }
    }
}

impl core::str::FromStr for AlertCause {
    type Err = ConversionError;

    fn from_str(value: &str) -> (r: Result<Self, ConversionError>)
        ensures
            match r {
                Ok(v) => AlertCause::spec_named(value@) == Some(v),
                Err(e) => AlertCause::spec_named(value@) is None && e@ == "invalid value"@,
            },
    {
        AlertCause::parse(value)
    }
}

impl From<&AlertCause> for AlertCause {
    fn from(value: &AlertCause) -> (r: Self) {
        *value
    }
}

impl vstd::std_specs::convert::FromSpecImpl<&AlertCause> for AlertCause {
    open spec fn obeys_from_spec() -> bool {
        true
    }

    open spec fn from_spec(v: &AlertCause) -> Self {
        *v
    }
}

/// The effect of this problem on the affected entity.
#[derive(Clone, Copy, Debug, Eq, Hash, Ord, PartialEq, PartialOrd)]
pub enum AlertEffect {
    NoService,
    ReducedService,
    SignificantDelays,
    Detour,
    AdditionalService,
    ModifiedService,
    OtherEffect,
    UnknownEffect,
    StopMoved,
    NoEffect,
    AccessibilityIssue,
}

impl AlertEffect {
    /// The name of the value in the API.
    pub open spec fn spec_name(self) -> Seq<char> {
        match self {
            AlertEffect::NoService => "NO_SERVICE"@,
            AlertEffect::ReducedService => "REDUCED_SERVICE"@,
            AlertEffect::SignificantDelays => "SIGNIFICANT_DELAYS"@,
            AlertEffect::Detour => "DETOUR"@,
            AlertEffect::AdditionalService => "ADDITIONAL_SERVICE"@,
            AlertEffect::ModifiedService => "MODIFIED_SERVICE"@,
            AlertEffect::OtherEffect => "OTHER_EFFECT"@,
            AlertEffect::UnknownEffect => "UNKNOWN_EFFECT"@,
            AlertEffect::StopMoved => "STOP_MOVED"@,
            AlertEffect::NoEffect => "NO_EFFECT"@,
            AlertEffect::AccessibilityIssue => "ACCESSIBILITY_ISSUE"@,
        }
    }

    /// The value that `name` names in the API, if any.
    pub open spec fn spec_named(name: Seq<char>) -> Option<AlertEffect> {
        if name == "NO_SERVICE"@ {
            Some(AlertEffect::NoService)
        } else if name == "REDUCED_SERVICE"@ {
            Some(AlertEffect::ReducedService)
        } else if name == "SIGNIFICANT_DELAYS"@ {
            Some(AlertEffect::SignificantDelays)
        } else if name == "DETOUR"@ {
            Some(AlertEffect::Detour)
        } else if name == "ADDITIONAL_SERVICE"@ {
            Some(AlertEffect::AdditionalService)
        } else if name == "MODIFIED_SERVICE"@ {
            Some(AlertEffect::ModifiedService)
        } else if name == "OTHER_EFFECT"@ {
            Some(AlertEffect::OtherEffect)
        } else if name == "UNKNOWN_EFFECT"@ {
            Some(AlertEffect::UnknownEffect)
        } else if name == "STOP_MOVED"@ {
            Some(AlertEffect::StopMoved)
        } else if name == "NO_EFFECT"@ {
            Some(AlertEffect::NoEffect)
        } else if name == "ACCESSIBILITY_ISSUE"@ {
            Some(AlertEffect::AccessibilityIssue)
        } else {
            None
        }
    }

    /// The name of the value in the API (what `Display` writes).
    pub fn as_str(&self) -> (r: &'static str)
        ensures
            r@ == self.spec_name(),
    {
        match self {
            AlertEffect::NoService => "NO_SERVICE",
            AlertEffect::ReducedService => "REDUCED_SERVICE",
            AlertEffect::SignificantDelays => "SIGNIFICANT_DELAYS",
            AlertEffect::Detour => "DETOUR",
            AlertEffect::AdditionalService => "ADDITIONAL_SERVICE",
            AlertEffect::ModifiedService => "MODIFIED_SERVICE",
            AlertEffect::OtherEffect => "OTHER_EFFECT",
            AlertEffect::UnknownEffect => "UNKNOWN_EFFECT",
            AlertEffect::StopMoved => "STOP_MOVED",
            AlertEffect::NoEffect => "NO_EFFECT",
            AlertEffect::AccessibilityIssue => "ACCESSIBILITY_ISSUE",
        }
    }

    /// The name of the value in the API, as an owned string.
    pub fn to_string(&self) -> (r: String)
        ensures
            r@ == self.spec_name(),
    {
        owned(self.as_str())
    }

    /// The value that `value` names; an "invalid value" error where it names none.
    pub fn parse(value: &str) -> (r: Result<AlertEffect, ConversionError>)
        ensures
            match r {
                Ok(v) => AlertEffect::spec_named(value@) == Some(v),
                Err(e) => AlertEffect::spec_named(value@) is None && e@ == "invalid value"@,
            },
    {
        if str_eq(value, "NO_SERVICE") {
            Ok(AlertEffect::NoService)
        } else if str_eq(value, "REDUCED_SERVICE") {
            Ok(AlertEffect::ReducedService)
        } else if str_eq(value, "SIGNIFICANT_DELAYS") {
            Ok(AlertEffect::SignificantDelays)
        } else if str_eq(value, "DETOUR") {
            Ok(AlertEffect::Detour)
        } else if str_eq(value, "ADDITIONAL_SERVICE") {
            Ok(AlertEffect::AdditionalService)
        } else if str_eq(value, "MODIFIED_SERVICE") {
            Ok(AlertEffect::ModifiedService)
        } else if str_eq(value, "OTHER_EFFECT") {
            Ok(AlertEffect::OtherEffect)
        } else if str_eq(value, "UNKNOWN_EFFECT") {
            Ok(AlertEffect::UnknownEffect)
        } else if str_eq(value, "STOP_MOVED") {
            Ok(AlertEffect::StopMoved)
        } else if str_eq(value, "NO_EFFECT") {
            Ok(AlertEffect::NoEffect)
        } else if str_eq(value, "ACCESSIBILITY_ISSUE") {
            Ok(AlertEffect::AccessibilityIssue)
        } else {
            Err(ConversionError::new("invalid value"))
        }
    }

    /// The name of every value names that value.
    pub proof fn lemma_named_by_name(self)
        ensures
            AlertEffect::spec_named(self.spec_name()) == Some(self),
    {
        broadcast use vstd::string::group_string_axioms;

        reveal_strlit("NO_SERVICE");
        reveal_strlit("REDUCED_SERVICE");
        reveal_strlit("SIGNIFICANT_DELAYS");
        reveal_strlit("DETOUR");
        reveal_strlit("ADDITIONAL_SERVICE");
        reveal_strlit("MODIFIED_SERVICE");
        reveal_strlit("OTHER_EFFECT");
        reveal_strlit("UNKNOWN_EFFECT");
        reveal_strlit("STOP_MOVED");
        reveal_strlit("NO_EFFECT");
        reveal_strlit("ACCESSIBILITY_ISSUE");
        match self {
            AlertEffect::NoService => {},
            AlertEffect::ReducedService => {
                assert("REDUCED_SERVICE"@.len() != "NO_SERVICE"@.len());
            },
            AlertEffect::SignificantDelays => {
                assert("SIGNIFICANT_DELAYS"@.len() != "NO_SERVICE"@.len());
                assert("SIGNIFICANT_DELAYS"@.len() != "REDUCED_SERVICE"@.len());
            },
            AlertEffect::Detour => {
                assert("DETOUR"@.len() != "NO_SERVICE"@.len());
                assert("DETOUR"@.len() != "REDUCED_SERVICE"@.len());
                assert("DETOUR"@.len() != "SIGNIFICANT_DELAYS"@.len());
            },
            AlertEffect::AdditionalService => {
                assert("ADDITIONAL_SERVICE"@.len() != "NO_SERVICE"@.len());
                assert("ADDITIONAL_SERVICE"@.len() != "REDUCED_SERVICE"@.len());
                assert("ADDITIONAL_SERVICE"@[0] != "SIGNIFICANT_DELAYS"@[0]);
                assert("ADDITIONAL_SERVICE"@.len() != "DETOUR"@.len());
            },
            AlertEffect::ModifiedService => {
                assert("MODIFIED_SERVICE"@.len() != "NO_SERVICE"@.len());
                assert("MODIFIED_SERVICE"@.len() != "REDUCED_SERVICE"@.len());
                assert("MODIFIED_SERVICE"@.len() != "SIGNIFICANT_DELAYS"@.len());
                assert("MODIFIED_SERVICE"@.len() != "DETOUR"@.len());
                assert("MODIFIED_SERVICE"@.len() != "ADDITIONAL_SERVICE"@.len());
            },
            AlertEffect::OtherEffect => {
                assert("OTHER_EFFECT"@.len() != "NO_SERVICE"@.len());
                assert("OTHER_EFFECT"@.len() != "REDUCED_SERVICE"@.len());
                assert("OTHER_EFFECT"@.len() != "SIGNIFICANT_DELAYS"@.len());
                assert("OTHER_EFFECT"@.len() != "DETOUR"@.len());
                assert("OTHER_EFFECT"@.len() != "ADDITIONAL_SERVICE"@.len());
                assert("OTHER_EFFECT"@.len() != "MODIFIED_SERVICE"@.len());
            },
            AlertEffect::UnknownEffect => {
                assert("UNKNOWN_EFFECT"@.len() != "NO_SERVICE"@.len());
                assert("UNKNOWN_EFFECT"@.len() != "REDUCED_SERVICE"@.len());
                assert("UNKNOWN_EFFECT"@.len() != "SIGNIFICANT_DELAYS"@.len());
                assert("UNKNOWN_EFFECT"@.len() != "DETOUR"@.len());
                assert("UNKNOWN_EFFECT"@.len() != "ADDITIONAL_SERVICE"@.len());
                assert("UNKNOWN_EFFECT"@.len() != "MODIFIED_SERVICE"@.len());
                assert("UNKNOWN_EFFECT"@.len() != "OTHER_EFFECT"@.len());
            },
            AlertEffect::StopMoved => {
                assert("STOP_MOVED"@[0] != "NO_SERVICE"@[0]);
                assert("STOP_MOVED"@.len() != "REDUCED_SERVICE"@.len());
                assert("STOP_MOVED"@.len() != "SIGNIFICANT_DELAYS"@.len());
                assert("STOP_MOVED"@.len() != "DETOUR"@.len());
                assert("STOP_MOVED"@.len() != "ADDITIONAL_SERVICE"@.len());
                assert("STOP_MOVED"@.len() != "MODIFIED_SERVICE"@.len());
                assert("STOP_MOVED"@.len() != "OTHER_EFFECT"@.len());
                assert("STOP_MOVED"@.len() != "UNKNOWN_EFFECT"@.len());
            },
            AlertEffect::NoEffect => {
                assert("NO_EFFECT"@.len() != "NO_SERVICE"@.len());
                assert("NO_EFFECT"@.len() != "REDUCED_SERVICE"@.len());
                assert("NO_EFFECT"@.len() != "SIGNIFICANT_DELAYS"@.len());
                assert("NO_EFFECT"@.len() != "DETOUR"@.len());
                assert("NO_EFFECT"@.len() != "ADDITIONAL_SERVICE"@.len());
                assert("NO_EFFECT"@.len() != "MODIFIED_SERVICE"@.len());
                assert("NO_EFFECT"@.len() != "OTHER_EFFECT"@.len());
                assert("NO_EFFECT"@.len() != "UNKNOWN_EFFECT"@.len());
                assert("NO_EFFECT"@.len() != "STOP_MOVED"@.len());
            },
            AlertEffect::AccessibilityIssue => {
                assert("ACCESSIBILITY_ISSUE"@.len() != "NO_SERVICE"@.len());
                assert("ACCESSIBILITY_ISSUE"@.len() != "REDUCED_SERVICE"@.len());
                assert("ACCESSIBILITY_ISSUE"@.len() != "SIGNIFICANT_DELAYS"@.len());
                assert("ACCESSIBILITY_ISSUE"@.len() != "DETOUR"@.len());
                assert("ACCESSIBILITY_ISSUE"@.len() != "ADDITIONAL_SERVICE"@.len());
                assert("ACCESSIBILITY_ISSUE"@.len() != "MODIFIED_SERVICE"@.len());
                assert("ACCESSIBILITY_ISSUE"@.len() != "OTHER_EFFECT"@.len());
                assert("ACCESSIBILITY_ISSUE"@.len() != "UNKNOWN_EFFECT"@.len());
                assert("ACCESSIBILITY_ISSUE"@.len() != "STOP_MOVED"@.len());
                assert("ACCESSIBILITY_ISSUE"@.len() != "NO_EFFECT"@.len());
            },
        }
    }

    /// Every value is named by its name, and no two values share a name.
    pub proof fn lemma_name_roundtrip(self)
        ensures
            AlertEffect::spec_named(self.spec_name()) == Some(self),
            forall|other: AlertEffect| #[trigger] other.spec_name() == self.spec_name() ==> other == self,
    {
        self.lemma_named_by_name();
        assert forall|other: AlertEffect| #[trigger] other.spec_name() == self.spec_name() implies other == self by {
            other.lemma_named_by_name();
        }
    }
}

impl core::str::FromStr for AlertEffect {
    type Err = ConversionError;

    fn from_str(value: &str) -> (r: Result<Self, ConversionError>)
        ensures
            match r {
                Ok(v) => AlertEffect::spec_named(value@) == Some(v),
                Err(e) => AlertEffect::spec_named(value@) is None && e@ == "invalid value"@,
            },
    {
        AlertEffect::parse(value)
    }
}

impl From<&AlertEffect> for AlertEffect {
    fn from(value: &AlertEffect) -> (r: Self) {
        *value
    }
}

impl vstd::std_specs::convert::FromSpecImpl<&AlertEffect> for AlertEffect {
    open spec fn obeys_from_spec() -> bool {
        true
    }

    open spec fn from_spec(v: &AlertEffect) -> Self {
        *v
    }
}

/// The severity of the alert.
#[derive(Clone, Copy, Debug, Eq, Hash, Ord, PartialEq, PartialOrd)]
pub enum AlertSeverityLevel {
    UnknownSeverity,
    Info,
    Warning,
    Severe,
}

impl AlertSeverityLevel {
    /// The name of the value in the API.
    pub open spec fn spec_name(self) -> Seq<char> {
        match self {
            AlertSeverityLevel::UnknownSeverity => "UNKNOWN_SEVERITY"@,
            AlertSeverityLevel::Info => "INFO"@,
            AlertSeverityLevel::Warning => "WARNING"@,
            AlertSeverityLevel::Severe => "SEVERE"@,
        }
    }

    /// The value that `name` names in the API, if any.
    pub open spec fn spec_named(name: Seq<char>) -> Option<AlertSeverityLevel> {
        if name == "UNKNOWN_SEVERITY"@ {
            Some(AlertSeverityLevel::UnknownSeverity)
        } else if name == "INFO"@ {
            Some(AlertSeverityLevel::Info)
        } else if name == "WARNING"@ {
            Some(AlertSeverityLevel::Warning)
        } else if name == "SEVERE"@ {
            Some(AlertSeverityLevel::Severe)
        } else {
            None
        }
    }

    /// The name of the value in the API (what `Display` writes).
    pub fn as_str(&self) -> (r: &'static str)
        ensures
            r@ == self.spec_name(),
    {
        match self {
            AlertSeverityLevel::UnknownSeverity => "UNKNOWN_SEVERITY",
            AlertSeverityLevel::Info => "INFO",
            AlertSeverityLevel::Warning => "WARNING",
            AlertSeverityLevel::Severe => "SEVERE",
        }
    }

    /// The name of the value in the API, as an owned string.
    pub fn to_string(&self) -> (r: String)
        ensures
            r@ == self.spec_name(),
    {
        owned(self.as_str())
    }

    /// The value that `value` names; an "invalid value" error where it names none.
    pub fn parse(value: &str) -> (r: Result<AlertSeverityLevel, ConversionError>)
        ensures
            match r {
                Ok(v) => AlertSeverityLevel::spec_named(value@) == Some(v),
                Err(e) => AlertSeverityLevel::spec_named(value@) is None && e@ == "invalid value"@,
            },
    {
        if str_eq(value, "UNKNOWN_SEVERITY") {
            Ok(AlertSeverityLevel::UnknownSeverity)
        } else if str_eq(value, "INFO") {
            Ok(AlertSeverityLevel::Info)
        } else if str_eq(value, "WARNING") {
            Ok(AlertSeverityLevel::Warning)
        } else if str_eq(value, "SEVERE") {
            Ok(AlertSeverityLevel::Severe)
        } else {
            Err(ConversionError::new("invalid value"))
        }
    }

    /// The name of every value names that value.
    pub proof fn lemma_named_by_name(self)
        ensures
            AlertSeverityLevel::spec_named(self.spec_name()) == Some(self),
    {
        broadcast use vstd::string::group_string_axioms;

        reveal_strlit("UNKNOWN_SEVERITY");
        reveal_strlit("INFO");
        reveal_strlit("WARNING");
        reveal_strlit("SEVERE");
        match self {
            AlertSeverityLevel::UnknownSeverity => {},
            AlertSeverityLevel::Info => {
                assert("INFO"@.len() != "UNKNOWN_SEVERITY"@.len());
            },
            AlertSeverityLevel::Warning => {
                assert("WARNING"@.len() != "UNKNOWN_SEVERITY"@.len());
                assert("WARNING"@.len() != "INFO"@.len());
            },
            AlertSeverityLevel::Severe => {
                assert("SEVERE"@.len() != "UNKNOWN_SEVERITY"@.len());
                assert("SEVERE"@.len() != "INFO"@.len());
                assert("SEVERE"@.len() != "WARNING"@.len());
            },
        }
    }

    /// Every value is named by its name, and no two values share a name.
    pub proof fn lemma_name_roundtrip(self)
        ensures
            AlertSeverityLevel::spec_named(self.spec_name()) == Some(self),
            forall|other: AlertSeverityLevel| #[trigger] other.spec_name() == self.spec_name() ==> other == self,
    {
        self.lemma_named_by_name();
        assert forall|other: AlertSeverityLevel| #[trigger] other.spec_name() == self.spec_name() implies other == self by {
            other.lemma_named_by_name();
        }
    }
}

impl core::str::FromStr for AlertSeverityLevel {
    type Err = ConversionError;

    fn from_str(value: &str) -> (r: Result<Self, ConversionError>)
        ensures
            match r {
                Ok(v) => AlertSeverityLevel::spec_named(value@) == Some(v),
                Err(e) => AlertSeverityLevel::spec_named(value@) is None && e@ == "invalid value"@,
            },
    {
        AlertSeverityLevel::parse(value)
    }
}

impl From<&AlertSeverityLevel> for AlertSeverityLevel {
    fn from(value: &AlertSeverityLevel) -> (r: Self) {
        *value
    }
}

impl vstd::std_specs::convert::FromSpecImpl<&AlertSeverityLevel> for AlertSeverityLevel {
    open spec fn obeys_from_spec() -> bool {
        true
    }

    open spec fn from_spec(v: &AlertSeverityLevel) -> Self {
        *v
    }
}

/// `Direction`
#[derive(Clone, Copy, Debug, Eq, Hash, Ord, PartialEq, PartialOrd)]
pub enum Direction {
    Depart,
    HardLeft,
    Left,
    SlightlyLeft,
    Continue,
    SlightlyRight,
    Right,
    HardRight,
    CircleClockwise,
    CircleCounterclockwise,
    Stairs,
    Elevator,
    UturnLeft,
    UturnRight,
}

impl Direction {
    /// The name of the value in the API.
    pub open spec fn spec_name(self) -> Seq<char> {
        match self {
            Direction::Depart => "DEPART"@,
            Direction::HardLeft => "HARD_LEFT"@,
            Direction::Left => "LEFT"@,
            Direction::SlightlyLeft => "SLIGHTLY_LEFT"@,
            Direction::Continue => "CONTINUE"@,
            Direction::SlightlyRight => "SLIGHTLY_RIGHT"@,
            Direction::Right => "RIGHT"@,
            Direction::HardRight => "HARD_RIGHT"@,
            Direction::CircleClockwise => "CIRCLE_CLOCKWISE"@,
            Direction::CircleCounterclockwise => "CIRCLE_COUNTERCLOCKWISE"@,
            Direction::Stairs => "STAIRS"@,
            Direction::Elevator => "ELEVATOR"@,
            Direction::UturnLeft => "UTURN_LEFT"@,
            Direction::UturnRight => "UTURN_RIGHT"@,
        }
    }

    /// The value that `name` names in the API, if any.
    pub open spec fn spec_named(name: Seq<char>) -> Option<Direction> {
        if name == "DEPART"@ {
            Some(Direction::Depart)
        } else if name == "HARD_LEFT"@ {
            Some(Direction::HardLeft)
        } else if name == "LEFT"@ {
            Some(Direction::Left)
        } else if name == "SLIGHTLY_LEFT"@ {
            Some(Direction::SlightlyLeft)
        } else if name == "CONTINUE"@ {
            Some(Direction::Continue)
        } else if name == "SLIGHTLY_RIGHT"@ {
            Some(Direction::SlightlyRight)
        } else if name == "RIGHT"@ {
            Some(Direction::Right)
        } else if name == "HARD_RIGHT"@ {
            Some(Direction::HardRight)
        } else if name == "CIRCLE_CLOCKWISE"@ {
            Some(Direction::CircleClockwise)
        } else if name == "CIRCLE_COUNTERCLOCKWISE"@ {
            Some(Direction::CircleCounterclockwise)
        } else if name == "STAIRS"@ {
            Some(Direction::Stairs)
        } else if name == "ELEVATOR"@ {
            Some(Direction::Elevator)
        } else if name == "UTURN_LEFT"@ {
            Some(Direction::UturnLeft)
        } else if name == "UTURN_RIGHT"@ {
            Some(Direction::UturnRight)
        } else {
            None
        }
    }

    /// The name of the value in the API (what `Display` writes).
    pub fn as_str(&self) -> (r: &'static str)
        ensures
            r@ == self.spec_name(),
    {
        match self {
            Direction::Depart => "DEPART",
            Direction::HardLeft => "HARD_LEFT",
            Direction::Left => "LEFT",
            Direction::SlightlyLeft => "SLIGHTLY_LEFT",
            Direction::Continue => "CONTINUE",
            Direction::SlightlyRight => "SLIGHTLY_RIGHT",
            Direction::Right => "RIGHT",
            Direction::HardRight => "HARD_RIGHT",
            Direction::CircleClockwise => "CIRCLE_CLOCKWISE",
            Direction::CircleCounterclockwise => "CIRCLE_COUNTERCLOCKWISE",
            Direction::Stairs => "STAIRS",
            Direction::Elevator => "ELEVATOR",
            Direction::UturnLeft => "UTURN_LEFT",
            Direction::UturnRight => "UTURN_RIGHT",
        }
    }

    /// The name of the value in the API, as an owned string.
    pub fn to_string(&self) -> (r: String)
        ensures
            r@ == self.spec_name(),
    {
        owned(self.as_str())
    }

    /// The value that `value` names; an "invalid value" error where it names none.
    pub fn parse(value: &str) -> (r: Result<Direction, ConversionError>)
        ensures
            match r {
                Ok(v) => Direction::spec_named(value@) == Some(v),
                Err(e) => Direction::spec_named(value@) is None && e@ == "invalid value"@,
            },
    {
        if str_eq(value, "DEPART") {
            Ok(Direction::Depart)
        } else if str_eq(value, "HARD_LEFT") {
            Ok(Direction::HardLeft)
        } else if str_eq(value, "LEFT") {
            Ok(Direction::Left)
        } else if str_eq(value, "SLIGHTLY_LEFT") {
            Ok(Direction::SlightlyLeft)
        } else if str_eq(value, "CONTINUE") {
            Ok(Direction::Continue)
        } else if str_eq(value, "SLIGHTLY_RIGHT") {
            Ok(Direction::SlightlyRight)
        } else if str_eq(value, "RIGHT") {
            Ok(Direction::Right)
        } else if str_eq(value, "HARD_RIGHT") {
            Ok(Direction::HardRight)
        } else if str_eq(value, "CIRCLE_CLOCKWISE") {
            Ok(Direction::CircleClockwise)
        } else if str_eq(value, "CIRCLE_COUNTERCLOCKWISE") {
            Ok(Direction::CircleCounterclockwise)
        } else if str_eq(value, "STAIRS") {
            Ok(Direction::Stairs)
        } else if str_eq(value, "ELEVATOR") {
            Ok(Direction::Elevator)
        } else if str_eq(value, "UTURN_LEFT") {
            Ok(Direction::UturnLeft)
        } else if str_eq(value, "UTURN_RIGHT") {
            Ok(Direction::UturnRight)
        } else {
            Err(ConversionError::new("invalid value"))
        }
    }

    /// The name of every value names that value.
    pub proof fn lemma_named_by_name(self)
        ensures
            Direction::spec_named(self.spec_name()) == Some(self),
    {
        broadcast use vstd::string::group_string_axioms;

        reveal_strlit("DEPART");
        reveal_strlit("HARD_LEFT");
        reveal_strlit("LEFT");
        reveal_strlit("SLIGHTLY_LEFT");
        reveal_strlit("CONTINUE");
        reveal_strlit("SLIGHTLY_RIGHT");
        reveal_strlit("RIGHT");
        reveal_strlit("HARD_RIGHT");
        reveal_strlit("CIRCLE_CLOCKWISE");
        reveal_strlit("CIRCLE_COUNTERCLOCKWISE");
        reveal_strlit("STAIRS");
        reveal_strlit("ELEVATOR");
        reveal_strlit("UTURN_LEFT");
        reveal_strlit("UTURN_RIGHT");
        match self {
            Direction::Depart => {},
            Direction::HardLeft => {
                assert("HARD_LEFT"@.len() != "DEPART"@.len());
            },
            Direction::Left => {
                assert("LEFT"@.len() != "DEPART"@.len());
                assert("LEFT"@.len() != "HARD_LEFT"@.len());
            },
            Direction::SlightlyLeft => {
                assert("SLIGHTLY_LEFT"@.len() != "DEPART"@.len());
                assert("SLIGHTLY_LEFT"@.len() != "HARD_LEFT"@.len());
                assert("SLIGHTLY_LEFT"@.len() != "LEFT"@.len());
            },
            Direction::Continue => {
                assert("CONTINUE"@.len() != "DEPART"@.len());
                assert("CONTINUE"@.len() != "HARD_LEFT"@.len());
                assert("CONTINUE"@.len() != "LEFT"@.len());
                assert("CONTINUE"@.len() != "SLIGHTLY_LEFT"@.len());
            },
            Direction::SlightlyRight => {
                assert("SLIGHTLY_RIGHT"@.len() != "DEPART"@.len());
                assert("SLIGHTLY_RIGHT"@.len() != "HARD_LEFT"@.len());
                assert("SLIGHTLY_RIGHT"@.len() != "LEFT"@.len());
                assert("SLIGHTLY_RIGHT"@.len() != "SLIGHTLY_LEFT"@.len());
                assert("SLIGHTLY_RIGHT"@.len() != "CONTINUE"@.len());
            },
            Direction::Right => {
                assert("RIGHT"@.len() != "DEPART"@.len());
                assert("RIGHT"@.len() != "HARD_LEFT"@.len());
                assert("RIGHT"@.len() != "LEFT"@.len());
                assert("RIGHT"@.len() != "SLIGHTLY_LEFT"@.len());
                assert("RIGHT"@.len() != "CONTINUE"@.len());
                assert("RIGHT"@.len() != "SLIGHTLY_RIGHT"@.len());
            },
            Direction::HardRight => {
                assert("HARD_RIGHT"@.len() != "DEPART"@.len());
                assert("HARD_RIGHT"@.len() != "HARD_LEFT"@.len());
                assert("HARD_RIGHT"@.len() != "LEFT"@.len());
                assert("HARD_RIGHT"@.len() != "SLIGHTLY_LEFT"@.len());
                assert("HARD_RIGHT"@.len() != "CONTINUE"@.len());
                assert("HARD_RIGHT"@.len() != "SLIGHTLY_RIGHT"@.len());
                assert("HARD_RIGHT"@.len() != "RIGHT"@.len());
            },
            Direction::CircleClockwise => {
                assert("CIRCLE_CLOCKWISE"@.len() != "DEPART"@.len());
                assert("CIRCLE_CLOCKWISE"@.len() != "HARD_LEFT"@.len());
                assert("CIRCLE_CLOCKWISE"@.len() != "LEFT"@.len());
                assert("CIRCLE_CLOCKWISE"@.len() != "SLIGHTLY_LEFT"@.len());
                assert("CIRCLE_CLOCKWISE"@.len() != "CONTINUE"@.len());
                assert("CIRCLE_CLOCKWISE"@.len() != "SLIGHTLY_RIGHT"@.len());
                assert("CIRCLE_CLOCKWISE"@.len() != "RIGHT"@.len());
                assert("CIRCLE_CLOCKWISE"@.len() != "HARD_RIGHT"@.len());
            },
            Direction::CircleCounterclockwise => {
                assert("CIRCLE_COUNTERCLOCKWISE"@.len() != "DEPART"@.len());
                assert("CIRCLE_COUNTERCLOCKWISE"@.len() != "HARD_LEFT"@.len());
                assert("CIRCLE_COUNTERCLOCKWISE"@.len() != "LEFT"@.len());
                assert("CIRCLE_COUNTERCLOCKWISE"@.len() != "SLIGHTLY_LEFT"@.len());
                assert("CIRCLE_COUNTERCLOCKWISE"@.len() != "CONTINUE"@.len());
                assert("CIRCLE_COUNTERCLOCKWISE"@.len() != "SLIGHTLY_RIGHT"@.len());
                assert("CIRCLE_COUNTERCLOCKWISE"@.len() != "RIGHT"@.len());
                assert("CIRCLE_COUNTERCLOCKWISE"@.len() != "HARD_RIGHT"@.len());
                assert("CIRCLE_COUNTERCLOCKWISE"@.len() != "CIRCLE_CLOCKWISE"@.len());
            },
            Direction::Stairs => {
                assert("STAIRS"@[0] != "DEPART"@[0]);
                assert("STAIRS"@.len() != "HARD_LEFT"@.len());
                assert("STAIRS"@.len() != "LEFT"@.len());
                assert("STAIRS"@.len() != "SLIGHTLY_LEFT"@.len());
                assert("STAIRS"@.len() != "CONTINUE"@.len());
                assert("STAIRS"@.len() != "SLIGHTLY_RIGHT"@.len());
                assert("STAIRS"@.len() != "RIGHT"@.len());
                assert("STAIRS"@.len() != "HARD_RIGHT"@.len());
                assert("STAIRS"@.len() != "CIRCLE_CLOCKWISE"@.len());
                assert("STAIRS"@.len() != "CIRCLE_COUNTERCLOCKWISE"@.len());
            },
            Direction::Elevator => {
                assert("ELEVATOR"@.len() != "DEPART"@.len());
                assert("ELEVATOR"@.len() != "HARD_LEFT"@.len());
                assert("ELEVATOR"@.len() != "LEFT"@.len());
                assert("ELEVATOR"@.len() != "SLIGHTLY_LEFT"@.len());
                assert("ELEVATOR"@[0] != "CONTINUE"@[0]);
                assert("ELEVATOR"@.len() != "SLIGHTLY_RIGHT"@.len());
                assert("ELEVATOR"@.len() != "RIGHT"@.len());
                assert("ELEVATOR"@.len() != "HARD_RIGHT"@.len());
                assert("ELEVATOR"@.len() != "CIRCLE_CLOCKWISE"@.len());
                assert("ELEVATOR"@.len() != "CIRCLE_COUNTERCLOCKWISE"@.len());
                assert("ELEVATOR"@.len() != "STAIRS"@.len());
            },
            Direction::UturnLeft => {
                assert("UTURN_LEFT"@.len() != "DEPART"@.len());
                assert("UTURN_LEFT"@.len() != "HARD_LEFT"@.len());
                assert("UTURN_LEFT"@.len() != "LEFT"@.len());
                assert("UTURN_LEFT"@.len() != "SLIGHTLY_LEFT"@.len());
                assert("UTURN_LEFT"@.len() != "CONTINUE"@.len());
                assert("UTURN_LEFT"@.len() != "SLIGHTLY_RIGHT"@.len());
                assert("UTURN_LEFT"@.len() != "RIGHT"@.len());
                assert("UTURN_LEFT"@[0] != "HARD_RIGHT"@[0]);
                assert("UTURN_LEFT"@.len() != "CIRCLE_CLOCKWISE"@.len());
                assert("UTURN_LEFT"@.len() != "CIRCLE_COUNTERCLOCKWISE"@.len());
                assert("UTURN_LEFT"@.len() != "STAIRS"@.len());
                assert("UTURN_LEFT"@.len() != "ELEVATOR"@.len());
            },
            Direction::UturnRight => {
                assert("UTURN_RIGHT"@.len() != "DEPART"@.len());
                assert("UTURN_RIGHT"@.len() != "HARD_LEFT"@.len());
                assert("UTURN_RIGHT"@.len() != "LEFT"@.len());
                assert("UTURN_RIGHT"@.len() != "SLIGHTLY_LEFT"@.len());
                assert("UTURN_RIGHT"@.len() != "CONTINUE"@.len());
                assert("UTURN_RIGHT"@.len() != "SLIGHTLY_RIGHT"@.len());
                assert("UTURN_RIGHT"@.len() != "RIGHT"@.len());
                assert("UTURN_RIGHT"@.len() != "HARD_RIGHT"@.len());
                assert("UTURN_RIGHT"@.len() != "CIRCLE_CLOCKWISE"@.len());
                assert("UTURN_RIGHT"@.len() != "CIRCLE_COUNTERCLOCKWISE"@.len());
                assert("UTURN_RIGHT"@.len() != "STAIRS"@.len());
                assert("UTURN_RIGHT"@.len() != "ELEVATOR"@.len());
                assert("UTURN_RIGHT"@.len() != "UTURN_LEFT"@.len());
            },
        }
    }

    /// Every value is named by its name, and no two values share a name.
    pub proof fn lemma_name_roundtrip(self)
        ensures
            Direction::spec_named(self.spec_name()) == Some(self),
            forall|other: Direction| #[trigger] other.spec_name() == self.spec_name() ==> other == self,
    {
        self.lemma_named_by_name();
        assert forall|other: Direction| #[trigger] other.spec_name() == self.spec_name() implies other == self by {
            other.lemma_named_by_name();
        }
    }
}

impl core::str::FromStr for Direction {
    type Err = ConversionError;

    fn from_str(value: &str) -> (r: Result<Self, ConversionError>)
        ensures
            match r {
                Ok(v) => Direction::spec_named(value@) == Some(v),
                Err(e) => Direction::spec_named(value@) is None && e@ == "invalid value"@,
            },
    {
        Direction::parse(value)
    }
}

impl From<&Direction> for Direction {
    fn from(value: &Direction) -> (r: Self) {
        *value
    }
}

impl vstd::std_specs::convert::FromSpecImpl<&Direction> for Direction {
    open spec fn obeys_from_spec() -> bool {
        true
    }

    open spec fn from_spec(v: &Direction) -> Self {
        *v
    }
}

/// Different elevation cost profiles for street routing.
/// Using a elevation cost profile will prefer routes with a smaller incline
/// and smaller difference in elevation, even if the routed way is longer.
///
/// - `NONE`: Ignore elevation data for routing. This is the default
/// behavior
/// - `LOW`: Add a low penalty for inclines. This will favor longer paths,
/// if the elevation increase and incline are smaller.
/// - `HIGH`: Add a high penalty for inclines. This will favor even longer
/// paths, if the elevation increase and incline are smaller.
#[derive(Clone, Copy, Debug, Eq, Hash, Ord, PartialEq, PartialOrd)]
pub enum ElevationCosts {
    NoCosts,
    Low,
    High,
}

impl ElevationCosts {
    /// The name of the value in the API.
    pub open spec fn spec_name(self) -> Seq<char> {
        match self {
            ElevationCosts::NoCosts => "NONE"@,
            ElevationCosts::Low => "LOW"@,
            ElevationCosts::High => "HIGH"@,
        }
    }

    /// The value that `name` names in the API, if any.
    pub open spec fn spec_named(name: Seq<char>) -> Option<ElevationCosts> {
        if name == "NONE"@ {
            Some(ElevationCosts::NoCosts)
        } else if name == "LOW"@ {
            Some(ElevationCosts::Low)
        } else if name == "HIGH"@ {
            Some(ElevationCosts::High)
        } else {
            None
        }
    }

    /// The name of the value in the API (what `Display` writes).
    pub fn as_str(&self) -> (r: &'static str)
        ensures
            r@ == self.spec_name(),
    {
        match self {
            ElevationCosts::NoCosts => "NONE",
            ElevationCosts::Low => "LOW",
            ElevationCosts::High => "HIGH",
        }
    }

    /// The name of the value in the API, as an owned string.
    pub fn to_string(&self) -> (r: String)
        ensures
            r@ == self.spec_name(),
    {
        owned(self.as_str())
    }

    /// The value that `value` names; an "invalid value" error where it names none.
    pub fn parse(value: &str) -> (r: Result<ElevationCosts, ConversionError>)
        ensures
            match r {
                Ok(v) => ElevationCosts::spec_named(value@) == Some(v),
                Err(e) => ElevationCosts::spec_named(value@) is None && e@ == "invalid value"@,
            },
    {
        if str_eq(value, "NONE") {
            Ok(ElevationCosts::NoCosts)
        } else if str_eq(value, "LOW") {
            Ok(ElevationCosts::Low)
        } else if str_eq(value, "HIGH") {
            Ok(ElevationCosts::High)
        } else {
            Err(ConversionError::new("invalid value"))
        }
    }

    /// The name of every value names that value.
    pub proof fn lemma_named_by_name(self)
        ensures
            ElevationCosts::spec_named(self.spec_name()) == Some(self),
    {
        broadcast use vstd::string::group_string_axioms;

        reveal_strlit("NONE");
        reveal_strlit("LOW");
        reveal_strlit("HIGH");
        match self {
            ElevationCosts::NoCosts => {},
            ElevationCosts::Low => {
                assert("LOW"@.len() != "NONE"@.len());
            },
            ElevationCosts::High => {
                assert("HIGH"@[0] != "NONE"@[0]);
                assert("HIGH"@.len() != "LOW"@.len());
            },
        }
    }

    /// Every value is named by its name, and no two values share a name.
    pub proof fn lemma_name_roundtrip(self)
        ensures
            ElevationCosts::spec_named(self.spec_name()) == Some(self),
            forall|other: ElevationCosts| #[trigger] other.spec_name() == self.spec_name() ==> other == self,
    {
        self.lemma_named_by_name();
        assert forall|other: ElevationCosts| #[trigger] other.spec_name() == self.spec_name() implies other == self by {
            other.lemma_named_by_name();
        }
    }
}

impl core::str::FromStr for ElevationCosts {
    type Err = ConversionError;

    fn from_str(value: &str) -> (r: Result<Self, ConversionError>)
        ensures
            match r {
                Ok(v) => ElevationCosts::spec_named(value@) == Some(v),
                Err(e) => ElevationCosts::spec_named(value@) is None && e@ == "invalid value"@,
            },
    {
        ElevationCosts::parse(value)
    }
}

impl From<&ElevationCosts> for ElevationCosts {
    fn from(value: &ElevationCosts) -> (r: Self) {
        *value
    }
}

impl vstd::std_specs::convert::FromSpecImpl<&ElevationCosts> for ElevationCosts {
    open spec fn obeys_from_spec() -> bool {
        true
    }

    open spec fn from_spec(v: &ElevationCosts) -> Self {
        *v
    }
}

/// - `NONE`: No fare media involved (e.g., cash payment)
/// - `PAPER_TICKET`: Physical paper ticket
/// - `TRANSIT_CARD`: Physical transit card with stored value
/// - `CONTACTLESS_EMV`: cEMV (contactless payment)
/// - `MOBILE_APP`: Mobile app with virtual transit cards/passes
#[derive(Clone, Copy, Debug, Eq, Hash, Ord, PartialEq, PartialOrd)]
pub enum FareMediaType {
    NoMedia,
    PaperTicket,
    TransitCard,
    ContactlessEmv,
    MobileApp,
}

impl FareMediaType {
    /// The name of the value in the API.
    pub open spec fn spec_name(self) -> Seq<char> {
        match self {
            FareMediaType::NoMedia => "NONE"@,
            FareMediaType::PaperTicket => "PAPER_TICKET"@,
            FareMediaType::TransitCard => "TRANSIT_CARD"@,
            FareMediaType::ContactlessEmv => "CONTACTLESS_EMV"@,
            FareMediaType::MobileApp => "MOBILE_APP"@,
        }
    }

    /// The value that `name` names in the API, if any.
    pub open spec fn spec_named(name: Seq<char>) -> Option<FareMediaType> {
        if name == "NONE"@ {
            Some(FareMediaType::NoMedia)
        } else if name == "PAPER_TICKET"@ {
            Some(FareMediaType::PaperTicket)
        } else if name == "TRANSIT_CARD"@ {
            Some(FareMediaType::TransitCard)
        } else if name == "CONTACTLESS_EMV"@ {
            Some(FareMediaType::ContactlessEmv)
        } else if name == "MOBILE_APP"@ {
            Some(FareMediaType::MobileApp)
        } else {
            None
        }
    }

    /// The name of the value in the API (what `Display` writes).
    pub fn as_str(&self) -> (r: &'static str)
        ensures
            r@ == self.spec_name(),
    {
        match self {
            FareMediaType::NoMedia => "NONE",
            FareMediaType::PaperTicket => "PAPER_TICKET",
            FareMediaType::TransitCard => "TRANSIT_CARD",
            FareMediaType::ContactlessEmv => "CONTACTLESS_EMV",
            FareMediaType::MobileApp => "MOBILE_APP",
        }
    }

    /// The name of the value in the API, as an owned string.
    pub fn to_string(&self) -> (r: String)
        ensures
            r@ == self.spec_name(),
    {
        owned(self.as_str())
    }

    /// The value that `value` names; an "invalid value" error where it names none.
    pub fn parse(value: &str) -> (r: Result<FareMediaType, ConversionError>)
        ensures
            match r {
                Ok(v) => FareMediaType::spec_named(value@) == Some(v),
                Err(e) => FareMediaType::spec_named(value@) is None && e@ == "invalid value"@,
            },
    {
        if str_eq(value, "NONE") {
            Ok(FareMediaType::NoMedia)
        } else if str_eq(value, "PAPER_TICKET") {
            Ok(FareMediaType::PaperTicket)
        } else if str_eq(value, "TRANSIT_CARD") {
            Ok(FareMediaType::TransitCard)
        } else if str_eq(value, "CONTACTLESS_EMV") {
            Ok(FareMediaType::ContactlessEmv)
        } else if str_eq(value, "MOBILE_APP") {
            Ok(FareMediaType::MobileApp)
        } else {
            Err(ConversionError::new("invalid value"))
        }
    }

    /// The name of every value names that value.
    pub proof fn lemma_named_by_name(self)
        ensures
            FareMediaType::spec_named(self.spec_name()) == Some(self),
    {
        broadcast use vstd::string::group_string_axioms;

        reveal_strlit("NONE");
        reveal_strlit("PAPER_TICKET");
        reveal_strlit("TRANSIT_CARD");
        reveal_strlit("CONTACTLESS_EMV");
        reveal_strlit("MOBILE_APP");
        match self {
            FareMediaType::NoMedia => {},
            FareMediaType::PaperTicket => {
                assert("PAPER_TICKET"@.len() != "NONE"@.len());
            },
            FareMediaType::TransitCard => {
                assert("TRANSIT_CARD"@.len() != "NONE"@.len());
                assert("TRANSIT_CARD"@[0] != "PAPER_TICKET"@[0]);
            },
            FareMediaType::ContactlessEmv => {
                assert("CONTACTLESS_EMV"@.len() != "NONE"@.len());
                assert("CONTACTLESS_EMV"@.len() != "PAPER_TICKET"@.len());
                assert("CONTACTLESS_EMV"@.len() != "TRANSIT_CARD"@.len());
            },
            FareMediaType::MobileApp => {
                assert("MOBILE_APP"@.len() != "NONE"@.len());
                assert("MOBILE_APP"@.len() != "PAPER_TICKET"@.len());
                assert("MOBILE_APP"@.len() != "TRANSIT_CARD"@.len());
                assert("MOBILE_APP"@.len() != "CONTACTLESS_EMV"@.len());
            },
        }
    }

    /// Every value is named by its name, and no two values share a name.
    pub proof fn lemma_name_roundtrip(self)
        ensures
            FareMediaType::spec_named(self.spec_name()) == Some(self),
            forall|other: FareMediaType| #[trigger] other.spec_name() == self.spec_name() ==> other == self,
    {
        self.lemma_named_by_name();
        assert forall|other: FareMediaType| #[trigger] other.spec_name() == self.spec_name() implies other == self by {
            other.lemma_named_by_name();
        }
    }
}

impl core::str::FromStr for FareMediaType {
    type Err = ConversionError;

    fn from_str(value: &str) -> (r: Result<Self, ConversionError>)
        ensures
            match r {
                Ok(v) => FareMediaType::spec_named(value@) == Some(v),
                Err(e) => FareMediaType::spec_named(value@) is None && e@ == "invalid value"@,
            },
    {
        FareMediaType::parse(value)
    }
}

impl From<&FareMediaType> for FareMediaType {
    fn from(value: &FareMediaType) -> (r: Self) {
        *value
    }
}

impl vstd::std_specs::convert::FromSpecImpl<&FareMediaType> for FareMediaType {
    open spec fn obeys_from_spec() -> bool {
        true
    }

    open spec fn from_spec(v: &FareMediaType) -> Self {
        *v
    }
}

/// `FareTransferRule`
#[derive(Clone, Copy, Debug, Eq, Hash, Ord, PartialEq, PartialOrd)]
pub enum FareTransferRule {
    AAb,
    AAbB,
    Ab,
}

impl FareTransferRule {
    /// The name of the value in the API.
    pub open spec fn spec_name(self) -> Seq<char> {
        match self {
            FareTransferRule::AAb => "A_AB"@,
            FareTransferRule::AAbB => "A_AB_B"@,
            FareTransferRule::Ab => "AB"@,
        }
    }

    /// The value that `name` names in the API, if any.
    pub open spec fn spec_named(name: Seq<char>) -> Option<FareTransferRule> {
        if name == "A_AB"@ {
            Some(FareTransferRule::AAb)
        } else if name == "A_AB_B"@ {
            Some(FareTransferRule::AAbB)
        } else if name == "AB"@ {
            Some(FareTransferRule::Ab)
        } else {
            None
        }
    }

    /// The name of the value in the API (what `Display` writes).
    pub fn as_str(&self) -> (r: &'static str)
        ensures
            r@ == self.spec_name(),
    {
        match self {
            FareTransferRule::AAb => "A_AB",
            FareTransferRule::AAbB => "A_AB_B",
            FareTransferRule::Ab => "AB",
        }
    }

    /// The name of the value in the API, as an owned string.
    pub fn to_string(&self) -> (r: String)
        ensures
            r@ == self.spec_name(),
    {
        owned(self.as_str())
    }

    /// The value that `value` names; an "invalid value" error where it names none.
    pub fn parse(value: &str) -> (r: Result<FareTransferRule, ConversionError>)
        ensures
            match r {
                Ok(v) => FareTransferRule::spec_named(value@) == Some(v),
                Err(e) => FareTransferRule::spec_named(value@) is None && e@ == "invalid value"@,
            },
    {
        if str_eq(value, "A_AB") {
            Ok(FareTransferRule::AAb)
        } else if str_eq(value, "A_AB_B") {
            Ok(FareTransferRule::AAbB)
        } else if str_eq(value, "AB") {
            Ok(FareTransferRule::Ab)
        } else {
            Err(ConversionError::new("invalid value"))
        }
    }

    /// The name of every value names that value.
    pub proof fn lemma_named_by_name(self)
        ensures
            FareTransferRule::spec_named(self.spec_name()) == Some(self),
    {
        broadcast use vstd::string::group_string_axioms;

        reveal_strlit("A_AB");
        reveal_strlit("A_AB_B");
        reveal_strlit("AB");
        match self {
            FareTransferRule::AAb => {},
            FareTransferRule::AAbB => {
                assert("A_AB_B"@.len() != "A_AB"@.len());
            },
            FareTransferRule::Ab => {
                assert("AB"@.len() != "A_AB"@.len());
                assert("AB"@.len() != "A_AB_B"@.len());
            },
        }
    }

    /// Every value is named by its name, and no two values share a name.
    pub proof fn lemma_name_roundtrip(self)
        ensures
            FareTransferRule::spec_named(self.spec_name()) == Some(self),
            forall|other: FareTransferRule| #[trigger] other.spec_name() == self.spec_name() ==> other == self,
    {
        self.lemma_named_by_name();
        assert forall|other: FareTransferRule| #[trigger] other.spec_name() == self.spec_name() implies other == self by {
            other.lemma_named_by_name();
        }
    }
}

impl core::str::FromStr for FareTransferRule {
    type Err = ConversionError;

    fn from_str(value: &str) -> (r: Result<Self, ConversionError>)
        ensures
            match r {
                Ok(v) => FareTransferRule::spec_named(value@) == Some(v),
                Err(e) => FareTransferRule::spec_named(value@) is None && e@ == "invalid value"@,
            },
    {
        FareTransferRule::parse(value)
    }
}

impl From<&FareTransferRule> for FareTransferRule {
    fn from(value: &FareTransferRule) -> (r: Self) {
        *value
    }
}

impl vstd::std_specs::convert::FromSpecImpl<&FareTransferRule> for FareTransferRule {
    open spec fn obeys_from_spec() -> bool {
        true
    }

    open spec fn from_spec(v: &FareTransferRule) -> Self {
        *v
    }
}

/// location type
#[derive(Clone, Copy, Debug, Eq, Hash, Ord, PartialEq, PartialOrd)]
pub enum LocationType {
    Address,
    Place,
    Stop,
}

impl LocationType {
    /// The name of the value in the API.
    pub open spec fn spec_name(self) -> Seq<char> {
        match self {
            LocationType::Address => "ADDRESS"@,
            LocationType::Place => "PLACE"@,
            LocationType::Stop => "STOP"@,
        }
    }

    /// The value that `name` names in the API, if any.
    pub open spec fn spec_named(name: Seq<char>) -> Option<LocationType> {
        if name == "ADDRESS"@ {
            Some(LocationType::Address)
        } else if name == "PLACE"@ {
            Some(LocationType::Place)
        } else if name == "STOP"@ {
            Some(LocationType::Stop)
        } else {
            None
        }
    }

    /// The name of the value in the API (what `Display` writes).
    pub fn as_str(&self) -> (r: &'static str)
        ensures
            r@ == self.spec_name(),
    {
        match self {
            LocationType::Address => "ADDRESS",
            LocationType::Place => "PLACE",
            LocationType::Stop => "STOP",
        }
    }

    /// The name of the value in the API, as an owned string.
    pub fn to_string(&self) -> (r: String)
        ensures
            r@ == self.spec_name(),
    {
        owned(self.as_str())
    }

    /// The value that `value` names; an "invalid value" error where it names none.
    pub fn parse(value: &str) -> (r: Result<LocationType, ConversionError>)
        ensures
            match r {
                Ok(v) => LocationType::spec_named(value@) == Some(v),
                Err(e) => LocationType::spec_named(value@) is None && e@ == "invalid value"@,
            },
    {
        if str_eq(value, "ADDRESS") {
            Ok(LocationType::Address)
        } else if str_eq(value, "PLACE") {
            Ok(LocationType::Place)
        } else if str_eq(value, "STOP") {
            Ok(LocationType::Stop)
        } else {
            Err(ConversionError::new("invalid value"))
        }
    }

    /// The name of every value names that value.
    pub proof fn lemma_named_by_name(self)
        ensures
            LocationType::spec_named(self.spec_name()) == Some(self),
    {
        broadcast use vstd::string::group_string_axioms;

        reveal_strlit("ADDRESS");
        reveal_strlit("PLACE");
        reveal_strlit("STOP");
        match self {
            LocationType::Address => {},
            LocationType::Place => {
                assert("PLACE"@.len() != "ADDRESS"@.len());
            },
            LocationType::Stop => {
                assert("STOP"@.len() != "ADDRESS"@.len());
                assert("STOP"@.len() != "PLACE"@.len());
            },
        }
    }

    /// Every value is named by its name, and no two values share a name.
    pub proof fn lemma_name_roundtrip(self)
        ensures
            LocationType::spec_named(self.spec_name()) == Some(self),
            forall|other: LocationType| #[trigger] other.spec_name() == self.spec_name() ==> other == self,
    {
        self.lemma_named_by_name();
        assert forall|other: LocationType| #[trigger] other.spec_name() == self.spec_name() implies other == self by {
            other.lemma_named_by_name();
        }
    }
}

impl core::str::FromStr for LocationType {
    type Err = ConversionError;

    fn from_str(value: &str) -> (r: Result<Self, ConversionError>)
        ensures
            match r {
                Ok(v) => LocationType::spec_named(value@) == Some(v),
                Err(e) => LocationType::spec_named(value@) is None && e@ == "invalid value"@,
            },
    {
        LocationType::parse(value)
    }
}

impl From<&LocationType> for LocationType {
    fn from(value: &LocationType) -> (r: Self) {
        *value
    }
}

impl vstd::std_specs::convert::FromSpecImpl<&LocationType> for LocationType {
    open spec fn obeys_from_spec() -> bool {
        true
    }

    open spec fn from_spec(v: &LocationType) -> Self {
        *v
    }
}

/// # Street modes
///
/// - `WALK`
/// - `BIKE`
/// - `RENTAL` Experimental. Expect unannounced breaking changes (without
/// version bumps) for all parameters and returned structs.
/// - `CAR`
/// - `CAR_PARKING` Experimental. Expect unannounced breaking changes
/// (without version bumps) for all parameters and returned structs.
/// - `CAR_DROPOFF` Experimental. Expect unannounced breaking changes
/// (without version bumps) for all perameters and returned structs.
/// - `ODM` on-demand taxis from the Prima+ÖV Project
/// - `FLEX` flexible transports
///
/// # Transit modes
///
/// - `TRANSIT`: translates to
/// `RAIL,TRAM,BUS,FERRY,AIRPLANE,COACH,CABLE_CAR,FUNICULAR,AREAL_LIFT,
/// OTHER`
/// - `TRAM`: trams
/// - `SUBWAY`: subway trains
/// - `FERRY`: ferries
/// - `AIRPLANE`: airline flights
/// - `BUS`: short distance buses (does not include `COACH`)
/// - `COACH`: long distance buses (does not include `BUS`)
/// - `RAIL`: translates to
/// `HIGHSPEED_RAIL,LONG_DISTANCE,NIGHT_RAIL,REGIONAL_RAIL,
/// REGIONAL_FAST_RAIL,METRO,SUBWAY`
/// - `METRO`: metro trains
/// - `HIGHSPEED_RAIL`: long distance high speed trains (e.g. TGV)
/// - `LONG_DISTANCE`: long distance inter city trains
/// - `NIGHT_RAIL`: long distance night trains
/// - `REGIONAL_FAST_RAIL`: regional express routes that skip low traffic
/// stops to be faster
/// - `REGIONAL_RAIL`: regional train
/// - `CABLE_CAR`: Cable tram. Used for street-level rail cars where the
/// cable runs beneath the vehicle (e.g., cable car in San Francisco).
/// - `FUNICULAR`: Funicular. Any rail system designed for steep inclines.
/// - `AREAL_LIFT`: Aerial lift, suspended cable car (e.g., gondola lift,
/// aerial tramway). Cable transport where cabins, cars, gondolas or open
/// chairs are suspended by means of one or more cables.
#[derive(Clone, Copy, Debug, Eq, Hash, Ord, PartialEq, PartialOrd)]
pub enum Mode {
    Walk,
    Bike,
    Rental,
    Car,
    CarParking,
    CarDropoff,
    Odm,
    Flex,
    Transit,
    Tram,
    Subway,
    Ferry,
    Airplane,
    Metro,
    Bus,
    Coach,
    Rail,
    HighspeedRail,
    LongDistance,
    NightRail,
    RegionalFastRail,
    RegionalRail,
    CableCar,
    Funicular,
    ArealLift,
    Other,
}

impl Mode {
    /// The name of the value in the API.
    pub open spec fn spec_name(self) -> Seq<char> {
        match self {
            Mode::Walk => "WALK"@,
            Mode::Bike => "BIKE"@,
            Mode::Rental => "RENTAL"@,
            Mode::Car => "CAR"@,
            Mode::CarParking => "CAR_PARKING"@,
            Mode::CarDropoff => "CAR_DROPOFF"@,
            Mode::Odm => "ODM"@,
            Mode::Flex => "FLEX"@,
            Mode::Transit => "TRANSIT"@,
            Mode::Tram => "TRAM"@,
            Mode::Subway => "SUBWAY"@,
            Mode::Ferry => "FERRY"@,
            Mode::Airplane => "AIRPLANE"@,
            Mode::Metro => "METRO"@,
            Mode::Bus => "BUS"@,
            Mode::Coach => "COACH"@,
            Mode::Rail => "RAIL"@,
            Mode::HighspeedRail => "HIGHSPEED_RAIL"@,
            Mode::LongDistance => "LONG_DISTANCE"@,
            Mode::NightRail => "NIGHT_RAIL"@,
            Mode::RegionalFastRail => "REGIONAL_FAST_RAIL"@,
            Mode::RegionalRail => "REGIONAL_RAIL"@,
            Mode::CableCar => "CABLE_CAR"@,
            Mode::Funicular => "FUNICULAR"@,
            Mode::ArealLift => "AREAL_LIFT"@,
            Mode::Other => "OTHER"@,
        }
    }

    /// The value that `name` names in the API, if any.
    pub open spec fn spec_named(name: Seq<char>) -> Option<Mode> {
        if name == "WALK"@ {
            Some(Mode::Walk)
        } else if name == "BIKE"@ {
            Some(Mode::Bike)
        } else if name == "RENTAL"@ {
            Some(Mode::Rental)
        } else if name == "CAR"@ {
            Some(Mode::Car)
        } else if name == "CAR_PARKING"@ {
            Some(Mode::CarParking)
        } else if name == "CAR_DROPOFF"@ {
            Some(Mode::CarDropoff)
        } else if name == "ODM"@ {
            Some(Mode::Odm)
        } else if name == "FLEX"@ {
            Some(Mode::Flex)
        } else if name == "TRANSIT"@ {
            Some(Mode::Transit)
        } else if name == "TRAM"@ {
            Some(Mode::Tram)
        } else if name == "SUBWAY"@ {
            Some(Mode::Subway)
        } else if name == "FERRY"@ {
            Some(Mode::Ferry)
        } else if name == "AIRPLANE"@ {
            Some(Mode::Airplane)
        } else if name == "METRO"@ {
            Some(Mode::Metro)
        } else if name == "BUS"@ {
            Some(Mode::Bus)
        } else if name == "COACH"@ {
            Some(Mode::Coach)
        } else if name == "RAIL"@ {
            Some(Mode::Rail)
        } else if name == "HIGHSPEED_RAIL"@ {
            Some(Mode::HighspeedRail)
        } else if name == "LONG_DISTANCE"@ {
            Some(Mode::LongDistance)
        } else if name == "NIGHT_RAIL"@ {
            Some(Mode::NightRail)
        } else if name == "REGIONAL_FAST_RAIL"@ {
            Some(Mode::RegionalFastRail)
        } else if name == "REGIONAL_RAIL"@ {
            Some(Mode::RegionalRail)
        } else if name == "CABLE_CAR"@ {
            Some(Mode::CableCar)
        } else if name == "FUNICULAR"@ {
            Some(Mode::Funicular)
        } else if name == "AREAL_LIFT"@ {
            Some(Mode::ArealLift)
        } else if name == "OTHER"@ {
            Some(Mode::Other)
        } else {
            None
        }
    }

    /// The name of the value in the API (what `Display` writes).
    pub fn as_str(&self) -> (r: &'static str)
        ensures
            r@ == self.spec_name(),
    {
        match self {
            Mode::Walk => "WALK",
            Mode::Bike => "BIKE",
            Mode::Rental => "RENTAL",
            Mode::Car => "CAR",
            Mode::CarParking => "CAR_PARKING",
            Mode::CarDropoff => "CAR_DROPOFF",
            Mode::Odm => "ODM",
            Mode::Flex => "FLEX",
            Mode::Transit => "TRANSIT",
            Mode::Tram => "TRAM",
            Mode::Subway => "SUBWAY",
            Mode::Ferry => "FERRY",
            Mode::Airplane => "AIRPLANE",
            Mode::Metro => "METRO",
            Mode::Bus => "BUS",
            Mode::Coach => "COACH",
            Mode::Rail => "RAIL",
            Mode::HighspeedRail => "HIGHSPEED_RAIL",
            Mode::LongDistance => "LONG_DISTANCE",
            Mode::NightRail => "NIGHT_RAIL",
            Mode::RegionalFastRail => "REGIONAL_FAST_RAIL",
            Mode::RegionalRail => "REGIONAL_RAIL",
            Mode::CableCar => "CABLE_CAR",
            Mode::Funicular => "FUNICULAR",
            Mode::ArealLift => "AREAL_LIFT",
            Mode::Other => "OTHER",
        }
    }

    /// The name of the value in the API, as an owned string.
    pub fn to_string(&self) -> (r: String)
        ensures
            r@ == self.spec_name(),
    {
        owned(self.as_str())
    }

    /// The value that `value` names; an "invalid value" error where it names none.
    pub fn parse(value: &str) -> (r: Result<Mode, ConversionError>)
        ensures
            match r {
                Ok(v) => Mode::spec_named(value@) == Some(v),
                Err(e) => Mode::spec_named(value@) is None && e@ == "invalid value"@,
            },
    {
        if str_eq(value, "WALK") {
            Ok(Mode::Walk)
        } else if str_eq(value, "BIKE") {
            Ok(Mode::Bike)
        } else if str_eq(value, "RENTAL") {
            Ok(Mode::Rental)
        } else if str_eq(value, "CAR") {
            Ok(Mode::Car)
        } else if str_eq(value, "CAR_PARKING") {
            Ok(Mode::CarParking)
        } else if str_eq(value, "CAR_DROPOFF") {
            Ok(Mode::CarDropoff)
        } else if str_eq(value, "ODM") {
            Ok(Mode::Odm)
        } else if str_eq(value, "FLEX") {
            Ok(Mode::Flex)
        } else if str_eq(value, "TRANSIT") {
            Ok(Mode::Transit)
        } else if str_eq(value, "TRAM") {
            Ok(Mode::Tram)
        } else if str_eq(value, "SUBWAY") {
            Ok(Mode::Subway)
        } else if str_eq(value, "FERRY") {
            Ok(Mode::Ferry)
        } else if str_eq(value, "AIRPLANE") {
            Ok(Mode::Airplane)
        } else if str_eq(value, "METRO") {
            Ok(Mode::Metro)
        } else if str_eq(value, "BUS") {
            Ok(Mode::Bus)
        } else if str_eq(value, "COACH") {
            Ok(Mode::Coach)
        } else if str_eq(value, "RAIL") {
            Ok(Mode::Rail)
        } else if str_eq(value, "HIGHSPEED_RAIL") {
            Ok(Mode::HighspeedRail)
        } else if str_eq(value, "LONG_DISTANCE") {
            Ok(Mode::LongDistance)
        } else if str_eq(value, "NIGHT_RAIL") {
            Ok(Mode::NightRail)
        } else if str_eq(value, "REGIONAL_FAST_RAIL") {
            Ok(Mode::RegionalFastRail)
        } else if str_eq(value, "REGIONAL_RAIL") {
            Ok(Mode::RegionalRail)
        } else if str_eq(value, "CABLE_CAR") {
            Ok(Mode::CableCar)
        } else if str_eq(value, "FUNICULAR") {
            Ok(Mode::Funicular)
        } else if str_eq(value, "AREAL_LIFT") {
            Ok(Mode::ArealLift)
        } else if str_eq(value, "OTHER") {
            Ok(Mode::Other)
        } else {
            Err(ConversionError::new("invalid value"))
        }
    }

    /// The name of every value names that value.
    pub proof fn lemma_named_by_name(self)
        ensures
            Mode::spec_named(self.spec_name()) == Some(self),
    {
        broadcast use vstd::string::group_string_axioms;

        reveal_strlit("WALK");
        reveal_strlit("BIKE");
        reveal_strlit("RENTAL");
        reveal_strlit("CAR");
        reveal_strlit("CAR_PARKING");
        reveal_strlit("CAR_DROPOFF");
        reveal_strlit("ODM");
        reveal_strlit("FLEX");
        reveal_strlit("TRANSIT");
        reveal_strlit("TRAM");
        reveal_strlit("SUBWAY");
        reveal_strlit("FERRY");
        reveal_strlit("AIRPLANE");
        reveal_strlit("METRO");
        reveal_strlit("BUS");
        reveal_strlit("COACH");
        reveal_strlit("RAIL");
        reveal_strlit("HIGHSPEED_RAIL");
        reveal_strlit("LONG_DISTANCE");
        reveal_strlit("NIGHT_RAIL");
        reveal_strlit("REGIONAL_FAST_RAIL");
        reveal_strlit("REGIONAL_RAIL");
        reveal_strlit("CABLE_CAR");
        reveal_strlit("FUNICULAR");
        reveal_strlit("AREAL_LIFT");
        reveal_strlit("OTHER");
        match self {
            Mode::Walk => {},
            Mode::Bike => {
                assert("BIKE"@[0] != "WALK"@[0]);
            },
            Mode::Rental => {
                assert("RENTAL"@.len() != "WALK"@.len());
                assert("RENTAL"@.len() != "BIKE"@.len());
            },
            Mode::Car => {
                assert("CAR"@.len() != "WALK"@.len());
                assert("CAR"@.len() != "BIKE"@.len());
                assert("CAR"@.len() != "RENTAL"@.len());
            },
            Mode::CarParking => {
                assert("CAR_PARKING"@.len() != "WALK"@.len());
                assert("CAR_PARKING"@.len() != "BIKE"@.len());
                assert("CAR_PARKING"@.len() != "RENTAL"@.len());
                assert("CAR_PARKING"@.len() != "CAR"@.len());
            },
            Mode::CarDropoff => {
                assert("CAR_DROPOFF"@.len() != "WALK"@.len());
                assert("CAR_DROPOFF"@.len() != "BIKE"@.len());
                assert("CAR_DROPOFF"@.len() != "RENTAL"@.len());
                assert("CAR_DROPOFF"@.len() != "CAR"@.len());
                assert("CAR_DROPOFF"@[4] != "CAR_PARKING"@[4]);
            },
            Mode::Odm => {
                assert("ODM"@.len() != "WALK"@.len());
                assert("ODM"@.len() != "BIKE"@.len());
                assert("ODM"@.len() != "RENTAL"@.len());
                assert("ODM"@[0] != "CAR"@[0]);
                assert("ODM"@.len() != "CAR_PARKING"@.len());
                assert("ODM"@.len() != "CAR_DROPOFF"@.len());
            },
            Mode::Flex => {
                assert("FLEX"@[0] != "WALK"@[0]);
                assert("FLEX"@[0] != "BIKE"@[0]);
                assert("FLEX"@.len() != "RENTAL"@.len());
                assert("FLEX"@.len() != "CAR"@.len());
                assert("FLEX"@.len() != "CAR_PARKING"@.len());
                assert("FLEX"@.len() != "CAR_DROPOFF"@.len());
                assert("FLEX"@.len() != "ODM"@.len());
            },
            Mode::Transit => {
                assert("TRANSIT"@.len() != "WALK"@.len());
                assert("TRANSIT"@.len() != "BIKE"@.len());
                assert("TRANSIT"@.len() != "RENTAL"@.len());
                assert("TRANSIT"@.len() != "CAR"@.len());
                assert("TRANSIT"@.len() != "CAR_PARKING"@.len());
                assert("TRANSIT"@.len() != "CAR_DROPOFF"@.len());
                assert("TRANSIT"@.len() != "ODM"@.len());
                assert("TRANSIT"@.len() != "FLEX"@.len());
            },
            Mode::Tram => {
                assert("TRAM"@[0] != "WALK"@[0]);
                assert("TRAM"@[0] != "BIKE"@[0]);
                assert("TRAM"@.len() != "RENTAL"@.len());
                assert("TRAM"@.len() != "CAR"@.len());
                assert("TRAM"@.len() != "CAR_PARKING"@.len());
                assert("TRAM"@.len() != "CAR_DROPOFF"@.len());
                assert("TRAM"@.len() != "ODM"@.len());
                assert("TRAM"@[0] != "FLEX"@[0]);
                assert("TRAM"@.len() != "TRANSIT"@.len());
            },
            Mode::Subway => {
                assert("SUBWAY"@.len() != "WALK"@.len());
                assert("SUBWAY"@.len() != "BIKE"@.len());
                assert("SUBWAY"@[0] != "RENTAL"@[0]);
                assert("SUBWAY"@.len() != "CAR"@.len());
                assert("SUBWAY"@.len() != "CAR_PARKING"@.len());
                assert("SUBWAY"@.len() != "CAR_DROPOFF"@.len());
                assert("SUBWAY"@.len() != "ODM"@.len());
                assert("SUBWAY"@.len() != "FLEX"@.len());
                assert("SUBWAY"@.len() != "TRANSIT"@.len());
                assert("SUBWAY"@.len() != "TRAM"@.len());
            },
            Mode::Ferry => {
                assert("FERRY"@.len() != "WALK"@.len());
                assert("FERRY"@.len() != "BIKE"@.len());
                assert("FERRY"@.len() != "RENTAL"@.len());
                assert("FERRY"@.len() != "CAR"@.len());
                assert("FERRY"@.len() != "CAR_PARKING"@.len());
                assert("FERRY"@.len() != "CAR_DROPOFF"@.len());
                assert("FERRY"@.len() != "ODM"@.len());
                assert("FERRY"@.len() != "FLEX"@.len());
                assert("FERRY"@.len() != "TRANSIT"@.len());
                assert("FERRY"@.len() != "TRAM"@.len());
                assert("FERRY"@.len() != "SUBWAY"@.len());
            },
            Mode::Airplane => {
                assert("AIRPLANE"@.len() != "WALK"@.len());
                assert("AIRPLANE"@.len() != "BIKE"@.len());
                assert("AIRPLANE"@.len() != "RENTAL"@.len());
                assert("AIRPLANE"@.len() != "CAR"@.len());
                assert("AIRPLANE"@.len() != "CAR_PARKING"@.len());
                assert("AIRPLANE"@.len() != "CAR_DROPOFF"@.len());
                assert("AIRPLANE"@.len() != "ODM"@.len());
                assert("AIRPLANE"@.len() != "FLEX"@.len());
                assert("AIRPLANE"@.len() != "TRANSIT"@.len());
                assert("AIRPLANE"@.len() != "TRAM"@.len());
                assert("AIRPLANE"@.len() != "SUBWAY"@.len());
                assert("AIRPLANE"@.len() != "FERRY"@.len());
            },
            Mode::Metro => {
                assert("METRO"@.len() != "WALK"@.len());
                assert("METRO"@.len() != "BIKE"@.len());
                assert("METRO"@.len() != "RENTAL"@.len());
                assert("METRO"@.len() != "CAR"@.len());
                assert("METRO"@.len() != "CAR_PARKING"@.len());
                assert("METRO"@.len() != "CAR_DROPOFF"@.len());
                assert("METRO"@.len() != "ODM"@.len());
                assert("METRO"@.len() != "FLEX"@.len());
                assert("METRO"@.len() != "TRANSIT"@.len());
                assert("METRO"@.len() != "TRAM"@.len());
                assert("METRO"@.len() != "SUBWAY"@.len());
                assert("METRO"@[0] != "FERRY"@[0]);
                assert("METRO"@.len() != "AIRPLANE"@.len());
            },
            Mode::Bus => {
                assert("BUS"@.len() != "WALK"@.len());
                assert("BUS"@.len() != "BIKE"@.len());
                assert("BUS"@.len() != "RENTAL"@.len());
                assert("BUS"@[0] != "CAR"@[0]);
                assert("BUS"@.len() != "CAR_PARKING"@.len());
                assert("BUS"@.len() != "CAR_DROPOFF"@.len());
                assert("BUS"@[0] != "ODM"@[0]);
                assert("BUS"@.len() != "FLEX"@.len());
                assert("BUS"@.len() != "TRANSIT"@.len());
                assert("BUS"@.len() != "TRAM"@.len());
                assert("BUS"@.len() != "SUBWAY"@.len());
                assert("BUS"@.len() != "FERRY"@.len());
                assert("BUS"@.len() != "AIRPLANE"@.len());
                assert("BUS"@.len() != "METRO"@.len());
            },
            Mode::Coach => {
                assert("COACH"@.len() != "WALK"@.len());
                assert("COACH"@.len() != "BIKE"@.len());
                assert("COACH"@.len() != "RENTAL"@.len());
                assert("COACH"@.len() != "CAR"@.len());
                assert("COACH"@.len() != "CAR_PARKING"@.len());
                assert("COACH"@.len() != "CAR_DROPOFF"@.len());
                assert("COACH"@.len() != "ODM"@.len());
                assert("COACH"@.len() != "FLEX"@.len());
                assert("COACH"@.len() != "TRANSIT"@.len());
                assert("COACH"@.len() != "TRAM"@.len());
                assert("COACH"@.len() != "SUBWAY"@.len());
                assert("COACH"@[0] != "FERRY"@[0]);
                assert("COACH"@.len() != "AIRPLANE"@.len());
                assert("COACH"@[0] != "METRO"@[0]);
                assert("COACH"@.len() != "BUS"@.len());
            },
            Mode::Rail => {
                assert("RAIL"@[0] != "WALK"@[0]);
                assert("RAIL"@[0] != "BIKE"@[0]);
                assert("RAIL"@.len() != "RENTAL"@.len());
                assert("RAIL"@.len() != "CAR"@.len());
                assert("RAIL"@.len() != "CAR_PARKING"@.len());
                assert("RAIL"@.len() != "CAR_DROPOFF"@.len());
                assert("RAIL"@.len() != "ODM"@.len());
                assert("RAIL"@[0] != "FLEX"@[0]);
                assert("RAIL"@.len() != "TRANSIT"@.len());
                assert("RAIL"@[0] != "TRAM"@[0]);
                assert("RAIL"@.len() != "SUBWAY"@.len());
                assert("RAIL"@.len() != "FERRY"@.len());
                assert("RAIL"@.len() != "AIRPLANE"@.len());
                assert("RAIL"@.len() != "METRO"@.len());
                assert("RAIL"@.len() != "BUS"@.len());
                assert("RAIL"@.len() != "COACH"@.len());
            },
            Mode::HighspeedRail => {
                assert("HIGHSPEED_RAIL"@.len() != "WALK"@.len());
                assert("HIGHSPEED_RAIL"@.len() != "BIKE"@.len());
                assert("HIGHSPEED_RAIL"@.len() != "RENTAL"@.len());
                assert("HIGHSPEED_RAIL"@.len() != "CAR"@.len());
                assert("HIGHSPEED_RAIL"@.len() != "CAR_PARKING"@.len());
                assert("HIGHSPEED_RAIL"@.len() != "CAR_DROPOFF"@.len());
                assert("HIGHSPEED_RAIL"@.len() != "ODM"@.len());
                assert("HIGHSPEED_RAIL"@.len() != "FLEX"@.len());
                assert("HIGHSPEED_RAIL"@.len() != "TRANSIT"@.len());
                assert("HIGHSPEED_RAIL"@.len() != "TRAM"@.len());
                assert("HIGHSPEED_RAIL"@.len() != "SUBWAY"@.len());
                assert("HIGHSPEED_RAIL"@.len() != "FERRY"@.len());
                assert("HIGHSPEED_RAIL"@.len() != "AIRPLANE"@.len());
                assert("HIGHSPEED_RAIL"@.len() != "METRO"@.len());
                assert("HIGHSPEED_RAIL"@.len() != "BUS"@.len());
                assert("HIGHSPEED_RAIL"@.len() != "COACH"@.len());
                assert("HIGHSPEED_RAIL"@.len() != "RAIL"@.len());
            },
            Mode::LongDistance => {
                assert("LONG_DISTANCE"@.len() != "WALK"@.len());
                assert("LONG_DISTANCE"@.len() != "BIKE"@.len());
                assert("LONG_DISTANCE"@.len() != "RENTAL"@.len());
                assert("LONG_DISTANCE"@.len() != "CAR"@.len());
                assert("LONG_DISTANCE"@.len() != "CAR_PARKING"@.len());
                assert("LONG_DISTANCE"@.len() != "CAR_DROPOFF"@.len());
                assert("LONG_DISTANCE"@.len() != "ODM"@.len());
                assert("LONG_DISTANCE"@.len() != "FLEX"@.len());
                assert("LONG_DISTANCE"@.len() != "TRANSIT"@.len());
                assert("LONG_DISTANCE"@.len() != "TRAM"@.len());
                assert("LONG_DISTANCE"@.len() != "SUBWAY"@.len());
                assert("LONG_DISTANCE"@.len() != "FERRY"@.len());
                assert("LONG_DISTANCE"@.len() != "AIRPLANE"@.len());
                assert("LONG_DISTANCE"@.len() != "METRO"@.len());
                assert("LONG_DISTANCE"@.len() != "BUS"@.len());
                assert("LONG_DISTANCE"@.len() != "COACH"@.len());
                assert("LONG_DISTANCE"@.len() != "RAIL"@.len());
                assert("LONG_DISTANCE"@.len() != "HIGHSPEED_RAIL"@.len());
            },
            Mode::NightRail => {
                assert("NIGHT_RAIL"@.len() != "WALK"@.len());
                assert("NIGHT_RAIL"@.len() != "BIKE"@.len());
                assert("NIGHT_RAIL"@.len() != "RENTAL"@.len());
                assert("NIGHT_RAIL"@.len() != "CAR"@.len());
                assert("NIGHT_RAIL"@.len() != "CAR_PARKING"@.len());
                assert("NIGHT_RAIL"@.len() != "CAR_DROPOFF"@.len());
                assert("NIGHT_RAIL"@.len() != "ODM"@.len());
                assert("NIGHT_RAIL"@.len() != "FLEX"@.len());
                assert("NIGHT_RAIL"@.len() != "TRANSIT"@.len());
                assert("NIGHT_RAIL"@.len() != "TRAM"@.len());
                assert("NIGHT_RAIL"@.len() != "SUBWAY"@.len());
                assert("NIGHT_RAIL"@.len() != "FERRY"@.len());
                assert("NIGHT_RAIL"@.len() != "AIRPLANE"@.len());
                assert("NIGHT_RAIL"@.len() != "METRO"@.len());
                assert("NIGHT_RAIL"@.len() != "BUS"@.len());
                assert("NIGHT_RAIL"@.len() != "COACH"@.len());
                assert("NIGHT_RAIL"@.len() != "RAIL"@.len());
                assert("NIGHT_RAIL"@.len() != "HIGHSPEED_RAIL"@.len());
                assert("NIGHT_RAIL"@.len() != "LONG_DISTANCE"@.len());
            },
            Mode::RegionalFastRail => {
                assert("REGIONAL_FAST_RAIL"@.len() != "WALK"@.len());
                assert("REGIONAL_FAST_RAIL"@.len() != "BIKE"@.len());
                assert("REGIONAL_FAST_RAIL"@.len() != "RENTAL"@.len());
                assert("REGIONAL_FAST_RAIL"@.len() != "CAR"@.len());
                assert("REGIONAL_FAST_RAIL"@.len() != "CAR_PARKING"@.len());
                assert("REGIONAL_FAST_RAIL"@.len() != "CAR_DROPOFF"@.len());
                assert("REGIONAL_FAST_RAIL"@.len() != "ODM"@.len());
                assert("REGIONAL_FAST_RAIL"@.len() != "FLEX"@.len());
                assert("REGIONAL_FAST_RAIL"@.len() != "TRANSIT"@.len());
                assert("REGIONAL_FAST_RAIL"@.len() != "TRAM"@.len());
                assert("REGIONAL_FAST_RAIL"@.len() != "SUBWAY"@.len());
                assert("REGIONAL_FAST_RAIL"@.len() != "FERRY"@.len());
                assert("REGIONAL_FAST_RAIL"@.len() != "AIRPLANE"@.len());
                assert("REGIONAL_FAST_RAIL"@.len() != "METRO"@.len());
                assert("REGIONAL_FAST_RAIL"@.len() != "BUS"@.len());
                assert("REGIONAL_FAST_RAIL"@.len() != "COACH"@.len());
                assert("REGIONAL_FAST_RAIL"@.len() != "RAIL"@.len());
                assert("REGIONAL_FAST_RAIL"@.len() != "HIGHSPEED_RAIL"@.len());
                assert("REGIONAL_FAST_RAIL"@.len() != "LONG_DISTANCE"@.len());
                assert("REGIONAL_FAST_RAIL"@.len() != "NIGHT_RAIL"@.len());
            },
            Mode::RegionalRail => {
                assert("REGIONAL_RAIL"@.len() != "WALK"@.len());
                assert("REGIONAL_RAIL"@.len() != "BIKE"@.len());
                assert("REGIONAL_RAIL"@.len() != "RENTAL"@.len());
                assert("REGIONAL_RAIL"@.len() != "CAR"@.len());
                assert("REGIONAL_RAIL"@.len() != "CAR_PARKING"@.len());
                assert("REGIONAL_RAIL"@.len() != "CAR_DROPOFF"@.len());
                assert("REGIONAL_RAIL"@.len() != "ODM"@.len());
                assert("REGIONAL_RAIL"@.len() != "FLEX"@.len());
                assert("REGIONAL_RAIL"@.len() != "TRANSIT"@.len());
                assert("REGIONAL_RAIL"@.len() != "TRAM"@.len());
                assert("REGIONAL_RAIL"@.len() != "SUBWAY"@.len());
                assert("REGIONAL_RAIL"@.len() != "FERRY"@.len());
                assert("REGIONAL_RAIL"@.len() != "AIRPLANE"@.len());
                assert("REGIONAL_RAIL"@.len() != "METRO"@.len());
                assert("REGIONAL_RAIL"@.len() != "BUS"@.len());
                assert("REGIONAL_RAIL"@.len() != "COACH"@.len());
                assert("REGIONAL_RAIL"@.len() != "RAIL"@.len());
                assert("REGIONAL_RAIL"@.len() != "HIGHSPEED_RAIL"@.len());
                assert("REGIONAL_RAIL"@[0] != "LONG_DISTANCE"@[0]);
                assert("REGIONAL_RAIL"@.len() != "NIGHT_RAIL"@.len());
                assert("REGIONAL_RAIL"@.len() != "REGIONAL_FAST_RAIL"@.len());
            },
            Mode::CableCar => {
                assert("CABLE_CAR"@.len() != "WALK"@.len());
                assert("CABLE_CAR"@.len() != "BIKE"@.len());
                assert("CABLE_CAR"@.len() != "RENTAL"@.len());
                assert("CABLE_CAR"@.len() != "CAR"@.len());
                assert("CABLE_CAR"@.len() != "CAR_PARKING"@.len());
                assert("CABLE_CAR"@.len() != "CAR_DROPOFF"@.len());
                assert("CABLE_CAR"@.len() != "ODM"@.len());
                assert("CABLE_CAR"@.len() != "FLEX"@.len());
                assert("CABLE_CAR"@.len() != "TRANSIT"@.len());
                assert("CABLE_CAR"@.len() != "TRAM"@.len());
                assert("CABLE_CAR"@.len() != "SUBWAY"@.len());
                assert("CABLE_CAR"@.len() != "FERRY"@.len());
                assert("CABLE_CAR"@.len() != "AIRPLANE"@.len());
                assert("CABLE_CAR"@.len() != "METRO"@.len());
                assert("CABLE_CAR"@.len() != "BUS"@.len());
                assert("CABLE_CAR"@.len() != "COACH"@.len());
                assert("CABLE_CAR"@.len() != "RAIL"@.len());
                assert("CABLE_CAR"@.len() != "HIGHSPEED_RAIL"@.len());
                assert("CABLE_CAR"@.len() != "LONG_DISTANCE"@.len());
                assert("CABLE_CAR"@.len() != "NIGHT_RAIL"@.len());
                assert("CABLE_CAR"@.len() != "REGIONAL_FAST_RAIL"@.len());
                assert("CABLE_CAR"@.len() != "REGIONAL_RAIL"@.len());
            },
            Mode::Funicular => {
                assert("FUNICULAR"@.len() != "WALK"@.len());
                assert("FUNICULAR"@.len() != "BIKE"@.len());
                assert("FUNICULAR"@.len() != "RENTAL"@.len());
                assert("FUNICULAR"@.len() != "CAR"@.len());
                assert("FUNICULAR"@.len() != "CAR_PARKING"@.len());
                assert("FUNICULAR"@.len() != "CAR_DROPOFF"@.len());
                assert("FUNICULAR"@.len() != "ODM"@.len());
                assert("FUNICULAR"@.len() != "FLEX"@.len());
                assert("FUNICULAR"@.len() != "TRANSIT"@.len());
                assert("FUNICULAR"@.len() != "TRAM"@.len());
                assert("FUNICULAR"@.len() != "SUBWAY"@.len());
                assert("FUNICULAR"@.len() != "FERRY"@.len());
                assert("FUNICULAR"@.len() != "AIRPLANE"@.len());
                assert("FUNICULAR"@.len() != "METRO"@.len());
                assert("FUNICULAR"@.len() != "BUS"@.len());
                assert("FUNICULAR"@.len() != "COACH"@.len());
                assert("FUNICULAR"@.len() != "RAIL"@.len());
                assert("FUNICULAR"@.len() != "HIGHSPEED_RAIL"@.len());
                assert("FUNICULAR"@.len() != "LONG_DISTANCE"@.len());
                assert("FUNICULAR"@.len() != "NIGHT_RAIL"@.len());
                assert("FUNICULAR"@.len() != "REGIONAL_FAST_RAIL"@.len());
                assert("FUNICULAR"@.len() != "REGIONAL_RAIL"@.len());
                assert("FUNICULAR"@[0] != "CABLE_CAR"@[0]);
            },
            Mode::ArealLift => {
                assert("AREAL_LIFT"@.len() != "WALK"@.len());
                assert("AREAL_LIFT"@.len() != "BIKE"@.len());
                assert("AREAL_LIFT"@.len() != "RENTAL"@.len());
                assert("AREAL_LIFT"@.len() != "CAR"@.len());
                assert("AREAL_LIFT"@.len() != "CAR_PARKING"@.len());
                assert("AREAL_LIFT"@.len() != "CAR_DROPOFF"@.len());
                assert("AREAL_LIFT"@.len() != "ODM"@.len());
                assert("AREAL_LIFT"@.len() != "FLEX"@.len());
                assert("AREAL_LIFT"@.len() != "TRANSIT"@.len());
                assert("AREAL_LIFT"@.len() != "TRAM"@.len());
                assert("AREAL_LIFT"@.len() != "SUBWAY"@.len());
                assert("AREAL_LIFT"@.len() != "FERRY"@.len());
                assert("AREAL_LIFT"@.len() != "AIRPLANE"@.len());
                assert("AREAL_LIFT"@.len() != "METRO"@.len());
                assert("AREAL_LIFT"@.len() != "BUS"@.len());
                assert("AREAL_LIFT"@.len() != "COACH"@.len());
                assert("AREAL_LIFT"@.len() != "RAIL"@.len());
                assert("AREAL_LIFT"@.len() != "HIGHSPEED_RAIL"@.len());
                assert("AREAL_LIFT"@.len() != "LONG_DISTANCE"@.len());
                assert("AREAL_LIFT"@[0] != "NIGHT_RAIL"@[0]);
                assert("AREAL_LIFT"@.len() != "REGIONAL_FAST_RAIL"@.len());
                assert("AREAL_LIFT"@.len() != "REGIONAL_RAIL"@.len());
                assert("AREAL_LIFT"@.len() != "CABLE_CAR"@.len());
                assert("AREAL_LIFT"@.len() != "FUNICULAR"@.len());
            },
            Mode::Other => {
                assert("OTHER"@.len() != "WALK"@.len());
                assert("OTHER"@.len() != "BIKE"@.len());
                assert("OTHER"@.len() != "RENTAL"@.len());
                assert("OTHER"@.len() != "CAR"@.len());
                assert("OTHER"@.len() != "CAR_PARKING"@.len());
                assert("OTHER"@.len() != "CAR_DROPOFF"@.len());
                assert("OTHER"@.len() != "ODM"@.len());
                assert("OTHER"@.len() != "FLEX"@.len());
                assert("OTHER"@.len() != "TRANSIT"@.len());
                assert("OTHER"@.len() != "TRAM"@.len());
                assert("OTHER"@.len() != "SUBWAY"@.len());
                assert("OTHER"@[0] != "FERRY"@[0]);
                assert("OTHER"@.len() != "AIRPLANE"@.len());
                assert("OTHER"@[0] != "METRO"@[0]);
                assert("OTHER"@.len() != "BUS"@.len());
                assert("OTHER"@[0] != "COACH"@[0]);
                assert("OTHER"@.len() != "RAIL"@.len());
                assert("OTHER"@.len() != "HIGHSPEED_RAIL"@.len());
                assert("OTHER"@.len() != "LONG_DISTANCE"@.len());
                assert("OTHER"@.len() != "NIGHT_RAIL"@.len());
                assert("OTHER"@.len() != "REGIONAL_FAST_RAIL"@.len());
                assert("OTHER"@.len() != "REGIONAL_RAIL"@.len());
                assert("OTHER"@.len() != "CABLE_CAR"@.len());
                assert("OTHER"@.len() != "FUNICULAR"@.len());
                assert("OTHER"@.len() != "AREAL_LIFT"@.len());
            },
        }
    }

    /// Every value is named by its name, and no two values share a name.
    pub proof fn lemma_name_roundtrip(self)
        ensures
            Mode::spec_named(self.spec_name()) == Some(self),
            forall|other: Mode| #[trigger] other.spec_name() == self.spec_name() ==> other == self,
    {
        self.lemma_named_by_name();
        assert forall|other: Mode| #[trigger] other.spec_name() == self.spec_name() implies other == self by {
            other.lemma_named_by_name();
        }
    }
}

impl core::str::FromStr for Mode {
    type Err = ConversionError;

    fn from_str(value: &str) -> (r: Result<Self, ConversionError>)
        ensures
            match r {
                Ok(v) => Mode::spec_named(value@) == Some(v),
                Err(e) => Mode::spec_named(value@) is None && e@ == "invalid value"@,
            },
    {
        Mode::parse(value)
    }
}

impl From<&Mode> for Mode {
    fn from(value: &Mode) -> (r: Self) {
        *value
    }
}

impl vstd::std_specs::convert::FromSpecImpl<&Mode> for Mode {
    open spec fn obeys_from_spec() -> bool {
        true
    }

    open spec fn from_spec(v: &Mode) -> Self {
        *v
    }
}

/// Different accessibility profiles for pedestrians.
#[derive(Clone, Copy, Debug, Eq, Hash, Ord, PartialEq, PartialOrd)]
pub enum PedestrianProfile {
    Foot,
    Wheelchair,
}

impl PedestrianProfile {
    /// The name of the value in the API.
    pub open spec fn spec_name(self) -> Seq<char> {
        match self {
            PedestrianProfile::Foot => "FOOT"@,
            PedestrianProfile::Wheelchair => "WHEELCHAIR"@,
        }
    }

    /// The value that `name` names in the API, if any.
    pub open spec fn spec_named(name: Seq<char>) -> Option<PedestrianProfile> {
        if name == "FOOT"@ {
            Some(PedestrianProfile::Foot)
        } else if name == "WHEELCHAIR"@ {
            Some(PedestrianProfile::Wheelchair)
        } else {
            None
        }
    }

    /// The name of the value in the API (what `Display` writes).
    pub fn as_str(&self) -> (r: &'static str)
        ensures
            r@ == self.spec_name(),
    {
        match self {
            PedestrianProfile::Foot => "FOOT",
            PedestrianProfile::Wheelchair => "WHEELCHAIR",
        }
    }

    /// The name of the value in the API, as an owned string.
    pub fn to_string(&self) -> (r: String)
        ensures
            r@ == self.spec_name(),
    {
        owned(self.as_str())
    }

    /// The value that `value` names; an "invalid value" error where it names none.
    pub fn parse(value: &str) -> (r: Result<PedestrianProfile, ConversionError>)
        ensures
            match r {
                Ok(v) => PedestrianProfile::spec_named(value@) == Some(v),
                Err(e) => PedestrianProfile::spec_named(value@) is None && e@ == "invalid value"@,
            },
    {
        if str_eq(value, "FOOT") {
            Ok(PedestrianProfile::Foot)
        } else if str_eq(value, "WHEELCHAIR") {
            Ok(PedestrianProfile::Wheelchair)
        } else {
            Err(ConversionError::new("invalid value"))
        }
    }

    /// The name of every value names that value.
    pub proof fn lemma_named_by_name(self)
        ensures
            PedestrianProfile::spec_named(self.spec_name()) == Some(self),
    {
        broadcast use vstd::string::group_string_axioms;

        reveal_strlit("FOOT");
        reveal_strlit("WHEELCHAIR");
        match self {
            PedestrianProfile::Foot => {},
            PedestrianProfile::Wheelchair => {
                assert("WHEELCHAIR"@.len() != "FOOT"@.len());
            },
        }
    }

    /// Every value is named by its name, and no two values share a name.
    pub proof fn lemma_name_roundtrip(self)
        ensures
            PedestrianProfile::spec_named(self.spec_name()) == Some(self),
            forall|other: PedestrianProfile| #[trigger] other.spec_name() == self.spec_name() ==> other == self,
    {
        self.lemma_named_by_name();
        assert forall|other: PedestrianProfile| #[trigger] other.spec_name() == self.spec_name() implies other == self by {
            other.lemma_named_by_name();
        }
    }
}

impl core::str::FromStr for PedestrianProfile {
    type Err = ConversionError;

    fn from_str(value: &str) -> (r: Result<Self, ConversionError>)
        ensures
            match r {
                Ok(v) => PedestrianProfile::spec_named(value@) == Some(v),
                Err(e) => PedestrianProfile::spec_named(value@) is None && e@ == "invalid value"@,
            },
    {
        PedestrianProfile::parse(value)
    }
}

impl From<&PedestrianProfile> for PedestrianProfile {
    fn from(value: &PedestrianProfile) -> (r: Self) {
        *value
    }
}

impl vstd::std_specs::convert::FromSpecImpl<&PedestrianProfile> for PedestrianProfile {
    open spec fn obeys_from_spec() -> bool {
        true
    }

    open spec fn from_spec(v: &PedestrianProfile) -> Self {
        *v
    }
}

/// - `NORMAL` - entry/exit is possible normally
/// - `NOT_ALLOWED` - entry/exit is not allowed
#[derive(Clone, Copy, Debug, Eq, Hash, Ord, PartialEq, PartialOrd)]
pub enum PickupDropoffType {
    Normal,
    NotAllowed,
}

impl PickupDropoffType {
    /// The name of the value in the API.
    pub open spec fn spec_name(self) -> Seq<char> {
        match self {
            PickupDropoffType::Normal => "NORMAL"@,
            PickupDropoffType::NotAllowed => "NOT_ALLOWED"@,
        }
    }

    /// The value that `name` names in the API, if any.
    pub open spec fn spec_named(name: Seq<char>) -> Option<PickupDropoffType> {
        if name == "NORMAL"@ {
            Some(PickupDropoffType::Normal)
        } else if name == "NOT_ALLOWED"@ {
            Some(PickupDropoffType::NotAllowed)
        } else {
            None
        }
    }

    /// The name of the value in the API (what `Display` writes).
    pub fn as_str(&self) -> (r: &'static str)
        ensures
            r@ == self.spec_name(),
    {
        match self {
            PickupDropoffType::Normal => "NORMAL",
            PickupDropoffType::NotAllowed => "NOT_ALLOWED",
        }
    }

    /// The name of the value in the API, as an owned string.
    pub fn to_string(&self) -> (r: String)
        ensures
            r@ == self.spec_name(),
    {
        owned(self.as_str())
    }

    /// The value that `value` names; an "invalid value" error where it names none.
    pub fn parse(value: &str) -> (r: Result<PickupDropoffType, ConversionError>)
        ensures
            match r {
                Ok(v) => PickupDropoffType::spec_named(value@) == Some(v),
                Err(e) => PickupDropoffType::spec_named(value@) is None && e@ == "invalid value"@,
            },
    {
        if str_eq(value, "NORMAL") {
            Ok(PickupDropoffType::Normal)
        } else if str_eq(value, "NOT_ALLOWED") {
            Ok(PickupDropoffType::NotAllowed)
        } else {
            Err(ConversionError::new("invalid value"))
        }
    }

    /// The name of every value names that value.
    pub proof fn lemma_named_by_name(self)
        ensures
            PickupDropoffType::spec_named(self.spec_name()) == Some(self),
    {
        broadcast use vstd::string::group_string_axioms;

        reveal_strlit("NORMAL");
        reveal_strlit("NOT_ALLOWED");
        match self {
            PickupDropoffType::Normal => {},
            PickupDropoffType::NotAllowed => {
                assert("NOT_ALLOWED"@.len() != "NORMAL"@.len());
            },
        }
    }

    /// Every value is named by its name, and no two values share a name.
    pub proof fn lemma_name_roundtrip(self)
        ensures
            PickupDropoffType::spec_named(self.spec_name()) == Some(self),
            forall|other: PickupDropoffType| #[trigger] other.spec_name() == self.spec_name() ==> other == self,
    {
        self.lemma_named_by_name();
        assert forall|other: PickupDropoffType| #[trigger] other.spec_name() == self.spec_name() implies other == self by {
            other.lemma_named_by_name();
        }
    }
}

impl core::str::FromStr for PickupDropoffType {
    type Err = ConversionError;

    fn from_str(value: &str) -> (r: Result<Self, ConversionError>)
        ensures
            match r {
                Ok(v) => PickupDropoffType::spec_named(value@) == Some(v),
                Err(e) => PickupDropoffType::spec_named(value@) is None && e@ == "invalid value"@,
            },
    {
        PickupDropoffType::parse(value)
    }
}

impl From<&PickupDropoffType> for PickupDropoffType {
    fn from(value: &PickupDropoffType) -> (r: Self) {
        *value
    }
}

impl vstd::std_specs::convert::FromSpecImpl<&PickupDropoffType> for PickupDropoffType {
    open spec fn obeys_from_spec() -> bool {
        true
    }

    open spec fn from_spec(v: &PickupDropoffType) -> Self {
        *v
    }
}

/// `PlanAlgorithm`
#[derive(Clone, Copy, Debug, Eq, Hash, Ord, PartialEq, PartialOrd)]
pub enum PlanAlgorithm {
    Raptor,
    Tb,
}

impl PlanAlgorithm {
    /// The name of the value in the API.
    pub open spec fn spec_name(self) -> Seq<char> {
        match self {
            PlanAlgorithm::Raptor => "RAPTOR"@,
            PlanAlgorithm::Tb => "TB"@,
        }
    }

    /// The value that `name` names in the API, if any.
    pub open spec fn spec_named(name: Seq<char>) -> Option<PlanAlgorithm> {
        if name == "RAPTOR"@ {
            Some(PlanAlgorithm::Raptor)
        } else if name == "TB"@ {
            Some(PlanAlgorithm::Tb)
        } else {
            None
        }
    }

    /// The name of the value in the API (what `Display` writes).
    pub fn as_str(&self) -> (r: &'static str)
        ensures
            r@ == self.spec_name(),
    {
        match self {
            PlanAlgorithm::Raptor => "RAPTOR",
            PlanAlgorithm::Tb => "TB",
        }
    }

    /// The name of the value in the API, as an owned string.
    pub fn to_string(&self) -> (r: String)
        ensures
            r@ == self.spec_name(),
    {
        owned(self.as_str())
    }

    /// The value that `value` names; an "invalid value" error where it names none.
    pub fn parse(value: &str) -> (r: Result<PlanAlgorithm, ConversionError>)
        ensures
            match r {
                Ok(v) => PlanAlgorithm::spec_named(value@) == Some(v),
                Err(e) => PlanAlgorithm::spec_named(value@) is None && e@ == "invalid value"@,
            },
    {
        if str_eq(value, "RAPTOR") {
            Ok(PlanAlgorithm::Raptor)
        } else if str_eq(value, "TB") {
            Ok(PlanAlgorithm::Tb)
        } else {
            Err(ConversionError::new("invalid value"))
        }
    }

    /// The name of every value names that value.
    pub proof fn lemma_named_by_name(self)
        ensures
            PlanAlgorithm::spec_named(self.spec_name()) == Some(self),
    {
        broadcast use vstd::string::group_string_axioms;

        reveal_strlit("RAPTOR");
        reveal_strlit("TB");
        match self {
            PlanAlgorithm::Raptor => {},
            PlanAlgorithm::Tb => {
                assert("TB"@.len() != "RAPTOR"@.len());
            },
        }
    }

    /// Every value is named by its name, and no two values share a name.
    pub proof fn lemma_name_roundtrip(self)
        ensures
            PlanAlgorithm::spec_named(self.spec_name()) == Some(self),
            forall|other: PlanAlgorithm| #[trigger] other.spec_name() == self.spec_name() ==> other == self,
    {
        self.lemma_named_by_name();
        assert forall|other: PlanAlgorithm| #[trigger] other.spec_name() == self.spec_name() implies other == self by {
            other.lemma_named_by_name();
        }
    }
}

impl core::str::FromStr for PlanAlgorithm {
    type Err = ConversionError;

    fn from_str(value: &str) -> (r: Result<Self, ConversionError>)
        ensures
            match r {
                Ok(v) => PlanAlgorithm::spec_named(value@) == Some(v),
                Err(e) => PlanAlgorithm::spec_named(value@) is None && e@ == "invalid value"@,
            },
    {
        PlanAlgorithm::parse(value)
    }
}

impl From<&PlanAlgorithm> for PlanAlgorithm {
    fn from(value: &PlanAlgorithm) -> (r: Self) {
        *value
    }
}

impl vstd::std_specs::convert::FromSpecImpl<&PlanAlgorithm> for PlanAlgorithm {
    open spec fn obeys_from_spec() -> bool {
        true
    }

    open spec fn from_spec(v: &PlanAlgorithm) -> Self {
        *v
    }
}

impl Default for PlanAlgorithm {
    fn default() -> (r: Self)
        ensures
            r == PlanAlgorithm::Raptor,
    {
        PlanAlgorithm::Raptor
    }
}

/// `RentalFormFactor`
#[derive(Clone, Copy, Debug, Eq, Hash, Ord, PartialEq, PartialOrd)]
pub enum RentalFormFactor {
    Bicycle,
    CargoBicycle,
    Car,
    Moped,
    ScooterStanding,
    ScooterSeated,
    Other,
}

impl RentalFormFactor {
    /// The name of the value in the API.
    pub open spec fn spec_name(self) -> Seq<char> {
        match self {
            RentalFormFactor::Bicycle => "BICYCLE"@,
            RentalFormFactor::CargoBicycle => "CARGO_BICYCLE"@,
            RentalFormFactor::Car => "CAR"@,
            RentalFormFactor::Moped => "MOPED"@,
            RentalFormFactor::ScooterStanding => "SCOOTER_STANDING"@,
            RentalFormFactor::ScooterSeated => "SCOOTER_SEATED"@,
            RentalFormFactor::Other => "OTHER"@,
        }
    }

    /// The value that `name` names in the API, if any.
    pub open spec fn spec_named(name: Seq<char>) -> Option<RentalFormFactor> {
        if name == "BICYCLE"@ {
            Some(RentalFormFactor::Bicycle)
        } else if name == "CARGO_BICYCLE"@ {
            Some(RentalFormFactor::CargoBicycle)
        } else if name == "CAR"@ {
            Some(RentalFormFactor::Car)
        } else if name == "MOPED"@ {
            Some(RentalFormFactor::Moped)
        } else if name == "SCOOTER_STANDING"@ {
            Some(RentalFormFactor::ScooterStanding)
        } else if name == "SCOOTER_SEATED"@ {
            Some(RentalFormFactor::ScooterSeated)
        } else if name == "OTHER"@ {
            Some(RentalFormFactor::Other)
        } else {
            None
        }
    }

    /// The name of the value in the API (what `Display` writes).
    pub fn as_str(&self) -> (r: &'static str)
        ensures
            r@ == self.spec_name(),
    {
        match self {
            RentalFormFactor::Bicycle => "BICYCLE",
            RentalFormFactor::CargoBicycle => "CARGO_BICYCLE",
            RentalFormFactor::Car => "CAR",
            RentalFormFactor::Moped => "MOPED",
            RentalFormFactor::ScooterStanding => "SCOOTER_STANDING",
            RentalFormFactor::ScooterSeated => "SCOOTER_SEATED",
            RentalFormFactor::Other => "OTHER",
        }
    }

    /// The name of the value in the API, as an owned string.
    pub fn to_string(&self) -> (r: String)
        ensures
            r@ == self.spec_name(),
    {
        owned(self.as_str())
    }

    /// The value that `value` names; an "invalid value" error where it names none.
    pub fn parse(value: &str) -> (r: Result<RentalFormFactor, ConversionError>)
        ensures
            match r {
                Ok(v) => RentalFormFactor::spec_named(value@) == Some(v),
                Err(e) => RentalFormFactor::spec_named(value@) is None && e@ == "invalid value"@,
            },
    {
        if str_eq(value, "BICYCLE") {
            Ok(RentalFormFactor::Bicycle)
        } else if str_eq(value, "CARGO_BICYCLE") {
            Ok(RentalFormFactor::CargoBicycle)
        } else if str_eq(value, "CAR") {
            Ok(RentalFormFactor::Car)
        } else if str_eq(value, "MOPED") {
            Ok(RentalFormFactor::Moped)
        } else if str_eq(value, "SCOOTER_STANDING") {
            Ok(RentalFormFactor::ScooterStanding)
        } else if str_eq(value, "SCOOTER_SEATED") {
            Ok(RentalFormFactor::ScooterSeated)
        } else if str_eq(value, "OTHER") {
            Ok(RentalFormFactor::Other)
        } else {
            Err(ConversionError::new("invalid value"))
        }
    }

    /// The name of every value names that value.
    pub proof fn lemma_named_by_name(self)
        ensures
            RentalFormFactor::spec_named(self.spec_name()) == Some(self),
    {
        broadcast use vstd::string::group_string_axioms;

        reveal_strlit("BICYCLE");
        reveal_strlit("CARGO_BICYCLE");
        reveal_strlit("CAR");
        reveal_strlit("MOPED");
        reveal_strlit("SCOOTER_STANDING");
        reveal_strlit("SCOOTER_SEATED");
        reveal_strlit("OTHER");
        match self {
            RentalFormFactor::Bicycle => {},
            RentalFormFactor::CargoBicycle => {
                assert("CARGO_BICYCLE"@.len() != "BICYCLE"@.len());
            },
            RentalFormFactor::Car => {
                assert("CAR"@.len() != "BICYCLE"@.len());
                assert("CAR"@.len() != "CARGO_BICYCLE"@.len());
            },
            RentalFormFactor::Moped => {
                assert("MOPED"@.len() != "BICYCLE"@.len());
                assert("MOPED"@.len() != "CARGO_BICYCLE"@.len());
                assert("MOPED"@.len() != "CAR"@.len());
            },
            RentalFormFactor::ScooterStanding => {
                assert("SCOOTER_STANDING"@.len() != "BICYCLE"@.len());
                assert("SCOOTER_STANDING"@.len() != "CARGO_BICYCLE"@.len());
                assert("SCOOTER_STANDING"@.len() != "CAR"@.len());
                assert("SCOOTER_STANDING"@.len() != "MOPED"@.len());
            },
            RentalFormFactor::ScooterSeated => {
                assert("SCOOTER_SEATED"@.len() != "BICYCLE"@.len());
                assert("SCOOTER_SEATED"@.len() != "CARGO_BICYCLE"@.len());
                assert("SCOOTER_SEATED"@.len() != "CAR"@.len());
                assert("SCOOTER_SEATED"@.len() != "MOPED"@.len());
                assert("SCOOTER_SEATED"@.len() != "SCOOTER_STANDING"@.len());
            },
            RentalFormFactor::Other => {
                assert("OTHER"@.len() != "BICYCLE"@.len());
                assert("OTHER"@.len() != "CARGO_BICYCLE"@.len());
                assert("OTHER"@.len() != "CAR"@.len());
                assert("OTHER"@[0] != "MOPED"@[0]);
                assert("OTHER"@.len() != "SCOOTER_STANDING"@.len());
                assert("OTHER"@.len() != "SCOOTER_SEATED"@.len());
            },
        }
    }

    /// Every value is named by its name, and no two values share a name.
    pub proof fn lemma_name_roundtrip(self)
        ensures
            RentalFormFactor::spec_named(self.spec_name()) == Some(self),
            forall|other: RentalFormFactor| #[trigger] other.spec_name() == self.spec_name() ==> other == self,
    {
        self.lemma_named_by_name();
        assert forall|other: RentalFormFactor| #[trigger] other.spec_name() == self.spec_name() implies other == self by {
            other.lemma_named_by_name();
        }
    }
}

impl core::str::FromStr for RentalFormFactor {
    type Err = ConversionError;

    fn from_str(value: &str) -> (r: Result<Self, ConversionError>)
        ensures
            match r {
                Ok(v) => RentalFormFactor::spec_named(value@) == Some(v),
                Err(e) => RentalFormFactor::spec_named(value@) is None && e@ == "invalid value"@,
            },
    {
        RentalFormFactor::parse(value)
    }
}

impl From<&RentalFormFactor> for RentalFormFactor {
    fn from(value: &RentalFormFactor) -> (r: Self) {
        *value
    }
}

impl vstd::std_specs::convert::FromSpecImpl<&RentalFormFactor> for RentalFormFactor {
    open spec fn obeys_from_spec() -> bool {
        true
    }

    open spec fn from_spec(v: &RentalFormFactor) -> Self {
        *v
    }
}

/// `RentalPropulsionType`
#[derive(Clone, Copy, Debug, Eq, Hash, Ord, PartialEq, PartialOrd)]
pub enum RentalPropulsionType {
    Human,
    ElectricAssist,
    Electric,
    Combustion,
    CombustionDiesel,
    Hybrid,
    PlugInHybrid,
    HydrogenFuelCell,
}

impl RentalPropulsionType {
    /// The name of the value in the API.
    pub open spec fn spec_name(self) -> Seq<char> {
        match self {
            RentalPropulsionType::Human => "HUMAN"@,
            RentalPropulsionType::ElectricAssist => "ELECTRIC_ASSIST"@,
            RentalPropulsionType::Electric => "ELECTRIC"@,
            RentalPropulsionType::Combustion => "COMBUSTION"@,
            RentalPropulsionType::CombustionDiesel => "COMBUSTION_DIESEL"@,
            RentalPropulsionType::Hybrid => "HYBRID"@,
            RentalPropulsionType::PlugInHybrid => "PLUG_IN_HYBRID"@,
            RentalPropulsionType::HydrogenFuelCell => "HYDROGEN_FUEL_CELL"@,
        }
    }

    /// The value that `name` names in the API, if any.
    pub open spec fn spec_named(name: Seq<char>) -> Option<RentalPropulsionType> {
        if name == "HUMAN"@ {
            Some(RentalPropulsionType::Human)
        } else if name == "ELECTRIC_ASSIST"@ {
            Some(RentalPropulsionType::ElectricAssist)
        } else if name == "ELECTRIC"@ {
            Some(RentalPropulsionType::Electric)
        } else if name == "COMBUSTION"@ {
            Some(RentalPropulsionType::Combustion)
        } else if name == "COMBUSTION_DIESEL"@ {
            Some(RentalPropulsionType::CombustionDiesel)
        } else if name == "HYBRID"@ {
            Some(RentalPropulsionType::Hybrid)
        } else if name == "PLUG_IN_HYBRID"@ {
            Some(RentalPropulsionType::PlugInHybrid)
        } else if name == "HYDROGEN_FUEL_CELL"@ {
            Some(RentalPropulsionType::HydrogenFuelCell)
        } else {
            None
        }
    }

    /// The name of the value in the API (what `Display` writes).
    pub fn as_str(&self) -> (r: &'static str)
        ensures
            r@ == self.spec_name(),
    {
        match self {
            RentalPropulsionType::Human => "HUMAN",
            RentalPropulsionType::ElectricAssist => "ELECTRIC_ASSIST",
            RentalPropulsionType::Electric => "ELECTRIC",
            RentalPropulsionType::Combustion => "COMBUSTION",
            RentalPropulsionType::CombustionDiesel => "COMBUSTION_DIESEL",
            RentalPropulsionType::Hybrid => "HYBRID",
            RentalPropulsionType::PlugInHybrid => "PLUG_IN_HYBRID",
            RentalPropulsionType::HydrogenFuelCell => "HYDROGEN_FUEL_CELL",
        }
    }

    /// The name of the value in the API, as an owned string.
    pub fn to_string(&self) -> (r: String)
        ensures
            r@ == self.spec_name(),
    {
        owned(self.as_str())
    }

    /// The value that `value` names; an "invalid value" error where it names none.
    pub fn parse(value: &str) -> (r: Result<RentalPropulsionType, ConversionError>)
        ensures
            match r {
                Ok(v) => RentalPropulsionType::spec_named(value@) == Some(v),
                Err(e) => RentalPropulsionType::spec_named(value@) is None && e@ == "invalid value"@,
            },
    {
        if str_eq(value, "HUMAN") {
            Ok(RentalPropulsionType::Human)
        } else if str_eq(value, "ELECTRIC_ASSIST") {
            Ok(RentalPropulsionType::ElectricAssist)
        } else if str_eq(value, "ELECTRIC") {
            Ok(RentalPropulsionType::Electric)
        } else if str_eq(value, "COMBUSTION") {
            Ok(RentalPropulsionType::Combustion)
        } else if str_eq(value, "COMBUSTION_DIESEL") {
            Ok(RentalPropulsionType::CombustionDiesel)
        } else if str_eq(value, "HYBRID") {
            Ok(RentalPropulsionType::Hybrid)
        } else if str_eq(value, "PLUG_IN_HYBRID") {
            Ok(RentalPropulsionType::PlugInHybrid)
        } else if str_eq(value, "HYDROGEN_FUEL_CELL") {
            Ok(RentalPropulsionType::HydrogenFuelCell)
        } else {
            Err(ConversionError::new("invalid value"))
        }
    }

    /// The name of every value names that value.
    pub proof fn lemma_named_by_name(self)
        ensures
            RentalPropulsionType::spec_named(self.spec_name()) == Some(self),
    {
        broadcast use vstd::string::group_string_axioms;

        reveal_strlit("HUMAN");
        reveal_strlit("ELECTRIC_ASSIST");
        reveal_strlit("ELECTRIC");
        reveal_strlit("COMBUSTION");
        reveal_strlit("COMBUSTION_DIESEL");
        reveal_strlit("HYBRID");
        reveal_strlit("PLUG_IN_HYBRID");
        reveal_strlit("HYDROGEN_FUEL_CELL");
        match self {
            RentalPropulsionType::Human => {},
            RentalPropulsionType::ElectricAssist => {
                assert("ELECTRIC_ASSIST"@.len() != "HUMAN"@.len());
            },
            RentalPropulsionType::Electric => {
                assert("ELECTRIC"@.len() != "HUMAN"@.len());
                assert("ELECTRIC"@.len() != "ELECTRIC_ASSIST"@.len());
            },
            RentalPropulsionType::Combustion => {
                assert("COMBUSTION"@.len() != "HUMAN"@.len());
                assert("COMBUSTION"@.len() != "ELECTRIC_ASSIST"@.len());
                assert("COMBUSTION"@.len() != "ELECTRIC"@.len());
            },
            RentalPropulsionType::CombustionDiesel => {
                assert("COMBUSTION_DIESEL"@.len() != "HUMAN"@.len());
                assert("COMBUSTION_DIESEL"@.len() != "ELECTRIC_ASSIST"@.len());
                assert("COMBUSTION_DIESEL"@.len() != "ELECTRIC"@.len());
                assert("COMBUSTION_DIESEL"@.len() != "COMBUSTION"@.len());
            },
            RentalPropulsionType::Hybrid => {
                assert("HYBRID"@.len() != "HUMAN"@.len());
                assert("HYBRID"@.len() != "ELECTRIC_ASSIST"@.len());
                assert("HYBRID"@.len() != "ELECTRIC"@.len());
                assert("HYBRID"@.len() != "COMBUSTION"@.len());
                assert("HYBRID"@.len() != "COMBUSTION_DIESEL"@.len());
            },
            RentalPropulsionType::PlugInHybrid => {
                assert("PLUG_IN_HYBRID"@.len() != "HUMAN"@.len());
                assert("PLUG_IN_HYBRID"@.len() != "ELECTRIC_ASSIST"@.len());
                assert("PLUG_IN_HYBRID"@.len() != "ELECTRIC"@.len());
                assert("PLUG_IN_HYBRID"@.len() != "COMBUSTION"@.len());
                assert("PLUG_IN_HYBRID"@.len() != "COMBUSTION_DIESEL"@.len());
                assert("PLUG_IN_HYBRID"@.len() != "HYBRID"@.len());
            },
            RentalPropulsionType::HydrogenFuelCell => {
                assert("HYDROGEN_FUEL_CELL"@.len() != "HUMAN"@.len());
                assert("HYDROGEN_FUEL_CELL"@.len() != "ELECTRIC_ASSIST"@.len());
                assert("HYDROGEN_FUEL_CELL"@.len() != "ELECTRIC"@.len());
                assert("HYDROGEN_FUEL_CELL"@.len() != "COMBUSTION"@.len());
                assert("HYDROGEN_FUEL_CELL"@.len() != "COMBUSTION_DIESEL"@.len());
                assert("HYDROGEN_FUEL_CELL"@.len() != "HYBRID"@.len());
                assert("HYDROGEN_FUEL_CELL"@.len() != "PLUG_IN_HYBRID"@.len());
            },
        }
    }

    /// Every value is named by its name, and no two values share a name.
    pub proof fn lemma_name_roundtrip(self)
        ensures
            RentalPropulsionType::spec_named(self.spec_name()) == Some(self),
            forall|other: RentalPropulsionType| #[trigger] other.spec_name() == self.spec_name() ==> other == self,
    {
        self.lemma_named_by_name();
        assert forall|other: RentalPropulsionType| #[trigger] other.spec_name() == self.spec_name() implies other == self by {
            other.lemma_named_by_name();
        }
    }
}

impl core::str::FromStr for RentalPropulsionType {
    type Err = ConversionError;

    fn from_str(value: &str) -> (r: Result<Self, ConversionError>)
        ensures
            match r {
                Ok(v) => RentalPropulsionType::spec_named(value@) == Some(v),
                Err(e) => RentalPropulsionType::spec_named(value@) is None && e@ == "invalid value"@,
            },
    {
        RentalPropulsionType::parse(value)
    }
}

impl From<&RentalPropulsionType> for RentalPropulsionType {
    fn from(value: &RentalPropulsionType) -> (r: Self) {
        *value
    }
}

impl vstd::std_specs::convert::FromSpecImpl<&RentalPropulsionType> for RentalPropulsionType {
    open spec fn obeys_from_spec() -> bool {
        true
    }

    open spec fn from_spec(v: &RentalPropulsionType) -> Self {
        *v
    }
}

/// `RentalReturnConstraint`
#[derive(Clone, Copy, Debug, Eq, Hash, Ord, PartialEq, PartialOrd)]
pub enum RentalReturnConstraint {
    NoConstraint,
    AnyStation,
    RoundtripStation,
}

impl RentalReturnConstraint {
    /// The name of the value in the API.
    pub open spec fn spec_name(self) -> Seq<char> {
        match self {
            RentalReturnConstraint::NoConstraint => "NONE"@,
            RentalReturnConstraint::AnyStation => "ANY_STATION"@,
            RentalReturnConstraint::RoundtripStation => "ROUNDTRIP_STATION"@,
        }
    }

    /// The value that `name` names in the API, if any.
    pub open spec fn spec_named(name: Seq<char>) -> Option<RentalReturnConstraint> {
        if name == "NONE"@ {
            Some(RentalReturnConstraint::NoConstraint)
        } else if name == "ANY_STATION"@ {
            Some(RentalReturnConstraint::AnyStation)
        } else if name == "ROUNDTRIP_STATION"@ {
            Some(RentalReturnConstraint::RoundtripStation)
        } else {
            None
        }
    }

    /// The name of the value in the API (what `Display` writes).
    pub fn as_str(&self) -> (r: &'static str)
        ensures
            r@ == self.spec_name(),
    {
        match self {
            RentalReturnConstraint::NoConstraint => "NONE",
            RentalReturnConstraint::AnyStation => "ANY_STATION",
            RentalReturnConstraint::RoundtripStation => "ROUNDTRIP_STATION",
        }
    }

    /// The name of the value in the API, as an owned string.
    pub fn to_string(&self) -> (r: String)
        ensures
            r@ == self.spec_name(),
    {
        owned(self.as_str())
    }

    /// The value that `value` names; an "invalid value" error where it names none.
    pub fn parse(value: &str) -> (r: Result<RentalReturnConstraint, ConversionError>)
        ensures
            match r {
                Ok(v) => RentalReturnConstraint::spec_named(value@) == Some(v),
                Err(e) => RentalReturnConstraint::spec_named(value@) is None && e@ == "invalid value"@,
            },
    {
        if str_eq(value, "NONE") {
            Ok(RentalReturnConstraint::NoConstraint)
        } else if str_eq(value, "ANY_STATION") {
            Ok(RentalReturnConstraint::AnyStation)
        } else if str_eq(value, "ROUNDTRIP_STATION") {
            Ok(RentalReturnConstraint::RoundtripStation)
        } else {
            Err(ConversionError::new("invalid value"))
        }
    }

    /// The name of every value names that value.
    pub proof fn lemma_named_by_name(self)
        ensures
            RentalReturnConstraint::spec_named(self.spec_name()) == Some(self),
    {
        broadcast use vstd::string::group_string_axioms;

        reveal_strlit("NONE");
        reveal_strlit("ANY_STATION");
        reveal_strlit("ROUNDTRIP_STATION");
        match self {
            RentalReturnConstraint::NoConstraint => {},
            RentalReturnConstraint::AnyStation => {
                assert("ANY_STATION"@.len() != "NONE"@.len());
            },
            RentalReturnConstraint::RoundtripStation => {
                assert("ROUNDTRIP_STATION"@.len() != "NONE"@.len());
                assert("ROUNDTRIP_STATION"@.len() != "ANY_STATION"@.len());
            },
        }
    }

    /// Every value is named by its name, and no two values share a name.
    pub proof fn lemma_name_roundtrip(self)
        ensures
            RentalReturnConstraint::spec_named(self.spec_name()) == Some(self),
            forall|other: RentalReturnConstraint| #[trigger] other.spec_name() == self.spec_name() ==> other == self,
    {
        self.lemma_named_by_name();
        assert forall|other: RentalReturnConstraint| #[trigger] other.spec_name() == self.spec_name() implies other == self by {
            other.lemma_named_by_name();
        }
    }
}

impl core::str::FromStr for RentalReturnConstraint {
    type Err = ConversionError;

    fn from_str(value: &str) -> (r: Result<Self, ConversionError>)
        ensures
            match r {
                Ok(v) => RentalReturnConstraint::spec_named(value@) == Some(v),
                Err(e) => RentalReturnConstraint::spec_named(value@) is None && e@ == "invalid value"@,
            },
    {
        RentalReturnConstraint::parse(value)
    }
}

impl From<&RentalReturnConstraint> for RentalReturnConstraint {
    fn from(value: &RentalReturnConstraint) -> (r: Self) {
        *value
    }
}

impl vstd::std_specs::convert::FromSpecImpl<&RentalReturnConstraint> for RentalReturnConstraint {
    open spec fn obeys_from_spec() -> bool {
        true
    }

    open spec fn from_spec(v: &RentalReturnConstraint) -> Self {
        *v
    }
}

/// `StoptimesDirection`
#[derive(Clone, Copy, Debug, Eq, Hash, Ord, PartialEq, PartialOrd)]
pub enum StoptimesDirection {
    Earlier,
    Later,
}

impl StoptimesDirection {
    /// The name of the value in the API.
    pub open spec fn spec_name(self) -> Seq<char> {
        match self {
            StoptimesDirection::Earlier => "EARLIER"@,
            StoptimesDirection::Later => "LATER"@,
        }
    }

    /// The value that `name` names in the API, if any.
    pub open spec fn spec_named(name: Seq<char>) -> Option<StoptimesDirection> {
        if name == "EARLIER"@ {
            Some(StoptimesDirection::Earlier)
        } else if name == "LATER"@ {
            Some(StoptimesDirection::Later)
        } else {
            None
        }
    }

    /// The name of the value in the API (what `Display` writes).
    pub fn as_str(&self) -> (r: &'static str)
        ensures
            r@ == self.spec_name(),
    {
        match self {
            StoptimesDirection::Earlier => "EARLIER",
            StoptimesDirection::Later => "LATER",
        }
    }

    /// The name of the value in the API, as an owned string.
    pub fn to_string(&self) -> (r: String)
        ensures
            r@ == self.spec_name(),
    {
        owned(self.as_str())
    }

    /// The value that `value` names; an "invalid value" error where it names none.
    pub fn parse(value: &str) -> (r: Result<StoptimesDirection, ConversionError>)
        ensures
            match r {
                Ok(v) => StoptimesDirection::spec_named(value@) == Some(v),
                Err(e) => StoptimesDirection::spec_named(value@) is None && e@ == "invalid value"@,
            },
    {
        if str_eq(value, "EARLIER") {
            Ok(StoptimesDirection::Earlier)
        } else if str_eq(value, "LATER") {
            Ok(StoptimesDirection::Later)
        } else {
            Err(ConversionError::new("invalid value"))
        }
    }

    /// The name of every value names that value.
    pub proof fn lemma_named_by_name(self)
        ensures
            StoptimesDirection::spec_named(self.spec_name()) == Some(self),
    {
        broadcast use vstd::string::group_string_axioms;

        reveal_strlit("EARLIER");
        reveal_strlit("LATER");
        match self {
            StoptimesDirection::Earlier => {},
            StoptimesDirection::Later => {
                assert("LATER"@.len() != "EARLIER"@.len());
            },
        }
    }

    /// Every value is named by its name, and no two values share a name.
    pub proof fn lemma_name_roundtrip(self)
        ensures
            StoptimesDirection::spec_named(self.spec_name()) == Some(self),
            forall|other: StoptimesDirection| #[trigger] other.spec_name() == self.spec_name() ==> other == self,
    {
        self.lemma_named_by_name();
        assert forall|other: StoptimesDirection| #[trigger] other.spec_name() == self.spec_name() implies other == self by {
            other.lemma_named_by_name();
        }
    }
}

impl core::str::FromStr for StoptimesDirection {
    type Err = ConversionError;

    fn from_str(value: &str) -> (r: Result<Self, ConversionError>)
        ensures
            match r {
                Ok(v) => StoptimesDirection::spec_named(value@) == Some(v),
                Err(e) => StoptimesDirection::spec_named(value@) is None && e@ == "invalid value"@,
            },
    {
        StoptimesDirection::parse(value)
    }
}

impl From<&StoptimesDirection> for StoptimesDirection {
    fn from(value: &StoptimesDirection) -> (r: Self) {
        *value
    }
}

impl vstd::std_specs::convert::FromSpecImpl<&StoptimesDirection> for StoptimesDirection {
    open spec fn obeys_from_spec() -> bool {
        true
    }

    open spec fn from_spec(v: &StoptimesDirection) -> Self {
        *v
    }
}

/// - `NORMAL` - latitude / longitude coordinate or address
/// - `BIKESHARE` - bike sharing station
/// - `TRANSIT` - transit stop
#[derive(Clone, Copy, Debug, Eq, Hash, Ord, PartialEq, PartialOrd)]
pub enum VertexType {
    Normal,
    Bikeshare,
    Transit,
}

impl VertexType {
    /// The name of the value in the API.
    pub open spec fn spec_name(self) -> Seq<char> {
        match self {
            VertexType::Normal => "NORMAL"@,
            VertexType::Bikeshare => "BIKESHARE"@,
            VertexType::Transit => "TRANSIT"@,
        }
    }

    /// The value that `name` names in the API, if any.
    pub open spec fn spec_named(name: Seq<char>) -> Option<VertexType> {
        if name == "NORMAL"@ {
            Some(VertexType::Normal)
        } else if name == "BIKESHARE"@ {
            Some(VertexType::Bikeshare)
        } else if name == "TRANSIT"@ {
            Some(VertexType::Transit)
        } else {
            None
        }
    }

    /// The name of the value in the API (what `Display` writes).
    pub fn as_str(&self) -> (r: &'static str)
        ensures
            r@ == self.spec_name(),
    {
        match self {
            VertexType::Normal => "NORMAL",
            VertexType::Bikeshare => "BIKESHARE",
            VertexType::Transit => "TRANSIT",
        }
    }

    /// The name of the value in the API, as an owned string.
    pub fn to_string(&self) -> (r: String)
        ensures
            r@ == self.spec_name(),
    {
        owned(self.as_str())
    }

    /// The value that `value` names; an "invalid value" error where it names none.
    pub fn parse(value: &str) -> (r: Result<VertexType, ConversionError>)
        ensures
            match r {
                Ok(v) => VertexType::spec_named(value@) == Some(v),
                Err(e) => VertexType::spec_named(value@) is None && e@ == "invalid value"@,
            },
    {
        if str_eq(value, "NORMAL") {
            Ok(VertexType::Normal)
        } else if str_eq(value, "BIKESHARE") {
            Ok(VertexType::Bikeshare)
        } else if str_eq(value, "TRANSIT") {
            Ok(VertexType::Transit)
        } else {
            Err(ConversionError::new("invalid value"))
        }
    }

    /// The name of every value names that value.
    pub proof fn lemma_named_by_name(self)
        ensures
            VertexType::spec_named(self.spec_name()) == Some(self),
    {
        broadcast use vstd::string::group_string_axioms;

        reveal_strlit("NORMAL");
        reveal_strlit("BIKESHARE");
        reveal_strlit("TRANSIT");
        match self {
            VertexType::Normal => {},
            VertexType::Bikeshare => {
                assert("BIKESHARE"@.len() != "NORMAL"@.len());
            },
            VertexType::Transit => {
                assert("TRANSIT"@.len() != "NORMAL"@.len());
                assert("TRANSIT"@.len() != "BIKESHARE"@.len());
            },
        }
    }

    /// Every value is named by its name, and no two values share a name.
    pub proof fn lemma_name_roundtrip(self)
        ensures
            VertexType::spec_named(self.spec_name()) == Some(self),
            forall|other: VertexType| #[trigger] other.spec_name() == self.spec_name() ==> other == self,
    {
        self.lemma_named_by_name();
        assert forall|other: VertexType| #[trigger] other.spec_name() == self.spec_name() implies other == self by {
            other.lemma_named_by_name();
        }
    }
}

impl core::str::FromStr for VertexType {
    type Err = ConversionError;

    fn from_str(value: &str) -> (r: Result<Self, ConversionError>)
        ensures
            match r {
                Ok(v) => VertexType::spec_named(value@) == Some(v),
                Err(e) => VertexType::spec_named(value@) is None && e@ == "invalid value"@,
            },
    {
        VertexType::parse(value)
    }
}

impl From<&VertexType> for VertexType {
    fn from(value: &VertexType) -> (r: Self) {
        *value
    }
}

impl vstd::std_specs::convert::FromSpecImpl<&VertexType> for VertexType {
    open spec fn obeys_from_spec() -> bool {
        true
    }

    open spec fn from_spec(v: &VertexType) -> Self {
        *v
    }
}

/// The names of the values of [`AlertCause`] in the API, and that no other name
/// names a value.
pub proof fn law_alert_cause_names()
    ensures
        AlertCause::UnknownCause.spec_name() == "UNKNOWN_CAUSE"@,
        AlertCause::OtherCause.spec_name() == "OTHER_CAUSE"@,
        AlertCause::TechnicalProblem.spec_name() == "TECHNICAL_PROBLEM"@,
        AlertCause::Strike.spec_name() == "STRIKE"@,
        AlertCause::Demonstration.spec_name() == "DEMONSTRATION"@,
        AlertCause::Accident.spec_name() == "ACCIDENT"@,
        AlertCause::Holiday.spec_name() == "HOLIDAY"@,
        AlertCause::Weather.spec_name() == "WEATHER"@,
        AlertCause::Maintenance.spec_name() == "MAINTENANCE"@,
        AlertCause::Construction.spec_name() == "CONSTRUCTION"@,
        AlertCause::PoliceActivity.spec_name() == "POLICE_ACTIVITY"@,
        AlertCause::MedicalEmergency.spec_name() == "MEDICAL_EMERGENCY"@,
        AlertCause::spec_named("UNKNOWN_CAUSE"@) == Some(AlertCause::UnknownCause),
        AlertCause::spec_named("OTHER_CAUSE"@) == Some(AlertCause::OtherCause),
        AlertCause::spec_named("TECHNICAL_PROBLEM"@) == Some(AlertCause::TechnicalProblem),
        AlertCause::spec_named("STRIKE"@) == Some(AlertCause::Strike),
        AlertCause::spec_named("DEMONSTRATION"@) == Some(AlertCause::Demonstration),
        AlertCause::spec_named("ACCIDENT"@) == Some(AlertCause::Accident),
        AlertCause::spec_named("HOLIDAY"@) == Some(AlertCause::Holiday),
        AlertCause::spec_named("WEATHER"@) == Some(AlertCause::Weather),
        AlertCause::spec_named("MAINTENANCE"@) == Some(AlertCause::Maintenance),
        AlertCause::spec_named("CONSTRUCTION"@) == Some(AlertCause::Construction),
        AlertCause::spec_named("POLICE_ACTIVITY"@) == Some(AlertCause::PoliceActivity),
        AlertCause::spec_named("MEDICAL_EMERGENCY"@) == Some(AlertCause::MedicalEmergency),
        forall|name: Seq<char>| #[trigger] AlertCause::spec_named(name) is Some ==> name == "UNKNOWN_CAUSE"@ || name == "OTHER_CAUSE"@ || name == "TECHNICAL_PROBLEM"@ || name == "STRIKE"@ || name == "DEMONSTRATION"@ || name == "ACCIDENT"@ || name == "HOLIDAY"@ || name == "WEATHER"@ || name == "MAINTENANCE"@ || name == "CONSTRUCTION"@ || name == "POLICE_ACTIVITY"@ || name == "MEDICAL_EMERGENCY"@,
{
    AlertCause::UnknownCause.lemma_named_by_name();
    AlertCause::OtherCause.lemma_named_by_name();
    AlertCause::TechnicalProblem.lemma_named_by_name();
    AlertCause::Strike.lemma_named_by_name();
    AlertCause::Demonstration.lemma_named_by_name();
    AlertCause::Accident.lemma_named_by_name();
    AlertCause::Holiday.lemma_named_by_name();
    AlertCause::Weather.lemma_named_by_name();
    AlertCause::Maintenance.lemma_named_by_name();
    AlertCause::Construction.lemma_named_by_name();
    AlertCause::PoliceActivity.lemma_named_by_name();
    AlertCause::MedicalEmergency.lemma_named_by_name();
}

/// The names of the values of [`AlertEffect`] in the API, and that no other name
/// names a value.
pub proof fn law_alert_effect_names()
    ensures
        AlertEffect::NoService.spec_name() == "NO_SERVICE"@,
        AlertEffect::ReducedService.spec_name() == "REDUCED_SERVICE"@,
        AlertEffect::SignificantDelays.spec_name() == "SIGNIFICANT_DELAYS"@,
        AlertEffect::Detour.spec_name() == "DETOUR"@,
        AlertEffect::AdditionalService.spec_name() == "ADDITIONAL_SERVICE"@,
        AlertEffect::ModifiedService.spec_name() == "MODIFIED_SERVICE"@,
        AlertEffect::OtherEffect.spec_name() == "OTHER_EFFECT"@,
        AlertEffect::UnknownEffect.spec_name() == "UNKNOWN_EFFECT"@,
        AlertEffect::StopMoved.spec_name() == "STOP_MOVED"@,
        AlertEffect::NoEffect.spec_name() == "NO_EFFECT"@,
        AlertEffect::AccessibilityIssue.spec_name() == "ACCESSIBILITY_ISSUE"@,
        AlertEffect::spec_named("NO_SERVICE"@) == Some(AlertEffect::NoService),
        AlertEffect::spec_named("REDUCED_SERVICE"@) == Some(AlertEffect::ReducedService),
        AlertEffect::spec_named("SIGNIFICANT_DELAYS"@) == Some(AlertEffect::SignificantDelays),
        AlertEffect::spec_named("DETOUR"@) == Some(AlertEffect::Detour),
        AlertEffect::spec_named("ADDITIONAL_SERVICE"@) == Some(AlertEffect::AdditionalService),
        AlertEffect::spec_named("MODIFIED_SERVICE"@) == Some(AlertEffect::ModifiedService),
        AlertEffect::spec_named("OTHER_EFFECT"@) == Some(AlertEffect::OtherEffect),
        AlertEffect::spec_named("UNKNOWN_EFFECT"@) == Some(AlertEffect::UnknownEffect),
        AlertEffect::spec_named("STOP_MOVED"@) == Some(AlertEffect::StopMoved),
        AlertEffect::spec_named("NO_EFFECT"@) == Some(AlertEffect::NoEffect),
        AlertEffect::spec_named("ACCESSIBILITY_ISSUE"@) == Some(AlertEffect::AccessibilityIssue),
        forall|name: Seq<char>| #[trigger] AlertEffect::spec_named(name) is Some ==> name == "NO_SERVICE"@ || name == "REDUCED_SERVICE"@ || name == "SIGNIFICANT_DELAYS"@ || name == "DETOUR"@ || name == "ADDITIONAL_SERVICE"@ || name == "MODIFIED_SERVICE"@ || name == "OTHER_EFFECT"@ || name == "UNKNOWN_EFFECT"@ || name == "STOP_MOVED"@ || name == "NO_EFFECT"@ || name == "ACCESSIBILITY_ISSUE"@,
{
    AlertEffect::NoService.lemma_named_by_name();
    AlertEffect::ReducedService.lemma_named_by_name();
    AlertEffect::SignificantDelays.lemma_named_by_name();
    AlertEffect::Detour.lemma_named_by_name();
    AlertEffect::AdditionalService.lemma_named_by_name();
    AlertEffect::ModifiedService.lemma_named_by_name();
    AlertEffect::OtherEffect.lemma_named_by_name();
    AlertEffect::UnknownEffect.lemma_named_by_name();
    AlertEffect::StopMoved.lemma_named_by_name();
    AlertEffect::NoEffect.lemma_named_by_name();
    AlertEffect::AccessibilityIssue.lemma_named_by_name();
}

/// The names of the values of [`AlertSeverityLevel`] in the API, and that no other name
/// names a value.
pub proof fn law_alert_severity_level_names()
    ensures
        AlertSeverityLevel::UnknownSeverity.spec_name() == "UNKNOWN_SEVERITY"@,
        AlertSeverityLevel::Info.spec_name() == "INFO"@,
        AlertSeverityLevel::Warning.spec_name() == "WARNING"@,
        AlertSeverityLevel::Severe.spec_name() == "SEVERE"@,
        AlertSeverityLevel::spec_named("UNKNOWN_SEVERITY"@) == Some(AlertSeverityLevel::UnknownSeverity),
        AlertSeverityLevel::spec_named("INFO"@) == Some(AlertSeverityLevel::Info),
        AlertSeverityLevel::spec_named("WARNING"@) == Some(AlertSeverityLevel::Warning),
        AlertSeverityLevel::spec_named("SEVERE"@) == Some(AlertSeverityLevel::Severe),
        forall|name: Seq<char>| #[trigger] AlertSeverityLevel::spec_named(name) is Some ==> name == "UNKNOWN_SEVERITY"@ || name == "INFO"@ || name == "WARNING"@ || name == "SEVERE"@,
{
    AlertSeverityLevel::UnknownSeverity.lemma_named_by_name();
    AlertSeverityLevel::Info.lemma_named_by_name();
    AlertSeverityLevel::Warning.lemma_named_by_name();
    AlertSeverityLevel::Severe.lemma_named_by_name();
}

/// The names of the values of [`Direction`] in the API, and that no other name
/// names a value.
pub proof fn law_direction_names()
    ensures
        Direction::Depart.spec_name() == "DEPART"@,
        Direction::HardLeft.spec_name() == "HARD_LEFT"@,
        Direction::Left.spec_name() == "LEFT"@,
        Direction::SlightlyLeft.spec_name() == "SLIGHTLY_LEFT"@,
        Direction::Continue.spec_name() == "CONTINUE"@,
        Direction::SlightlyRight.spec_name() == "SLIGHTLY_RIGHT"@,
        Direction::Right.spec_name() == "RIGHT"@,
        Direction::HardRight.spec_name() == "HARD_RIGHT"@,
        Direction::CircleClockwise.spec_name() == "CIRCLE_CLOCKWISE"@,
        Direction::CircleCounterclockwise.spec_name() == "CIRCLE_COUNTERCLOCKWISE"@,
        Direction::Stairs.spec_name() == "STAIRS"@,
        Direction::Elevator.spec_name() == "ELEVATOR"@,
        Direction::UturnLeft.spec_name() == "UTURN_LEFT"@,
        Direction::UturnRight.spec_name() == "UTURN_RIGHT"@,
        Direction::spec_named("DEPART"@) == Some(Direction::Depart),
        Direction::spec_named("HARD_LEFT"@) == Some(Direction::HardLeft),
        Direction::spec_named("LEFT"@) == Some(Direction::Left),
        Direction::spec_named("SLIGHTLY_LEFT"@) == Some(Direction::SlightlyLeft),
        Direction::spec_named("CONTINUE"@) == Some(Direction::Continue),
        Direction::spec_named("SLIGHTLY_RIGHT"@) == Some(Direction::SlightlyRight),
        Direction::spec_named("RIGHT"@) == Some(Direction::Right),
        Direction::spec_named("HARD_RIGHT"@) == Some(Direction::HardRight),
        Direction::spec_named("CIRCLE_CLOCKWISE"@) == Some(Direction::CircleClockwise),
        Direction::spec_named("CIRCLE_COUNTERCLOCKWISE"@) == Some(Direction::CircleCounterclockwise),
        Direction::spec_named("STAIRS"@) == Some(Direction::Stairs),
        Direction::spec_named("ELEVATOR"@) == Some(Direction::Elevator),
        Direction::spec_named("UTURN_LEFT"@) == Some(Direction::UturnLeft),
        Direction::spec_named("UTURN_RIGHT"@) == Some(Direction::UturnRight),
        forall|name: Seq<char>| #[trigger] Direction::spec_named(name) is Some ==> name == "DEPART"@ || name == "HARD_LEFT"@ || name == "LEFT"@ || name == "SLIGHTLY_LEFT"@ || name == "CONTINUE"@ || name == "SLIGHTLY_RIGHT"@ || name == "RIGHT"@ || name == "HARD_RIGHT"@ || name == "CIRCLE_CLOCKWISE"@ || name == "CIRCLE_COUNTERCLOCKWISE"@ || name == "STAIRS"@ || name == "ELEVATOR"@ || name == "UTURN_LEFT"@ || name == "UTURN_RIGHT"@,
{
    Direction::Depart.lemma_named_by_name();
    Direction::HardLeft.lemma_named_by_name();
    Direction::Left.lemma_named_by_name();
    Direction::SlightlyLeft.lemma_named_by_name();
    Direction::Continue.lemma_named_by_name();
    Direction::SlightlyRight.lemma_named_by_name();
    Direction::Right.lemma_named_by_name();
    Direction::HardRight.lemma_named_by_name();
    Direction::CircleClockwise.lemma_named_by_name();
    Direction::CircleCounterclockwise.lemma_named_by_name();
    Direction::Stairs.lemma_named_by_name();
    Direction::Elevator.lemma_named_by_name();
    Direction::UturnLeft.lemma_named_by_name();
    Direction::UturnRight.lemma_named_by_name();
}

/// The names of the values of [`ElevationCosts`] in the API, and that no other name
/// names a value.
pub proof fn law_elevation_costs_names()
    ensures
        ElevationCosts::NoCosts.spec_name() == "NONE"@,
        ElevationCosts::Low.spec_name() == "LOW"@,
        ElevationCosts::High.spec_name() == "HIGH"@,
        ElevationCosts::spec_named("NONE"@) == Some(ElevationCosts::NoCosts),
        ElevationCosts::spec_named("LOW"@) == Some(ElevationCosts::Low),
        ElevationCosts::spec_named("HIGH"@) == Some(ElevationCosts::High),
        forall|name: Seq<char>| #[trigger] ElevationCosts::spec_named(name) is Some ==> name == "NONE"@ || name == "LOW"@ || name == "HIGH"@,
{
    ElevationCosts::NoCosts.lemma_named_by_name();
    ElevationCosts::Low.lemma_named_by_name();
    ElevationCosts::High.lemma_named_by_name();
}

/// The names of the values of [`FareMediaType`] in the API, and that no other name
/// names a value.
pub proof fn law_fare_media_type_names()
    ensures
        FareMediaType::NoMedia.spec_name() == "NONE"@,
        FareMediaType::PaperTicket.spec_name() == "PAPER_TICKET"@,
        FareMediaType::TransitCard.spec_name() == "TRANSIT_CARD"@,
        FareMediaType::ContactlessEmv.spec_name() == "CONTACTLESS_EMV"@,
        FareMediaType::MobileApp.spec_name() == "MOBILE_APP"@,
        FareMediaType::spec_named("NONE"@) == Some(FareMediaType::NoMedia),
        FareMediaType::spec_named("PAPER_TICKET"@) == Some(FareMediaType::PaperTicket),
        FareMediaType::spec_named("TRANSIT_CARD"@) == Some(FareMediaType::TransitCard),
        FareMediaType::spec_named("CONTACTLESS_EMV"@) == Some(FareMediaType::ContactlessEmv),
        FareMediaType::spec_named("MOBILE_APP"@) == Some(FareMediaType::MobileApp),
        forall|name: Seq<char>| #[trigger] FareMediaType::spec_named(name) is Some ==> name == "NONE"@ || name == "PAPER_TICKET"@ || name == "TRANSIT_CARD"@ || name == "CONTACTLESS_EMV"@ || name == "MOBILE_APP"@,
{
    FareMediaType::NoMedia.lemma_named_by_name();
    FareMediaType::PaperTicket.lemma_named_by_name();
    FareMediaType::TransitCard.lemma_named_by_name();
    FareMediaType::ContactlessEmv.lemma_named_by_name();
    FareMediaType::MobileApp.lemma_named_by_name();
}

/// The names of the values of [`FareTransferRule`] in the API, and that no other name
/// names a value.
pub proof fn law_fare_transfer_rule_names()
    ensures
        FareTransferRule::AAb.spec_name() == "A_AB"@,
        FareTransferRule::AAbB.spec_name() == "A_AB_B"@,
        FareTransferRule::Ab.spec_name() == "AB"@,
        FareTransferRule::spec_named("A_AB"@) == Some(FareTransferRule::AAb),
        FareTransferRule::spec_named("A_AB_B"@) == Some(FareTransferRule::AAbB),
        FareTransferRule::spec_named("AB"@) == Some(FareTransferRule::Ab),
        forall|name: Seq<char>| #[trigger] FareTransferRule::spec_named(name) is Some ==> name == "A_AB"@ || name == "A_AB_B"@ || name == "AB"@,
{
    FareTransferRule::AAb.lemma_named_by_name();
    FareTransferRule::AAbB.lemma_named_by_name();
    FareTransferRule::Ab.lemma_named_by_name();
}

/// The names of the values of [`LocationType`] in the API, and that no other name
/// names a value.
pub proof fn law_location_type_names()
    ensures
        LocationType::Address.spec_name() == "ADDRESS"@,
        LocationType::Place.spec_name() == "PLACE"@,
        LocationType::Stop.spec_name() == "STOP"@,
        LocationType::spec_named("ADDRESS"@) == Some(LocationType::Address),
        LocationType::spec_named("PLACE"@) == Some(LocationType::Place),
        LocationType::spec_named("STOP"@) == Some(LocationType::Stop),
        forall|name: Seq<char>| #[trigger] LocationType::spec_named(name) is Some ==> name == "ADDRESS"@ || name == "PLACE"@ || name == "STOP"@,
{
    LocationType::Address.lemma_named_by_name();
    LocationType::Place.lemma_named_by_name();
    LocationType::Stop.lemma_named_by_name();
}

/// The names of the values of [`Mode`] in the API, and that no other name
/// names a value.
pub proof fn law_mode_names()
    ensures
        Mode::Walk.spec_name() == "WALK"@,
        Mode::Bike.spec_name() == "BIKE"@,
        Mode::Rental.spec_name() == "RENTAL"@,
        Mode::Car.spec_name() == "CAR"@,
        Mode::CarParking.spec_name() == "CAR_PARKING"@,
        Mode::CarDropoff.spec_name() == "CAR_DROPOFF"@,
        Mode::Odm.spec_name() == "ODM"@,
        Mode::Flex.spec_name() == "FLEX"@,
        Mode::Transit.spec_name() == "TRANSIT"@,
        Mode::Tram.spec_name() == "TRAM"@,
        Mode::Subway.spec_name() == "SUBWAY"@,
        Mode::Ferry.spec_name() == "FERRY"@,
        Mode::Airplane.spec_name() == "AIRPLANE"@,
        Mode::Metro.spec_name() == "METRO"@,
        Mode::Bus.spec_name() == "BUS"@,
        Mode::Coach.spec_name() == "COACH"@,
        Mode::Rail.spec_name() == "RAIL"@,
        Mode::HighspeedRail.spec_name() == "HIGHSPEED_RAIL"@,
        Mode::LongDistance.spec_name() == "LONG_DISTANCE"@,
        Mode::NightRail.spec_name() == "NIGHT_RAIL"@,
        Mode::RegionalFastRail.spec_name() == "REGIONAL_FAST_RAIL"@,
        Mode::RegionalRail.spec_name() == "REGIONAL_RAIL"@,
        Mode::CableCar.spec_name() == "CABLE_CAR"@,
        Mode::Funicular.spec_name() == "FUNICULAR"@,
        Mode::ArealLift.spec_name() == "AREAL_LIFT"@,
        Mode::Other.spec_name() == "OTHER"@,
        Mode::spec_named("WALK"@) == Some(Mode::Walk),
        Mode::spec_named("BIKE"@) == Some(Mode::Bike),
        Mode::spec_named("RENTAL"@) == Some(Mode::Rental),
        Mode::spec_named("CAR"@) == Some(Mode::Car),
        Mode::spec_named("CAR_PARKING"@) == Some(Mode::CarParking),
        Mode::spec_named("CAR_DROPOFF"@) == Some(Mode::CarDropoff),
        Mode::spec_named("ODM"@) == Some(Mode::Odm),
        Mode::spec_named("FLEX"@) == Some(Mode::Flex),
        Mode::spec_named("TRANSIT"@) == Some(Mode::Transit),
        Mode::spec_named("TRAM"@) == Some(Mode::Tram),
        Mode::spec_named("SUBWAY"@) == Some(Mode::Subway),
        Mode::spec_named("FERRY"@) == Some(Mode::Ferry),
        Mode::spec_named("AIRPLANE"@) == Some(Mode::Airplane),
        Mode::spec_named("METRO"@) == Some(Mode::Metro),
        Mode::spec_named("BUS"@) == Some(Mode::Bus),
        Mode::spec_named("COACH"@) == Some(Mode::Coach),
        Mode::spec_named("RAIL"@) == Some(Mode::Rail),
        Mode::spec_named("HIGHSPEED_RAIL"@) == Some(Mode::HighspeedRail),
        Mode::spec_named("LONG_DISTANCE"@) == Some(Mode::LongDistance),
        Mode::spec_named("NIGHT_RAIL"@) == Some(Mode::NightRail),
        Mode::spec_named("REGIONAL_FAST_RAIL"@) == Some(Mode::RegionalFastRail),
        Mode::spec_named("REGIONAL_RAIL"@) == Some(Mode::RegionalRail),
        Mode::spec_named("CABLE_CAR"@) == Some(Mode::CableCar),
        Mode::spec_named("FUNICULAR"@) == Some(Mode::Funicular),
        Mode::spec_named("AREAL_LIFT"@) == Some(Mode::ArealLift),
        Mode::spec_named("OTHER"@) == Some(Mode::Other),
        forall|name: Seq<char>| #[trigger] Mode::spec_named(name) is Some ==> name == "WALK"@ || name == "BIKE"@ || name == "RENTAL"@ || name == "CAR"@ || name == "CAR_PARKING"@ || name == "CAR_DROPOFF"@ || name == "ODM"@ || name == "FLEX"@ || name == "TRANSIT"@ || name == "TRAM"@ || name == "SUBWAY"@ || name == "FERRY"@ || name == "AIRPLANE"@ || name == "METRO"@ || name == "BUS"@ || name == "COACH"@ || name == "RAIL"@ || name == "HIGHSPEED_RAIL"@ || name == "LONG_DISTANCE"@ || name == "NIGHT_RAIL"@ || name == "REGIONAL_FAST_RAIL"@ || name == "REGIONAL_RAIL"@ || name == "CABLE_CAR"@ || name == "FUNICULAR"@ || name == "AREAL_LIFT"@ || name == "OTHER"@,
{
    Mode::Walk.lemma_named_by_name();
    Mode::Bike.lemma_named_by_name();
    Mode::Rental.lemma_named_by_name();
    Mode::Car.lemma_named_by_name();
    Mode::CarParking.lemma_named_by_name();
    Mode::CarDropoff.lemma_named_by_name();
    Mode::Odm.lemma_named_by_name();
    Mode::Flex.lemma_named_by_name();
    Mode::Transit.lemma_named_by_name();
    Mode::Tram.lemma_named_by_name();
    Mode::Subway.lemma_named_by_name();
    Mode::Ferry.lemma_named_by_name();
    Mode::Airplane.lemma_named_by_name();
    Mode::Metro.lemma_named_by_name();
    Mode::Bus.lemma_named_by_name();
    Mode::Coach.lemma_named_by_name();
    Mode::Rail.lemma_named_by_name();
    Mode::HighspeedRail.lemma_named_by_name();
    Mode::LongDistance.lemma_named_by_name();
    Mode::NightRail.lemma_named_by_name();
    Mode::RegionalFastRail.lemma_named_by_name();
    Mode::RegionalRail.lemma_named_by_name();
    Mode::CableCar.lemma_named_by_name();
    Mode::Funicular.lemma_named_by_name();
    Mode::ArealLift.lemma_named_by_name();
    Mode::Other.lemma_named_by_name();
}

/// The names of the values of [`PedestrianProfile`] in the API, and that no other name
/// names a value.
pub proof fn law_pedestrian_profile_names()
    ensures
        PedestrianProfile::Foot.spec_name() == "FOOT"@,
        PedestrianProfile::Wheelchair.spec_name() == "WHEELCHAIR"@,
        PedestrianProfile::spec_named("FOOT"@) == Some(PedestrianProfile::Foot),
        PedestrianProfile::spec_named("WHEELCHAIR"@) == Some(PedestrianProfile::Wheelchair),
        forall|name: Seq<char>| #[trigger] PedestrianProfile::spec_named(name) is Some ==> name == "FOOT"@ || name == "WHEELCHAIR"@,
{
    PedestrianProfile::Foot.lemma_named_by_name();
    PedestrianProfile::Wheelchair.lemma_named_by_name();
}

/// The names of the values of [`PickupDropoffType`] in the API, and that no other name
/// names a value.
pub proof fn law_pickup_dropoff_type_names()
    ensures
        PickupDropoffType::Normal.spec_name() == "NORMAL"@,
        PickupDropoffType::NotAllowed.spec_name() == "NOT_ALLOWED"@,
        PickupDropoffType::spec_named("NORMAL"@) == Some(PickupDropoffType::Normal),
        PickupDropoffType::spec_named("NOT_ALLOWED"@) == Some(PickupDropoffType::NotAllowed),
        forall|name: Seq<char>| #[trigger] PickupDropoffType::spec_named(name) is Some ==> name == "NORMAL"@ || name == "NOT_ALLOWED"@,
{
    PickupDropoffType::Normal.lemma_named_by_name();
    PickupDropoffType::NotAllowed.lemma_named_by_name();
}

/// The names of the values of [`PlanAlgorithm`] in the API, and that no other name
/// names a value.
pub proof fn law_plan_algorithm_names()
    ensures
        PlanAlgorithm::Raptor.spec_name() == "RAPTOR"@,
        PlanAlgorithm::Tb.spec_name() == "TB"@,
        PlanAlgorithm::spec_named("RAPTOR"@) == Some(PlanAlgorithm::Raptor),
        PlanAlgorithm::spec_named("TB"@) == Some(PlanAlgorithm::Tb),
        forall|name: Seq<char>| #[trigger] PlanAlgorithm::spec_named(name) is Some ==> name == "RAPTOR"@ || name == "TB"@,
{
    PlanAlgorithm::Raptor.lemma_named_by_name();
    PlanAlgorithm::Tb.lemma_named_by_name();
}

/// The names of the values of [`RentalFormFactor`] in the API, and that no other name
/// names a value.
pub proof fn law_rental_form_factor_names()
    ensures
        RentalFormFactor::Bicycle.spec_name() == "BICYCLE"@,
        RentalFormFactor::CargoBicycle.spec_name() == "CARGO_BICYCLE"@,
        RentalFormFactor::Car.spec_name() == "CAR"@,
        RentalFormFactor::Moped.spec_name() == "MOPED"@,
        RentalFormFactor::ScooterStanding.spec_name() == "SCOOTER_STANDING"@,
        RentalFormFactor::ScooterSeated.spec_name() == "SCOOTER_SEATED"@,
        RentalFormFactor::Other.spec_name() == "OTHER"@,
        RentalFormFactor::spec_named("BICYCLE"@) == Some(RentalFormFactor::Bicycle),
        RentalFormFactor::spec_named("CARGO_BICYCLE"@) == Some(RentalFormFactor::CargoBicycle),
        RentalFormFactor::spec_named("CAR"@) == Some(RentalFormFactor::Car),
        RentalFormFactor::spec_named("MOPED"@) == Some(RentalFormFactor::Moped),
        RentalFormFactor::spec_named("SCOOTER_STANDING"@) == Some(RentalFormFactor::ScooterStanding),
        RentalFormFactor::spec_named("SCOOTER_SEATED"@) == Some(RentalFormFactor::ScooterSeated),
        RentalFormFactor::spec_named("OTHER"@) == Some(RentalFormFactor::Other),
        forall|name: Seq<char>| #[trigger] RentalFormFactor::spec_named(name) is Some ==> name == "BICYCLE"@ || name == "CARGO_BICYCLE"@ || name == "CAR"@ || name == "MOPED"@ || name == "SCOOTER_STANDING"@ || name == "SCOOTER_SEATED"@ || name == "OTHER"@,
{
    RentalFormFactor::Bicycle.lemma_named_by_name();
    RentalFormFactor::CargoBicycle.lemma_named_by_name();
    RentalFormFactor::Car.lemma_named_by_name();
    RentalFormFactor::Moped.lemma_named_by_name();
    RentalFormFactor::ScooterStanding.lemma_named_by_name();
    RentalFormFactor::ScooterSeated.lemma_named_by_name();
    RentalFormFactor::Other.lemma_named_by_name();
}

/// The names of the values of [`RentalPropulsionType`] in the API, and that no other name
/// names a value.
pub proof fn law_rental_propulsion_type_names()
    ensures
        RentalPropulsionType::Human.spec_name() == "HUMAN"@,
        RentalPropulsionType::ElectricAssist.spec_name() == "ELECTRIC_ASSIST"@,
        RentalPropulsionType::Electric.spec_name() == "ELECTRIC"@,
        RentalPropulsionType::Combustion.spec_name() == "COMBUSTION"@,
        RentalPropulsionType::CombustionDiesel.spec_name() == "COMBUSTION_DIESEL"@,
        RentalPropulsionType::Hybrid.spec_name() == "HYBRID"@,
        RentalPropulsionType::PlugInHybrid.spec_name() == "PLUG_IN_HYBRID"@,
        RentalPropulsionType::HydrogenFuelCell.spec_name() == "HYDROGEN_FUEL_CELL"@,
        RentalPropulsionType::spec_named("HUMAN"@) == Some(RentalPropulsionType::Human),
        RentalPropulsionType::spec_named("ELECTRIC_ASSIST"@) == Some(RentalPropulsionType::ElectricAssist),
        RentalPropulsionType::spec_named("ELECTRIC"@) == Some(RentalPropulsionType::Electric),
        RentalPropulsionType::spec_named("COMBUSTION"@) == Some(RentalPropulsionType::Combustion),
        RentalPropulsionType::spec_named("COMBUSTION_DIESEL"@) == Some(RentalPropulsionType::CombustionDiesel),
        RentalPropulsionType::spec_named("HYBRID"@) == Some(RentalPropulsionType::Hybrid),
        RentalPropulsionType::spec_named("PLUG_IN_HYBRID"@) == Some(RentalPropulsionType::PlugInHybrid),
        RentalPropulsionType::spec_named("HYDROGEN_FUEL_CELL"@) == Some(RentalPropulsionType::HydrogenFuelCell),
        forall|name: Seq<char>| #[trigger] RentalPropulsionType::spec_named(name) is Some ==> name == "HUMAN"@ || name == "ELECTRIC_ASSIST"@ || name == "ELECTRIC"@ || name == "COMBUSTION"@ || name == "COMBUSTION_DIESEL"@ || name == "HYBRID"@ || name == "PLUG_IN_HYBRID"@ || name == "HYDROGEN_FUEL_CELL"@,
{
    RentalPropulsionType::Human.lemma_named_by_name();
    RentalPropulsionType::ElectricAssist.lemma_named_by_name();
    RentalPropulsionType::Electric.lemma_named_by_name();
    RentalPropulsionType::Combustion.lemma_named_by_name();
    RentalPropulsionType::CombustionDiesel.lemma_named_by_name();
    RentalPropulsionType::Hybrid.lemma_named_by_name();
    RentalPropulsionType::PlugInHybrid.lemma_named_by_name();
    RentalPropulsionType::HydrogenFuelCell.lemma_named_by_name();
}

/// The names of the values of [`RentalReturnConstraint`] in the API, and that no other name
/// names a value.
pub proof fn law_rental_return_constraint_names()
    ensures
        RentalReturnConstraint::NoConstraint.spec_name() == "NONE"@,
        RentalReturnConstraint::AnyStation.spec_name() == "ANY_STATION"@,
        RentalReturnConstraint::RoundtripStation.spec_name() == "ROUNDTRIP_STATION"@,
        RentalReturnConstraint::spec_named("NONE"@) == Some(RentalReturnConstraint::NoConstraint),
        RentalReturnConstraint::spec_named("ANY_STATION"@) == Some(RentalReturnConstraint::AnyStation),
        RentalReturnConstraint::spec_named("ROUNDTRIP_STATION"@) == Some(RentalReturnConstraint::RoundtripStation),
        forall|name: Seq<char>| #[trigger] RentalReturnConstraint::spec_named(name) is Some ==> name == "NONE"@ || name == "ANY_STATION"@ || name == "ROUNDTRIP_STATION"@,
{
    RentalReturnConstraint::NoConstraint.lemma_named_by_name();
    RentalReturnConstraint::AnyStation.lemma_named_by_name();
    RentalReturnConstraint::RoundtripStation.lemma_named_by_name();
}

/// The names of the values of [`StoptimesDirection`] in the API, and that no other name
/// names a value.
pub proof fn law_stoptimes_direction_names()
    ensures
        StoptimesDirection::Earlier.spec_name() == "EARLIER"@,
        StoptimesDirection::Later.spec_name() == "LATER"@,
        StoptimesDirection::spec_named("EARLIER"@) == Some(StoptimesDirection::Earlier),
        StoptimesDirection::spec_named("LATER"@) == Some(StoptimesDirection::Later),
        forall|name: Seq<char>| #[trigger] StoptimesDirection::spec_named(name) is Some ==> name == "EARLIER"@ || name == "LATER"@,
{
    StoptimesDirection::Earlier.lemma_named_by_name();
    StoptimesDirection::Later.lemma_named_by_name();
}

/// The names of the values of [`VertexType`] in the API, and that no other name
/// names a value.
pub proof fn law_vertex_type_names()
    ensures
        VertexType::Normal.spec_name() == "NORMAL"@,
        VertexType::Bikeshare.spec_name() == "BIKESHARE"@,
        VertexType::Transit.spec_name() == "TRANSIT"@,
        VertexType::spec_named("NORMAL"@) == Some(VertexType::Normal),
        VertexType::spec_named("BIKESHARE"@) == Some(VertexType::Bikeshare),
        VertexType::spec_named("TRANSIT"@) == Some(VertexType::Transit),
        forall|name: Seq<char>| #[trigger] VertexType::spec_named(name) is Some ==> name == "NORMAL"@ || name == "BIKESHARE"@ || name == "TRANSIT"@,
{
    VertexType::Normal.lemma_named_by_name();
    VertexType::Bikeshare.lemma_named_by_name();
    VertexType::Transit.lemma_named_by_name();
}

} // verus!
