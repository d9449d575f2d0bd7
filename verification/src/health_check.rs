//! The health check of a package and what it finds.

use crate::error::Error;
use vstd::prelude::*;
use vstd::string::StringExecFns;

verus! {

/// Exit code by which a health check reports that it is switched off.
pub const DISABLED_EXIT_CODE: i32 = 59;

/// An action of a package: a command that is run in a container of the
/// package.
#[derive(Debug)]
pub struct ActionImplementation {
    pub image: String,
    pub entrypoint: String,
    pub args: Vec<String>,
}

/// The health check of a package.
#[derive(Debug)]
pub struct HealthCheck(pub ActionImplementation);

/// A point in time: seconds since the start of 1970 in UTC, and
/// nanoseconds since the last full second.
#[derive(Clone, Copy, Debug, PartialEq, Eq, Structural)]
pub struct Timestamp {
    pub secs: i64,
    pub nanos: u32,
}

/// What a health check found.
#[derive(Debug)]
pub enum HealthCheckResultVariant {
    Disabled,
    Success,
    Failure { error: String },
}

/// The mathematical value of a [`HealthCheckResultVariant`].
pub enum VariantView {
    Disabled,
    Success,
    Failure { error: Seq<char> },
}

impl View for HealthCheckResultVariant {
    type V = VariantView;

    open spec fn view(&self) -> VariantView {
        match self {
            HealthCheckResultVariant::Disabled => VariantView::Disabled,
            HealthCheckResultVariant::Success => VariantView::Success,
            HealthCheckResultVariant::Failure { error } => VariantView::Failure { error: error@ },
        }
    }
}

impl Clone for HealthCheckResultVariant {
    fn clone(&self) -> (copy: Self)
        ensures
            copy@ == self@,
    {
        match self {
            HealthCheckResultVariant::Disabled => HealthCheckResultVariant::Disabled,
            HealthCheckResultVariant::Success => HealthCheckResultVariant::Success,
            HealthCheckResultVariant::Failure { error } => HealthCheckResultVariant::Failure {
                error: error.clone(),
            },
        }
    }
}

/// What a health check found, and when.
#[derive(Debug)]
pub struct HealthCheckResult {
    pub time: Timestamp,
    pub result: HealthCheckResultVariant,
}

impl Clone for HealthCheckResult {
    fn clone(&self) -> (copy: Self)
        ensures
            copy.time == self.time,
            copy.result@ == self.result@,
    {
        HealthCheckResult { time: self.time, result: self.result.clone() }
    }
}

/// What the outcome of a health check action stands for: success, the
/// reserved exit code for a check that is switched off, or a failure with
/// the action's message.
pub open spec fn variant_of(outcome: Result<(), (i32, String)>) -> VariantView {
    match outcome {
        Ok(_) => VariantView::Success,
        Err((code, error)) => if code == DISABLED_EXIT_CODE {
            VariantView::Disabled
        } else {
            VariantView::Failure { error: error@ }
        },
    }
}

/// How a variant is shown.
pub open spec fn variant_text(variant: VariantView) -> Seq<char> {
    match variant {
        VariantView::Disabled => "Disabled"@,
        VariantView::Success => "Succeeded"@,
        VariantView::Failure { error } => "Failed ("@ + error + ")"@,
    }
}

impl HealthCheckResultVariant {
    /// Judges the outcome of a health check action.
    pub fn of(outcome: Result<(), (i32, String)>) -> (variant: HealthCheckResultVariant)
        ensures
            variant@ == variant_of(outcome),
    {
        match outcome {
            Ok(_) => HealthCheckResultVariant::Success,
            Err((code, error)) => {
                if code == DISABLED_EXIT_CODE {
                    HealthCheckResultVariant::Disabled
                } else {
                    HealthCheckResultVariant::Failure { error }
                }
            },
        }
    }

    /// The variant as it is shown.
    pub fn to_text(&self) -> (text: String)
        ensures
            text@ == variant_text(self@),
    {
        match self {
            HealthCheckResultVariant::Disabled => String::from_str("Disabled"),
            HealthCheckResultVariant::Success => String::from_str("Succeeded"),
            HealthCheckResultVariant::Failure { error } => {
                let mut text = String::from_str("Failed (");
                text.append(error.as_str());
                text.append(")");
                text
            },
        }
    }
}

impl HealthCheckResult {
    /// The result of a health check whose action ended with `outcome` at
    /// `time`.
    pub fn at(time: Timestamp, outcome: Result<(), (i32, String)>) -> (found: HealthCheckResult)
        ensures
            found.time == time,
            found.result@ == variant_of(outcome),
    {
        HealthCheckResult { time, result: HealthCheckResultVariant::of(outcome) }
    }
}

impl HealthCheck {
    /// The action that the check runs.
    pub fn action(&self) -> (action: &ActionImplementation)
        ensures
            *action == self.0,
    {
        &self.0
    }

    /// Judges how the action of the check has ended at the time `now`.
    /// Where the action could not be run at all, its error is handed on;
    /// otherwise the result is what the outcome stands for, at that time.
    pub fn check(&self, executed: Result<Result<(), (i32, String)>, Error>, now: Timestamp) -> (found:
        Result<HealthCheckResult, Error>)
        ensures
            match executed {
                Ok(outcome) => found matches Ok(r) && r.time == now && r.result@ == variant_of(
                    outcome,
                ),
                Err(e) => found matches Err(f) && f == e,
            },
    {
        match executed {
            Ok(outcome) => Ok(HealthCheckResult::at(now, outcome)),
            Err(e) => Err(e),
        }
    }
}

} // verus!
