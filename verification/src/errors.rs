use vstd::prelude::*;
use crate::json::{Json, JsonView};

verus! {

/// The kinds of failure the CLI reports.
#[derive(Clone, Copy, PartialEq, Eq, Structural, Debug)]
pub enum ErrorCategory {
    BackendUnreachable,
    BackendStartupFailed,
    InvalidArguments,
    BackendBusinessError,
    InvalidRuntimeConfiguration,
}

/// Where a failure came from.
#[derive(Clone, Copy, PartialEq, Eq, Structural, Debug)]
pub enum ErrorSource {
    Cli,
    Backend,
}

pub open spec fn category_name(c: ErrorCategory) -> Seq<char> {
    match c {
        ErrorCategory::BackendUnreachable => "backend_unreachable"@,
        ErrorCategory::BackendStartupFailed => "backend_startup_failed"@,
        ErrorCategory::InvalidArguments => "invalid_arguments"@,
        ErrorCategory::BackendBusinessError => "backend_business_error"@,
        ErrorCategory::InvalidRuntimeConfiguration => "invalid_runtime_configuration"@,
    }
}

pub open spec fn source_name(s: ErrorSource) -> Seq<char> {
    match s {
        ErrorSource::Cli => "cli"@,
        ErrorSource::Backend => "backend"@,
    }
}

impl ErrorCategory {
    /// The category as it appears in JSON output.
    pub fn name(&self) -> (r: &'static str)
        ensures
            r@ == category_name(*self),
    {
        match self {
            ErrorCategory::BackendUnreachable => "backend_unreachable",
            ErrorCategory::BackendStartupFailed => "backend_startup_failed",
            ErrorCategory::InvalidArguments => "invalid_arguments",
            ErrorCategory::BackendBusinessError => "backend_business_error",
            ErrorCategory::InvalidRuntimeConfiguration => "invalid_runtime_configuration",
        }
    }
}

impl ErrorSource {
    /// The source as it appears in JSON output.
    pub fn name(&self) -> (r: &'static str)
        ensures
            r@ == source_name(*self),
    {
        match self {
            ErrorSource::Cli => "cli",
            ErrorSource::Backend => "backend",
        }
    }
}

/// A failure of a command: what the user is told, its category and source, and,
/// for a failure the backend reported, the backend's own reply.
#[derive(Debug)]
pub struct CliError {
    pub message: String,
    pub category: ErrorCategory,
    pub source: ErrorSource,
    pub backend_payload: Option<Json>,
}

pub struct CliErrorView {
    pub message: Seq<char>,
    pub category: ErrorCategory,
    pub source: ErrorSource,
    pub backend_payload: Option<JsonView>,
}

pub open spec fn opt_model(j: Option<Json>) -> Option<JsonView> {
    match j {
        Some(v) => Some(v.model()),
        None => None,
    }
}

impl View for CliError {
    type V = CliErrorView;

    open spec fn view(&self) -> CliErrorView {
        CliErrorView {
            message: self.message@,
            category: self.category,
            source: self.source,
            backend_payload: opt_model(self.backend_payload),
        }
    }
}

/// The view of a failure that the CLI itself reports.
pub open spec fn cli_error_spec(category: ErrorCategory, message: Seq<char>) -> CliErrorView {
    CliErrorView { message, category, source: ErrorSource::Cli, backend_payload: None }
}

/// A failure that the CLI itself reports.
pub fn cli_error(category: ErrorCategory, message: String) -> (e: CliError)
    ensures
        e@ == cli_error_spec(category, message@),
{
    CliError { message, category, source: ErrorSource::Cli, backend_payload: None }
}

/// A CLI failure with a fixed message.
pub fn cli_error_str(category: ErrorCategory, message: &str) -> (e: CliError)
    ensures
        e@ == cli_error_spec(category, message@),
{
    cli_error(category, String::from_str(message))
}

/// A CLI failure whose message is `prefix: detail`.
pub fn cli_error_detail(category: ErrorCategory, prefix: &str, detail: &str) -> (e: CliError)
    ensures
        e@ == cli_error_spec(category, prefix@ + ": "@ + detail@),
{
    let mut m = String::from_str(prefix);
    m.append(": ");
    m.append(detail);
    cli_error(category, m)
}


pub open spec fn str_result_view(r: Result<String, CliError>) -> Result<Seq<char>, CliErrorView> {
    match r {
        Ok(s) => Ok(s@),
        Err(e) => Err(e@),
    }
}

} // verus!
