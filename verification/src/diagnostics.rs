//! The diagnostics sink: the severity and category set the messenger is
//! installed with, and the verdict its callback hands back to the driver.
//!
//! The messenger is chained into instance creation so that instance and
//! device creation themselves can be observed, and it is torn down with
//! the owning instance.

use vstd::prelude::*;

verus! {

/// Severity bit of verbose messages.
pub const SEVERITY_VERBOSE: u32 = 1;
/// Severity bit of informational messages.
pub const SEVERITY_INFO: u32 = 16;
/// Severity bit of warnings.
pub const SEVERITY_WARNING: u32 = 256;
/// Severity bit of errors.
pub const SEVERITY_ERROR: u32 = 4096;

/// Category bit of general messages.
pub const CATEGORY_GENERAL: u32 = 1;
/// Category bit of validation messages.
pub const CATEGORY_VALIDATION: u32 = 2;
/// Category bit of performance messages.
pub const CATEGORY_PERFORMANCE: u32 = 4;
/// Category bit of address-binding messages.
pub const CATEGORY_ADDRESS_BINDING: u32 = 8;

/// One structured message from the driver layer: severity and category
/// tags, an optional identifier name (empty when absent), an identifier
/// number, and a free-text body.
#[derive(Clone, Debug)]
pub struct DiagnosticMessage {
    pub severity: u32,
    pub category: u32,
    pub id_name: Vec<u8>,
    pub id_number: i32,
    pub body: Vec<u8>,
}

/// The messenger subscribes to every severity.
pub fn messenger_severity_mask() -> (r: u32)
    ensures
        r == (SEVERITY_VERBOSE | SEVERITY_INFO | SEVERITY_WARNING | SEVERITY_ERROR),
{
    SEVERITY_VERBOSE | SEVERITY_INFO | SEVERITY_WARNING | SEVERITY_ERROR
}

/// The messenger subscribes to every category.
pub fn messenger_category_mask() -> (r: u32)
    ensures
        r == (CATEGORY_GENERAL | CATEGORY_VALIDATION | CATEGORY_PERFORMANCE
            | CATEGORY_ADDRESS_BINDING),
{
    CATEGORY_GENERAL | CATEGORY_VALIDATION | CATEGORY_PERFORMANCE | CATEGORY_ADDRESS_BINDING
}

/// The callback's verdict on a message: it only logs, so for every
/// message, of every severity, it declines to abort the triggering
/// operation.
pub fn callback_verdict(_message: &DiagnosticMessage) -> (abort: bool)
    ensures
        !abort,
{
    false
}

} // verus!
