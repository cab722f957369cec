//! The debug-reporting subsystem: the two named driver-diagnostic callbacks,
//! the severities and categories a message carries, and the dispatch logic
//! that formats a message and decides whether it is fatal.
//!
//! The driver invokes the real callback on a thread of its own; the glue that
//! receives the raw call hands the message fields to [`dispatch_debug_message`]
//! as plain values and then prints or aborts as the returned outcome says.

use crate::text::{decimal_string, spec_decimal};
use vstd::prelude::*;
use vstd::string::StringExecFns;

verus! {

/// Which of the two statically defined diagnostic callbacks a strategy
/// installs: one that prints every message, and one that additionally treats
/// ERROR-severity messages as fatal.
#[derive(Clone, Copy, Debug, PartialEq, Eq, Structural)]
pub enum DebugCallback {
    PrintAll,
    PanicOnErrorsPrintOthers,
}

/// The severity a driver diagnostic carries.
#[derive(Clone, Copy, Debug, PartialEq, Eq, Structural)]
pub enum MessageSeverity {
    Verbose,
    Info,
    Warning,
    Error,
}

/// The category a driver diagnostic carries.
#[derive(Clone, Copy, Debug, PartialEq, Eq, Structural)]
pub enum MessageType {
    General,
    Validation,
    Performance,
}

impl MessageSeverity {
    /// The label under which the severity appears in a log line.
    pub open spec fn label_spec(self) -> Seq<char> {
        match self {
            MessageSeverity::Verbose => "VERBOSE"@,
            MessageSeverity::Info => "INFO"@,
            MessageSeverity::Warning => "WARNING"@,
            MessageSeverity::Error => "ERROR"@,
        }
    }

    pub fn label(self) -> (r: &'static str)
        ensures
            r@ == self.label_spec(),
    {
        match self {
            MessageSeverity::Verbose => "VERBOSE",
            MessageSeverity::Info => "INFO",
            MessageSeverity::Warning => "WARNING",
            MessageSeverity::Error => "ERROR",
        }
    }
}

impl MessageType {
    /// The label under which the category appears in a log line.
    pub open spec fn label_spec(self) -> Seq<char> {
        match self {
            MessageType::General => "GENERAL"@,
            MessageType::Validation => "VALIDATION"@,
            MessageType::Performance => "PERFORMANCE"@,
        }
    }

    pub fn label(self) -> (r: &'static str)
        ensures
            r@ == self.label_spec(),
    {
        match self {
            MessageType::General => "GENERAL",
            MessageType::Validation => "VALIDATION",
            MessageType::Performance => "PERFORMANCE",
        }
    }
}

/// The text of a message field, with an absent (null) field standing in as
/// the empty string.
pub open spec fn spec_opt_text(o: Option<String>) -> Seq<char> {
    match o {
        Some(s) => s@,
        None => Seq::<char>::empty(),
    }
}

/// The log line built for one driver diagnostic:
/// `severity:\ncategory [message-id-name (message-id-number)] : message-text\n`.
pub open spec fn spec_debug_message_text(
    severity: MessageSeverity,
    message_type: MessageType,
    id_name: Seq<char>,
    id_number: int,
    message: Seq<char>,
) -> Seq<char> {
    severity.label_spec() + ":\n"@ + message_type.label_spec() + " ["@ + id_name + " ("@
        + spec_decimal(id_number) + ")] : "@ + message + "\n"@
}

/// What one callback invocation decides: the formatted log line, whether the
/// message is fatal to the process, and whether the driver call that raised
/// it should be suppressed (never, for both callbacks).
pub struct CallbackOutcome {
    pub output: String,
    pub fatal: bool,
    pub suppress_call: bool,
}

/// The shared logic of the two diagnostic callbacks.
///
/// Formats the message fields into one log line, substituting an empty string
/// for an absent message or message-id-name. The outcome is fatal exactly when
/// the panic-on-errors callback receives an ERROR-severity message; the call
/// is never suppressed.
pub fn dispatch_debug_message(
    callback: DebugCallback,
    severity: MessageSeverity,
    message_type: MessageType,
    message_id_name: Option<String>,
    message_id_number: i32,
    message: Option<String>,
) -> (r: CallbackOutcome)
    ensures
        r.output@ == spec_debug_message_text(
            severity,
            message_type,
            spec_opt_text(message_id_name),
            message_id_number as int,
            spec_opt_text(message),
        ),
        r.fatal == (callback == DebugCallback::PanicOnErrorsPrintOthers && severity
            == MessageSeverity::Error),
        r.suppress_call == false,
{
    let mut output = String::new();
    output.append(severity.label());
    output.append(":\n");
    output.append(message_type.label());
    output.append(" [");
    match &message_id_name {
        Some(name) => output.append(name.as_str()),
        None => (),
    }
    output.append(" (");
    let number = decimal_string(message_id_number);
    output.append(number.as_str());
    output.append(")] : ");
    match &message {
        Some(text) => output.append(text.as_str()),
        None => (),
    }
    output.append("\n");
    proof {
        assert(output@ =~= spec_debug_message_text(
            severity,
            message_type,
            spec_opt_text(message_id_name),
            message_id_number as int,
            spec_opt_text(message),
        ));
    }
    let fatal = match callback {
        DebugCallback::PrintAll => false,
        DebugCallback::PanicOnErrorsPrintOthers => severity == MessageSeverity::Error,
    };
    CallbackOutcome { output, fatal, suppress_call: false }
}

} // verus!
