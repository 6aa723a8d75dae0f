//! Messages of the validation layers: how one is labelled and written, and
//! which ones the driver is asked to deliver.

use crate::driver::{category_flag_bits, severity_flag_bits, vk_false};
use vstd::prelude::*;
use vstd::string::StringExecFns;

verus! {

/// How grave a message is.
#[derive(Debug, Clone, Copy, PartialEq, Eq, Structural)]
pub enum Severity {
    Verbose,
    Info,
    Warning,
    Error,
    Unknown,
}

/// What a message is about.
#[derive(Debug, Clone, Copy, PartialEq, Eq, Structural)]
pub enum Category {
    General,
    Performance,
    Validation,
    Unknown,
}

impl Severity {
    /// The severity that a native severity value stands for. Only the four
    /// single bits are severities; any other pattern is unknown.
    pub open spec fn of_bits(bits: u32) -> Severity {
        if bits == 0x1 {
            Severity::Verbose
        } else if bits == 0x10 {
            Severity::Info
        } else if bits == 0x100 {
            Severity::Warning
        } else if bits == 0x1000 {
            Severity::Error
        } else {
            Severity::Unknown
        }
    }

    /// The word by which the log names this severity.
    pub open spec fn label(self) -> Seq<char> {
        match self {
            Severity::Verbose => "Verbose"@,
            Severity::Info => "Info"@,
            Severity::Warning => "Warning"@,
            Severity::Error => "Error"@,
            Severity::Unknown => "Unknown"@,
        }
    }

    /// Classifies a native severity value.
    pub fn from_bits(bits: u32) -> (severity: Severity)
        ensures
            severity == Severity::of_bits(bits),
    {
        let known = severity_flag_bits();
        if bits == known.verbose {
            Severity::Verbose
        } else if bits == known.warning {
            Severity::Warning
        } else if bits == known.error {
            Severity::Error
        } else if bits == known.info {
            Severity::Info
        } else {
            Severity::Unknown
        }
    }

    /// The word by which the log names this severity.
    pub fn name(&self) -> (word: &'static str)
        ensures
            word@ == self.label(),
    {
        match self {
            Severity::Verbose => "Verbose",
            Severity::Info => "Info",
            Severity::Warning => "Warning",
            Severity::Error => "Error",
            Severity::Unknown => "Unknown",
        }
    }
}

impl Category {
    /// The category that a native message-type value stands for. Only the
    /// three single bits are categories; any other pattern is unknown.
    pub open spec fn of_bits(bits: u32) -> Category {
        if bits == 0x1 {
            Category::General
        } else if bits == 0x2 {
            Category::Validation
        } else if bits == 0x4 {
            Category::Performance
        } else {
            Category::Unknown
        }
    }

    /// The word by which the log names this category.
    pub open spec fn label(self) -> Seq<char> {
        match self {
            Category::General => "General"@,
            Category::Performance => "Performance"@,
            Category::Validation => "Validation"@,
            Category::Unknown => "Unknown"@,
        }
    }

    /// Classifies a native message-type value.
    pub fn from_bits(bits: u32) -> (category: Category)
        ensures
            category == Category::of_bits(bits),
    {
        let known = category_flag_bits();
        if bits == known.general {
            Category::General
        } else if bits == known.performance {
            Category::Performance
        } else if bits == known.validation {
            Category::Validation
        } else {
            Category::Unknown
        }
    }

    /// The word by which the log names this category.
    pub fn name(&self) -> (word: &'static str)
        ensures
            word@ == self.label(),
    {
        match self {
            Category::General => "General",
            Category::Performance => "Performance",
            Category::Validation => "Validation",
            Category::Unknown => "Unknown",
        }
    }
}

/// A word between square brackets.
pub open spec fn tag(word: Seq<char>) -> Seq<char> {
    seq!['['] + word + seq![']']
}

/// The line that the log gets for a message: three tags, then the text.
pub open spec fn log_line(severity: Severity, category: Category, text: Seq<char>) -> Seq<char> {
    tag("Debug"@) + tag(severity.label()) + tag(category.label()) + text
}

/// One message of the driver, classified. It lives for one callback only.
#[derive(Debug)]
pub struct DiagnosticMessage {
    pub severity: Severity,
    pub category: Category,
    pub text: String,
}

impl DiagnosticMessage {
    /// The message that the driver describes by two native values and a text.
    pub fn classify(severity_bits: u32, category_bits: u32, text: &str) -> (message:
        DiagnosticMessage)
        ensures
            message.severity == Severity::of_bits(severity_bits),
            message.category == Category::of_bits(category_bits),
            message.text@ == text@,
    {
        DiagnosticMessage {
            severity: Severity::from_bits(severity_bits),
            category: Category::from_bits(category_bits),
            text: String::from_str(text),
        }
    }

    /// The line to write for this message.
    pub fn render(&self) -> (line: String)
        ensures
            line@ == log_line(self.severity, self.category, self.text@),
    {
        proof {
            reveal_strlit("[Debug][");
            reveal_strlit("Debug");
            reveal_strlit("][");
            reveal_strlit("]");
        }
        let mut line = String::from_str("[Debug][");
        line.append(self.severity.name());
        line.append("][");
        line.append(self.category.name());
        line.append("]");
        line.append(self.text.as_str());
        line
    }
}

/// What one invocation of the debug callback amounts to: the line for the
/// log, and the answer for the driver.
#[derive(Debug)]
pub struct CallbackOutcome {
    pub line: String,
    pub answer: u32,
}

/// The answer that lets the driver call that raised the message go on.
pub const PROCEED: u32 = 0;

/// The text of a message: what the driver handed over, or nothing where it
/// handed over no text.
pub open spec fn message_text(message: Option<&str>) -> Seq<char> {
    match message {
        Some(text) => text@,
        None => Seq::empty(),
    }
}

/// The debug callback on plain values: labels the message, writes its line,
/// and never asks the driver to abort. A message without a text gets its
/// tags alone. The caller owns the native side: it reads the text while the
/// driver's buffer is valid, and prints the line.
pub fn vulkan_debug_utils_callback(
    message_severity: u32,
    message_type: u32,
    message: Option<&str>,
) -> (outcome: CallbackOutcome)
    ensures
        outcome.line@ == log_line(
            Severity::of_bits(message_severity),
            Category::of_bits(message_type),
            message_text(message),
        ),
        outcome.answer == PROCEED,
{
    proof {
        reveal_strlit("");
    }
    let text = match message {
        Some(text) => text,
        None => "",
    };
    let classified = DiagnosticMessage::classify(message_severity, message_type, text);
    CallbackOutcome { line: classified.render(), answer: vk_false() }
}

/// Which messages the driver is asked to deliver: one mask of severities and
/// one of categories, as the registration of a debug messenger holds them.
#[derive(Debug, Clone, Copy, PartialEq, Eq, Structural)]
pub struct DebugMessengerCreateInfo {
    pub message_severity: u32,
    pub message_type: u32,
}

impl DebugMessengerCreateInfo {
    /// Whether messages of this severity and category are delivered: both
    /// native values are single bits, and the masks hold them.
    pub open spec fn delivers(self, severity_bits: u32, category_bits: u32) -> bool {
        &&& Severity::of_bits(severity_bits) != Severity::Unknown
        &&& Category::of_bits(category_bits) != Category::Unknown
        &&& self.message_severity & severity_bits == severity_bits
        &&& self.message_type & category_bits == category_bits
    }
}

/// The registration that subscribes to everything.
pub open spec fn all_messages() -> DebugMessengerCreateInfo {
    DebugMessengerCreateInfo { message_severity: 0x1111, message_type: 0x7 }
}

/// Every message that has a severity and a category is delivered under the
/// registration that subscribes to everything.
pub proof fn law_all_messages_delivered(severity_bits: u32, category_bits: u32)
    requires
        Severity::of_bits(severity_bits) != Severity::Unknown,
        Category::of_bits(category_bits) != Category::Unknown,
    ensures
        all_messages().delivers(severity_bits, category_bits),
{
    assert(0x1111u32 & 0x1 == 0x1 && 0x1111u32 & 0x10 == 0x10 && 0x1111u32 & 0x100 == 0x100
        && 0x1111u32 & 0x1000 == 0x1000) by (bit_vector);
    assert(0x7u32 & 0x1 == 0x1 && 0x7u32 & 0x2 == 0x2 && 0x7u32 & 0x4 == 0x4) by (bit_vector);
}

/// The registration of the debug messenger: all four severities and all
/// three categories. The caller adds the callback's address.
pub fn populate_debug_messenger_create_info() -> (info: DebugMessengerCreateInfo)
    ensures
        info == all_messages(),
{
    let severities = severity_flag_bits();
    let categories = category_flag_bits();
    assert(0x100u32 | 0x1 | 0x10 | 0x1000 == 0x1111) by (bit_vector);
    assert(0x1u32 | 0x4 | 0x2 == 0x7) by (bit_vector);
    DebugMessengerCreateInfo {
        message_severity: severities.warning | severities.verbose | severities.info
            | severities.error,
        message_type: categories.general | categories.performance | categories.validation,
    }
}

} // verus!
