//! Turning a diagnostics event into the log line that reports it.

use crate::instance::DebugHookConfig;
use vstd::prelude::*;
use vstd::string::*;

verus! {

/// The text that `ash` prints for a mask of severity bits.
pub uninterp spec fn severity_text(bits: u32) -> Seq<char>;

/// The text that `ash` prints for a mask of category bits.
pub uninterp spec fn category_text(bits: u32) -> Seq<char>;

/// Formats `ash::vk::DebugUtilsMessageSeverityFlagsEXT::from_raw(bits)` with
/// its `Debug` implementation. Trusted: the result is whatever that
/// implementation writes for these bits, which depends on the bits alone.
#[verifier::external_body]
fn severity_label(bits: u32) -> (label: String)
    ensures
        label@ == severity_text(bits),
{
    format!("{:?}", ash::vk::DebugUtilsMessageSeverityFlagsEXT::from_raw(bits))
}

/// Formats `ash::vk::DebugUtilsMessageTypeFlagsEXT::from_raw(bits)` with its
/// `Debug` implementation. Trusted: the result is whatever that
/// implementation writes for these bits, which depends on the bits alone.
#[verifier::external_body]
fn category_label(bits: u32) -> (label: String)
    ensures
        label@ == category_text(bits),
{
    format!("{:?}", ash::vk::DebugUtilsMessageTypeFlagsEXT::from_raw(bits))
}

/// The character for one decimal digit.
pub open spec fn digit(value: nat) -> char {
    if value == 0 {
        '0'
    } else if value == 1 {
        '1'
    } else if value == 2 {
        '2'
    } else if value == 3 {
        '3'
    } else if value == 4 {
        '4'
    } else if value == 5 {
        '5'
    } else if value == 6 {
        '6'
    } else if value == 7 {
        '7'
    } else if value == 8 {
        '8'
    } else {
        '9'
    }
}

/// The decimal digits of a natural number, most significant first, without
/// leading zeros.
pub open spec fn decimal_digits(value: nat) -> Seq<char>
    decreases value,
{
    if value < 10 {
        seq![digit(value)]
    } else {
        decimal_digits(value / 10).push(digit(value % 10))
    }
}

/// An integer in decimal, with a minus sign in front when it is negative.
pub open spec fn decimal_text(value: int) -> Seq<char> {
    if value < 0 {
        seq!['-'] + decimal_digits((-value) as nat)
    } else {
        decimal_digits(value as nat)
    }
}

fn digit_str(value: u64) -> (text: &'static str)
    requires
        value < 10,
    ensures
        text@ == seq![digit(value as nat)],
{
    proof {
        reveal_strlit("0");
        reveal_strlit("1");
        reveal_strlit("2");
        reveal_strlit("3");
        reveal_strlit("4");
        reveal_strlit("5");
        reveal_strlit("6");
        reveal_strlit("7");
        reveal_strlit("8");
        reveal_strlit("9");
    }
    if value == 0 {
        "0"
    } else if value == 1 {
        "1"
    } else if value == 2 {
        "2"
    } else if value == 3 {
        "3"
    } else if value == 4 {
        "4"
    } else if value == 5 {
        "5"
    } else if value == 6 {
        "6"
    } else if value == 7 {
        "7"
    } else if value == 8 {
        "8"
    } else {
        "9"
    }
}

fn digits(value: u64) -> (text: String)
    ensures
        text@ == decimal_digits(value as nat),
    decreases value,
{
    if value < 10 {
        String::from_str(digit_str(value))
    } else {
        digits(value / 10).concat(digit_str(value % 10))
    }
}

/// Writes an integer in decimal.
pub fn decimal(value: i32) -> (text: String)
    ensures
        text@ == decimal_text(value as int),
{
    if value < 0 {
        let magnitude: u64 = (-(value as i64)) as u64;
        let tail = digits(magnitude);
        proof {
            reveal_strlit("-");
        }
        String::from_str("-").concat(tail.as_str())
    } else {
        digits(value as u64)
    }
}

/// The log line for one event: the severity label and a colon on a first
/// line; then the category label, the identifier's name and number in
/// brackets, a colon and the message, closed by a line break.
pub open spec fn line_text(
    severity: Seq<char>,
    category: Seq<char>,
    id_name: Seq<char>,
    id_number: int,
    message: Seq<char>,
) -> Seq<char> {
    severity + ":\n"@ + category + " ["@ + id_name + " ("@ + decimal_text(id_number) + ")] : "@
        + message + "\n"@
}

/// Lays out the log line from the two labels and the event's own fields.
pub fn compose_line(
    severity: &str,
    category: &str,
    id_name: &str,
    id_number: i32,
    message: &str,
) -> (line: String)
    ensures
        line@ == line_text(severity@, category@, id_name@, id_number as int, message@),
{
    let number = decimal(id_number);
    let mut line = String::from_str(severity);
    line.append(":\n");
    line.append(category);
    line.append(" [");
    line.append(id_name);
    line.append(" (");
    line.append(number.as_str());
    line.append(")] : ");
    line.append(message);
    line.append("\n");
    line
}

/// What the diagnostics hook gives back for one event.
pub struct HookReply {
    /// The line to log.
    pub line: String,
    /// Whether the driver call that raised the event should be aborted.
    pub abort: bool,
}

/// The characters of an optional text; none when it is absent.
pub open spec fn text_or_empty(text: Option<&str>) -> Seq<char> {
    match text {
        Some(text) => text@,
        None => Seq::<char>::empty(),
    }
}

/// Handles one diagnostics event: formats its log line and lets the driver
/// call that raised it go on. An absent identifier name or message counts as
/// empty text. The hook only observes; it never asks for an abort.
pub fn on_diagnostic(
    severity: u32,
    category: u32,
    id_name: Option<&str>,
    id_number: i32,
    message: Option<&str>,
) -> (reply: HookReply)
    ensures
        reply.line@ == line_text(
            severity_text(severity),
            category_text(category),
            text_or_empty(id_name),
            id_number as int,
            text_or_empty(message),
        ),
        !reply.abort,
{
    let severity_label = severity_label(severity);
    let category_label = category_label(category);
    let id_name = match id_name {
        Some(text) => text,
        None => {
            proof {
                reveal_strlit("");
            }
            ""
        },
    };
    let message = match message {
        Some(text) => text,
        None => {
            proof {
                reveal_strlit("");
            }
            ""
        },
    };
    let line = compose_line(
        severity_label.as_str(),
        category_label.as_str(),
        id_name,
        id_number,
        message,
    );
    HookReply { line, abort: false }
}

impl DebugHookConfig {
    /// Handles one event as the hook with this subscription does: an event
    /// that the subscription lets through is answered as `on_diagnostic`
    /// answers it; any other event is passed over without a log line.
    pub fn observe(
        &self,
        severity: u32,
        category: u32,
        id_name: Option<&str>,
        id_number: i32,
        message: Option<&str>,
    ) -> (reply: Option<HookReply>)
        ensures
            reply is Some <==> self.forwards_spec(severity, category),
            reply is Some ==> reply->0.line@ == line_text(
                severity_text(severity),
                category_text(category),
                text_or_empty(id_name),
                id_number as int,
                text_or_empty(message),
            ),
            reply is Some ==> !reply->0.abort,
    {
        if self.forwards(severity, category) {
            Some(on_diagnostic(severity, category, id_name, id_number, message))
        } else {
            None
        }
    }
}

} // verus!
