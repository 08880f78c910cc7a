//! What to ask of the driver when opening the connection to it, and what the
//! optional diagnostics hook subscribes to.

use crate::helper::texts;
use crate::helper::usize_into_u32;
use vstd::prelude::*;
use vstd::string::*;

verus! {

/// Severity bit of the most detailed diagnostics.
pub const SEVERITY_VERBOSE: u32 = 0x0001;

/// Severity bit of informational diagnostics.
pub const SEVERITY_INFO: u32 = 0x0010;

/// Severity bit of warnings.
pub const SEVERITY_WARNING: u32 = 0x0100;

/// Severity bit of errors.
pub const SEVERITY_ERROR: u32 = 0x1000;

/// Category bit of events that concern neither validity nor performance.
pub const CATEGORY_GENERAL: u32 = 0x1;

/// Category bit of events that report invalid usage.
pub const CATEGORY_VALIDATION: u32 = 0x2;

/// Category bit of events that report non-optimal usage.
pub const CATEGORY_PERFORMANCE: u32 = 0x4;

/// The instance extension that delivers diagnostics.
pub const DEBUG_UTILS_EXTENSION: &'static str = "VK_EXT_debug_utils";

/// The layer that validates usage of the driver.
pub const VALIDATION_LAYER: &'static str = "VK_LAYER_KHRONOS_validation";

/// What a diagnostics hook subscribes to: a mask of severity bits and a mask
/// of category bits.
#[derive(Clone, Copy, Debug, PartialEq, Eq, Structural)]
pub struct DebugHookConfig {
    pub severities: u32,
    pub categories: u32,
}

impl DebugHookConfig {
    /// The subscription of a diagnostic build: errors, warnings and
    /// informational events, in every category.
    pub open spec fn standard() -> DebugHookConfig {
        DebugHookConfig {
            severities: SEVERITY_ERROR | SEVERITY_WARNING | SEVERITY_INFO,
            categories: CATEGORY_GENERAL | CATEGORY_VALIDATION | CATEGORY_PERFORMANCE,
        }
    }

    /// The subscription of the diagnostics hook: the standard one in a
    /// diagnostic build, none otherwise.
    pub open spec fn for_build(debug_enabled: bool) -> Option<DebugHookConfig> {
        if debug_enabled {
            Some(Self::standard())
        } else {
            None
        }
    }

    /// Whether an event with these severity and category bits reaches the
    /// hook: it does when it shares a bit with each mask.
    pub open spec fn forwards_spec(self, severity: u32, category: u32) -> bool {
        (severity & self.severities) != 0 && (category & self.categories) != 0
    }

    /// Whether an event with these severity and category bits reaches the
    /// hook.
    pub fn forwards(&self, severity: u32, category: u32) -> (result: bool)
        ensures
            result == self.forwards_spec(severity, category),
    {
        (severity & self.severities) != 0 && (category & self.categories) != 0
    }
}

/// The masks of the standard subscription, as numbers.
pub proof fn lemma_standard_masks()
    ensures
        DebugHookConfig::standard().severities == 0x1110,
        DebugHookConfig::standard().categories == 0x7,
{
    assert(0x1000u32 | 0x0100u32 | 0x0010u32 == 0x1110u32) by (bit_vector);
    assert(0x1u32 | 0x2u32 | 0x4u32 == 0x7u32) by (bit_vector);
}

/// The standard subscription lets an event through exactly when its severity
/// holds the error, warning or info bit and its category holds one of the
/// three category bits.
pub proof fn lemma_standard_filter(severity: u32, category: u32)
    ensures
        DebugHookConfig::standard().forwards_spec(severity, category) <==> ((severity
            & SEVERITY_ERROR) != 0 || (severity & SEVERITY_WARNING) != 0 || (severity
            & SEVERITY_INFO) != 0) && ((category & CATEGORY_GENERAL) != 0 || (category
            & CATEGORY_VALIDATION) != 0 || (category & CATEGORY_PERFORMANCE) != 0),
{
    lemma_standard_masks();
    assert((severity & 0x1110u32) != 0 <==> ((severity & 0x1000u32) != 0 || (severity & 0x0100u32)
        != 0 || (severity & 0x0010u32) != 0)) by (bit_vector);
    assert((category & 0x7u32) != 0 <==> ((category & 0x1u32) != 0 || (category & 0x2u32) != 0
        || (category & 0x4u32) != 0)) by (bit_vector);
}

/// The subscription of the diagnostics hook: the standard one in a
/// diagnostic build, none otherwise.
pub fn debug_hook_config(debug_enabled: bool) -> (config: Option<DebugHookConfig>)
    ensures
        config == DebugHookConfig::for_build(debug_enabled),
{
    if !debug_enabled {
        return None;
    }
    Some(
        DebugHookConfig {
            severities: SEVERITY_ERROR | SEVERITY_WARNING | SEVERITY_INFO,
            categories: CATEGORY_GENERAL | CATEGORY_VALIDATION | CATEGORY_PERFORMANCE,
        },
    )
}

/// Everything the instance-creation call is given.
pub struct InstanceRequest {
    /// The application's name.
    pub application_name: String,
    /// The instance extensions to enable, in order.
    pub extensions: Vec<String>,
    /// Their number, as the descriptor carries it.
    pub extension_count: u32,
    /// The layers to enable, in order.
    pub layers: Vec<String>,
    /// Their number, as the descriptor carries it.
    pub layer_count: u32,
    /// The hook subscription chained into the request, so that creating and
    /// destroying the instance is itself observed.
    pub debug_hook: Option<DebugHookConfig>,
}

/// The extensions an instance is created with: those the platform requires
/// for presentation, followed in a diagnostic build by the diagnostics
/// extension.
pub open spec fn instance_extensions(required: Seq<Seq<char>>, debug_enabled: bool) -> Seq<
    Seq<char>,
> {
    if debug_enabled {
        required.push(DEBUG_UTILS_EXTENSION@)
    } else {
        required
    }
}

/// The layers an instance is created with: the validation layer in a
/// diagnostic build, none otherwise.
pub open spec fn instance_layers(debug_enabled: bool) -> Seq<Seq<char>> {
    if debug_enabled {
        seq![VALIDATION_LAYER@]
    } else {
        Seq::<Seq<char>>::empty()
    }
}

/// Assembles the instance-creation request. The extension list must leave
/// room for one more entry within a 32-bit count.
pub fn instance_request(
    application_name: String,
    required_extensions: Vec<String>,
    debug_enabled: bool,
) -> (request: InstanceRequest)
    requires
        required_extensions.len() < u32::MAX,
    ensures
        request.application_name@ == application_name@,
        texts(request.extensions@) == instance_extensions(
            texts(required_extensions@),
            debug_enabled,
        ),
        request.extension_count == request.extensions.len(),
        texts(request.layers@) == instance_layers(debug_enabled),
        request.layer_count == request.layers.len(),
        request.debug_hook == DebugHookConfig::for_build(debug_enabled),
{
    let mut extensions = required_extensions;
    let mut layers: Vec<String> = Vec::new();
    if debug_enabled {
        extensions.push(String::from_str(DEBUG_UTILS_EXTENSION));
        layers.push(String::from_str(VALIDATION_LAYER));
    }
    let extension_count = usize_into_u32(extensions.len());
    let layer_count = usize_into_u32(layers.len());
    InstanceRequest {
        application_name,
        extensions,
        extension_count,
        layers,
        layer_count,
        debug_hook: debug_hook_config(debug_enabled),
    }
}

/// One entry of the support report: a tab, then the name between double
/// quotes.
pub open spec fn report_entry(name: Seq<char>) -> Seq<char> {
    "\t\""@ + name + "\""@
}

/// The lines of the support report: a heading and one entry for each
/// supported extension, then a heading and one entry for each supported
/// layer.
pub open spec fn support_report_text(extensions: Seq<Seq<char>>, layers: Seq<Seq<char>>) -> Seq<
    Seq<char>,
> {
    seq!["supported_extensions:"@] + Seq::new(
        extensions.len(),
        |i: int| report_entry(extensions[i]),
    ) + seq!["supported_layers:"@] + Seq::new(layers.len(), |i: int| report_entry(layers[i]))
}

fn push_entries(lines: &mut Vec<String>, names: &Vec<String>)
    ensures
        texts(final(lines)@) == texts(old(lines)@) + Seq::new(
            names.len() as nat,
            |i: int| report_entry(names[i]@),
        ),
{
    let ghost before = texts(lines@);
    let mut i: usize = 0;
    while i < names.len()
        invariant
            i <= names.len(),
            texts(lines@) == before + Seq::new(i as nat, |k: int| report_entry(names[k]@)),
        decreases names.len() - i,
    {
        let mut entry = String::from_str("\t\"");
        entry.append(names[i].as_str());
        entry.append("\"");
        let ghost prior = texts(lines@);
        lines.push(entry);
        assert(texts(lines@) =~= prior.push(report_entry(names[i as int]@)));
        i += 1;
    }
}

/// Lists what the driver supports, for the log of a diagnostic build. The
/// names come in as the driver reported them.
pub fn support_report(extensions: &Vec<String>, layers: &Vec<String>) -> (lines: Vec<String>)
    ensures
        texts(lines@) == support_report_text(texts(extensions@), texts(layers@)),
{
    let mut lines: Vec<String> = Vec::new();
    lines.push(String::from_str("supported_extensions:"));
    push_entries(&mut lines, extensions);
    let ghost prior = texts(lines@);
    lines.push(String::from_str("supported_layers:"));
    assert(texts(lines@) =~= prior.push("supported_layers:"@));
    push_entries(&mut lines, layers);
    lines
}

} // verus!
