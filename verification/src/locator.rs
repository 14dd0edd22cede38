//! Tool location: which probe command to run on the current platform, and
//! how the probe's result maps to an availability signal with its advisory
//! notice.  Spawning the probe itself happens outside the library.

use vstd::prelude::*;

verus! {

/// The platform the host is running on, as far as tool location cares.
#[derive(Clone, Copy, Debug, PartialEq, Eq, Structural)]
pub enum Platform {
    MacOs,
    Linux,
    Other,
}

/// The version-query subprocess to spawn when probing for the converter.
pub struct ProbeCommand {
    pub program: String,
    pub argument: String,
}

/// What the caller observed while trying to run the probe command:
/// the probe either produced a process that ran to completion (whatever it
/// reported), or could not be launched at all.
pub enum ProbeReport {
    Launched,
    Failed { message: String },
}

/// The availability signal: whether the external converter can be invoked,
/// plus a diagnostic notice when it cannot.
pub struct ToolAvailability {
    pub available: bool,
    pub notice: Option<String>,
}

/// The diagnostic for a platform on which no probe is attempted.
pub open spec fn spec_unsupported_platform_notice() -> Seq<char> {
    "unsupported platform: cannot locate the converter"@
}

/// The fixed installation path probed on macOS.
pub open spec fn spec_macos_program() -> Seq<char> {
    "/usr/local/bin/dnglab"@
}

/// The executable probed via the search path on Linux.
pub open spec fn spec_linux_program() -> Seq<char> {
    "dnglab"@
}

/// The probe command of a platform: a fixed installation path on macOS, the
/// default executable search path on Linux, and no probe at all elsewhere.
pub fn version_probe(platform: Platform) -> (r: Option<ProbeCommand>)
    ensures
        platform is MacOs ==> (r matches Some(c) && c.program@ == spec_macos_program()
            && c.argument@ == "--version"@),
        platform is Linux ==> (r matches Some(c) && c.program@ == spec_linux_program()
            && c.argument@ == "--version"@),
        platform is Other ==> r is None,
{
    match platform {
        Platform::MacOs => Some(
            ProbeCommand {
                program: "/usr/local/bin/dnglab".to_owned(),
                argument: "--version".to_owned(),
            },
        ),
        Platform::Linux => Some(
            ProbeCommand { program: "dnglab".to_owned(), argument: "--version".to_owned() },
        ),
        Platform::Other => None,
    }
}

/// Map a probe attempt to the availability signal.  `None` stands for a
/// platform whose `version_probe` is `None`, reported unavailable without
/// any execution attempt.  A probe that launched — however its process
/// exited — shows the tool is present; one that could not be launched shows
/// it is not, and its message becomes the notice.
pub fn assess_availability(probe: Option<ProbeReport>) -> (r: ToolAvailability)
    ensures
        probe is None ==> !r.available && (r.notice matches Some(n) && n@
            == spec_unsupported_platform_notice()),
        probe matches Some(ProbeReport::Launched) ==> r.available && r.notice is None,
        probe matches Some(ProbeReport::Failed { message }) ==> !r.available && (
        r.notice matches Some(n) && n@ == message@),
{
    match probe {
        None => ToolAvailability {
            available: false,
            notice: Some("unsupported platform: cannot locate the converter".to_owned()),
        },
        Some(ProbeReport::Launched) => ToolAvailability { available: true, notice: None },
        Some(ProbeReport::Failed { message }) => ToolAvailability {
            available: false,
            notice: Some(message),
        },
    }
}

} // verus!
