//! The GUI's per-frame output requests and their dispatch to host-level
//! services.
//!
//! Both services are optional and non-fatal: a failed URL open is
//! ignored, and whether a clipboard write is wanted is reported to the
//! caller, who owns the clipboard handle, through
//! [`wants_clipboard_write`].
use vstd::prelude::*;

verus! {

/// The side-effect requests the GUI hands back when a frame ends.
#[derive(Clone, Debug, PartialEq, Eq)]
pub struct FrameOutput {
    /// Text the GUI asks to place on the clipboard; empty when it asks
    /// for nothing.
    pub copied_text: String,
    /// A URL the GUI asks to open in the system browser, if any.
    pub open_url: Option<String>,
}

/// Relies on webbrowser::open: asks the platform's default browser to
/// open the URL, reporting failure through its result. Whether it
/// succeeds depends on the machine, so nothing is promised of the
/// outcome.
#[verifier::external_body]
fn browser_open(url: &str) -> (r: bool) {
    webbrowser::open(url).is_ok()
}

/// Opens the requested URL, if the output requests one. Failure to open
/// is deliberately ignored: a browser failure must never interrupt the
/// frame loop.
pub fn handle_links(output: &FrameOutput) {
    match &output.open_url {
        Some(url) => {
            browser_open(url.as_str());
        },
        None => {},
    }
}

/// True when the output asks for a clipboard write: its copied text is
/// non-empty.
pub open spec fn spec_wants_clipboard_write(output: FrameOutput) -> bool {
    output.copied_text@.len() > 0
}

/// Reports whether the output asks for a clipboard write, so the owner
/// of the optional clipboard handle can perform it. An absent handle or
/// a failed write is a no-op by design.
pub fn wants_clipboard_write(output: &FrameOutput) -> (r: bool)
    ensures
        r == spec_wants_clipboard_write(*output),
{
    !output.copied_text.as_str().is_empty()
}

} // verus!
