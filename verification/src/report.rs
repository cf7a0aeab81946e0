//! The failure-reporting rule that the re-emitted scaffolding follows at
//! runtime, stated as functions from the worker's outcome to the dialog
//! shown.  The generated program evaluates this rule with threads, panic
//! payloads and the dialog collaborator; here the rule itself is stated over
//! plain values, so that each path — success, returned error, panic payload
//! of each shape, join failure — has its contract.

use vstd::prelude::*;
use vstd::string::StringExecFns;

verus! {

/// A panic payload as the boundary classifies it, in priority order: an
/// owned string (used verbatim), a static string reference (used verbatim),
/// or an opaque payload known only by the rendering of its dynamic type
/// identifier.
pub enum PanicPayload {
    Text(String),
    StaticText(String),
    Opaque(String),
}

/// What the wrapped run on the worker thread reports to the boundary.
pub enum WorkerEvent {
    Succeeded,
    FailedWith(String),
    Panicked(PanicPayload),
}

/// One request to the dialog collaborator.
pub struct DialogRequest {
    pub title: String,
    pub body: String,
}

pub struct DialogRequestV {
    pub title: Seq<char>,
    pub body: Seq<char>,
}

impl View for DialogRequest {
    type V = DialogRequestV;

    open spec fn view(&self) -> DialogRequestV {
        DialogRequestV { title: self.title@, body: self.body@ }
    }
}

/// The fixed title of every failure dialog.
pub open spec fn spec_title() -> Seq<char> {
    "Error"@
}

/// The message shown for a panic payload: an owned or static string
/// verbatim, else a generic message that names the payload's dynamic type.
pub open spec fn spec_panic_message(p: PanicPayload) -> Seq<char> {
    match p {
        PanicPayload::Text(s) => s@,
        PanicPayload::StaticText(s) => s@,
        PanicPayload::Opaque(tid) => "Unknown panic type \""@ + tid@ + "\""@,
    }
}

/// Renders a panic payload to the text its dialog shows.
pub fn panic_message(p: &PanicPayload) -> (r: String)
    ensures
        r@ == spec_panic_message(*p),
{
    match p {
        PanicPayload::Text(s) => s.clone(),
        PanicPayload::StaticText(s) => s.clone(),
        PanicPayload::Opaque(tid) => {
            let mut m = String::from_str("Unknown panic type \"");
            m.append(tid.as_str());
            m.append("\"");
            m
        },
    }
}

/// The dialog, if any, of the worker-side paths: none on success; on a
/// returned error or a captured panic, one dialog with the fixed title and
/// the error text or classified panic message as its body.
pub open spec fn spec_worker_dialog(ev: WorkerEvent) -> Option<DialogRequestV> {
    match ev {
        WorkerEvent::Succeeded => None,
        WorkerEvent::FailedWith(m) => Some(DialogRequestV { title: spec_title(), body: m@ }),
        WorkerEvent::Panicked(p) => Some(
            DialogRequestV { title: spec_title(), body: spec_panic_message(p) },
        ),
    }
}

/// Decides which dialog the wrapped run shows: exactly one on any failure,
/// none on success.
pub fn worker_dialog(ev: &WorkerEvent) -> (r: Option<DialogRequest>)
    ensures
        r matches Some(d) ==> spec_worker_dialog(*ev) == Some(d@),
        r is None <==> ev is Succeeded,
{
    match ev {
        WorkerEvent::Succeeded => None,
        WorkerEvent::FailedWith(m) => Some(
            DialogRequest { title: String::from_str("Error"), body: m.clone() },
        ),
        WorkerEvent::Panicked(p) => Some(
            DialogRequest { title: String::from_str("Error"), body: panic_message(p) },
        ),
    }
}

/// The dialog shown when joining the worker thread itself fails: the fixed
/// title, and the join error's rendering prefixed as the scaffolding formats
/// it.
pub fn join_failure_dialog(rendered: &str) -> (r: DialogRequest)
    ensures
        r@.title == spec_title(),
        r@.body == "Error: "@ + rendered@,
{
    let mut b = String::from_str("Error: ");
    b.append(rendered);
    DialogRequest { title: String::from_str("Error"), body: b }
}

/// Whatever happened on the worker thread, the rewritten function's own
/// return channel reports success: every failure has already been delivered
/// through a dialog.
pub fn reported_result(_ev: &WorkerEvent) -> (r: Result<(), String>)
    ensures
        r is Ok,
{
    Ok(())
}

} // verus!
