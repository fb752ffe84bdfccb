//! The health check: what the backend's answer to a health query says, in
//! words for the user.

use crate::inference::BACKEND;
use crate::json::{document, parsed_view, view_of, Json, JsonView};
use crate::text::{decimal, decimal_text};
use vstd::prelude::*;
use vstd::string::StringExecFns;

verus! {

/// The path of the health endpoint below [`BACKEND`].
pub const HEALTH_PATH: &'static str = "/health";

/// The address that a health query goes to.
pub open spec fn health_address() -> Seq<char> {
    BACKEND@ + HEALTH_PATH@
}

/// The address that a health query goes to.
pub fn health_url() -> (url: String)
    ensures
        url@ == health_address(),
{
    String::from_str(BACKEND).concat(HEALTH_PATH)
}

/// The body of a health answer: a status label and two optional slot counts.
#[derive(Debug, PartialEq, Eq)]
pub struct HealthStatus {
    pub status: String,
    pub slots_idle: Option<u32>,
    pub slots_processing: Option<u32>,
}

/// The mathematical value of a [`HealthStatus`].
pub struct HealthStatusView {
    pub status: Seq<char>,
    pub slots_idle: Option<u32>,
    pub slots_processing: Option<u32>,
}

impl View for HealthStatus {
    type V = HealthStatusView;

    open spec fn view(&self) -> HealthStatusView {
        HealthStatusView {
            status: self.status@,
            slots_idle: self.slots_idle,
            slots_processing: self.slots_processing,
        }
    }
}

/// The view of a status that may be missing.
pub open spec fn status_view(status: Option<HealthStatus>) -> Option<HealthStatusView> {
    match status {
        Some(status) => Some(status@),
        None => None,
    }
}

/// An optional count as a field holds it. A field that is absent or `null`
/// holds no count (`Some(None)`), an integer from 0 to `u32::MAX` holds that
/// count, and anything else is malformed (`None`).
pub open spec fn optional_count(field: Option<JsonView>) -> Option<Option<u32>> {
    match field {
        None => Some(None),
        Some(JsonView::Null) => Some(None),
        Some(JsonView::Integer(n)) => if 0 <= n <= u32::MAX {
            Some(Some(n as u32))
        } else {
            None
        },
        Some(_) => None,
    }
}

/// The health status that a document holds: an object with a string under
/// `status` and optional counts under `slots_idle` and `slots_processing`.
/// Other fields are passed over. `None` where the document has another shape.
pub open spec fn status_in(doc: JsonView) -> Option<HealthStatusView> {
    match doc.member("status"@) {
        Some(JsonView::Text(status)) => match (
            optional_count(doc.member("slots_idle"@)),
            optional_count(doc.member("slots_processing"@)),
        ) {
            (Some(slots_idle), Some(slots_processing)) => Some(
                HealthStatusView { status, slots_idle, slots_processing },
            ),
            _ => None,
        },
        _ => None,
    }
}

/// Reads an optional count out of a field that was looked up.
fn count_in(field: Option<&Json>) -> (count: Option<Option<u32>>)
    ensures
        count == optional_count(view_of(field)),
{
    match field {
        None => Some(None),
        Some(Json::Null) => Some(None),
        Some(value) => match value.as_count() {
            Some(n) => Some(Some(n)),
            None => None,
        },
    }
}

impl HealthStatus {
    /// Takes the health status out of a parsed body.
    pub fn from_json(doc: &Json) -> (status: Option<HealthStatus>)
        ensures
            status_view(status) == status_in(doc@),
    {
        let label = match doc.member("status") {
            Some(value) => match value.as_text() {
                Some(text) => text,
                None => {
                    return None;
                },
            },
            None => {
                return None;
            },
        };
        let slots_idle = match count_in(doc.member("slots_idle")) {
            Some(count) => count,
            None => {
                return None;
            },
        };
        let slots_processing = match count_in(doc.member("slots_processing")) {
            Some(count) => count,
            None => {
                return None;
            },
        };
        Some(HealthStatus { status: String::from_str(label), slots_idle, slots_processing })
    }
}

/// What a health check found.
#[derive(Debug, PartialEq, Eq)]
pub enum HealthOutcome {
    /// The backend is up; the counts are its idle and busy slots.
    Working { idle: u32, processing: u32 },
    /// Every slot is taken; the counts are the idle and busy slots reported.
    NoSlots { idle: u32, processing: u32 },
    /// The model is still being loaded.
    Loading,
    /// Loading the model failed.
    LoadFailed,
    /// The status label is not one that its HTTP status allows.
    UnknownStatus(String),
    /// The HTTP status is none of 200, 503 and 500.
    UnexpectedCode(u16),
    /// The body is not a health status.
    Malformed,
}

/// The mathematical value of a [`HealthOutcome`].
pub enum HealthOutcomeView {
    Working { idle: u32, processing: u32 },
    NoSlots { idle: u32, processing: u32 },
    Loading,
    LoadFailed,
    UnknownStatus(Seq<char>),
    UnexpectedCode(u16),
    Malformed,
}

impl View for HealthOutcome {
    type V = HealthOutcomeView;

    open spec fn view(&self) -> HealthOutcomeView {
        match self {
            HealthOutcome::Working { idle, processing } => HealthOutcomeView::Working {
                idle: *idle,
                processing: *processing,
            },
            HealthOutcome::NoSlots { idle, processing } => HealthOutcomeView::NoSlots {
                idle: *idle,
                processing: *processing,
            },
            HealthOutcome::Loading => HealthOutcomeView::Loading,
            HealthOutcome::LoadFailed => HealthOutcomeView::LoadFailed,
            HealthOutcome::UnknownStatus(status) => HealthOutcomeView::UnknownStatus(status@),
            HealthOutcome::UnexpectedCode(code) => HealthOutcomeView::UnexpectedCode(*code),
            HealthOutcome::Malformed => HealthOutcomeView::Malformed,
        }
    }
}

/// A count that may be absent, as it is shown: absent counts as zero.
pub open spec fn shown(count: Option<u32>) -> u32 {
    match count {
        Some(n) => n,
        None => 0,
    }
}

/// The outcome for an HTTP status and the health status in the body (`None`
/// where the body holds none). The status label is read only under the HTTP
/// statuses 200, 503 and 500, and each of these knows its own labels.
pub open spec fn outcome_of(code: u16, status: Option<HealthStatusView>) -> HealthOutcomeView {
    if code != 200 && code != 503 && code != 500 {
        HealthOutcomeView::UnexpectedCode(code)
    } else {
        match status {
            None => HealthOutcomeView::Malformed,
            Some(health) => {
                let idle = shown(health.slots_idle);
                let processing = shown(health.slots_processing);
                if code == 200 && health.status == "ok"@ {
                    HealthOutcomeView::Working { idle, processing }
                } else if code != 500 && health.status == "no slot available"@ {
                    HealthOutcomeView::NoSlots { idle, processing }
                } else if code == 503 && health.status == "loading model"@ {
                    HealthOutcomeView::Loading
                } else if code == 500 && health.status == "error"@ {
                    HealthOutcomeView::LoadFailed
                } else {
                    HealthOutcomeView::UnknownStatus(health.status)
                }
            },
        }
    }
}

impl HealthOutcomeView {
    /// The outcome in words.
    pub open spec fn message(self) -> Seq<char> {
        match self {
            HealthOutcomeView::Working { idle, processing } =>
                "Everything is working fine. Slots idle: "@ + decimal(idle as nat)
                    + ", Slots processing: "@ + decimal(processing as nat),
            HealthOutcomeView::NoSlots { idle, processing } =>
                "No slots are currently available. Slots idle: "@ + decimal(idle as nat)
                    + ", Slots processing: "@ + decimal(processing as nat),
            HealthOutcomeView::Loading => "The model is still being loaded. Please wait."@,
            HealthOutcomeView::LoadFailed => "An error occurred while loading the model."@,
            HealthOutcomeView::UnknownStatus(status) => "Unknown status: "@ + status,
            HealthOutcomeView::UnexpectedCode(code) => "Unexpected status: "@ + decimal(
                code as nat,
            ),
            HealthOutcomeView::Malformed =>
                "An error occurred while parsing the health check response."@,
        }
    }
}

/// Under an HTTP status other than 200, 503 and 500 the body does not
/// count: whatever it holds, the outcome names the status and nothing else.
pub proof fn lemma_unexpected_code_ignores_body(
    code: u16,
    one: Option<HealthStatusView>,
    other: Option<HealthStatusView>,
)
    requires
        code != 200,
        code != 503,
        code != 500,
    ensures
        outcome_of(code, one) == HealthOutcomeView::UnexpectedCode(code),
        outcome_of(code, one) == outcome_of(code, other),
        outcome_of(code, one).message() == "Unexpected status: "@ + decimal(code as nat),
{
}

/// Only the outcomes that speak of slots show the counts: while the model
/// is loading, after a failed load and under an unknown label the counts in
/// the body change nothing.
pub proof fn lemma_counts_show_only_with_slots(
    code: u16,
    status: Seq<char>,
    idle: Option<u32>,
    processing: Option<u32>,
)
    ensures
        ({
            let with = outcome_of(
                code,
                Some(HealthStatusView { status, slots_idle: idle, slots_processing: processing }),
            );
            let without = outcome_of(
                code,
                Some(HealthStatusView { status, slots_idle: None, slots_processing: None }),
            );
            !(with is Working) && !(with is NoSlots) ==> with == without
        }),
{
}

/// An absent count is shown as zero: a status without counts reads as one
/// whose counts are both zero.
pub proof fn lemma_absent_counts_read_as_zero(code: u16, status: Seq<char>)
    ensures
        outcome_of(
            code,
            Some(HealthStatusView { status, slots_idle: None, slots_processing: None }),
        ) == outcome_of(
            code,
            Some(HealthStatusView { status, slots_idle: Some(0), slots_processing: Some(0) }),
        ),
{
}

/// Whether `text` reads `label`.
fn reads(text: &String, label: &str) -> (same: bool)
    ensures
        same == (text@ == label@),
{
    let wanted = String::from_str(label);
    *text == wanted
}

/// An idle or busy count for display.
fn shown_count(count: Option<u32>) -> (n: u32)
    ensures
        n == shown(count),
{
    match count {
        Some(n) => n,
        None => 0,
    }
}

/// Interprets a health answer: its HTTP status and the health status that
/// its body held, if it held one.
pub fn interpret(code: u16, status: Option<HealthStatus>) -> (outcome: HealthOutcome)
    ensures
        outcome@ == outcome_of(code, status_view(status)),
{
    if code != 200 && code != 503 && code != 500 {
        return HealthOutcome::UnexpectedCode(code);
    }
    match status {
        None => HealthOutcome::Malformed,
        Some(health) => {
            let idle = shown_count(health.slots_idle);
            let processing = shown_count(health.slots_processing);
            if code == 200 && reads(&health.status, "ok") {
                HealthOutcome::Working { idle, processing }
            } else if code != 500 && reads(&health.status, "no slot available") {
                HealthOutcome::NoSlots { idle, processing }
            } else if code == 503 && reads(&health.status, "loading model") {
                HealthOutcome::Loading
            } else if code == 500 && reads(&health.status, "error") {
                HealthOutcome::LoadFailed
            } else {
                HealthOutcome::UnknownStatus(health.status)
            }
        },
    }
}

impl HealthOutcome {
    /// The outcome in words.
    pub fn message(&self) -> (text: String)
        ensures
            text@ == self@.message(),
    {
        match self {
            HealthOutcome::Working { idle, processing } => {
                let mut text = String::from_str("Everything is working fine. Slots idle: ");
                text.append(decimal_text(*idle as u64).as_str());
                text.append(", Slots processing: ");
                text.append(decimal_text(*processing as u64).as_str());
                text
            },
            HealthOutcome::NoSlots { idle, processing } => {
                let mut text = String::from_str("No slots are currently available. Slots idle: ");
                text.append(decimal_text(*idle as u64).as_str());
                text.append(", Slots processing: ");
                text.append(decimal_text(*processing as u64).as_str());
                text
            },
            HealthOutcome::Loading => String::from_str(
                "The model is still being loaded. Please wait.",
            ),
            HealthOutcome::LoadFailed => String::from_str(
                "An error occurred while loading the model.",
            ),
            HealthOutcome::UnknownStatus(status) => String::from_str("Unknown status: ").concat(
                status.as_str(),
            ),
            HealthOutcome::UnexpectedCode(code) => String::from_str("Unexpected status: ").concat(
                decimal_text(*code as u64).as_str(),
            ),
            HealthOutcome::Malformed => String::from_str(
                "An error occurred while parsing the health check response.",
            ),
        }
    }
}

/// The health status in a parsed body (`None` where the body is not JSON or
/// has another shape).
pub open spec fn status_of(parsed: Option<JsonView>) -> Option<HealthStatusView> {
    match parsed {
        Some(doc) => status_in(doc),
        None => None,
    }
}

/// Interprets a health answer, given its HTTP status and the document that
/// its body parses to (`None` where the body is not JSON).
pub fn outcome_of_document(code: u16, parsed: Option<Json>) -> (outcome: HealthOutcome)
    ensures
        outcome@ == outcome_of(code, status_of(parsed_view(parsed))),
{
    let status = match parsed {
        Some(doc) => HealthStatus::from_json(&doc),
        None => None,
    };
    interpret(code, status)
}

/// Interprets a health answer from its HTTP status and the text of its body.
pub fn check_health(code: u16, body: &str) -> (outcome: HealthOutcome)
    ensures
        outcome@ == outcome_of(code, status_of(document(body@))),
{
    outcome_of_document(code, Json::parse(body))
}

} // verus!
