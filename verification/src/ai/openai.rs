//! The OpenAI provider: the chat-completions request a generation sends,
//! the structured draft it expects back and how its capture numbers are
//! resolved, and what an error reply means for the user. The HTTP
//! exchange itself happens where the network is reached.

use crate::ai::{
    strings_view, CaptureForAi, CaptureForAiView, DraftView, ProcessDraft, ProcessDraftRequest,
    ProcessDraftStep, StepView,
};
use crate::errors::{is_validation, AppError};
use base64::Engine;
use crate::text::{decimal, decimal_string};
use vstd::prelude::*;

verus! {

/// Where a draft is requested.
pub const CHAT_COMPLETIONS_ENDPOINT: &'static str = "https://api.openai.com/v1/chat/completions";

/// Where a key is tested.
pub const MODELS_ENDPOINT: &'static str = "https://api.openai.com/v1/models";

/// The model asked for a draft.
pub const MODEL: &'static str = "gpt-5.6";

/// How long a request may take, in seconds.
pub const REQUEST_TIMEOUT_SECS: u64 = 60;

/// The instructions the model is given before the captures.
pub const SYSTEM_PROMPT: &'static str = "You help a business-process consultant turn a raw capture session into a clear, structured process write-up. The consultant used screen capture software to record screenshots, short notes, and screen recordings while actually performing a real business process on a computer, in the order listed. Produce a step-by-step description of the process as it was actually performed, using only what the provided material actually shows or says — never invent a step, a system name, or a detail that isn't evidenced by the captures. A 'recording' or 'note' capture with a short title/description is still real evidence — describe the step it represents using that text, even without an image. Every step must list which capture number(s) (the numbers given before each capture below) it is based on; a step may reference more than one capture, or — only if it's a genuinely synthesized transition between other steps — none at all.";

/// The draft as the model returns it: steps cite captures by their
/// 1-based number in the request.
pub struct RawProcessDraft {
    pub summary: String,
    pub steps: Vec<RawProcessDraftStep>,
}

pub struct RawProcessDraftStep {
    pub title: String,
    pub description: String,
    pub capture_indices: Vec<i64>,
}

/// The capture id that number `index` refers to, if it is in range.
pub open spec fn resolve_index(index: i64, captures: Seq<CaptureForAiView>) -> Option<Seq<char>> {
    if 1 <= index <= captures.len() {
        Some(captures[index - 1].id)
    } else {
        None
    }
}

/// The ids that `indices` refer to, in order, out-of-range numbers left
/// out.
pub open spec fn resolved_ids(indices: Seq<i64>, captures: Seq<CaptureForAiView>) -> Seq<Seq<char>>
    decreases indices.len(),
{
    if indices.len() == 0 {
        Seq::empty()
    } else {
        let before = resolved_ids(indices.drop_last(), captures);
        match resolve_index(indices.last(), captures) {
            Some(id) => before.push(id),
            None => before,
        }
    }
}

/// The step the model's step becomes.
pub open spec fn finalized_step(step: RawProcessDraftStep, captures: Seq<CaptureForAiView>) -> StepView {
    StepView {
        title: step.title@,
        description: step.description@,
        capture_ids: resolved_ids(step.capture_indices@, captures),
    }
}

/// The draft the model's draft becomes.
pub open spec fn finalized(raw: RawProcessDraft, captures: Seq<CaptureForAiView>) -> DraftView {
    DraftView {
        summary: raw.summary@,
        steps: raw.steps@.map_values(|s: RawProcessDraftStep| finalized_step(s, captures)),
    }
}

/// The ids that `indices` refer to among `captures`.
fn resolve_indices(indices: &Vec<i64>, captures: &Vec<CaptureForAi>) -> (r: Vec<String>)
    ensures
        strings_view(r@) == resolved_ids(indices@, captures@.map_values(|c: CaptureForAi| c@)),
{
    let ghost cv = captures@.map_values(|c: CaptureForAi| c@);
    let mut out: Vec<String> = Vec::new();
    let mut i: usize = 0;
    while i < indices.len()
        invariant
            i <= indices@.len(),
            cv == captures@.map_values(|c: CaptureForAi| c@),
            strings_view(out@) == resolved_ids(indices@.take(i as int), cv),
        decreases indices@.len() - i,
    {
        let index = indices[i];
        let ghost before = out@;
        proof {
            assert(indices@.take(i + 1).drop_last() =~= indices@.take(i as int));
        }
        let len: u64 = captures.len() as u64;
        if index >= 1 && ((index - 1) as u64) < len {
            let position = (index - 1) as usize;
            out.push(captures[position].id.clone());
            proof {
                assert(cv[position as int] == captures@[position as int]@);
                assert(strings_view(out@) =~= strings_view(before).push(cv[index - 1].id));
            }
        }
        i = i + 1;
    }
    assert(indices@.take(indices@.len() as int) =~= indices@);
    out
}

/// The draft the model returned, with every step's capture numbers
/// resolved to the ids of the request's captures; numbers out of range
/// are dropped.
pub fn finalize_draft(raw: RawProcessDraft, request: &ProcessDraftRequest) -> (r: ProcessDraft)
    ensures
        r@ == finalized(raw, request@.captures),
{
    let ghost raw_view = raw;
    let RawProcessDraft { summary, steps } = raw;
    let mut out: Vec<ProcessDraftStep> = Vec::new();
    let mut i: usize = 0;
    while i < steps.len()
        invariant
            i <= steps@.len(),
            out@.len() == i,
            forall|j: int|
                0 <= j < i ==> (#[trigger] out@[j])@ == finalized_step(steps@[j], request@.captures),
        decreases steps@.len() - i,
    {
        let step = &steps[i];
        out.push(
            ProcessDraftStep {
                title: step.title.clone(),
                description: step.description.clone(),
                capture_ids: resolve_indices(&step.capture_indices, &request.captures),
            },
        );
        i = i + 1;
    }
    let r = ProcessDraft { summary, steps: out };
    proof {
        assert(r@.steps =~= raw_view.steps@.map_values(
            |s: RawProcessDraftStep| finalized_step(s, request@.captures),
        ));
    }
    r
}

/// The message when a reply holds no usable result.
pub open spec fn no_result_message() -> Seq<char> {
    "OpenAI did not return a usable result."@
}

/// The draft text of a successful reply, given the text content of each
/// of its choices in order: the first choice's text; an AI error when
/// there is no choice or the first has no text.
pub fn reply_content(choices: Vec<Option<String>>) -> (r: Result<String, AppError>)
    ensures
        if choices@.len() > 0 && choices@[0] is Some {
            r matches Ok(t) && t@ == choices@[0]->0@
        } else {
            r matches Err(AppError::Ai(m)) && m@ == no_result_message()
        },
{
    let mut choices = choices;
    if choices.len() > 0 {
        let first = choices.swap_remove(0);
        if let Some(text) = first {
            return Ok(text);
        }
    }
    Err(AppError::Ai(String::from_str("OpenAI did not return a usable result.")))
}

/// The `error.code` string of an OpenAI error reply, when `body` is JSON
/// holding one: what `serde_json` reads from it.
pub uninterp spec fn json_error_code(body: Seq<char>) -> Option<Seq<char>>;

/// The reason phrase the HTTP standard gives status `code`, when it
/// gives one: what `http::StatusCode::canonical_reason` returns.
pub uninterp spec fn canonical_reason(code: u16) -> Option<Seq<char>>;

/// The view of an optional text.
pub open spec fn opt_text(o: Option<String>) -> Option<Seq<char>> {
    match o {
        Some(s) => Some(s@),
        None => None,
    }
}

/// The `error.code` of an OpenAI error reply (`serde_json::from_str`,
/// then the `error` object's `code` string). The contract names the
/// result: it depends on `body_text` alone.
#[verifier::external_body]
fn openai_error_code(body_text: &str) -> (r: Option<String>)
    ensures
        opt_text(r) == json_error_code(body_text@),
{
    let value: serde_json::Value = match serde_json::from_str(body_text) {
        Ok(v) => v,
        Err(_) => return None,
    };
    match value.get("error").and_then(|e| e.get("code")).and_then(|c| c.as_str()) {
        Some(code) => Some(code.to_string()),
        None => None,
    }
}

/// The reason phrase of HTTP status `code`
/// (`reqwest::StatusCode::from_u16`, then `canonical_reason`); `None` for
/// a code the standard gives none, or outside 100 to 999. The contract
/// names the result: it depends on `code` alone.
#[verifier::external_body]
fn status_reason(code: u16) -> (r: Option<String>)
    ensures
        opt_text(r) == canonical_reason(code),
{
    match reqwest::StatusCode::from_u16(code) {
        Ok(status) => match status.canonical_reason() {
            Some(reason) => Some(reason.to_string()),
            None => None,
        },
        Err(_) => None,
    }
}

/// How an HTTP status is shown: its code and reason phrase
/// (`StatusCode`'s `Display`).
pub open spec fn status_display(code: u16, reason: Option<Seq<char>>) -> Seq<char> {
    decimal(code as nat) + " "@ + match reason {
        Some(r) => r,
        None => "<unknown status code>"@,
    }
}

/// The message of a rejected key.
pub open spec fn rejected_key_message() -> Seq<char> {
    "OpenAI rejected the saved API key."@
}

/// The message of an account without quota.
pub open spec fn no_quota_message() -> Seq<char> {
    "This OpenAI account has no available quota. Check billing at platform.openai.com."@
}

/// The message of a rate-limited request.
pub open spec fn rate_limited_message() -> Seq<char> {
    "OpenAI rate-limited this request. Try again in a moment."@
}

/// The message of any other failure, showing the status.
pub open spec fn unexpected_message(shown_status: Seq<char>) -> Seq<char> {
    "OpenAI returned an unexpected response (status "@ + shown_status + ")."@
}

/// What an error reply with HTTP status `status`, error code `code` and
/// status shown as `shown_status` means for the user: a rejected key
/// (401), an account without quota, a rate limit (429), in that order,
/// else an unexpected response.
pub open spec fn openai_error_meaning(
    e: AppError,
    status: u16,
    code: Option<Seq<char>>,
    shown_status: Seq<char>,
) -> bool {
    if status == 401 {
        is_validation(e, rejected_key_message())
    } else if code == Some("insufficient_quota"@) {
        is_validation(e, no_quota_message())
    } else if status == 429 {
        e matches AppError::Network(m) && m@ == rate_limited_message()
    } else {
        e matches AppError::Network(m) && m@ == unexpected_message(shown_status)
    }
}

/// What an error reply means, given its status, its error code, and how
/// its status is shown.
pub fn openai_error_for(status: u16, code: Option<&str>, shown_status: &str) -> (e: AppError)
    ensures
        openai_error_meaning(
            e,
            status,
            match code {
                Some(c) => Some(c@),
                None => None,
            },
            shown_status@,
        ),
{
    if status == 401 {
        return AppError::validation("OpenAI rejected the saved API key.");
    }
    let quota = String::from_str("insufficient_quota");
    let is_quota = match code {
        Some(c) => String::from_str(c) == quota,
        None => false,
    };
    if is_quota {
        return AppError::validation(
            "This OpenAI account has no available quota. Check billing at platform.openai.com.",
        );
    }
    if status == 429 {
        return AppError::Network(
            String::from_str("OpenAI rate-limited this request. Try again in a moment."),
        );
    }
    let mut message = String::from_str("OpenAI returned an unexpected response (status ");
    message.append(shown_status);
    message.append(").");
    AppError::Network(message)
}

/// How HTTP status `code` is shown: `"<code> <reason>"`.
pub fn show_status(code: u16) -> (r: String)
    ensures
        r@ == status_display(code, canonical_reason(code)),
{
    let mut shown = decimal_string(code as u64);
    shown.append(" ");
    match status_reason(code) {
        Some(reason) => shown.append(reason.as_str()),
        None => shown.append("<unknown status code>"),
    }
    shown
}

/// What an OpenAI error reply with HTTP `status` and body `body_text`
/// means for the user.
pub fn describe_openai_error(status: u16, body_text: &str) -> (e: AppError)
    ensures
        openai_error_meaning(
            e,
            status,
            json_error_code(body_text@),
            status_display(status, canonical_reason(status)),
        ),
{
    let code = openai_error_code(body_text);
    let shown = show_status(status);
    match code {
        Some(c) => openai_error_for(status, Some(c.as_str()), shown.as_str()),
        None => openai_error_for(status, None, shown.as_str()),
    }
}

/// Whether HTTP status `code` reports success (200 to 299).
pub fn is_success(code: u16) -> (r: bool)
    ensures
        r == (200 <= code < 300),
{
    200 <= code && code < 300
}

/// The standard Base64 text of `bytes`, with padding: what
/// `base64::engine::general_purpose::STANDARD.encode` returns.
pub uninterp spec fn base64_standard(bytes: Seq<u8>) -> Seq<char>;

/// The standard Base64 text of `bytes`, with padding
/// (`base64::engine::general_purpose::STANDARD.encode`). The contract
/// names the result: it depends on `bytes` alone.
#[verifier::external_body]
fn base64_encode(bytes: &[u8]) -> (r: String)
    ensures
        r@ == base64_standard(bytes@),
{
    base64::engine::general_purpose::STANDARD.encode(bytes)
}

/// One part of a message: text, or an image given by its URL.
pub enum MessageContent {
    Text(String),
    ImageUrl(String),
}

pub enum ContentView {
    Text(Seq<char>),
    ImageUrl(Seq<char>),
}

impl View for MessageContent {
    type V = ContentView;

    open spec fn view(&self) -> ContentView {
        match self {
            MessageContent::Text(t) => ContentView::Text(t@),
            MessageContent::ImageUrl(u) => ContentView::ImageUrl(u@),
        }
    }
}

/// The views of a list of contents.
pub open spec fn contents_view(v: Seq<MessageContent>) -> Seq<ContentView> {
    v.map_values(|c: MessageContent| c@)
}

/// A message of the conversation: who says it, and what.
pub struct ChatMessage {
    pub role: String,
    pub content: Vec<MessageContent>,
}

/// The shape of a JSON value the model must produce.
pub enum SchemaNode {
    Str,
    Integer,
    Array(Box<SchemaNode>),
    Object { properties: Vec<(String, SchemaNode)>, required: Vec<String>, additional_properties: bool },
}

/// How the reply must be formatted: JSON following a named schema.
pub struct ResponseFormat {
    pub format_type: String,
    pub name: String,
    pub strict: bool,
    pub schema: SchemaNode,
}

/// A chat-completions request.
pub struct ChatCompletionsRequest {
    pub model: String,
    pub messages: Vec<ChatMessage>,
    pub response_format: ResponseFormat,
}

/// `text`, or `(none)` when it is empty.
pub open spec fn or_none(text: Seq<char>) -> Seq<char> {
    if text.len() == 0 {
        "(none)"@
    } else {
        text
    }
}

/// The text that opens the user's message.
pub open spec fn request_header(name: Seq<char>, description: Seq<char>) -> Seq<char> {
    "Process name: "@ + name + "\nProcess description: "@ + or_none(description)
        + "\n\nCaptures, in the order they happened:"@
}

/// The line describing capture number `number`.
pub open spec fn capture_line(number: nat, c: CaptureForAiView) -> Seq<char> {
    "Capture "@ + decimal(number) + ": type="@ + c.capture_type + ", title=\""@ + c.title
        + "\", description=\""@ + or_none(c.description) + "\""@
}

/// The parts describing capture number `number`: its line, then its
/// screenshot as a PNG data URL when it has one.
pub open spec fn capture_parts(number: nat, c: CaptureForAiView) -> Seq<ContentView> {
    seq![ContentView::Text(capture_line(number, c))] + match c.screenshot_png {
        Some(b) => seq![ContentView::ImageUrl("data:image/png;base64,"@ + base64_standard(b))],
        None => Seq::empty(),
    }
}

/// The parts describing `captures`, numbered from 1.
pub open spec fn captures_parts(captures: Seq<CaptureForAiView>) -> Seq<ContentView>
    decreases captures.len(),
{
    if captures.len() == 0 {
        Seq::empty()
    } else {
        captures_parts(captures.drop_last()) + capture_parts(captures.len(), captures.last())
    }
}

/// The user's message for `request`: the header, then each capture.
pub open spec fn user_parts(request: crate::ai::ProcessDraftRequestView) -> Seq<ContentView> {
    seq![ContentView::Text(request_header(request.process_name, request.process_description))]
        + captures_parts(request.captures)
}

/// The user's message opens with a text naming the process and then
/// giving its description verbatim (`(none)` when it is empty): right
/// after `Process description: `, the request's own description follows.
pub proof fn lemma_header_carries_the_description(request: crate::ai::ProcessDraftRequestView)
    ensures
        user_parts(request).len() >= 1,
        user_parts(request)[0] matches ContentView::Text(h) && ({
            let lead = "Process name: "@ + request.process_name + "\nProcess description: "@;
            let d = request.process_description;
            &&& h.take(lead.len() as int) == lead
            &&& d.len() > 0 ==> h.len() >= lead.len() + d.len() && h.subrange(
                lead.len() as int,
                lead.len() + d.len() as int,
            ) == d
            &&& d.len() == 0 ==> h.len() >= lead.len() + 6 && h.subrange(
                lead.len() as int,
                lead.len() + 6int,
            ) == "(none)"@
        }),
{
    let lead = "Process name: "@ + request.process_name + "\nProcess description: "@;
    let tail = "\n\nCaptures, in the order they happened:"@;
    let d = request.process_description;
    let h = request_header(request.process_name, d);
    assert(user_parts(request)[0] == ContentView::Text(h));
    if d.len() > 0 {
        assert(h =~= lead + d + tail);
        assert(h.take(lead.len() as int) =~= lead);
        assert(h.subrange(lead.len() as int, lead.len() + d.len() as int) =~= d);
    } else {
        reveal_strlit("(none)");
        assert(h =~= lead + "(none)"@ + tail);
        assert(h.take(lead.len() as int) =~= lead);
        assert(h.subrange(lead.len() as int, lead.len() + 6int) =~= "(none)"@);
    }
}

/// Appends the parts describing capture number `number`.
fn push_capture_parts(out: &mut Vec<MessageContent>, number: usize, c: &CaptureForAi)
    ensures
        contents_view(final(out)@) == contents_view(old(out)@) + capture_parts(number as nat, c@),
{
    let ghost start = contents_view(old(out)@);
    let mut line = String::from_str("Capture ");
    line.append(decimal_string(number as u64).as_str());
    line.append(": type=");
    line.append(c.capture_type.as_str());
    line.append(", title=\"");
    line.append(c.title.as_str());
    line.append("\", description=\"");
    if c.description.unicode_len() == 0 {
        line.append("(none)");
    } else {
        line.append(c.description.as_str());
    }
    line.append("\"");
    out.push(MessageContent::Text(line));
    match &c.screenshot_png {
        Some(png) => {
            let mut url = String::from_str("data:image/png;base64,");
            url.append(base64_encode(png.as_slice()).as_str());
            out.push(MessageContent::ImageUrl(url));
        },
        None => {},
    }
    assert(contents_view(out@) =~= start + capture_parts(number as nat, c@));
}

/// The user's message describing `request`.
fn user_content(request: &ProcessDraftRequest) -> (r: Vec<MessageContent>)
    ensures
        contents_view(r@) == user_parts(request@),
{
    let mut header = String::from_str("Process name: ");
    header.append(request.process_name.as_str());
    header.append("\nProcess description: ");
    if request.process_description.unicode_len() == 0 {
        header.append("(none)");
    } else {
        header.append(request.process_description.as_str());
    }
    header.append("\n\nCaptures, in the order they happened:");
    let mut out: Vec<MessageContent> = Vec::new();
    out.push(MessageContent::Text(header));
    let ghost head = contents_view(out@);
    let ghost cv = request@.captures;
    let mut i: usize = 0;
    while i < request.captures.len()
        invariant
            i <= request.captures@.len(),
            cv == request@.captures,
            contents_view(out@) == head + captures_parts(cv.take(i as int)),
        decreases request.captures@.len() - i,
    {
        push_capture_parts(&mut out, i + 1, &request.captures[i]);
        proof {
            assert(cv.take(i + 1).drop_last() =~= cv.take(i as int));
            assert(cv.take(i + 1).last() == request.captures@[i as int]@);
            assert(cv.take(i + 1).len() == i + 1);
            assert(contents_view(out@) =~= head + captures_parts(cv.take(i + 1)));
        }
        i = i + 1;
    }
    assert(cv.take(cv.len() as int) =~= cv);
    assert(contents_view(out@) =~= user_parts(request@));
    out
}

/// The names of a schema object's properties, in order.
pub open spec fn property_names(properties: Seq<(String, SchemaNode)>) -> Seq<Seq<char>> {
    properties.map_values(|p: (String, SchemaNode)| p.0@)
}

/// The schema of one step: a title and a description, both strings, and
/// the capture numbers, integers; all required, nothing else allowed.
pub open spec fn is_step_schema(n: SchemaNode) -> bool {
    &&& n matches SchemaNode::Object { properties, required, additional_properties }
    &&& property_names(properties@) == seq!["title"@, "description"@, "capture_indices"@]
    &&& properties@[0].1 is Str
    &&& properties@[1].1 is Str
    &&& properties@[2].1 matches SchemaNode::Array(item)
    &&& *item is Integer
    &&& strings_view(required@) == seq!["title"@, "description"@, "capture_indices"@]
    &&& !additional_properties
}

/// The schema of a draft: a summary string and a list of steps; both
/// required, nothing else allowed.
pub open spec fn is_draft_schema(n: SchemaNode) -> bool {
    &&& n matches SchemaNode::Object { properties, required, additional_properties }
    &&& property_names(properties@) == seq!["summary"@, "steps"@]
    &&& properties@[0].1 is Str
    &&& properties@[1].1 matches SchemaNode::Array(item)
    &&& is_step_schema(*item)
    &&& strings_view(required@) == seq!["summary"@, "steps"@]
    &&& !additional_properties
}

/// An object schema that strict structured output accepts: every
/// property required, and no other property allowed.
pub open spec fn strict_object(n: SchemaNode) -> bool {
    &&& n matches SchemaNode::Object { properties, required, additional_properties }
    &&& !additional_properties
    &&& forall|i: int|
        0 <= i < properties@.len() ==> strings_view(required@).contains(
            #[trigger] property_names(properties@)[i],
        )
}

/// The draft schema is fit for strict structured output: the draft
/// object and the step object each require every property they have
/// and allow no other.
pub proof fn lemma_draft_schema_is_strict(n: SchemaNode)
    requires
        is_draft_schema(n),
    ensures
        strict_object(n),
        n matches SchemaNode::Object { properties, .. } ==> (properties@[1].1 matches SchemaNode::Array(
            item,
        ) && strict_object(*item)),
{
    if let SchemaNode::Object { properties, required, additional_properties } = n {
        let rv = strings_view(required@);
        assert forall|i: int| 0 <= i < properties@.len() implies rv.contains(
            #[trigger] property_names(properties@)[i],
        ) by {
            assert(rv[i] == property_names(properties@)[i]);
        }
        if let SchemaNode::Array(item) = properties@[1].1 {
            if let SchemaNode::Object { properties: sp, required: sr, additional_properties: sa } = *item {
                let srv = strings_view(sr@);
                assert forall|i: int| 0 <= i < sp@.len() implies srv.contains(
                    #[trigger] property_names(sp@)[i],
                ) by {
                    assert(srv[i] == property_names(sp@)[i]);
                }
            }
        }
    }
}

/// The JSON schema a draft must follow: a summary string and a list of
/// steps, each with a title, a description and the numbers of the
/// captures it is based on; every property required, nothing else
/// allowed.
pub fn process_draft_json_schema() -> (r: SchemaNode)
    ensures
        is_draft_schema(r),
{
    let step = SchemaNode::Object {
        properties: vec![
            (String::from_str("title"), SchemaNode::Str),
            (String::from_str("description"), SchemaNode::Str),
            (String::from_str("capture_indices"), SchemaNode::Array(Box::new(SchemaNode::Integer))),
        ],
        required: vec![
            String::from_str("title"),
            String::from_str("description"),
            String::from_str("capture_indices"),
        ],
        additional_properties: false,
    };
    assert(property_names(step->properties@) =~= seq!["title"@, "description"@, "capture_indices"@]);
    assert(strings_view(step->required@) =~= seq!["title"@, "description"@, "capture_indices"@]);
    let r = SchemaNode::Object {
        properties: vec![
            (String::from_str("summary"), SchemaNode::Str),
            (String::from_str("steps"), SchemaNode::Array(Box::new(step))),
        ],
        required: vec![String::from_str("summary"), String::from_str("steps")],
        additional_properties: false,
    };
    assert(property_names(r->properties@) =~= seq!["summary"@, "steps"@]);
    assert(strings_view(r->required@) =~= seq!["summary"@, "steps"@]);
    r
}

/// The request for a draft of `request`: the model, the instructions,
/// the user's message describing the process and its captures, and the
/// schema the reply must follow.
pub fn build_request(request: &ProcessDraftRequest) -> (r: ChatCompletionsRequest)
    ensures
        r.model@ == MODEL@,
        r.messages@.len() == 2,
        r.messages@[0].role@ == "system"@,
        contents_view(r.messages@[0].content@) == seq![ContentView::Text(SYSTEM_PROMPT@)],
        r.messages@[1].role@ == "user"@,
        contents_view(r.messages@[1].content@) == user_parts(request@),
        r.response_format.format_type@ == "json_schema"@,
        r.response_format.name@ == "process_draft"@,
        r.response_format.strict,
        is_draft_schema(r.response_format.schema),
{
    let system = ChatMessage {
        role: String::from_str("system"),
        content: vec![MessageContent::Text(String::from_str(SYSTEM_PROMPT))],
    };
    assert(contents_view(system.content@) =~= seq![ContentView::Text(SYSTEM_PROMPT@)]);
    let user = ChatMessage { role: String::from_str("user"), content: user_content(request) };
    ChatCompletionsRequest {
        model: String::from_str(MODEL),
        messages: vec![system, user],
        response_format: ResponseFormat {
            format_type: String::from_str("json_schema"),
            name: String::from_str("process_draft"),
            strict: true,
            schema: process_draft_json_schema(),
        },
    }
}

} // verus!
