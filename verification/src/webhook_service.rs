use crate::path::opt_text;
use vstd::prelude::*;
use vstd::string::*;
use vstd::utf8::{decode_utf8, encode_utf8, valid_utf8};

verus! {

/// What the automation webhook is told of one file.
pub struct FileInfo {
    pub name: String,
    pub path: String,
    pub message_id: i32,
    pub mime_type: Option<String>,
    pub size: Option<u64>,
}

pub struct FileInfoView {
    pub name: Seq<char>,
    pub path: Seq<char>,
    pub message_id: i32,
    pub mime_type: Option<Seq<char>>,
    pub size: Option<u64>,
}

impl View for FileInfo {
    type V = FileInfoView;

    open spec fn view(&self) -> FileInfoView {
        FileInfoView {
            name: self.name@,
            path: self.path@,
            message_id: self.message_id,
            mime_type: opt_text(self.mime_type),
            size: self.size,
        }
    }
}

pub open spec fn file_infos_view(v: Seq<FileInfo>) -> Seq<FileInfoView> {
    v.map_values(|f: FileInfo| f@)
}

/// The message that the plain webhook is sent.
pub struct WebhookPayload {
    pub canister_id: String,
    pub message: String,
    pub timestamp: u64,
}

/// What the automation webhook is sent for one path of a chat.
pub struct FileAutomationPayload {
    pub canister_id: String,
    pub chat_id: u64,
    pub message_id: Option<i32>,
    pub current_path: String,
    pub file_info: Option<FileInfo>,
    pub timestamp: u64,
}


/// A header of an HTTP request or response.
pub struct HeaderField {
    pub name: String,
    pub value: String,
}

pub struct HeaderView {
    pub name: Seq<char>,
    pub value: Seq<char>,
}

impl View for HeaderField {
    type V = HeaderView;

    open spec fn view(&self) -> HeaderView {
        HeaderView { name: self.name@, value: self.value@ }
    }
}

pub open spec fn headers_view(h: Seq<HeaderField>) -> Seq<HeaderView> {
    h.map_values(|x: HeaderField| x@)
}

fn header(name: &str, value: &str) -> (r: HeaderField)
    ensures
        r@ == (HeaderView { name: name@, value: value@ }),
{
    HeaderField { name: String::from_str(name), value: String::from_str(value) }
}

/// An HTTP response as the webhook calls see it; the status is carried as it came.
pub struct HttpReply<S> {
    pub status: S,
    pub body: Vec<u8>,
    pub headers: Vec<HeaderField>,
}

/// The headers that every webhook response is given.
pub open spec fn response_headers() -> Seq<HeaderView> {
    seq![
        HeaderView { name: "Content-Security-Policy"@, value: "default-src 'self'"@ },
        HeaderView { name: "X-Content-Type-Options"@, value: "nosniff"@ },
    ]
}

/// A webhook response with its headers replaced by the fixed security headers.
pub fn transform_response<S>(response: HttpReply<S>) -> (r: HttpReply<S>)
    ensures
        r.status == response.status,
        r.body@ == response.body@,
        headers_view(r.headers@) == response_headers(),
{
    let mut headers: Vec<HeaderField> = Vec::new();
    headers.push(header("Content-Security-Policy", "default-src 'self'"));
    headers.push(header("X-Content-Type-Options", "nosniff"));
    assert(headers_view(headers@) =~= response_headers());
    HttpReply { status: response.status, body: response.body, headers }
}

pub open spec fn webhook_url() -> Seq<char> {
    "https://oversyn.com/webhook-test/6b8bc071-50a4-481a-bce0-2e92bd04b171"@
}

/// The cycles that a webhook call is paid with.
pub const WEBHOOK_CYCLES: u128 = 20_900_000_000;

/// The method of an HTTP request.
#[derive(Clone, Copy, Debug, PartialEq, Eq, Structural)]
pub enum HttpMethod {
    Get,
    Post,
    Head,
}

/// A POST of a JSON payload to the automation webhook.
pub struct WebhookRequest {
    pub url: String,
    pub method: HttpMethod,
    /// The limit on the size of the answer; none leaves the default limit.
    pub max_response_bytes: Option<u64>,
    pub body: Vec<u8>,
    pub headers: Vec<HeaderField>,
    pub cycles: u128,
    pub transform_method: String,
}

pub open spec fn request_headers() -> Seq<HeaderView> {
    seq![
        HeaderView { name: "User-Agent"@, value: "ic_canister_webhook"@ },
        HeaderView { name: "Content-Type"@, value: "application/json"@ },
    ]
}

/// The request that carries `json_payload` to the webhook.
pub fn webhook_request(json_payload: &str) -> (r: WebhookRequest)
    ensures
        r.url@ == webhook_url(),
        r.method == HttpMethod::Post,
        r.max_response_bytes is None,
        r.body@ == encode_utf8(json_payload@),
        headers_view(r.headers@) == request_headers(),
        r.cycles == WEBHOOK_CYCLES,
        r.transform_method@ == "transform"@,
{
    let mut headers: Vec<HeaderField> = Vec::new();
    headers.push(header("User-Agent", "ic_canister_webhook"));
    headers.push(header("Content-Type", "application/json"));
    assert(headers_view(headers@) =~= request_headers());
    WebhookRequest {
        url: String::from_str("https://oversyn.com/webhook-test/6b8bc071-50a4-481a-bce0-2e92bd04b171"),
        method: HttpMethod::Post,
        max_response_bytes: None,
        body: json_payload.as_bytes_vec(),
        headers,
        cycles: WEBHOOK_CYCLES,
        transform_method: String::from_str("transform"),
    }
}

/// `String::from_utf8`: the text that the bytes encode, when they are valid UTF-8.
#[verifier::external_body]
fn string_from_utf8(bytes: Vec<u8>) -> (r: Option<String>)
    ensures
        match r {
            Some(s) => valid_utf8(bytes@) && s@ == decode_utf8(bytes@),
            None => !valid_utf8(bytes@),
        },
{
    String::from_utf8(bytes).ok()
}

/// How the outcome of a webhook call is reported: the body of the answer as
/// text, or the rejection with its code and message.
pub open spec fn webhook_outcome_text(outcome: Result<Seq<u8>, (Seq<char>, Seq<char>)>) -> Seq<char> {
    match outcome {
        Ok(body) => if valid_utf8(body) {
            decode_utf8(body)
        } else {
            "Failed to decode response"@
        },
        Err((code, message)) => "The http_request resulted into error. RejectionCode: "@ + code
            + ", Error: "@ + message,
    }
}

/// The report of a webhook call: the answer's body, or the rejection code
/// (as it is printed) and message.
pub fn describe_webhook_outcome(outcome: Result<Vec<u8>, (String, String)>) -> (r: String)
    ensures
        r@ == webhook_outcome_text(
            match outcome {
                Ok(b) => Ok(b@),
                Err((c, m)) => Err((c@, m@)),
            },
        ),
{
    match outcome {
        Ok(body) => match string_from_utf8(body) {
            Some(s) => s,
            None => String::from_str("Failed to decode response"),
        },
        Err((code, message)) => {
            let mut r = String::from_str("The http_request resulted into error. RejectionCode: ");
            r.append(code.as_str());
            r.append(", Error: ");
            r.append(message.as_str());
            r
        },
    }
}


/// The report of a rejected webhook call holds the word "error".
pub proof fn lemma_rejection_says_error(code: Seq<char>, message: Seq<char>)
    ensures
        crate::messages::text_contains(webhook_outcome_text(Err((code, message))), "error"@),
{
    reveal_strlit("The http_request resulted into error. RejectionCode: ");
    reveal_strlit("error");
    let t = webhook_outcome_text(Err((code, message)));
    assert(t.subrange(31, 36) =~= "error"@);
    assert(crate::messages::occurs_at(t, "error"@, 31));
}

} // verus!
