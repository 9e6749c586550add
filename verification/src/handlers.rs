//! The decisions of the request handlers: validation, path and command
//! construction, response shaping, and the preparation of outbound requests.
//! The handlers themselves only move bytes and await; every choice they make
//! is a function here.

use vstd::prelude::*;

use crate::classify::Outcome;
use crate::constant::ApiResponse;
use crate::model::{ParamData, SqlParam};
use crate::numeric::{parse_i64, spec_parse_i64};
use crate::rows::{FieldData, Record};
use crate::status_code::AppStatusCode;
use crate::text::{has_visible_char, spec_has_visible, spec_strip_trailing, str_eq, strip_trailing};

verus! {

/// What the identifier in a completion request turned out to be.
pub enum IdCheck {
    Missing,
    Invalid,
    Valid(i64),
}

/// What checking the identifier must yield: missing without a value, invalid
/// where the text does not parse to a non-zero integer (an unparsable text
/// counts as zero), and otherwise the value.
pub open spec fn spec_check_id(id: Option<String>) -> IdCheck {
    match id {
        None => IdCheck::Missing,
        Some(s) => {
            let v = match spec_parse_i64(s@) {
                Some(v) => v,
                None => 0,
            };
            if v == 0 {
                IdCheck::Invalid
            } else {
                IdCheck::Valid(v)
            }
        },
    }
}

/// Checks the identifier of a completion request.
pub fn validate_daily_run_atm_id(id: &Option<String>) -> (r: IdCheck)
    ensures
        r == spec_check_id(*id),
{
    match id {
        None => IdCheck::Missing,
        Some(s) => {
            let v = match parse_i64(s.as_str()) {
                Some(v) => v,
                None => 0,
            };
            if v == 0 {
                IdCheck::Invalid
            } else {
                IdCheck::Valid(v)
            }
        },
    }
}

impl IdCheck {
    /// The message a rejected identifier earns.
    pub fn message(&self) -> (r: &'static str)
        ensures
            *self is Missing ==> r@ == "Missing Daily Run Atm Id"@,
            *self is Invalid ==> r@ == "invalid daily run atm id"@,
    {
        match self {
            IdCheck::Missing => "Missing Daily Run Atm Id",
            IdCheck::Invalid => "invalid daily run atm id",
            IdCheck::Valid(_) => "",
        }
    }
}

/// The merged video's file name: the identifier with the container suffix.
pub fn chunk_video_file_name(id: &str) -> (r: String)
    ensures
        r@ == id@ + ".mp4"@,
{
    let mut out = id.to_owned();
    out.append(".mp4");
    out
}

/// The directory the chunks of one run are read from.
pub fn chunk_dir_path(id: &str) -> (r: String)
    ensures
        r@ == "/"@ + id@,
{
    let mut out = String::new();
    out.append("/");
    out.append(id);
    out
}

/// The path the merged video is written to.
pub fn merged_video_path(id: &str) -> (r: String)
    ensures
        r@ == "/"@ + id@ + ".mp4"@,
{
    let mut out = String::new();
    out.append("/");
    out.append(id);
    out.append(".mp4");
    out
}

/// The parameters of the completion procedure, in binding order: the run
/// identifier, the file name, the file path, and the URL.
pub fn complete_chunk_video_params(
    atm_id: i64,
    file_name: String,
    file_path: String,
    url: String,
) -> (r: Vec<(&'static str, SqlParam)>)
    ensures
        r@.len() == 4,
        r@[0].0@ == "dailyRunAtmId"@ && r@[0].1@ == ParamData::Int(atm_id),
        r@[1].0@ == "fileName"@ && r@[1].1@ == ParamData::Text(file_name@),
        r@[2].0@ == "filePath"@ && r@[2].1@ == ParamData::Text(file_path@),
        r@[3].0@ == "url"@ && r@[3].1@ == ParamData::Text(url@),
{
    let mut v: Vec<(&'static str, SqlParam)> = Vec::new();
    v.push(("dailyRunAtmId", SqlParam::I64(atm_id)));
    v.push(("fileName", SqlParam::String(file_name)));
    v.push(("filePath", SqlParam::String(file_path)));
    v.push(("url", SqlParam::String(url)));
    v
}

/// What the completion handler answers for each engine result: the HTTP
/// status it pairs with the envelope.
pub fn mark_complete_response(res: Result<Outcome, String>) -> (r: (u16, ApiResponse<Record>))
    ensures
        match res {
            Ok(o) => {
                let rec = match o@.data {
                    Some(d) => d,
                    None => Map::<Seq<char>, FieldData>::empty(),
                };
                &&& r.1.message@ == o@.message
                &&& r.1.status == o@.success
                &&& (match r.1.result {
                    Some(d) => d@ == rec,
                    None => false,
                })
                &&& (o@.success ==> r.0 == 200 && r.1.status_code == AppStatusCode::Success)
                &&& (!o@.success ==> r.0 == 400 && r.1.status_code
                    == AppStatusCode::SpExecutionFailed)
            },
            Err(e) => {
                &&& r.0 == 500
                &&& r.1.status == false
                &&& r.1.message@ == e@
                &&& r.1.result is None
                &&& r.1.status_code == AppStatusCode::SpKnownFailed
            },
        },
{
    match res {
        Ok(o) => {
            let data = match o.data {
                Some(d) => d,
                None => Record::new(),
            };
            if o.success {
                (200, ApiResponse::success(data, o.message.as_str()))
            } else {
                (400, ApiResponse::error(o.message, AppStatusCode::SpExecutionFailed, Some(data)))
            }
        },
        Err(e) => (500, ApiResponse::error(e, AppStatusCode::SpKnownFailed, None)),
    }
}

/// What the result of encoding bytes in the standard base64 alphabet is; a
/// function of the bytes alone.
pub uninterp spec fn base64_of(bytes: Seq<u8>) -> Seq<char>;

/// Relies on base64's `STANDARD` engine `encode`: the padded encoding, four
/// characters for every started block of three bytes.
#[verifier::external_body]
fn encode_base64(data: &Vec<u8>) -> (r: String)
    ensures
        r@ == base64_of(data@),
        r@.len() == 4 * ((data@.len() + 2) / 3),
{
    base64::Engine::encode(&base64::engine::general_purpose::STANDARD, data)
}

/// An OCR generation request, ready to hand to the model runner.
pub struct OcrRequest {
    pub model: String,
    pub prompt: String,
    pub image_b64: String,
}

/// Which parameter of an OCR request was rejected.
#[derive(Debug)]
pub enum OcrParamError {
    CounterName,
    ModelName,
}

impl OcrParamError {
    /// The message a rejected parameter earns.
    pub fn message(&self) -> (r: &'static str)
        ensures
            *self is CounterName ==> r@ == "Invalid or missing counter_name"@,
            *self is ModelName ==> r@ == "Invalid or missing model_name"@,
    {
        match self {
            OcrParamError::CounterName => "Invalid or missing counter_name",
            OcrParamError::ModelName => "Invalid or missing model_name",
        }
    }
}

/// Whether the counter name is acceptable: present and exactly `ATM`.
pub open spec fn spec_counter_ok(c: Option<String>) -> bool {
    match c {
        Some(s) => s@ == "ATM"@,
        None => false,
    }
}

/// Whether the model name is acceptable: present and not blank.
pub open spec fn spec_model_ok(m: Option<String>) -> bool {
    match m {
        Some(s) => spec_has_visible(s@),
        None => false,
    }
}

/// Validates the OCR parameters and builds the generation request: the fixed
/// prompt, the requested model, and the image encoded for the vision API.
/// The counter name is checked first, so a request failing both checks is
/// reported for its counter name.
pub fn prepare_ocr_request(
    counter_name: &Option<String>,
    model_name: &Option<String>,
    body: &Vec<u8>,
) -> (r: Result<OcrRequest, OcrParamError>)
    ensures
        !spec_counter_ok(*counter_name) ==> r == Result::<OcrRequest, OcrParamError>::Err(
            OcrParamError::CounterName,
        ),
        spec_counter_ok(*counter_name) && !spec_model_ok(*model_name) ==> r == Result::<
            OcrRequest,
            OcrParamError,
        >::Err(OcrParamError::ModelName),
        spec_counter_ok(*counter_name) && spec_model_ok(*model_name) ==> (match r {
            Ok(req) => {
                &&& req.model@ == model_name->Some_0@
                &&& req.prompt@ == "extract image text and convert into json."@
                &&& req.image_b64@ == base64_of(body@)
            },
            Err(_) => false,
        }),
{
    let counter_ok = match counter_name {
        Some(c) => str_eq(c.as_str(), "ATM"),
        None => false,
    };
    if !counter_ok {
        return Err(OcrParamError::CounterName);
    }
    let model = match model_name {
        Some(m) => {
            if has_visible_char(m.as_str()) {
                m.clone()
            } else {
                return Err(OcrParamError::ModelName);
            }
        },
        None => {
            return Err(OcrParamError::ModelName);
        },
    };
    Ok(
        OcrRequest {
            model,
            prompt: "extract image text and convert into json.".to_owned(),
            image_b64: encode_base64(body),
        },
    )
}

/// The image-analysis read endpoint under a vision service root.
pub fn azure_vision_url(endpoint: &str) -> (r: String)
    ensures
        r@ == endpoint@
            + "/computervision/imageanalysis:analyze?api-version=2024-02-01&features=read"@,
{
    let mut out = endpoint.to_owned();
    out.append("/computervision/imageanalysis:analyze?api-version=2024-02-01&features=read");
    out
}

/// The receipt-analysis endpoint under a document service root, trailing
/// slashes of the root stripped first.
pub fn azure_document_url(endpoint: &str) -> (r: String)
    ensures
        r@ == spec_strip_trailing(endpoint@, '/')
            + "/documentintelligence/documentModels/prebuilt-receipt:analyze?api-version=2024-11-30"@,
{
    let mut out = strip_trailing(endpoint, '/');
    out.append(
        "/documentintelligence/documentModels/prebuilt-receipt:analyze?api-version=2024-11-30",
    );
    out
}

/// The token endpoint of a directory tenant.
pub fn token_url(tenant_id: &str) -> (r: String)
    ensures
        r@ == "https://login.microsoftonline.com/"@ + tenant_id@ + "/oauth2/v2.0/token"@,
{
    let mut out = String::new();
    out.append("https://login.microsoftonline.com/");
    out.append(tenant_id);
    out.append("/oauth2/v2.0/token");
    out
}

/// The authorization header value for a bearer token.
pub fn bearer_header(token: &str) -> (r: String)
    ensures
        r@ == "Bearer "@ + token@,
{
    let mut out = String::new();
    out.append("Bearer ");
    out.append(token);
    out
}

/// The prompt asking the assistant to read an uploaded image.
pub fn copilot_prompt(web_url: &str) -> (r: String)
    ensures
        r@ == "Using the image at "@ + web_url@
            + ", extract text from image and convert into json format."@,
{
    let mut out = String::new();
    out.append("Using the image at ");
    out.append(web_url);
    out.append(", extract text from image and convert into json format.");
    out
}

/// What a polling loop does next for an analysis status.
pub enum PollAction {
    Finish,
    Fail,
    Wait,
}

/// The action each status text calls for: `succeeded` ends the poll, `failed`
/// aborts it, anything else waits and asks again.
pub open spec fn spec_poll_action(s: Seq<char>) -> PollAction {
    if s == "succeeded"@ {
        PollAction::Finish
    } else if s == "failed"@ {
        PollAction::Fail
    } else {
        PollAction::Wait
    }
}

/// Decides what a polling loop does next.
pub fn classify_poll_status(status: &str) -> (r: PollAction)
    ensures
        r == spec_poll_action(status@),
{
    if str_eq(status, "succeeded") {
        PollAction::Finish
    } else if str_eq(status, "failed") {
        PollAction::Fail
    } else {
        PollAction::Wait
    }
}

} // verus!
