//! The upload client: one PUT of one object, and the address it is served at.
//!
//! Sending the object is left to the caller. The client decides what is sent
//! and where, and what the storage service's answer means.

use crate::calendar::{month_text, year_text};
use crate::content::{guess_media_type, guessed_media_type};
use crate::error::{ErrorView, PipelineError};
use crate::key::ObjectKey;
use crate::text::{decimal, decimal_string};
use crate::token::is_token;
use vstd::prelude::*;
use vstd::string::StringExecFns;

verus! {

/// An image to upload: its bytes and the extension of its file name.
#[derive(Clone, Debug, PartialEq, Eq)]
pub struct UploadRequest {
    pub bytes: Vec<u8>,
    pub extension: String,
}

/// An `UploadRequest` with its contents as sequences.
pub struct UploadRequestView {
    pub bytes: Seq<u8>,
    pub extension: Seq<char>,
}

impl View for UploadRequest {
    type V = UploadRequestView;

    open spec fn view(&self) -> UploadRequestView {
        UploadRequestView { bytes: self.bytes@, extension: self.extension@ }
    }
}

/// One object on its way to the bucket.
#[derive(Clone, Debug, PartialEq, Eq)]
pub struct PutRequest {
    pub key: ObjectKey,
    pub content_type: String,
    pub bytes: Vec<u8>,
}

/// What the storage service answered to a PUT.
#[derive(Clone, Debug, PartialEq, Eq)]
pub struct PutReply {
    pub status: u16,
    pub detail: String,
}

/// Whether a status code reports success.
pub open spec fn is_success(status: u16) -> bool {
    200 <= status <= 299
}

/// The address at which the object stored under `key` is served.
pub open spec fn public_address(base_url: Seq<char>, key: Seq<char>) -> Seq<char> {
    base_url + seq!['/'] + key
}

/// How a refused PUT is described: the status code, then what the service
/// said.
pub open spec fn refusal(status: u16, detail: Seq<char>) -> Seq<char> {
    "status "@ + decimal(status as nat) + ": "@ + detail
}

/// Whether `put` asks to store the image of `request` as a new object: with
/// the image's bytes, the media type of its extension, and a key that ends
/// in that extension and has a token of the usual shape.
pub open spec fn is_request_for(put: PutRequest, request: UploadRequestView) -> bool {
    &&& guessed_media_type(request.extension) == Some(put.content_type@)
    &&& put.bytes@ == request.bytes
    &&& put.key.extension@ == request.extension
    &&& is_token(put.key.token@)
    &&& put.key.date.wf()
}

/// The result of an upload with its texts as sequences of characters.
pub open spec fn answer_view(answer: Result<String, PipelineError>) -> Result<
    Seq<char>,
    ErrorView,
> {
    match answer {
        Ok(url) => Ok(url@),
        Err(error) => Err(error@),
    }
}

/// What an upload under `key` comes to, given how the PUT went.
pub open spec fn concluded(
    base_url: Seq<char>,
    key: Seq<char>,
    outcome: Result<PutReply, String>,
) -> Result<Seq<char>, ErrorView> {
    match outcome {
        Ok(reply) => if is_success(reply.status) {
            Ok(public_address(base_url, key))
        } else {
            Err(ErrorView::StorageError(refusal(reply.status, reply.detail@)))
        },
        Err(cause) => Err(ErrorView::StorageError(cause@)),
    }
}

/// An accepted upload is served under its key: when the service accepts a
/// request made for an extension, the upload comes to the base address
/// followed by the year and the month of the request's key, its token and
/// that extension, as `<base>/<year>/<month>/<token>.<extension>`.
pub proof fn law_accepted_upload_is_served_under_its_key(
    base_url: Seq<char>,
    request: UploadRequestView,
    put: PutRequest,
    outcome: Result<PutReply, String>,
)
    requires
        is_request_for(put, request),
        outcome matches Ok(reply) && is_success(reply.status),
    ensures
        concluded(base_url, put.key@, outcome) == Ok::<Seq<char>, ErrorView>(
            base_url + seq!['/'] + year_text(put.key.date.year() as int) + seq!['/'] + month_text(
                put.key.date.month() as int,
            ) + seq!['/'] + put.key.token@ + seq!['.'] + request.extension,
        ),
{
    let year = year_text(put.key.date.year() as int);
    let month = month_text(put.key.date.month() as int);
    let token = put.key.token@;
    let extension = request.extension;
    assert(base_url + seq!['/'] + (year + seq!['/'] + month + seq!['/'] + token + seq!['.']
        + extension) =~= base_url + seq!['/'] + year + seq!['/'] + month + seq!['/'] + token
        + seq!['.'] + extension);
}

/// The address at which the object stored under `key` is served.
pub fn public_url(base_url: &str, key: &ObjectKey) -> (url: String)
    ensures
        url@ == public_address(base_url@, key@),
{
    let mut url = String::from_str(base_url);
    url.append("/");
    let path = key.path();
    url.append(path.as_str());
    proof {
        reveal_strlit("/");
        assert("/"@ =~= seq!['/']);
    }
    url
}

/// The request that stores `bytes` under `key`, once the media type of the
/// extension has been looked up: without a media type there is nothing to
/// send.
pub fn request_for(media_type: Option<String>, key: ObjectKey, bytes: Vec<u8>) -> (request: Result<
    PutRequest,
    PipelineError,
>)
    ensures
        media_type is None ==> (request matches Err(error) && error@
            == ErrorView::UnknownContentType),
        media_type matches Some(content_type) ==> (request matches Ok(r) && r.key == key
            && r.content_type == content_type && r.bytes == bytes),
{
    match media_type {
        Some(content_type) => Ok(PutRequest { key, content_type, bytes }),
        None => Err(PipelineError::UnknownContentType),
    }
}

/// Plans the upload of an image: looks up the media type of its extension
/// and generates a fresh key. Fails with `UnknownContentType` exactly when
/// no media type is known for the extension.
pub fn prepare(request: UploadRequest) -> (put: Result<PutRequest, PipelineError>)
    ensures
        guessed_media_type(request@.extension) is None ==> (put matches Err(error) && error@
            == ErrorView::UnknownContentType),
        guessed_media_type(request@.extension) is Some ==> (put matches Ok(p) && is_request_for(
            p,
            request@,
        )),
{
    let media_type = guess_media_type(request.extension.as_str());
    let key = ObjectKey::generate(request.extension.as_str());
    request_for(media_type, key, request.bytes)
}

/// What the upload under `key` comes to, given how the PUT went: the public
/// address if the service accepted the object, and a `StorageError` with the
/// cause if it refused or could not be reached.
pub fn conclude(base_url: &str, key: &ObjectKey, outcome: Result<PutReply, String>) -> (answer:
    Result<String, PipelineError>)
    ensures
        answer_view(answer) == concluded(base_url@, key@, outcome),
{
    match outcome {
        Ok(reply) => {
            if 200 <= reply.status && reply.status <= 299 {
                Ok(public_url(base_url, key))
            } else {
                let mut cause = String::from_str("status ");
                let code = decimal_string(reply.status as u64);
                cause.append(code.as_str());
                cause.append(": ");
                cause.append(reply.detail.as_str());
                Err(PipelineError::StorageError(cause))
            }
        },
        Err(cause) => Err(PipelineError::StorageError(cause)),
    }
}

/// Uploads an image and returns the address it is served at. `put` sends
/// one request to the bucket and reports the service's answer, or why the
/// service could not be reached; it is called at most once, and not at all
/// when the extension has no known media type.
pub fn upload<F: FnOnce(&PutRequest) -> Result<PutReply, String>>(
    base_url: &str,
    request: UploadRequest,
    put: F,
) -> (answer: Result<String, PipelineError>)
    requires
        forall|sent: &PutRequest| #[trigger] put.requires((sent,)),
    ensures
        guessed_media_type(request@.extension) is None ==> (answer matches Err(error) && error@
            == ErrorView::UnknownContentType),
        guessed_media_type(request@.extension) is Some ==> exists|
            sent: PutRequest,
            outcome: Result<PutReply, String>,
        |
            (is_request_for(sent, request@) && put.ensures((&sent,), outcome) && answer_view(
                answer,
            ) == concluded(base_url@, sent.key@, outcome)),
{
    match prepare(request) {
        Ok(sent) => {
            let outcome = put(&sent);
            conclude(base_url, &sent.key, outcome)
        },
        Err(error) => Err(error),
    }
}

} // verus!
