use std::cell::Cell;

use rs_uploader::calendar::YearMonth;
use rs_uploader::error::PipelineError;
use rs_uploader::key::ObjectKey;
use rs_uploader::upload::{
    conclude, prepare, public_url, request_for, upload, PutReply, PutRequest, UploadRequest,
};

const BASE_URL: &str = "https://cdn.example.com";

fn fixed_key() -> ObjectKey {
    ObjectKey::new(
        YearMonth::new(2024, 5).unwrap(),
        "k3Vw_9xQ2mLr-7TzYbN4c".to_string(),
        "png".to_string(),
    )
}

fn image(bytes: Vec<u8>, extension: &str) -> UploadRequest {
    UploadRequest { bytes, extension: extension.to_string() }
}

fn accepted() -> Result<PutReply, String> {
    Ok(PutReply { status: 200, detail: String::new() })
}

fn media_type_for(extension: &str) -> Option<String> {
    match prepare(image(Vec::new(), extension)) {
        Ok(request) => Some(request.content_type),
        Err(error) => {
            assert_eq!(error, PipelineError::UnknownContentType);
            None
        }
    }
}

#[test]
fn png_is_sent_as_image_png() {
    assert_eq!(media_type_for("png"), Some("image/png".to_string()));
}

#[test]
fn media_type_is_found_whatever_the_case() {
    assert_eq!(media_type_for("PNG"), Some("image/png".to_string()));
    assert_eq!(media_type_for("Jpg"), Some("image/jpeg".to_string()));
}

#[test]
fn common_image_extensions_are_known() {
    assert_eq!(media_type_for("jpg"), Some("image/jpeg".to_string()));
    assert_eq!(media_type_for("jpeg"), Some("image/jpeg".to_string()));
    assert_eq!(media_type_for("gif"), Some("image/gif".to_string()));
    assert_eq!(media_type_for("svg"), Some("image/svg+xml".to_string()));
}

#[test]
fn unknown_extension_has_no_media_type() {
    assert_eq!(media_type_for("no-such-extension"), None);
    assert_eq!(media_type_for(""), None);
}

#[test]
fn address_is_base_then_key() {
    assert_eq!(
        public_url(BASE_URL, &fixed_key()),
        "https://cdn.example.com/2024/05/k3Vw_9xQ2mLr-7TzYbN4c.png"
    );
    assert_eq!(public_url("", &fixed_key()), "/2024/05/k3Vw_9xQ2mLr-7TzYbN4c.png");
}

#[test]
fn request_needs_a_media_type() {
    assert_eq!(
        request_for(None, fixed_key(), vec![1, 2, 3]),
        Err(PipelineError::UnknownContentType)
    );
    assert_eq!(
        request_for(Some("image/png".to_string()), fixed_key(), vec![1, 2, 3]),
        Ok(PutRequest {
            key: fixed_key(),
            content_type: "image/png".to_string(),
            bytes: vec![1, 2, 3],
        })
    );
}

#[test]
fn prepared_request_carries_bytes_type_and_fresh_key() {
    let request = prepare(image(vec![0x89, 0x50, 0x4e, 0x47], "png")).unwrap();
    assert_eq!(request.bytes, vec![0x89, 0x50, 0x4e, 0x47]);
    assert_eq!(request.content_type, "image/png");
    assert_eq!(request.key.extension, "png");
    assert_eq!(request.key.token.chars().count(), 21);
    assert_eq!(request.key.path(), format!("{}{}.png", request.key.date.prefix(), request.key.token));
}

#[test]
fn prepare_refuses_unknown_extension() {
    assert_eq!(prepare(image(vec![1], "no-such-extension")), Err(PipelineError::UnknownContentType));
    assert_eq!(prepare(image(Vec::new(), "")), Err(PipelineError::UnknownContentType));
}

#[test]
fn accepted_put_gives_the_address() {
    assert_eq!(
        conclude(BASE_URL, &fixed_key(), accepted()),
        Ok("https://cdn.example.com/2024/05/k3Vw_9xQ2mLr-7TzYbN4c.png".to_string())
    );
    let created = Ok(PutReply { status: 201, detail: "ignored".to_string() });
    assert_eq!(
        conclude(BASE_URL, &fixed_key(), created),
        Ok("https://cdn.example.com/2024/05/k3Vw_9xQ2mLr-7TzYbN4c.png".to_string())
    );
    let last = Ok(PutReply { status: 299, detail: String::new() });
    assert!(conclude(BASE_URL, &fixed_key(), last).is_ok());
}

#[test]
fn refused_put_is_a_storage_error() {
    let refused = Ok(PutReply { status: 403, detail: "AccessDenied".to_string() });
    assert_eq!(
        conclude(BASE_URL, &fixed_key(), refused),
        Err(PipelineError::StorageError("status 403: AccessDenied".to_string()))
    );
    let redirected = Ok(PutReply { status: 300, detail: String::new() });
    assert_eq!(
        conclude(BASE_URL, &fixed_key(), redirected),
        Err(PipelineError::StorageError("status 300: ".to_string()))
    );
    let early = Ok(PutReply { status: 199, detail: "x".to_string() });
    assert_eq!(
        conclude(BASE_URL, &fixed_key(), early),
        Err(PipelineError::StorageError("status 199: x".to_string()))
    );
    let broken = Ok(PutReply { status: 500, detail: "InternalError".to_string() });
    assert_eq!(
        conclude(BASE_URL, &fixed_key(), broken),
        Err(PipelineError::StorageError("status 500: InternalError".to_string()))
    );
}

#[test]
fn unreachable_service_is_a_storage_error() {
    assert_eq!(
        conclude(BASE_URL, &fixed_key(), Err("connection refused".to_string())),
        Err(PipelineError::StorageError("connection refused".to_string()))
    );
}

#[test]
fn upload_returns_the_address_of_what_was_sent() {
    let sent: Cell<Option<PutRequest>> = Cell::new(None);
    let answer = upload(BASE_URL, image(vec![1, 2, 3], "png"), |request: &PutRequest| {
        sent.set(Some(request.clone()));
        accepted()
    });
    let request = sent.take().unwrap();
    assert_eq!(request.bytes, vec![1, 2, 3]);
    assert_eq!(request.content_type, "image/png");
    assert_eq!(request.key.extension, "png");
    let url = answer.unwrap();
    assert_eq!(url, format!("{}/{}", BASE_URL, request.key.path()));
    assert_eq!(
        url,
        format!(
            "https://cdn.example.com/{:04}/{:02}/{}.png",
            request.key.date.year(),
            request.key.date.month(),
            request.key.token
        )
    );
}

#[test]
fn upload_puts_exactly_once() {
    let calls = Cell::new(0);
    let answer = upload(BASE_URL, image(vec![9], "gif"), |_request: &PutRequest| {
        calls.set(calls.get() + 1);
        accepted()
    });
    assert!(answer.is_ok());
    assert_eq!(calls.get(), 1);
}

#[test]
fn upload_of_unknown_extension_sends_nothing() {
    let calls = Cell::new(0);
    let answer = upload(BASE_URL, image(vec![9], "no-such-extension"), |_request: &PutRequest| {
        calls.set(calls.get() + 1);
        accepted()
    });
    assert_eq!(answer, Err(PipelineError::UnknownContentType));
    assert_eq!(calls.get(), 0);
}

#[test]
fn upload_to_unreachable_service_fails() {
    let answer = upload(BASE_URL, image(vec![9], "png"), |_request: &PutRequest| {
        Err("connection refused".to_string())
    });
    assert_eq!(answer, Err(PipelineError::StorageError("connection refused".to_string())));
}

#[test]
fn upload_refused_by_the_service_fails() {
    let answer = upload(BASE_URL, image(vec![9], "png"), |_request: &PutRequest| {
        Ok(PutReply { status: 404, detail: "NoSuchBucket".to_string() })
    });
    assert_eq!(
        answer,
        Err(PipelineError::StorageError("status 404: NoSuchBucket".to_string()))
    );
}

#[test]
fn errors_are_reported_in_one_line() {
    assert_eq!(PipelineError::ReadError("broken pipe".to_string()).message(), "read error: broken pipe");
    assert_eq!(PipelineError::UnknownContentType.message(), "unknown content type");
    assert_eq!(
        PipelineError::StorageError("connection refused".to_string()).message(),
        "storage error: connection refused"
    );
    assert_eq!(
        PipelineError::SinkError("no clipboard".to_string()).message(),
        "sink error: no clipboard"
    );
}
