use ocr_client::img::RasterImage;
use ocr_client::server::docling::OcrDoc;
use ocr_client::server::expects_payload;
use ocr_client::server::settle;
use ocr_client::server::OcrClient;
use ocr_client::server::Reply;
use ocr_client::OCRServerErr;
use ocr_client::OcrEngine;
use ocr_client::OcrErrs;

fn rejection_from(body: &str) -> Result<OCRServerErr, String> {
    let value: serde_json::Value = serde_json::from_str(body).map_err(|e| e.to_string())?;
    let fields = value.as_object().ok_or("the body is no object".to_string())?;
    let error = match fields.get("error") {
        None | Some(serde_json::Value::Null) => None,
        Some(serde_json::Value::String(text)) => Some(text.clone()),
        Some(_) => return Err("the error is no string".to_string()),
    };
    let details = match fields.get("details") {
        None | Some(serde_json::Value::Null) => None,
        Some(other) => Some(other.to_string()),
    };
    Ok(OCRServerErr { details, error })
}

fn answer(status: u16, body: &str) -> Reply<u32> {
    if expects_payload(status) {
        Reply::Payload(body.trim().parse::<u32>().map_err(|e| e.to_string()))
    } else {
        Reply::Rejection(rejection_from(body))
    }
}

#[test]
fn client_takes_an_absolute_url() {
    let client = OcrClient::new("http://localhost:8000").unwrap();
    assert_eq!(client.base, "http://localhost:8000/");
    let client = OcrClient::new("HTTPS://Example.COM/api/").unwrap();
    assert_eq!(client.base, "https://example.com/api/");
}

#[test]
fn client_refuses_what_is_no_url() {
    assert!(matches!(OcrClient::new(""), Err(OcrErrs::InvalidEndpoint(_))));
    assert!(matches!(OcrClient::new("localhost"), Err(OcrErrs::InvalidEndpoint(_))));
    assert!(matches!(OcrClient::new("https://"), Err(OcrErrs::InvalidEndpoint(_))));
    assert!(matches!(OcrClient::new("http://[::1"), Err(OcrErrs::InvalidEndpoint(_))));
}

#[test]
fn request_goes_below_the_base_address() {
    let client = OcrClient::new("http://localhost:8000").unwrap();
    let upload = client.bytes_req("ocr/doc", vec![9, 8, 7], "scan.pdf").unwrap();
    assert_eq!(upload.url, "http://localhost:8000/ocr/doc");
    assert_eq!(upload.part_name, "file");
    assert_eq!(upload.file_name, "scan.pdf");
    assert_eq!(upload.body, vec![9, 8, 7]);

    let client = OcrClient::new("https://example.com/api/").unwrap();
    let upload = client.bytes_req("ocr/invoice", Vec::new(), "x").unwrap();
    assert_eq!(upload.url, "https://example.com/api/ocr/invoice");

    let client = OcrClient::new("https://example.com/api").unwrap();
    let upload = client.bytes_req("ocr/invoice", Vec::new(), "x").unwrap();
    assert_eq!(upload.url, "https://example.com/ocr/invoice");
}

#[test]
fn request_from_a_bad_base_is_refused() {
    let client = OcrClient { base: "not a url".to_string() };
    assert!(matches!(
        client.bytes_req("ocr/doc", vec![1], "scan.pdf"),
        Err(OcrErrs::InvalidEndpoint(_))
    ));
    let client = OcrClient { base: "mailto:someone@example.com".to_string() };
    assert!(matches!(
        client.get_doc_info(OcrDoc::new("scan.pdf", vec![1]).unwrap()),
        Err(OcrErrs::InvalidEndpoint(_))
    ));
}

#[test]
fn invoice_picture_is_posted_as_jpeg() {
    let client = OcrClient::new("http://localhost:8000").unwrap();
    let img = RasterImage::new(8, 8, vec![200; 8 * 8 * 4]).unwrap();
    let upload = client.get_invoice_info(&img).unwrap();
    assert_eq!(upload.url, "http://localhost:8000/ocr/invoice");
    assert_eq!(upload.part_name, "file");
    assert_eq!(upload.file_name, "[unknown].jpg");
    assert_eq!(upload.body, img.to_jpeg().unwrap());
    let back = image::load_from_memory(&upload.body).unwrap();
    assert_eq!((back.width(), back.height()), (8, 8));
}

#[test]
fn invoice_picture_that_cannot_be_encoded_is_an_image_error() {
    let client = OcrClient::new("http://localhost:8000").unwrap();
    let img = RasterImage::new(0, 0, Vec::new()).unwrap();
    assert!(matches!(client.get_invoice_info(&img), Err(OcrErrs::Image(_))));
    assert!(matches!(client.img_req("ocr/invoice", &img), Err(OcrErrs::Image(_))));
}

#[test]
fn status_between_200_and_299_announces_the_payload() {
    assert!(!expects_payload(0));
    assert!(!expects_payload(199));
    assert!(expects_payload(200));
    assert!(expects_payload(204));
    assert!(expects_payload(299));
    assert!(!expects_payload(300));
    assert!(!expects_payload(404));
    assert!(!expects_payload(429));
    assert!(!expects_payload(u16::MAX));
}

#[test]
fn payload_is_handed_on() {
    assert!(matches!(settle(answer(200, "17")), Ok(17)));
}

#[test]
fn payload_of_the_wrong_shape_is_a_malformed_response() {
    match settle(answer(200, "seventeen")) {
        Err(OcrErrs::MalformedResponse(report)) => assert!(report.contains("invalid digit")),
        other => panic!("unexpected outcome: {other:?}"),
    }
}

#[test]
fn rejection_surfaces_as_remote_rejected() {
    match settle(answer(429, "{\"error\":\"rate limited\"}")) {
        Err(OcrErrs::RemoteRejected(refusal)) => {
            assert_eq!(refusal.error.as_deref(), Some("rate limited"));
            assert!(refusal.message().contains("rate limited"));
            assert_eq!(refusal.message(), "Server Response: rate limited");
        }
        other => panic!("unexpected outcome: {other:?}"),
    }
}

#[test]
fn rejection_of_the_wrong_shape_is_a_malformed_response() {
    assert!(matches!(settle(answer(500, "<html>oops</html>")), Err(OcrErrs::MalformedResponse(_))));
    assert!(matches!(settle(answer(500, "{\"error\": 5}")), Err(OcrErrs::MalformedResponse(_))));
}

#[test]
fn request_without_an_answer_is_a_transport_error() {
    match settle(Reply::<u32>::Unsent("connection refused".to_string())) {
        Err(OcrErrs::Transport(report)) => assert_eq!(report, "connection refused"),
        other => panic!("unexpected outcome: {other:?}"),
    }
}

#[test]
fn error_text_holds_the_report_that_came_with_it() {
    assert_eq!(
        OcrErrs::MalformedPdf("file header not found".to_string()).message(),
        "The bytes do not load as a PDF: file header not found"
    );
    assert_eq!(OcrErrs::NoPages.message(), "The document has no page");
    assert_eq!(
        OcrErrs::RenderFailure("out of memory".to_string()).message(),
        "The page could not be rendered: out of memory"
    );
    assert_eq!(
        OcrErrs::Transport("connection refused".to_string()).message(),
        "The request was not answered: connection refused"
    );
    assert_eq!(
        OcrErrs::MalformedResponse("expected value".to_string()).message(),
        "The answer has an unexpected shape: expected value"
    );
    assert_eq!(
        OcrErrs::IndexOutOfRange.message(),
        "A result was offered for an image that the document does not have"
    );
    match OcrClient::new("") {
        Err(e) => assert_eq!(e.message(), "The service address is not a URL"),
        Ok(_) => panic!("an empty address was taken"),
    }
    let img = RasterImage::new(0, 0, Vec::new()).unwrap();
    match OcrDoc::from_img(&img) {
        Err(e) => assert_eq!(e.message(), "A picture could not be encoded"),
        Ok(_) => panic!("an empty picture was encoded"),
    }
}

#[test]
fn refusal_is_shown_in_the_words_of_the_service() {
    match settle(answer(429, "{\"error\":\"rate limited\"}")) {
        Err(e) => {
            assert!(matches!(e, OcrErrs::RemoteRejected(_)));
            assert!(e.message().contains("rate limited"));
            assert_eq!(e.message(), "Server Response: rate limited");
        }
        Ok(_) => panic!("a refusal was taken for a payload"),
    }
    let details = OcrErrs::RemoteRejected(rejection_from("{\"details\":[1,2]}").unwrap());
    assert_eq!(details.message(), "[1,2]");
}

#[test]
fn server_error_shows_message_then_details_then_a_fixed_text() {
    let both = rejection_from("{\"error\":\"bad file\",\"details\":{\"page\":3}}").unwrap();
    assert_eq!(both.message(), "Server Response: bad file");
    let details = rejection_from("{\"details\":{\"page\":3}}").unwrap();
    assert_eq!(details.message(), "{\"page\":3}");
    let neither = rejection_from("{}").unwrap();
    assert_eq!(neither.message(), "An error occurred on the server side");
    let empty = OCRServerErr { details: None, error: Some(String::new()) };
    assert_eq!(empty.message(), "Server Response: ");
}

#[test]
fn engine_adds_the_scheme_that_is_missing() {
    assert_eq!(OcrEngine::new("localhost:8000").unwrap().client().base, "http://localhost:8000/");
    assert_eq!(OcrEngine::new("127.0.0.1:9000/v1/").unwrap().client().base, "http://127.0.0.1:9000/v1/");
    assert_eq!(OcrEngine::new("ocr.example.com").unwrap().client().base, "https://ocr.example.com/");
    assert_eq!(OcrEngine::new("192.168.1.20:8000").unwrap().client().base, "https://192.168.1.20:8000/");
}

#[test]
fn engine_adds_a_scheme_to_a_host_that_begins_with_http() {
    assert_eq!(OcrEngine::new("httpbin.org").unwrap().client().base, "https://httpbin.org/");
    assert_eq!(OcrEngine::new("https.example.com").unwrap().client().base, "https://https.example.com/");
    assert_eq!(OcrEngine::new("http-ocr.internal:8000/v1/").unwrap().client().base, "https://http-ocr.internal:8000/v1/");
    assert_eq!(OcrEngine::new("localhost.example.com").unwrap().client().base, "http://localhost.example.com/");
}

#[test]
fn engine_keeps_the_scheme_that_is_there() {
    assert_eq!(OcrEngine::new("http://localhost:8000").unwrap().client().base, "http://localhost:8000/");
    assert_eq!(OcrEngine::new("http://192.168.1.20:8000").unwrap().client().base, "http://192.168.1.20:8000/");
    assert_eq!(OcrEngine::new("https://ocr.example.com/api/").unwrap().client().base, "https://ocr.example.com/api/");
}

#[test]
fn engine_refuses_an_address_that_is_no_url() {
    assert!(matches!(OcrEngine::new(""), Err(OcrErrs::InvalidEndpoint(_))));
    assert!(matches!(OcrEngine::new("exa mple.com"), Err(OcrErrs::InvalidEndpoint(_))));
    assert!(matches!(OcrEngine::new("http://"), Err(OcrErrs::InvalidEndpoint(_))));
}

#[test]
fn engine_prepares_the_requests_of_its_client() {
    let engine = OcrEngine::new("localhost:8000").unwrap();
    let img = RasterImage::new(8, 8, vec![90; 8 * 8 * 4]).unwrap();
    let invoice = engine.invoice_details(&img).unwrap();
    assert_eq!(invoice.url, "http://localhost:8000/ocr/invoice");
    assert_eq!(invoice.file_name, "[unknown].jpg");
    assert_eq!(invoice.body, img.to_jpeg().unwrap());
    let text = engine.ocr(&img).unwrap();
    assert_eq!(text.url, "http://localhost:8000/ocr/doc");
    assert_eq!(text.file_name, "[Unknown].png");
    assert_eq!(text.body, img.to_png().unwrap());
}
