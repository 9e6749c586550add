use sp_engine::classify::{classify_stream, Outcome, StreamEvent};
use sp_engine::command::build_sp_batch;
use sp_engine::handlers::{
    azure_document_url, azure_vision_url, bearer_header, chunk_dir_path, chunk_video_file_name,
    classify_poll_status, complete_chunk_video_params, copilot_prompt, mark_complete_response,
    merged_video_path, prepare_ocr_request, token_url, validate_daily_run_atm_id, IdCheck,
    OcrParamError, PollAction,
};
use sp_engine::rows::{CellProbe, FieldValue, NamedCell, Record};
use sp_engine::status_code::AppStatusCode;

#[test]
fn identifier_must_be_present() {
    assert!(matches!(validate_daily_run_atm_id(&None), IdCheck::Missing));
    assert_eq!(IdCheck::Missing.message(), "Missing Daily Run Atm Id");
}

#[test]
fn identifier_must_parse_nonzero() {
    assert!(matches!(validate_daily_run_atm_id(&Some("abc".to_string())), IdCheck::Invalid));
    assert!(matches!(validate_daily_run_atm_id(&Some("0".to_string())), IdCheck::Invalid));
    assert!(matches!(validate_daily_run_atm_id(&Some("501".to_string())), IdCheck::Valid(501)));
    assert!(matches!(validate_daily_run_atm_id(&Some("-3".to_string())), IdCheck::Valid(-3)));
    assert_eq!(IdCheck::Invalid.message(), "invalid daily run atm id");
}

#[test]
fn paths_follow_identifier() {
    assert_eq!(chunk_dir_path("501"), "/501");
    assert_eq!(merged_video_path("501"), "/501.mp4");
    assert_eq!(chunk_video_file_name("501"), "501.mp4");
}

#[test]
fn engine_error_maps_to_server_failure() {
    let (code, resp) = mark_complete_response(Err("pool gone".to_string()));
    assert_eq!(code, 500);
    assert!(!resp.status);
    assert_eq!(resp.message, "pool gone");
    assert!(resp.result.is_none());
    assert_eq!(resp.status_code, AppStatusCode::SpKnownFailed);
}

#[test]
fn negative_outcome_maps_to_bad_request() {
    let outcome = Outcome {
        success: false,
        message: "no such run".to_string(),
        data: None,
    };
    let (code, resp) = mark_complete_response(Ok(outcome));
    assert_eq!(code, 400);
    assert!(!resp.status);
    assert_eq!(resp.message, "no such run");
    let record = resp.result.expect("an empty record stands in for missing data");
    assert_eq!(record.fields.len(), 0);
    assert_eq!(resp.status_code, AppStatusCode::SpExecutionFailed);
}

#[test]
fn positive_outcome_maps_to_ok() {
    let mut rec = Record::new();
    rec.set("rowsAffected".to_string(), FieldValue::Int32(1));
    let outcome = Outcome {
        success: true,
        message: "Updated".to_string(),
        data: Some(rec),
    };
    let (code, resp) = mark_complete_response(Ok(outcome));
    assert_eq!(code, 200);
    assert!(resp.status);
    assert_eq!(resp.message, "Updated");
    assert_eq!(resp.status_code, AppStatusCode::Success);
    let record = resp.result.expect("data travels into the envelope");
    assert!(matches!(record.get("rowsAffected"), Some(FieldValue::Int32(1))));
}

#[test]
fn completes_chunk_video_end_to_end() {
    // The full engine path of a completion call, up to the wire: validate the
    // identifier, build the command, classify the stream, shape the response.
    let id_text = "501";
    let atm_id = match validate_daily_run_atm_id(&Some(id_text.to_string())) {
        IdCheck::Valid(v) => v,
        _ => panic!("identifier is valid"),
    };
    let params = complete_chunk_video_params(
        atm_id,
        chunk_video_file_name(id_text),
        "/data/501.mp4".to_string(),
        String::new(),
    );
    let batch = build_sp_batch("usp_Complete_Chunk_Video", &params);
    assert!(batch.contains("EXEC usp_Complete_Chunk_Video @dailyRunAtmId = 501, \
                            @fileName = '501.mp4', @filePath = '/data/501.mp4', @url = ''"));

    let data_row = StreamEvent::Row(vec![NamedCell {
        name: "rowsAffected".to_string(),
        probe: CellProbe { text: None, int32: Some(1), int64: None, boolean: None },
    }]);
    let status_row = StreamEvent::Row(vec![
        NamedCell {
            name: "retStatus".to_string(),
            probe: CellProbe { text: None, int32: None, int64: None, boolean: Some(true) },
        },
        NamedCell {
            name: "retMessage".to_string(),
            probe: CellProbe {
                text: Some("Updated".to_string()),
                int32: None,
                int64: None,
                boolean: None,
            },
        },
    ]);
    let outcome = classify_stream(&vec![data_row, status_row]);
    assert!(outcome.success);
    assert_eq!(outcome.message, "Updated");
    let record = outcome.data.as_ref().expect("one data row was kept");
    assert!(matches!(record.get("rowsAffected"), Some(FieldValue::Int32(1))));

    let (code, resp) = mark_complete_response(Ok(outcome));
    assert_eq!(code, 200);
    assert!(resp.status);
    assert_eq!(resp.message, "Updated");
}

#[test]
fn ocr_counter_name_is_checked_first() {
    let body = vec![1u8, 2, 3];
    assert!(matches!(
        prepare_ocr_request(&None, &Some("m".to_string()), &body),
        Err(OcrParamError::CounterName)
    ));
    assert!(matches!(
        prepare_ocr_request(&Some("atm".to_string()), &Some("m".to_string()), &body),
        Err(OcrParamError::CounterName)
    ));
    assert!(matches!(prepare_ocr_request(&None, &None, &body), Err(OcrParamError::CounterName)));
    assert_eq!(OcrParamError::CounterName.message(), "Invalid or missing counter_name");
}

#[test]
fn ocr_model_name_must_not_be_blank() {
    let body = vec![1u8];
    let counter = Some("ATM".to_string());
    assert!(matches!(prepare_ocr_request(&counter, &None, &body), Err(OcrParamError::ModelName)));
    assert!(matches!(
        prepare_ocr_request(&counter, &Some("   ".to_string()), &body),
        Err(OcrParamError::ModelName)
    ));
    assert_eq!(OcrParamError::ModelName.message(), "Invalid or missing model_name");
}

#[test]
fn ocr_request_carries_encoded_image() {
    let counter = Some("ATM".to_string());
    let model = Some("deepseek-ocr".to_string());
    let req = prepare_ocr_request(&counter, &model, &b"hello".to_vec()).expect("valid request");
    assert_eq!(req.model, "deepseek-ocr");
    assert_eq!(req.prompt, "extract image text and convert into json.");
    assert_eq!(req.image_b64, "aGVsbG8=");
}

#[test]
fn ocr_request_encodes_empty_body_to_empty_text() {
    let req = prepare_ocr_request(
        &Some("ATM".to_string()),
        &Some("m".to_string()),
        &Vec::new(),
    )
    .expect("valid request");
    assert_eq!(req.image_b64, "");
}

#[test]
fn builds_service_urls() {
    assert_eq!(
        azure_vision_url("https://v.example"),
        "https://v.example/computervision/imageanalysis:analyze?api-version=2024-02-01&features=read"
    );
    assert_eq!(
        azure_document_url("https://d.example///"),
        "https://d.example/documentintelligence/documentModels/prebuilt-receipt:analyze?api-version=2024-11-30"
    );
    assert_eq!(token_url("tenant-1"), "https://login.microsoftonline.com/tenant-1/oauth2/v2.0/token");
}

#[test]
fn builds_outbound_headers_and_prompt() {
    assert_eq!(bearer_header("tok"), "Bearer tok");
    assert_eq!(
        copilot_prompt("https://u.example/i.png"),
        "Using the image at https://u.example/i.png, extract text from image and convert into json format."
    );
}

#[test]
fn poll_status_drives_the_loop() {
    assert!(matches!(classify_poll_status("succeeded"), PollAction::Finish));
    assert!(matches!(classify_poll_status("failed"), PollAction::Fail));
    assert!(matches!(classify_poll_status("running"), PollAction::Wait));
    assert!(matches!(classify_poll_status("notStarted"), PollAction::Wait));
}

#[test]
fn status_codes_have_wire_names() {
    assert_eq!(AppStatusCode::Success.wire_name(), "0");
    assert_eq!(AppStatusCode::DbPoolError.wire_name(), "OCR-00001");
    assert_eq!(AppStatusCode::SpExecutionFailed.wire_name(), "OCR-00002");
    assert_eq!(AppStatusCode::InvalidPayload.wire_name(), "OCR-00003");
    assert_eq!(AppStatusCode::PathCreation.wire_name(), "OCR-00004");
    assert_eq!(AppStatusCode::SpKnownFailed.wire_name(), "OCR-00005");
}
