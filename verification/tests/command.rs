use sp_engine::command::build_sp_batch;
use sp_engine::handlers::complete_chunk_video_params;
use sp_engine::model::SqlParam;

#[test]
fn renders_text_literal() {
    assert_eq!(SqlParam::String("501.mp4".to_string()).render_literal(), "'501.mp4'");
}

#[test]
fn renders_integer_literal() {
    assert_eq!(SqlParam::I64(-7).render_literal(), "-7");
}

#[test]
fn builds_batch_without_parameters() {
    let batch = build_sp_batch("usp_Ping", &[]);
    assert_eq!(
        batch,
        "DECLARE @status BIT, @msg VARCHAR(1000); EXEC usp_Ping , \
         @retStatus = @status OUTPUT, @retMessage = @msg OUTPUT; \
         SELECT @status AS retStatus, @msg AS retMessage;"
    );
}

#[test]
fn builds_batch_with_parameters() {
    let params = vec![
        ("dailyRunAtmId", SqlParam::I64(501)),
        ("fileName", SqlParam::String("501.mp4".to_string())),
        ("filePath", SqlParam::String("/data/501.mp4".to_string())),
        ("url", SqlParam::String(String::new())),
    ];
    let batch = build_sp_batch("usp_Complete_Chunk_Video", &params);
    assert_eq!(
        batch,
        "DECLARE @status BIT, @msg VARCHAR(1000); EXEC usp_Complete_Chunk_Video \
         @dailyRunAtmId = 501, @fileName = '501.mp4', @filePath = '/data/501.mp4', @url = '', \
         @retStatus = @status OUTPUT, @retMessage = @msg OUTPUT; \
         SELECT @status AS retStatus, @msg AS retMessage;"
    );
}

#[test]
fn builds_batch_with_one_parameter() {
    let params = vec![("id", SqlParam::I64(3))];
    let batch = build_sp_batch("usp_One", &params);
    assert_eq!(
        batch,
        "DECLARE @status BIT, @msg VARCHAR(1000); EXEC usp_One @id = 3, \
         @retStatus = @status OUTPUT, @retMessage = @msg OUTPUT; \
         SELECT @status AS retStatus, @msg AS retMessage;"
    );
}

#[test]
fn prepares_a_client_query() {
    // Builds the real client query object: the text is rendered and every
    // value is bound.  The object keeps its contents to itself, so this
    // checks no more than that preparation runs clean.
    let params = vec![
        ("id", SqlParam::I64(1)),
        ("name", SqlParam::String("x".to_string())),
    ];
    let _query = sp_engine::command::prepare_sp_query("usp_Ping", &params);
}

#[test]
fn keeps_binding_order() {
    let params = complete_chunk_video_params(
        501,
        "501.mp4".to_string(),
        "/data/501.mp4".to_string(),
        String::new(),
    );
    assert_eq!(params.len(), 4);
    assert_eq!(params[0].0, "dailyRunAtmId");
    assert!(matches!(params[0].1, SqlParam::I64(501)));
    assert_eq!(params[1].0, "fileName");
    assert!(matches!(&params[1].1, SqlParam::String(s) if s == "501.mp4"));
    assert_eq!(params[2].0, "filePath");
    assert!(matches!(&params[2].1, SqlParam::String(s) if s == "/data/501.mp4"));
    assert_eq!(params[3].0, "url");
    assert!(matches!(&params[3].1, SqlParam::String(s) if s.is_empty()));
}
