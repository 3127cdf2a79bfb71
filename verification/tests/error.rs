use live_player::error::{AppError, ErrorKind};

#[test]
fn each_kind_has_its_message() {
    let text = || "boom".to_string();
    let cases = vec![
        (AppError::GStreamer(text()), ErrorKind::GStreamer, "GStreamer error: boom"),
        (AppError::Pipeline(text()), ErrorKind::Pipeline, "Pipeline error: boom"),
        (AppError::Output(text()), ErrorKind::Output, "Output error: boom"),
        (AppError::Project(text()), ErrorKind::Project, "Project error: boom"),
        (AppError::File(text()), ErrorKind::File, "File error: boom"),
        (AppError::NotFound(text()), ErrorKind::NotFound, "Not found: boom"),
        (AppError::InvalidState(text()), ErrorKind::InvalidState, "Invalid state: boom"),
        (AppError::Ndi(text()), ErrorKind::Ndi, "NDI error: boom"),
        (AppError::Timeout(text()), ErrorKind::Timeout, "Timeout: boom"),
        (AppError::Io(text()), ErrorKind::Io, "IO error: boom"),
        (AppError::Json(text()), ErrorKind::Json, "JSON error: boom"),
    ];
    for (error, kind, message) in cases {
        assert_eq!(error.kind(), kind);
        assert_eq!(error.detail(), "boom");
        assert_eq!(error.message(), message);
        assert_eq!(error.clone(), error);
    }
}
