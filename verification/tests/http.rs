use rcli::http::{
    file_response, FileOutcome, STATUS_INTERNAL_SERVER_ERROR, STATUS_NOT_FOUND, STATUS_OK,
};

#[test]
fn file_response_for_each_outcome() {
    assert_eq!(
        file_response("./Cargo.toml", FileOutcome::Read("[package]\n".to_string())),
        (200, "[package]\n".to_string())
    );
    assert_eq!(
        file_response("./nothing", FileOutcome::Missing),
        (404, "File ./nothing note found".to_string())
    );
    assert_eq!(
        file_response("./src", FileOutcome::Failed("Is a directory (os error 21)".to_string())),
        (500, "Is a directory (os error 21)".to_string())
    );
    assert_eq!((STATUS_OK, STATUS_NOT_FOUND, STATUS_INTERNAL_SERVER_ERROR), (200, 404, 500));
}
