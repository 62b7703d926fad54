use atom_token::{InsertOutcome, StoreFailure};
use mongodb::bson::{from_document, Bson, Document};
use mongodb::error::{Error, ErrorKind, WriteConcernError, WriteError, WriteFailure};

fn write_error(code: i32, message: &str) -> Error {
    let mut document = Document::new();
    document.insert("code", Bson::Int32(code));
    document.insert("errmsg", Bson::String(message.to_string()));
    let error: WriteError = from_document(document).unwrap();
    Error::from(ErrorKind::Write(WriteFailure::WriteError(error)))
}

#[test]
fn driver_duplicate_key_is_read_as_duplicate_key() {
    let failure = StoreFailure::from_driver(&write_error(11000, "E11000 duplicate key error"));
    assert_eq!(failure.code, Some(11000));
    assert!(failure.is_duplicate_key());
    assert_eq!(InsertOutcome::classify(Err(failure)), InsertOutcome::DuplicateKey);
}

#[test]
fn driver_other_write_error_keeps_its_code() {
    let error = write_error(121, "Document failed validation");
    let failure = StoreFailure::from_driver(&error);
    assert_eq!(failure.code, Some(121));
    assert!(!failure.is_duplicate_key());
    assert_eq!(failure.reason, error.kind.to_string());
    assert!(failure.reason.contains("Document failed validation"));
}

#[test]
fn driver_write_concern_error_has_no_code() {
    let mut document = Document::new();
    document.insert("code", Bson::Int32(11000));
    document.insert("codeName", Bson::String("x".to_string()));
    document.insert("errmsg", Bson::String("not a write error".to_string()));
    let concern: WriteConcernError = from_document(document).unwrap();
    let error = Error::from(ErrorKind::Write(WriteFailure::WriteConcernError(concern)));
    let failure = StoreFailure::from_driver(&error);
    assert_eq!(failure.code, None);
    assert!(!failure.is_duplicate_key());
}

#[test]
fn driver_custom_text_becomes_the_reason() {
    let failure = StoreFailure::from_driver(&Error::custom("token not found".to_string()));
    assert_eq!(failure, StoreFailure { code: None, reason: "token not found".to_string() });
}

#[test]
fn driver_custom_value_of_another_type_is_described() {
    let error = Error::custom(17u32);
    let failure = StoreFailure::from_driver(&error);
    assert_eq!(failure.code, None);
    assert_eq!(failure.reason, "Custom user error");
}

#[test]
fn driver_custom_text_wins_over_description() {
    let error = Error::custom("attached".to_string());
    let failure = StoreFailure::from_driver(&error);
    assert_eq!(failure.reason, "attached");
    assert_ne!(failure.reason, error.kind.to_string());
}

#[test]
fn driver_other_kind_is_described() {
    let failure = StoreFailure::from_driver(&Error::from(ErrorKind::Shutdown));
    assert_eq!(failure, StoreFailure { code: None, reason: "Client has been shut down".to_string() });
    assert_eq!(
        InsertOutcome::classify(Err(failure)),
        InsertOutcome::Failed(StoreFailure { code: None, reason: "Client has been shut down".to_string() })
    );
}
