use guide_sync::error::GuideError;

#[test]
fn fetch_failures_keep_the_last_copy() {
    assert!(GuideError::Network.keeps_last_copy());
    assert!(GuideError::Decode.keeps_last_copy());
    assert!(!GuideError::NotFound.keeps_last_copy());
    assert!(!GuideError::StorageInit.keeps_last_copy());
    assert!(!GuideError::StorageRead.keeps_last_copy());
    assert!(!GuideError::StorageWrite.keeps_last_copy());
}

#[test]
fn messages() {
    assert_eq!(GuideError::Network.message(), "could not update this guide, showing last known copy");
    assert_eq!(GuideError::Decode.message(), "could not update this guide, showing last known copy");
    assert_eq!(GuideError::NotFound.message(), "no such guide or item");
    assert_eq!(GuideError::StorageInit.message(), "could not prepare local storage, continuing with defaults");
    assert_eq!(GuideError::StorageRead.message(), "could not read local storage");
    assert_eq!(GuideError::StorageWrite.message(), "could not save changes");
}
