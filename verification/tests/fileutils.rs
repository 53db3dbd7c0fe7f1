use chance_encounter::utils::errors::FileProcessingError;
use chance_encounter::utils::fileutils::get_filename;

#[test]
fn test_get_filename() {
    assert_eq!(get_filename(r"C:\fakepath\location-history.json"), Ok("location-history.json".to_string()));
    assert_eq!(get_filename("/fakepath/location-history.json"), Ok("location-history.json".to_string()));
    assert_eq!(get_filename(""), Err(FileProcessingError::InvalidPathError("".to_string())));
    assert_eq!(get_filename("/fakepath/"), Err(FileProcessingError::InvalidPathError("/fakepath/".to_string())));
    assert_eq!(get_filename(r"C:\fakepath\"), Err(FileProcessingError::InvalidPathError(r"C:\fakepath\".to_string())));
}

#[test]
fn filename_is_what_follows_the_last_separator() {
    assert_eq!(get_filename("history.json"), Ok("history.json".to_string()));
    assert_eq!(get_filename(r"a/b\c"), Ok("c".to_string()));
    assert_eq!(get_filename(r"a\b/c.gpx"), Ok("c.gpx".to_string()));
    assert_eq!(get_filename("/x"), Ok("x".to_string()));
    assert_eq!(get_filename("/"), Err(FileProcessingError::InvalidPathError("/".to_string())));
    assert_eq!(get_filename("dossier/données.json"), Ok("données.json".to_string()));
}
