use recipe_backend::routes::recipes::helpers::{document_ref_with, new_document_ref};
use recipe_backend::static_files::helpers::{
    recorded_name, rename_error_message, rename_temp_file, renamed_file, RenameError,
};

#[test]
fn an_upload_keeps_its_extension() {
    let target = rename_temp_file(Some("holiday photo.JPG"), "7-abc").expect("a target");
    assert_eq!(target.file_name, "7-abc.JPG");
    assert_eq!(target.stored_as, "7-abc.JPG");
}

#[test]
fn the_extension_stands_in_the_uploaded_name_after_a_dot() {
    for name in ["a.png", "archive.tar.gz", "dir.d/photo.jpeg", "x.y.", "résumé.pdf"] {
        let target = rename_temp_file(Some(name), "n").expect("a target");
        let extension = target.file_name.strip_prefix("n.").expect("new name and a dot");
        assert!(!extension.contains('.'));
        assert!(name.contains(&format!(".{}", extension)));
    }
}

#[test]
fn only_the_last_extension_counts() {
    let target = rename_temp_file(Some("archive.tar.gz"), "7-abc").expect("a target");
    assert_eq!(target.file_name, "7-abc.gz");
}

#[test]
fn an_upload_without_a_name_has_no_place() {
    assert_eq!(rename_temp_file(None, "7-abc").err(), Some(RenameError::NoFileName));
}

#[test]
fn an_upload_without_an_extension_has_no_place() {
    assert_eq!(rename_temp_file(Some("photo"), "7-abc").err(), Some(RenameError::NoExtension));
    assert_eq!(rename_temp_file(Some(".hidden"), "7-abc").err(), Some(RenameError::NoExtension));
    assert_eq!(rename_temp_file(Some(""), "7-abc").err(), Some(RenameError::NoExtension));
}

#[test]
fn the_stored_name_cannot_leave_its_directory() {
    let target = rename_temp_file(Some("photo.png"), "../../etc/passwd").expect("a target");
    assert_eq!(target.file_name, "../../etc/passwd.png");
    assert!(!target.stored_as.contains('/'));
    assert!(!target.stored_as.contains('\\'));
    assert_ne!(target.stored_as, target.file_name);
    let odd = rename_temp_file(Some("photo.p:n*g"), "a<b>c|d\"e?f\u{1}").expect("a target");
    for c in odd.stored_as.chars() {
        assert!(!"/\\?<>:*|\"".contains(c));
        assert!(!c.is_control());
    }
}

#[test]
fn the_recorded_name_is_new_name_dot_extension() {
    assert_eq!(renamed_file("7-abc", "png"), "7-abc.png");
    assert_eq!(renamed_file("", ""), ".");
}

#[test]
fn the_recorded_name_of_an_upload() {
    assert_eq!(recorded_name(Some("a.png"), Some("png"), "7-abc"), Ok("7-abc.png".to_string()));
    assert_eq!(recorded_name(Some("a."), Some(""), "7-abc"), Ok("7-abc.".to_string()));
    assert_eq!(recorded_name(Some("a"), None, "7-abc"), Err(RenameError::NoExtension));
    assert_eq!(recorded_name(None, None, "7-abc"), Err(RenameError::NoFileName));
    assert_eq!(recorded_name(None, Some("png"), "7-abc"), Err(RenameError::NoFileName));
}

#[test]
fn a_name_without_a_dot_has_no_extension() {
    for name in ["photo", "a/b", "a\\b", " ", "C:photo"] {
        assert_eq!(rename_temp_file(Some(name), "x").err(), Some(RenameError::NoExtension));
    }
}

#[test]
fn rename_errors_have_their_messages() {
    assert_eq!(
        rename_error_message(RenameError::NoFileName),
        "No file name in content-disposition header"
    );
    assert_eq!(rename_error_message(RenameError::NoExtension), "File has no extension");
}

#[test]
fn a_document_is_named_by_owner_and_suffix() {
    assert_eq!(document_ref_with(7, "abc"), "7-abc");
    assert_eq!(document_ref_with(-7, ""), "-7-");
}

#[test]
fn a_fresh_document_name_ends_in_a_uuid() {
    let name = new_document_ref(42);
    assert!(name.starts_with("42-"));
    let suffix = &name[3..];
    assert_eq!(suffix.len(), 36);
    assert!(suffix.chars().all(|c| c == '-' || c.is_ascii_digit() || ('a'..='f').contains(&c)));
    for at in [8, 13, 18, 23] {
        assert_eq!(suffix.as_bytes()[at], b'-');
    }
}

#[test]
fn fresh_document_names_differ() {
    assert_ne!(new_document_ref(42), new_document_ref(42));
}
