use vstd::prelude::*;

verus! {

#[verifier::external_type_specification]
#[verifier::external_body]
pub struct ExPathBuf(std::path::PathBuf);

/// Relies on PathBuf::from on a string slice: wraps the configured directory
/// string as an owned filesystem path for the surrounding application.
#[verifier::external_body]
pub fn get_config_notes_dir_from_config(notes_directory: &str) -> std::path::PathBuf {
    std::path::PathBuf::from(notes_directory)
}

} // verus!
