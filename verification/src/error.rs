//! What can stop the pipeline.

use vstd::prelude::*;

verus! {

/// `std::io::Error`: why a file could not be read or written. The library
/// carries such a value from where it arose to the report and looks at
/// nothing inside it.
#[verifier::external_type_specification]
#[verifier::external_body]
pub struct ExIoError(std::io::Error);

/// `reqwest::Error`: why a page could not be fetched. Carried through
/// unread.
#[verifier::external_type_specification]
#[verifier::external_body]
pub struct ExFetchError(reqwest::Error);

/// `genai::Error`: why the chat service gave no reply. Carried through
/// unread.
#[verifier::external_type_specification]
#[verifier::external_body]
pub struct ExChatError(genai::Error);

/// The ways in which a run of the pipeline fails. Each names the stage that
/// failed and holds what the stage's collaborator reported.
#[derive(Debug)]
pub enum PipelineError {
    /// The template file named by the user could not be read.
    FailedToReadTemplate(std::io::Error),
    /// The résumé could not be read.
    FailedToReadResume(std::io::Error),
    /// The job description's page could not be fetched.
    FailedToFetchJobDescriptionPage(reqwest::Error),
    /// The chat service failed.
    GeminiError(genai::Error),
    /// Something stands at the output path already, and overwriting is
    /// forbidden.
    OutputAlreadyExists(std::path::PathBuf),
    /// The result could not be written.
    FailedToWriteOutput(std::io::Error),
}

} // verus!
