//! What a run is asked to do: the settings that the command line gives.

use vstd::prelude::*;

verus! {

/// `std::path::PathBuf`: a place in the file system. The library hands paths
/// on as it got them and looks at nothing inside them.
#[verifier::external_type_specification]
#[verifier::external_body]
pub struct ExPathBuf(std::path::PathBuf);

/// `PathBuf::clone` returns a path equal to the one it was called on.
pub assume_specification[ <std::path::PathBuf as Clone>::clone ](path: &std::path::PathBuf) -> (copy:
    std::path::PathBuf)
    ensures
        copy == *path,
;

/// The settings of one run.
#[derive(Debug)]
pub struct Cli {
    /// The path of the file that holds the résumé, in LaTeX.
    pub input: std::path::PathBuf,
    /// The path that the tailored résumé is written to.
    pub output: std::path::PathBuf,
    /// The key that opens the chat service.
    pub api_key: String,
    /// The address that the job description is fetched from.
    pub job_description_url: String,
    /// The path of the user's own template, if one was named.
    pub template: Option<std::path::PathBuf>,
    /// The name of the chat model that is asked.
    pub model: String,
}

/// The settings of one run, with their texts as sequences of characters.
pub struct CliView {
    pub input: std::path::PathBuf,
    pub output: std::path::PathBuf,
    pub api_key: Seq<char>,
    pub job_description_url: Seq<char>,
    pub template: Option<std::path::PathBuf>,
    pub model: Seq<char>,
}

impl View for Cli {
    type V = CliView;

    open spec fn view(&self) -> CliView {
        CliView {
            input: self.input,
            output: self.output,
            api_key: self.api_key@,
            job_description_url: self.job_description_url@,
            template: self.template,
            model: self.model@,
        }
    }
}

impl Cli {
    /// The name of the chat model that is asked.
    pub fn model(&self) -> (name: String)
        ensures
            name@ == self@.model,
    {
        self.model.clone()
    }
}

} // verus!
