//! Where the template comes from: a file that the user names, or the one
//! built in.

use crate::error::PipelineError;
use crate::prompt::{laid_out, JOB_DESCRIPTION_TOKEN, RESUME_TOKEN};
use crate::text::occurs_at;
use vstd::prelude::*;
use vstd::string::*;

verus! {

/// The built-in template up to the job description's placeholder.
pub const DEFAULT_TEMPLATE_HEAD: &'static str =
    "You are helping an applicant to tailor a resume to one job posting.\n\nRules:\n1. Use only what the resume already states. Do not invent employers, titles, dates, degrees, skills or figures.\n2. Reorder and reword the resume so that what matters for this job stands out. Leave out what does not help.\n3. Keep the resume in LaTeX, with its document class, packages and commands, so that it still compiles.\n4. Reply with the complete LaTeX source of the tailored resume and nothing else. Open the reply with a line that holds ```latex and nothing more, and close it with ``` as its last three characters.\n\nThe job description, as the HTML of its page:\n\n";

/// The built-in template between the two placeholders.
pub const DEFAULT_TEMPLATE_MIDDLE: &'static str = "\n\nThe resume, in LaTeX:\n\n";

/// The built-in template behind the résumé's placeholder.
pub const DEFAULT_TEMPLATE_TAIL: &'static str = "\n";

/// The built-in template: its three parts with the two placeholders between
/// them, the job description's first.
pub open spec fn default_template() -> Seq<char> {
    laid_out(
        DEFAULT_TEMPLATE_HEAD@,
        JOB_DESCRIPTION_TOKEN@,
        DEFAULT_TEMPLATE_MIDDLE@,
        RESUME_TOKEN@,
        DEFAULT_TEMPLATE_TAIL@,
    )
}

/// The built-in template is not empty and holds both placeholders.
pub proof fn lemma_default_template_holds_tokens()
    ensures
        default_template().len() > 0,
        occurs_at(default_template(), JOB_DESCRIPTION_TOKEN@, DEFAULT_TEMPLATE_HEAD@.len() as int),
        occurs_at(
            default_template(),
            RESUME_TOKEN@,
            (DEFAULT_TEMPLATE_HEAD@.len() + JOB_DESCRIPTION_TOKEN@.len()
                + DEFAULT_TEMPLATE_MIDDLE@.len()) as int,
        ),
{
    reveal_strlit("{{job_description_html}}!");
    reveal_strlit("{{resume}}!");
    let head = DEFAULT_TEMPLATE_HEAD@;
    let job = JOB_DESCRIPTION_TOKEN@;
    let middle = DEFAULT_TEMPLATE_MIDDLE@;
    let resume = RESUME_TOKEN@;
    let whole = default_template();
    assert(whole.subrange(head.len() as int, (head.len() + job.len()) as int) =~= job);
    let at = head.len() + job.len() + middle.len();
    assert(whole.subrange(at as int, (at + resume.len()) as int) =~= resume);
}

/// Returns the built-in template, which is never empty.
pub fn built_in_template() -> (template: String)
    ensures
        template@ == default_template(),
        template@.len() > 0,
{
    proof {
        lemma_default_template_holds_tokens();
    }
    let mut template = String::from_str(DEFAULT_TEMPLATE_HEAD);
    template.append(JOB_DESCRIPTION_TOKEN);
    template.append(DEFAULT_TEMPLATE_MIDDLE);
    template.append(RESUME_TOKEN);
    template.append(DEFAULT_TEMPLATE_TAIL);
    template
}

/// Returns the template of a run. `read` is `None` where the user named no
/// template, and else what reading the named file gave. With no file named
/// the built-in template is the answer; a file's text is taken as it is, be
/// it empty; a file that could not be read is an error that holds the cause.
pub fn resolve_template(read: Option<Result<String, std::io::Error>>) -> (template: Result<
    String,
    PipelineError,
>)
    ensures
        read is None ==> template is Ok && template->Ok_0@ == default_template()
            && template->Ok_0@.len() > 0,
        read matches Some(Ok(text)) ==> template == Ok::<String, PipelineError>(text),
        read matches Some(Err(cause)) ==> template == Err::<String, PipelineError>(
            PipelineError::FailedToReadTemplate(cause),
        ),
{
    match read {
        None => Ok(built_in_template()),
        Some(Ok(text)) => Ok(text),
        Some(Err(cause)) => Err(PipelineError::FailedToReadTemplate(cause)),
    }
}

} // verus!
