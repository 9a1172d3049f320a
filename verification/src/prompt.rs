//! Assembling the prompt from a template.
//!
//! A template is plain text with two placeholders, one for the job
//! description and one for the résumé. Building the prompt replaces every
//! occurrence of each by its content, the job description first. A template
//! without a placeholder is no error: the content meant for it is left out.

use crate::text::{
    ends_uniquely, lemma_overlap_ends_together, lemma_replaced_absent, lemma_replaced_once,
    lemma_replaced_sole, occurs, occurs_at, occurs_once_at, replaced, substitute,
};
use vstd::prelude::*;
use vstd::string::*;

verus! {

/// The placeholder that the job description's markup takes the place of.
pub const JOB_DESCRIPTION_TOKEN: &'static str = "{{job_description_html}}!";

/// The placeholder that the résumé's text takes the place of.
pub const RESUME_TOKEN: &'static str = "{{resume}}!";

/// The prompt that a template gives with the two contents: the template with
/// the job description in place of its placeholder, and then the résumé in
/// place of its own.
pub open spec fn prompt_of(template: Seq<char>, job: Seq<char>, resume: Seq<char>) -> Seq<char> {
    replaced(replaced(template, JOB_DESCRIPTION_TOKEN@, job), RESUME_TOKEN@, resume)
}

/// Builds the prompt from `template`, putting `job_description_html` and
/// `resume_text` in place of their placeholders.
pub fn build(template: &str, job_description_html: &str, resume_text: &str) -> (prompt: String)
    ensures
        prompt@ == prompt_of(template@, job_description_html@, resume_text@),
{
    let with_job = substitute(template, JOB_DESCRIPTION_TOKEN, job_description_html);
    substitute(with_job.as_str(), RESUME_TOKEN, resume_text)
}

/// Five texts in a row: what stands before, between and behind two parts of
/// a text, with the two parts in their places.
pub open spec fn laid_out(
    head: Seq<char>,
    first: Seq<char>,
    middle: Seq<char>,
    second: Seq<char>,
    tail: Seq<char>,
) -> Seq<char> {
    head + first + middle + second + tail
}

/// Each placeholder ends in a character that stands nowhere else in it, so
/// that two occurrences of one placeholder never overlap.
pub proof fn lemma_tokens_end_uniquely()
    ensures
        ends_uniquely(JOB_DESCRIPTION_TOKEN@),
        ends_uniquely(RESUME_TOKEN@),
{
    reveal_strlit("{{job_description_html}}!");
    reveal_strlit("{{resume}}!");
}

/// A template that holds each placeholder exactly once, the job description's
/// before the résumé's, gives a prompt that holds the two contents in the
/// placeholders' places and the template's own text unchanged around them,
/// and that holds no placeholder any more. The contents hold no placeholder
/// themselves, and none arises where they meet the text around them.
proof fn lemma_prompt_fills_job_then_resume(
    head: Seq<char>,
    middle: Seq<char>,
    tail: Seq<char>,
    job: Seq<char>,
    resume: Seq<char>,
)
    requires
        occurs_once_at(
            laid_out(head, JOB_DESCRIPTION_TOKEN@, middle, RESUME_TOKEN@, tail),
            JOB_DESCRIPTION_TOKEN@,
            head.len() as int,
        ),
        occurs_once_at(
            laid_out(head, JOB_DESCRIPTION_TOKEN@, middle, RESUME_TOKEN@, tail),
            RESUME_TOKEN@,
            (head.len() + JOB_DESCRIPTION_TOKEN@.len() + middle.len()) as int,
        ),
        !occurs(job, JOB_DESCRIPTION_TOKEN@),
        !occurs(job, RESUME_TOKEN@),
        !occurs(resume, JOB_DESCRIPTION_TOKEN@),
        !occurs(resume, RESUME_TOKEN@),
        !occurs(laid_out(head, job, middle, resume, tail), JOB_DESCRIPTION_TOKEN@),
        !occurs(laid_out(head, job, middle, resume, tail), RESUME_TOKEN@),
    ensures
        prompt_of(
            laid_out(head, JOB_DESCRIPTION_TOKEN@, middle, RESUME_TOKEN@, tail),
            job,
            resume,
        ) == laid_out(head, job, middle, resume, tail),
        !occurs(
            prompt_of(
                laid_out(head, JOB_DESCRIPTION_TOKEN@, middle, RESUME_TOKEN@, tail),
                job,
                resume,
            ),
            JOB_DESCRIPTION_TOKEN@,
        ),
        !occurs(
            prompt_of(
                laid_out(head, JOB_DESCRIPTION_TOKEN@, middle, RESUME_TOKEN@, tail),
                job,
                resume,
            ),
            RESUME_TOKEN@,
        ),
{
    let job_token = JOB_DESCRIPTION_TOKEN@;
    let resume_token = RESUME_TOKEN@;
    let template = laid_out(head, job_token, middle, resume_token, tail);
    lemma_tokens_end_uniquely();
    let behind = middle + resume_token + tail;
    assert(template =~= head + job_token + behind);
    lemma_replaced_once(head, job_token, behind, job);
    let with_job = replaced(template, job_token, job);
    let before = head + job + middle;
    assert(with_job =~= before + resume_token + tail);
    assert(laid_out(head, job, middle, resume, tail) =~= before + resume + tail);
    lemma_replaced_sole(before, resume_token, tail, resume);
}

/// The same for a template that holds the résumé's placeholder before the
/// job description's.
proof fn lemma_prompt_fills_resume_then_job(
    head: Seq<char>,
    middle: Seq<char>,
    tail: Seq<char>,
    job: Seq<char>,
    resume: Seq<char>,
)
    requires
        occurs_once_at(
            laid_out(head, RESUME_TOKEN@, middle, JOB_DESCRIPTION_TOKEN@, tail),
            RESUME_TOKEN@,
            head.len() as int,
        ),
        occurs_once_at(
            laid_out(head, RESUME_TOKEN@, middle, JOB_DESCRIPTION_TOKEN@, tail),
            JOB_DESCRIPTION_TOKEN@,
            (head.len() + RESUME_TOKEN@.len() + middle.len()) as int,
        ),
        !occurs(job, JOB_DESCRIPTION_TOKEN@),
        !occurs(job, RESUME_TOKEN@),
        !occurs(resume, JOB_DESCRIPTION_TOKEN@),
        !occurs(resume, RESUME_TOKEN@),
        !occurs(laid_out(head, resume, middle, job, tail), JOB_DESCRIPTION_TOKEN@),
        !occurs(laid_out(head, resume, middle, job, tail), RESUME_TOKEN@),
    ensures
        prompt_of(
            laid_out(head, RESUME_TOKEN@, middle, JOB_DESCRIPTION_TOKEN@, tail),
            job,
            resume,
        ) == laid_out(head, resume, middle, job, tail),
        !occurs(
            prompt_of(
                laid_out(head, RESUME_TOKEN@, middle, JOB_DESCRIPTION_TOKEN@, tail),
                job,
                resume,
            ),
            JOB_DESCRIPTION_TOKEN@,
        ),
        !occurs(
            prompt_of(
                laid_out(head, RESUME_TOKEN@, middle, JOB_DESCRIPTION_TOKEN@, tail),
                job,
                resume,
            ),
            RESUME_TOKEN@,
        ),
{
    let job_token = JOB_DESCRIPTION_TOKEN@;
    let resume_token = RESUME_TOKEN@;
    let template = laid_out(head, resume_token, middle, job_token, tail);
    lemma_tokens_end_uniquely();
    let before = head + resume_token + middle;
    assert(template =~= before + job_token + tail);
    lemma_replaced_once(before, job_token, tail, job);
    let with_job = replaced(template, job_token, job);
    let behind = middle + job + tail;
    assert(with_job =~= head + resume_token + behind);
    assert(laid_out(head, resume, middle, job, tail) =~= head + resume + behind);
    lemma_replaced_sole(head, resume_token, behind, resume);
}

/// The two placeholders never overlap in a text, whichever comes first.
pub proof fn lemma_tokens_lie_apart(text: Seq<char>, at_job: int, at_resume: int)
    requires
        occurs_at(text, JOB_DESCRIPTION_TOKEN@, at_job),
        occurs_at(text, RESUME_TOKEN@, at_resume),
    ensures
        at_job + JOB_DESCRIPTION_TOKEN@.len() <= at_resume || at_resume + RESUME_TOKEN@.len()
            <= at_job,
{
    let job_token = JOB_DESCRIPTION_TOKEN@;
    let resume_token = RESUME_TOKEN@;
    lemma_tokens_end_uniquely();
    reveal_strlit("{{job_description_html}}!");
    reveal_strlit("{{resume}}!");
    if at_job < at_resume + resume_token.len() && at_resume < at_job + job_token.len() {
        lemma_overlap_ends_together(text, job_token, at_job, resume_token, at_resume);
        let at = at_resume + 7;
        assert(text.subrange(at_resume, at_resume + resume_token.len())[7] == text[at]);
        assert(text.subrange(at_job, at_job + job_token.len())[21] == text[at]);
        assert(resume_token[7] == 'e');
        assert(job_token[21] == 'l');
    }
}

/// A template with the contents in place of the placeholders that stand in
/// it at `at_job` and `at_resume`, and nothing else changed.
pub open spec fn filled(
    template: Seq<char>,
    at_job: int,
    at_resume: int,
    job: Seq<char>,
    resume: Seq<char>,
) -> Seq<char> {
    if at_job < at_resume {
        laid_out(
            template.take(at_job),
            job,
            template.subrange(at_job + JOB_DESCRIPTION_TOKEN@.len(), at_resume),
            resume,
            template.skip(at_resume + RESUME_TOKEN@.len()),
        )
    } else {
        laid_out(
            template.take(at_resume),
            resume,
            template.subrange(at_resume + RESUME_TOKEN@.len(), at_job),
            job,
            template.skip(at_job + JOB_DESCRIPTION_TOKEN@.len()),
        )
    }
}

/// A template that holds each placeholder exactly once gives a prompt that
/// holds the two contents in the placeholders' places, the template's own
/// text unchanged around them, and no placeholder any more. The contents hold
/// no placeholder themselves, and none arises where they meet the text around
/// them.
pub proof fn lemma_prompt_fills_both(
    template: Seq<char>,
    at_job: int,
    at_resume: int,
    job: Seq<char>,
    resume: Seq<char>,
)
    requires
        occurs_once_at(template, JOB_DESCRIPTION_TOKEN@, at_job),
        occurs_once_at(template, RESUME_TOKEN@, at_resume),
        !occurs(job, JOB_DESCRIPTION_TOKEN@),
        !occurs(job, RESUME_TOKEN@),
        !occurs(resume, JOB_DESCRIPTION_TOKEN@),
        !occurs(resume, RESUME_TOKEN@),
        !occurs(filled(template, at_job, at_resume, job, resume), JOB_DESCRIPTION_TOKEN@),
        !occurs(filled(template, at_job, at_resume, job, resume), RESUME_TOKEN@),
    ensures
        prompt_of(template, job, resume) == filled(template, at_job, at_resume, job, resume),
        !occurs(prompt_of(template, job, resume), JOB_DESCRIPTION_TOKEN@),
        !occurs(prompt_of(template, job, resume), RESUME_TOKEN@),
{
    let job_token = JOB_DESCRIPTION_TOKEN@;
    let resume_token = RESUME_TOKEN@;
    lemma_tokens_end_uniquely();
    lemma_tokens_lie_apart(template, at_job, at_resume);
    if at_job < at_resume {
        let head = template.take(at_job);
        let middle = template.subrange(at_job + job_token.len(), at_resume);
        let tail = template.skip(at_resume + resume_token.len());
        assert(template =~= laid_out(head, job_token, middle, resume_token, tail));
        lemma_prompt_fills_job_then_resume(head, middle, tail, job, resume);
    } else {
        let head = template.take(at_resume);
        let middle = template.subrange(at_resume + resume_token.len(), at_job);
        let tail = template.skip(at_job + job_token.len());
        assert(template =~= laid_out(head, resume_token, middle, job_token, tail));
        lemma_prompt_fills_resume_then_job(head, middle, tail, job, resume);
    }
}

/// A template without the job description's placeholder gives the prompt
/// that it gives with any other job description: the job description is left
/// out, and only the résumé is put in.
pub proof fn lemma_prompt_without_job_token(
    template: Seq<char>,
    job: Seq<char>,
    resume: Seq<char>,
)
    requires
        !occurs(template, JOB_DESCRIPTION_TOKEN@),
    ensures
        prompt_of(template, job, resume) == replaced(template, RESUME_TOKEN@, resume),
{
    lemma_replaced_absent(template, JOB_DESCRIPTION_TOKEN@, job);
}

/// A template without the résumé's placeholder gives a prompt without the
/// résumé: only the job description is put in. The job description, put in,
/// must not make up that placeholder itself.
pub proof fn lemma_prompt_without_resume_token(
    template: Seq<char>,
    job: Seq<char>,
    resume: Seq<char>,
)
    requires
        !occurs(template, RESUME_TOKEN@),
        !occurs(replaced(template, JOB_DESCRIPTION_TOKEN@, job), RESUME_TOKEN@),
    ensures
        prompt_of(template, job, resume) == replaced(template, JOB_DESCRIPTION_TOKEN@, job),
{
    lemma_replaced_absent(replaced(template, JOB_DESCRIPTION_TOKEN@, job), RESUME_TOKEN@, resume);
}

/// A template without any placeholder is the prompt, whatever the contents.
pub proof fn lemma_prompt_without_tokens(template: Seq<char>, job: Seq<char>, resume: Seq<char>)
    requires
        !occurs(template, JOB_DESCRIPTION_TOKEN@),
        !occurs(template, RESUME_TOKEN@),
    ensures
        prompt_of(template, job, resume) == template,
{
    lemma_replaced_absent(template, JOB_DESCRIPTION_TOKEN@, job);
    lemma_replaced_absent(template, RESUME_TOKEN@, resume);
}

} // verus!
