//! The run as a whole: what is to be done next, given what has happened.
//!
//! The pipeline itself reads no file, fetches no page and asks no model. It
//! names the next thing to do as an [`Action`]; the caller does it and tells
//! the outcome as an [`Event`]; [`Pipeline::step`] then names the next
//! action. A run starts with [`Pipeline::start`] and is over with
//! [`Action::Succeed`] or [`Action::Fail`]. The first failure ends the run:
//! nothing is tried again, and nothing is written after a failure.

use crate::chat::{
    chat_request, content_text, conversation_of, reply_text, request_has_tools, request_messages,
    request_system, response_text, Role,
};
use crate::cli::Cli;
use crate::error::PipelineError;
use crate::extract::{extract, extracted};
use crate::prompt::{build, prompt_of};
use crate::template::{default_template, resolve_template};
use vstd::prelude::*;
use vstd::string::*;

verus! {

/// Whether a run may write where something stands already.
#[derive(Debug, Clone, Copy, PartialEq, Eq, Structural)]
pub enum OverwritePolicy {
    /// Write without looking: what stands at the output path is replaced.
    Allow,
    /// Look first: where something stands at the output path, the run fails
    /// and writes nothing.
    Forbid,
}

/// What the caller is to do next.
#[derive(Debug)]
pub enum Action {
    /// Fetch the page at `url` and tell its body as text.
    FetchJobDescription { url: String },
    /// Read the résumé at `path` as text.
    ReadResume { path: std::path::PathBuf },
    /// Read the user's template at `path` as text.
    ReadTemplate { path: std::path::PathBuf },
    /// Send `request` to the chat model named `model`, with the service's
    /// own defaults for everything else.
    Complete { model: String, request: genai::chat::ChatRequest },
    /// Find out whether something stands at `path`.
    ProbeOutput { path: std::path::PathBuf },
    /// Make `contents` the whole contents of the file at `path`.
    WriteOutput { path: std::path::PathBuf, contents: String },
    /// The run is over: the output is written.
    Succeed,
    /// The run is over: it failed.
    Fail(PipelineError),
    /// Nothing: the event was not the one that the pipeline waits for.
    Wait,
}

/// An action with its texts as sequences of characters, and its request as
/// the messages that it holds.
pub enum ActionView {
    FetchJobDescription { url: Seq<char> },
    ReadResume { path: std::path::PathBuf },
    ReadTemplate { path: std::path::PathBuf },
    Complete {
        model: Seq<char>,
        messages: Seq<(Role, Seq<char>)>,
        system: Option<Seq<char>>,
        has_tools: bool,
    },
    ProbeOutput { path: std::path::PathBuf },
    WriteOutput { path: std::path::PathBuf, contents: Seq<char> },
    Succeed,
    Fail(PipelineError),
    Wait,
}

impl View for Action {
    type V = ActionView;

    open spec fn view(&self) -> ActionView {
        match *self {
            Action::FetchJobDescription { url } => ActionView::FetchJobDescription { url: url@ },
            Action::ReadResume { path } => ActionView::ReadResume { path },
            Action::ReadTemplate { path } => ActionView::ReadTemplate { path },
            Action::Complete { model, request } => ActionView::Complete {
                model: model@,
                messages: request_messages(request),
                system: request_system(request),
                has_tools: request_has_tools(request),
            },
            Action::ProbeOutput { path } => ActionView::ProbeOutput { path },
            Action::WriteOutput { path, contents } => ActionView::WriteOutput {
                path,
                contents: contents@,
            },
            Action::Succeed => ActionView::Succeed,
            Action::Fail(error) => ActionView::Fail(error),
            Action::Wait => ActionView::Wait,
        }
    }
}

/// What the caller tells of an action's outcome.
#[derive(Debug)]
pub enum Event {
    /// The page's body, or why it could not be fetched.
    JobDescriptionFetched(Result<String, reqwest::Error>),
    /// The résumé's text, or why it could not be read.
    ResumeRead(Result<String, std::io::Error>),
    /// The user's template, or why it could not be read.
    TemplateRead(Result<String, std::io::Error>),
    /// The text of the model's answer, `None` where the answer held no
    /// text, or why the service failed.
    Replied(Result<Option<String>, genai::Error>),
    /// Whether something stands at the output path, or why that could
    /// not be found out.
    OutputProbed(Result<bool, std::io::Error>),
    /// That the output is written, or why it could not be.
    OutputWritten(Result<(), std::io::Error>),
}

/// An event with its texts as sequences of characters.
pub enum EventView {
    JobDescriptionFetched(Result<Seq<char>, reqwest::Error>),
    ResumeRead(Result<Seq<char>, std::io::Error>),
    TemplateRead(Result<Seq<char>, std::io::Error>),
    Replied(Result<Option<Seq<char>>, genai::Error>),
    OutputProbed(Result<bool, std::io::Error>),
    OutputWritten(Result<(), std::io::Error>),
}

/// The characters of a text that was read, or the cause that it was not.
pub open spec fn text_view<E>(read: Result<String, E>) -> Result<Seq<char>, E> {
    match read {
        Ok(text) => Ok(text@),
        Err(cause) => Err(cause),
    }
}

impl View for Event {
    type V = EventView;

    open spec fn view(&self) -> EventView {
        match *self {
            Event::JobDescriptionFetched(fetched) => EventView::JobDescriptionFetched(
                text_view(fetched),
            ),
            Event::ResumeRead(read) => EventView::ResumeRead(text_view(read)),
            Event::TemplateRead(read) => EventView::TemplateRead(text_view(read)),
            Event::Replied(Ok(Some(text))) => EventView::Replied(Ok(Some(text@))),
            Event::Replied(Ok(None)) => EventView::Replied(Ok(None)),
            Event::Replied(Err(cause)) => EventView::Replied(Err(cause)),
            Event::OutputProbed(probed) => EventView::OutputProbed(probed),
            Event::OutputWritten(written) => EventView::OutputWritten(written),
        }
    }
}

/// Where a run stands: what it waits for, and what it holds for later.
#[derive(Debug)]
pub enum Pipeline {
    /// Waits for the job description's page.
    FetchingJobDescription {
        input: std::path::PathBuf,
        template: Option<std::path::PathBuf>,
        model: String,
        output: std::path::PathBuf,
        policy: OverwritePolicy,
    },
    /// Holds the job description and waits for the résumé.
    ReadingResume {
        job_description_html: String,
        template: Option<std::path::PathBuf>,
        model: String,
        output: std::path::PathBuf,
        policy: OverwritePolicy,
    },
    /// Holds the job description and the résumé, and waits for the user's
    /// template.
    ReadingTemplate {
        job_description_html: String,
        resume: String,
        model: String,
        output: std::path::PathBuf,
        policy: OverwritePolicy,
    },
    /// Has sent the prompt and waits for the model's answer.
    AwaitingReply { output: std::path::PathBuf, policy: OverwritePolicy },
    /// Holds the document and waits to hear whether something stands at the
    /// output path.
    ProbingOutput { output: std::path::PathBuf, document: String },
    /// Waits for the document to be written.
    WritingOutput,
    /// The run is over.
    Finished,
}

/// A run's state with its texts as sequences of characters.
pub enum PipelineView {
    FetchingJobDescription {
        input: std::path::PathBuf,
        template: Option<std::path::PathBuf>,
        model: Seq<char>,
        output: std::path::PathBuf,
        policy: OverwritePolicy,
    },
    ReadingResume {
        job_description_html: Seq<char>,
        template: Option<std::path::PathBuf>,
        model: Seq<char>,
        output: std::path::PathBuf,
        policy: OverwritePolicy,
    },
    ReadingTemplate {
        job_description_html: Seq<char>,
        resume: Seq<char>,
        model: Seq<char>,
        output: std::path::PathBuf,
        policy: OverwritePolicy,
    },
    AwaitingReply { output: std::path::PathBuf, policy: OverwritePolicy },
    ProbingOutput { output: std::path::PathBuf, document: Seq<char> },
    WritingOutput,
    Finished,
}

impl View for Pipeline {
    type V = PipelineView;

    open spec fn view(&self) -> PipelineView {
        match *self {
            Pipeline::FetchingJobDescription { input, template, model, output, policy } => {
                PipelineView::FetchingJobDescription {
                    input,
                    template,
                    model: model@,
                    output,
                    policy,
                }
            },
            Pipeline::ReadingResume { job_description_html, template, model, output, policy } => {
                PipelineView::ReadingResume {
                    job_description_html: job_description_html@,
                    template,
                    model: model@,
                    output,
                    policy,
                }
            },
            Pipeline::ReadingTemplate { job_description_html, resume, model, output, policy } => {
                PipelineView::ReadingTemplate {
                    job_description_html: job_description_html@,
                    resume: resume@,
                    model: model@,
                    output,
                    policy,
                }
            },
            Pipeline::AwaitingReply { output, policy } => PipelineView::AwaitingReply {
                output,
                policy,
            },
            Pipeline::ProbingOutput { output, document } => PipelineView::ProbingOutput {
                output,
                document: document@,
            },
            Pipeline::WritingOutput => PipelineView::WritingOutput,
            Pipeline::Finished => PipelineView::Finished,
        }
    }
}

/// The reply that an answer's text stands for: the text, or the empty text
/// where the answer held none.
pub open spec fn reply_of(content: Option<Seq<char>>) -> Seq<char> {
    match content {
        Some(text) => text,
        None => Seq::empty(),
    }
}

/// With everything read: the prompt is built and sent, as a conversation
/// of two messages and nothing besides, and the run waits for the answer.
pub open spec fn asked(
    template: Seq<char>,
    job_description_html: Seq<char>,
    resume: Seq<char>,
    model: Seq<char>,
    output: std::path::PathBuf,
    policy: OverwritePolicy,
) -> (PipelineView, ActionView) {
    (
        PipelineView::AwaitingReply { output, policy },
        ActionView::Complete {
            model,
            messages: conversation_of(prompt_of(template, job_description_html, resume)),
            system: None,
            has_tools: false,
        },
    )
}

/// With the document at hand: it is written at once where overwriting is
/// allowed, and else the output path is looked at first.
pub open spec fn delivered(
    document: Seq<char>,
    output: std::path::PathBuf,
    policy: OverwritePolicy,
) -> (PipelineView, ActionView) {
    match policy {
        OverwritePolicy::Allow => (
            PipelineView::WritingOutput,
            ActionView::WriteOutput { path: output, contents: document },
        ),
        OverwritePolicy::Forbid => (
            PipelineView::ProbingOutput { output, document },
            ActionView::ProbeOutput { path: output },
        ),
    }
}

/// The state that follows `state` on `event`, and the action to take.
///
/// Each stage waits for one kind of event. Its failure ends the run with the
/// error of that stage, holding the cause. Its success leads on: from the
/// job description to the résumé, from there to the user's template if one
/// was named, then to the model with the prompt built, then to the output,
/// which gets the document cut out of the reply. Where overwriting is
/// forbidden, only the news that something stands at the output path stops
/// the writing; a look that failed does not. Any other event changes
/// nothing.
pub open spec fn step_of(state: PipelineView, event: EventView) -> (PipelineView, ActionView) {
    match (state, event) {
        (
            PipelineView::FetchingJobDescription { input, template, model, output, policy },
            EventView::JobDescriptionFetched(fetched),
        ) => match fetched {
            Ok(job_description_html) => (
                PipelineView::ReadingResume {
                    job_description_html,
                    template,
                    model,
                    output,
                    policy,
                },
                ActionView::ReadResume { path: input },
            ),
            Err(cause) => (
                PipelineView::Finished,
                ActionView::Fail(PipelineError::FailedToFetchJobDescriptionPage(cause)),
            ),
        },
        (
            PipelineView::ReadingResume { job_description_html, template, model, output, policy },
            EventView::ResumeRead(read),
        ) => match read {
            Ok(resume) => match template {
                Some(path) => (
                    PipelineView::ReadingTemplate {
                        job_description_html,
                        resume,
                        model,
                        output,
                        policy,
                    },
                    ActionView::ReadTemplate { path },
                ),
                None => asked(
                    default_template(),
                    job_description_html,
                    resume,
                    model,
                    output,
                    policy,
                ),
            },
            Err(cause) => (
                PipelineView::Finished,
                ActionView::Fail(PipelineError::FailedToReadResume(cause)),
            ),
        },
        (
            PipelineView::ReadingTemplate { job_description_html, resume, model, output, policy },
            EventView::TemplateRead(read),
        ) => match read {
            Ok(template) => asked(template, job_description_html, resume, model, output, policy),
            Err(cause) => (
                PipelineView::Finished,
                ActionView::Fail(PipelineError::FailedToReadTemplate(cause)),
            ),
        },
        (PipelineView::AwaitingReply { output, policy }, EventView::Replied(replied)) => match replied {
            Ok(content) => delivered(extracted(reply_of(content)), output, policy),
            Err(cause) => (
                PipelineView::Finished,
                ActionView::Fail(PipelineError::GeminiError(cause)),
            ),
        },
        (PipelineView::ProbingOutput { output, document }, EventView::OutputProbed(probed)) => {
            if probed == Ok::<bool, std::io::Error>(true) {
                (
                    PipelineView::Finished,
                    ActionView::Fail(PipelineError::OutputAlreadyExists(output)),
                )
            } else {
                (
                    PipelineView::WritingOutput,
                    ActionView::WriteOutput { path: output, contents: document },
                )
            }
        },
        (PipelineView::WritingOutput, EventView::OutputWritten(written)) => match written {
            Ok(_) => (PipelineView::Finished, ActionView::Succeed),
            Err(cause) => (
                PipelineView::Finished,
                ActionView::Fail(PipelineError::FailedToWriteOutput(cause)),
            ),
        },
        _ => (state, ActionView::Wait),
    }
}

/// Builds the prompt, and asks the model.
fn ask(
    template: String,
    job_description_html: String,
    resume: String,
    model: String,
    output: std::path::PathBuf,
    policy: OverwritePolicy,
) -> (next: (Pipeline, Action))
    ensures
        (next.0@, next.1@) == asked(
            template@,
            job_description_html@,
            resume@,
            model@,
            output,
            policy,
        ),
{
    let prompt = build(template.as_str(), job_description_html.as_str(), resume.as_str());
    let request = chat_request(prompt);
    (Pipeline::AwaitingReply { output, policy }, Action::Complete { model, request })
}

/// Has the document written, after a look at the output path where
/// overwriting is forbidden.
fn deliver(document: String, output: std::path::PathBuf, policy: OverwritePolicy) -> (next: (
    Pipeline,
    Action,
))
    ensures
        (next.0@, next.1@) == delivered(document@, output, policy),
{
    match policy {
        OverwritePolicy::Allow => (
            Pipeline::WritingOutput,
            Action::WriteOutput { path: output, contents: document },
        ),
        OverwritePolicy::Forbid => {
            let path = output.clone();
            (Pipeline::ProbingOutput { output, document }, Action::ProbeOutput { path })
        },
    }
}

impl Event {
    /// The event that tells of the chat service's answer: the text that the
    /// answer holds, `None` where it holds none, or the failure as it is.
    pub fn replied(outcome: Result<genai::chat::ChatResponse, genai::Error>) -> (event: Event)
        ensures
            outcome matches Ok(response) ==> event@ == EventView::Replied(
                Ok(response_text(response)),
            ),
            outcome matches Err(cause) ==> event == Event::Replied(Err(cause)),
    {
        match outcome {
            Ok(response) => Event::Replied(Ok(content_text(response))),
            Err(cause) => Event::Replied(Err(cause)),
        }
    }
}

impl Pipeline {
    /// Starts a run with the given settings: the job description is to be
    /// fetched first.
    pub fn start(cli: Cli, policy: OverwritePolicy) -> (first: (Pipeline, Action))
        ensures
            first.0@ == (PipelineView::FetchingJobDescription {
                input: cli@.input,
                template: cli@.template,
                model: cli@.model,
                output: cli@.output,
                policy,
            }),
            first.1@ == (ActionView::FetchJobDescription { url: cli@.job_description_url }),
    {
        let Cli { input, output, api_key: _, job_description_url, template, model } = cli;
        (
            Pipeline::FetchingJobDescription { input, template, model, output, policy },
            Action::FetchJobDescription { url: job_description_url },
        )
    }

    /// Tells whether the run is over.
    pub fn is_finished(&self) -> (finished: bool)
        ensures
            finished == (self@ == PipelineView::Finished),
    {
        match self {
            Pipeline::Finished => true,
            _ => false,
        }
    }

    /// Takes an event and returns the state that follows with the action to
    /// take next.
    pub fn step(self, event: Event) -> (next: (Pipeline, Action))
        ensures
            (next.0@, next.1@) == step_of(self@, event@),
    {
        match (self, event) {
            (
                Pipeline::FetchingJobDescription { input, template, model, output, policy },
                Event::JobDescriptionFetched(fetched),
            ) => match fetched {
                Ok(job_description_html) => (
                    Pipeline::ReadingResume {
                        job_description_html,
                        template,
                        model,
                        output,
                        policy,
                    },
                    Action::ReadResume { path: input },
                ),
                Err(cause) => (
                    Pipeline::Finished,
                    Action::Fail(PipelineError::FailedToFetchJobDescriptionPage(cause)),
                ),
            },
            (
                Pipeline::ReadingResume { job_description_html, template, model, output, policy },
                Event::ResumeRead(read),
            ) => match read {
                Ok(resume) => match template {
                    Some(path) => (
                        Pipeline::ReadingTemplate {
                            job_description_html,
                            resume,
                            model,
                            output,
                            policy,
                        },
                        Action::ReadTemplate { path },
                    ),
                    None => match resolve_template(None) {
                        Ok(template) => ask(
                            template,
                            job_description_html,
                            resume,
                            model,
                            output,
                            policy,
                        ),
                        Err(error) => (Pipeline::Finished, Action::Fail(error)),
                    },
                },
                Err(cause) => (
                    Pipeline::Finished,
                    Action::Fail(PipelineError::FailedToReadResume(cause)),
                ),
            },
            (
                Pipeline::ReadingTemplate { job_description_html, resume, model, output, policy },
                Event::TemplateRead(read),
            ) => match resolve_template(Some(read)) {
                Ok(template) => ask(template, job_description_html, resume, model, output, policy),
                Err(error) => (Pipeline::Finished, Action::Fail(error)),
            },
            (Pipeline::AwaitingReply { output, policy }, Event::Replied(replied)) => match replied {
                Ok(content) => {
                    let reply = reply_text(content);
                    let document = extract(reply.as_str()).to_owned();
                    deliver(document, output, policy)
                },
                Err(cause) => (Pipeline::Finished, Action::Fail(PipelineError::GeminiError(cause))),
            },
            (Pipeline::ProbingOutput { output, document }, Event::OutputProbed(probed)) => {
                match probed {
                    Ok(true) => (
                        Pipeline::Finished,
                        Action::Fail(PipelineError::OutputAlreadyExists(output)),
                    ),
                    _ => (
                        Pipeline::WritingOutput,
                        Action::WriteOutput { path: output, contents: document },
                    ),
                }
            },
            (Pipeline::WritingOutput, Event::OutputWritten(written)) => match written {
                Ok(_) => (Pipeline::Finished, Action::Succeed),
                Err(cause) => (
                    Pipeline::Finished,
                    Action::Fail(PipelineError::FailedToWriteOutput(cause)),
                ),
            },
            (state, _) => (state, Action::Wait),
        }
    }
}

/// What the files hold once the caller has done `action` and it went well: a
/// write makes its contents the whole contents at its path, and no other
/// action changes a file.
pub open spec fn files_after(
    files: Map<std::path::PathBuf, Seq<char>>,
    action: ActionView,
) -> Map<std::path::PathBuf, Seq<char>> {
    match action {
        ActionView::WriteOutput { path, contents } => files.insert(path, contents),
        _ => files,
    }
}

/// What a look at `path` tells where it goes well: whether the files hold an
/// entry there.
pub open spec fn probed(files: Map<std::path::PathBuf, Seq<char>>, path: std::path::PathBuf) -> EventView {
    EventView::OutputProbed(Ok(files.contains_key(path)))
}

/// Where overwriting is forbidden and something stands at the output path,
/// the run ends with the error that names the path, and the files are left as
/// they were: the model's answer leads to a look at the path, and the look
/// to the failure, with no write between.
pub proof fn lemma_forbid_keeps_existing_output(
    files: Map<std::path::PathBuf, Seq<char>>,
    output: std::path::PathBuf,
    content: Option<Seq<char>>,
)
    requires
        files.contains_key(output),
    ensures
        ({
            let waiting = PipelineView::AwaitingReply { output, policy: OverwritePolicy::Forbid };
            let (looking, look) = step_of(waiting, EventView::Replied(Ok(content)));
            let (over, last) = step_of(looking, probed(files_after(files, look), output));
            &&& look == ActionView::ProbeOutput { path: output }
            &&& last == ActionView::Fail(PipelineError::OutputAlreadyExists(output))
            &&& over == PipelineView::Finished
            &&& files_after(files_after(files, look), last) == files
        }),
{
}

/// Where nothing stands at the output path, the run writes there exactly the
/// document cut out of the reply, and succeeds once that is done, whether
/// overwriting is forbidden or allowed.
pub proof fn lemma_absent_output_gets_document(
    files: Map<std::path::PathBuf, Seq<char>>,
    output: std::path::PathBuf,
    content: Option<Seq<char>>,
)
    requires
        !files.contains_key(output),
    ensures
        ({
            let waiting = PipelineView::AwaitingReply { output, policy: OverwritePolicy::Forbid };
            let (looking, look) = step_of(waiting, EventView::Replied(Ok(content)));
            let (writing, write) = step_of(looking, probed(files_after(files, look), output));
            let written = files_after(files_after(files, look), write);
            &&& write == ActionView::WriteOutput {
                path: output,
                contents: extracted(reply_of(content)),
            }
            &&& written == files.insert(output, extracted(reply_of(content)))
            &&& step_of(writing, EventView::OutputWritten(Ok(()))) == (
                PipelineView::Finished,
                ActionView::Succeed,
            )
        }),
        ({
            let waiting = PipelineView::AwaitingReply { output, policy: OverwritePolicy::Allow };
            let (writing, write) = step_of(waiting, EventView::Replied(Ok(content)));
            &&& files_after(files, write) == files.insert(output, extracted(reply_of(content)))
            &&& step_of(writing, EventView::OutputWritten(Ok(()))) == (
                PipelineView::Finished,
                ActionView::Succeed,
            )
        }),
{
}

/// A failure ends the run, and a run that is over stays over: it asks for
/// nothing more, so nothing is written after a failure.
pub proof fn lemma_failure_is_final(state: PipelineView, event: EventView, later: EventView)
    ensures
        step_of(state, event).1 is Fail ==> step_of(state, event).0 == PipelineView::Finished,
        step_of(PipelineView::Finished, later) == (PipelineView::Finished, ActionView::Wait),
{
}

} // verus!
