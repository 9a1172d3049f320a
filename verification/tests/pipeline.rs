use genai::chat::ChatRole;
use modifai_resume::chat::SYSTEM_INSTRUCTION;
use modifai_resume::cli::Cli;
use modifai_resume::error::PipelineError;
use modifai_resume::pipeline::{Action, Event, OverwritePolicy, Pipeline};
use modifai_resume::template::built_in_template;
use std::collections::HashMap;
use std::path::PathBuf;

const URL: &str = "https://jobs.example/backend";
const MODEL: &str = "gemini-2.0-pro-exp-02-05";

/// A stand-in for everything outside the pipeline.
struct World {
    pages: HashMap<String, String>,
    files: HashMap<PathBuf, String>,
    answer: Option<String>,
    service_fails: bool,
    write_fails: bool,
    probe_fails: bool,
    prompts: Vec<String>,
    models: Vec<String>,
    done: Vec<&'static str>,
}

fn world() -> World {
    let mut pages = HashMap::new();
    pages.insert(String::from(URL), String::from("<h1>Backend Engineer</h1>"));
    let mut files = HashMap::new();
    files.insert(PathBuf::from("resume.tex"), String::from("\\name{John Doe}"));
    files.insert(
        PathBuf::from("template.md"),
        String::from("JOB:{{job_description_html}}! RESUME:{{resume}}!"),
    );
    World {
        pages,
        files,
        answer: Some(String::from("```latex\n\\name{John Doe, Backend}```")),
        service_fails: false,
        write_fails: false,
        probe_fails: false,
        prompts: Vec::new(),
        models: Vec::new(),
        done: Vec::new(),
    }
}

fn cli(template: Option<&str>) -> Cli {
    Cli {
        input: PathBuf::from("resume.tex"),
        output: PathBuf::from("out.tex"),
        api_key: String::from("SECRET-REDACTED"),
        job_description_url: String::from(URL),
        template: template.map(PathBuf::from),
        model: String::from(MODEL),
    }
}

fn io_error(kind: std::io::ErrorKind) -> std::io::Error {
    std::io::Error::new(kind, "refused by the stand-in")
}

fn fetch_error() -> reqwest::Error {
    reqwest::Client::new().get("not an address").build().unwrap_err()
}

fn read(world: &World, path: &PathBuf) -> Result<String, std::io::Error> {
    match world.files.get(path) {
        Some(text) => Ok(text.clone()),
        None => Err(io_error(std::io::ErrorKind::NotFound)),
    }
}

/// Does what the pipeline asks for, on the stand-in, until the run is over.
fn run(world: &mut World, cli: Cli, policy: OverwritePolicy) -> Result<(), PipelineError> {
    let (mut pipeline, mut action) = Pipeline::start(cli, policy);
    loop {
        let event = match action {
            Action::FetchJobDescription { url } => {
                world.done.push("fetch");
                Event::JobDescriptionFetched(match world.pages.get(&url) {
                    Some(body) => Ok(body.clone()),
                    None => Err(fetch_error()),
                })
            },
            Action::ReadResume { path } => {
                world.done.push("read resume");
                Event::ResumeRead(read(world, &path))
            },
            Action::ReadTemplate { path } => {
                world.done.push("read template");
                Event::TemplateRead(read(world, &path))
            },
            Action::Complete { model, request } => {
                world.done.push("complete");
                assert_eq!(request.messages.len(), 2);
                assert!(matches!(request.messages[0].role, ChatRole::System));
                assert_eq!(request.messages[0].content.text_as_str(), Some(SYSTEM_INSTRUCTION));
                assert!(matches!(request.messages[1].role, ChatRole::User));
                let prompt = request.messages[1].content.text_as_str().unwrap();
                world.prompts.push(String::from(prompt));
                world.models.push(model);
                Event::Replied(if world.service_fails {
                    Err(genai::Error::JsonModeWithoutInstruction)
                } else {
                    Ok(world.answer.clone())
                })
            },
            Action::ProbeOutput { path } => {
                world.done.push("probe");
                Event::OutputProbed(if world.probe_fails {
                    Err(io_error(std::io::ErrorKind::PermissionDenied))
                } else {
                    Ok(world.files.contains_key(&path))
                })
            },
            Action::WriteOutput { path, contents } => {
                world.done.push("write");
                Event::OutputWritten(if world.write_fails {
                    Err(io_error(std::io::ErrorKind::PermissionDenied))
                } else {
                    world.files.insert(path, contents);
                    Ok(())
                })
            },
            Action::Succeed => {
                assert!(pipeline.is_finished());
                return Ok(());
            },
            Action::Fail(error) => {
                assert!(pipeline.is_finished());
                return Err(error);
            },
            Action::Wait => panic!("the pipeline was told what it had asked for"),
        };
        let next = pipeline.step(event);
        pipeline = next.0;
        action = next.1;
    }
}

#[test]
fn run_with_user_template_writes_the_document() {
    let mut world = world();
    let result = run(&mut world, cli(Some("template.md")), OverwritePolicy::Forbid);
    assert!(result.is_ok());
    assert_eq!(
        world.done,
        vec!["fetch", "read resume", "read template", "complete", "probe", "write"]
    );
    assert_eq!(
        world.prompts,
        vec![String::from("JOB:<h1>Backend Engineer</h1> RESUME:\\name{John Doe}")]
    );
    assert_eq!(world.models, vec![String::from(MODEL)]);
    assert_eq!(world.files[&PathBuf::from("out.tex")], "\\name{John Doe, Backend}");
}

#[test]
fn run_without_user_template_uses_the_built_in_one() {
    let mut world = world();
    let result = run(&mut world, cli(None), OverwritePolicy::Allow);
    assert!(result.is_ok());
    assert_eq!(world.done, vec!["fetch", "read resume", "complete", "write"]);
    let expected = built_in_template()
        .replace("{{job_description_html}}!", "<h1>Backend Engineer</h1>")
        .replace("{{resume}}!", "\\name{John Doe}");
    assert_eq!(world.prompts, vec![expected]);
    assert_eq!(world.files[&PathBuf::from("out.tex")], "\\name{John Doe, Backend}");
}

#[test]
fn strict_run_leaves_an_existing_output_untouched() {
    let mut world = world();
    world.files.insert(PathBuf::from("out.tex"), String::from("what stood there before"));
    let result = run(&mut world, cli(None), OverwritePolicy::Forbid);
    match result {
        Err(PipelineError::OutputAlreadyExists(path)) => assert_eq!(path, PathBuf::from("out.tex")),
        other => panic!("unexpected: {:?}", other),
    }
    assert_eq!(world.done, vec!["fetch", "read resume", "complete", "probe"]);
    assert_eq!(world.files[&PathBuf::from("out.tex")], "what stood there before");
}

#[test]
fn strict_run_creates_an_absent_output_with_the_document() {
    let mut world = world();
    assert!(!world.files.contains_key(&PathBuf::from("out.tex")));
    let result = run(&mut world, cli(None), OverwritePolicy::Forbid);
    assert!(result.is_ok());
    assert_eq!(world.files[&PathBuf::from("out.tex")], "\\name{John Doe, Backend}");
}

#[test]
fn strict_run_writes_when_the_look_fails() {
    let mut world = world();
    world.probe_fails = true;
    let result = run(&mut world, cli(None), OverwritePolicy::Forbid);
    assert!(result.is_ok());
    assert_eq!(world.done, vec!["fetch", "read resume", "complete", "probe", "write"]);
    assert_eq!(world.files[&PathBuf::from("out.tex")], "\\name{John Doe, Backend}");
}

#[test]
fn lenient_run_overwrites_without_looking() {
    let mut world = world();
    world.files.insert(PathBuf::from("out.tex"), String::from("what stood there before"));
    let result = run(&mut world, cli(None), OverwritePolicy::Allow);
    assert!(result.is_ok());
    assert_eq!(world.done, vec!["fetch", "read resume", "complete", "write"]);
    assert_eq!(world.files[&PathBuf::from("out.tex")], "\\name{John Doe, Backend}");
}

#[test]
fn run_with_an_answer_without_text_writes_an_empty_document() {
    let mut world = world();
    world.answer = None;
    let result = run(&mut world, cli(None), OverwritePolicy::Forbid);
    assert!(result.is_ok());
    assert_eq!(world.files[&PathBuf::from("out.tex")], "");
}

#[test]
fn run_with_a_short_answer_writes_an_empty_document() {
    let mut world = world();
    world.answer = Some(String::from("sorry"));
    let result = run(&mut world, cli(None), OverwritePolicy::Allow);
    assert!(result.is_ok());
    assert_eq!(world.files[&PathBuf::from("out.tex")], "");
}

#[test]
fn run_fails_when_the_page_cannot_be_fetched() {
    let mut world = world();
    world.pages.clear();
    let result = run(&mut world, cli(None), OverwritePolicy::Allow);
    assert!(matches!(result, Err(PipelineError::FailedToFetchJobDescriptionPage(_))));
    assert_eq!(world.done, vec!["fetch"]);
    assert!(!world.files.contains_key(&PathBuf::from("out.tex")));
}

#[test]
fn run_fails_when_the_resume_cannot_be_read() {
    let mut world = world();
    world.files.remove(&PathBuf::from("resume.tex"));
    let result = run(&mut world, cli(Some("template.md")), OverwritePolicy::Allow);
    match result {
        Err(PipelineError::FailedToReadResume(cause)) => {
            assert_eq!(cause.kind(), std::io::ErrorKind::NotFound)
        },
        other => panic!("unexpected: {:?}", other),
    }
    assert_eq!(world.done, vec!["fetch", "read resume"]);
}

#[test]
fn run_fails_when_the_template_cannot_be_read() {
    let mut world = world();
    let result = run(&mut world, cli(Some("missing.md")), OverwritePolicy::Allow);
    match result {
        Err(PipelineError::FailedToReadTemplate(cause)) => {
            assert_eq!(cause.kind(), std::io::ErrorKind::NotFound)
        },
        other => panic!("unexpected: {:?}", other),
    }
    assert_eq!(world.done, vec!["fetch", "read resume", "read template"]);
    assert!(world.prompts.is_empty());
}

#[test]
fn run_fails_when_the_service_fails() {
    let mut world = world();
    world.service_fails = true;
    let result = run(&mut world, cli(None), OverwritePolicy::Forbid);
    assert!(matches!(
        result,
        Err(PipelineError::GeminiError(genai::Error::JsonModeWithoutInstruction))
    ));
    assert_eq!(world.done, vec!["fetch", "read resume", "complete"]);
    assert!(!world.files.contains_key(&PathBuf::from("out.tex")));
}

#[test]
fn run_fails_when_the_output_cannot_be_written() {
    let mut world = world();
    world.write_fails = true;
    let result = run(&mut world, cli(None), OverwritePolicy::Allow);
    match result {
        Err(PipelineError::FailedToWriteOutput(cause)) => {
            assert_eq!(cause.kind(), std::io::ErrorKind::PermissionDenied)
        },
        other => panic!("unexpected: {:?}", other),
    }
    assert!(!world.files.contains_key(&PathBuf::from("out.tex")));
}

#[test]
fn start_asks_for_the_job_description() {
    let (pipeline, action) = Pipeline::start(cli(None), OverwritePolicy::Forbid);
    assert!(!pipeline.is_finished());
    match action {
        Action::FetchJobDescription { url } => assert_eq!(url, URL),
        other => panic!("unexpected: {:?}", other),
    }
    match pipeline {
        Pipeline::FetchingJobDescription { input, template, model, output, policy } => {
            assert_eq!(input, PathBuf::from("resume.tex"));
            assert_eq!(template, None);
            assert_eq!(model, MODEL);
            assert_eq!(output, PathBuf::from("out.tex"));
            assert_eq!(policy, OverwritePolicy::Forbid);
        },
        other => panic!("unexpected: {:?}", other),
    }
}

#[test]
fn step_ignores_an_event_that_was_not_asked_for() {
    let (pipeline, _) = Pipeline::start(cli(None), OverwritePolicy::Forbid);
    let (pipeline, action) = pipeline.step(Event::OutputWritten(Ok(())));
    assert!(matches!(action, Action::Wait));
    assert!(matches!(pipeline, Pipeline::FetchingJobDescription { .. }));
    let (pipeline, action) = pipeline.step(Event::ResumeRead(Ok(String::from("too early"))));
    assert!(matches!(action, Action::Wait));
    let (pipeline, action) =
        pipeline.step(Event::JobDescriptionFetched(Ok(String::from("<p>job</p>"))));
    assert!(matches!(action, Action::ReadResume { .. }));
    assert!(matches!(pipeline, Pipeline::ReadingResume { .. }));
}

#[test]
fn finished_run_asks_for_nothing_more() {
    let (pipeline, action) = Pipeline::Finished.step(Event::OutputProbed(Ok(false)));
    assert!(matches!(action, Action::Wait));
    assert!(pipeline.is_finished());
    let (pipeline, action) = pipeline.step(Event::Replied(Ok(Some(String::from("late")))));
    assert!(matches!(action, Action::Wait));
    assert!(pipeline.is_finished());
}

#[test]
fn probing_step_decides_on_what_the_look_tells() {
    let probing = || Pipeline::ProbingOutput {
        output: PathBuf::from("out.tex"),
        document: String::from("the document"),
    };
    let (next, action) = probing().step(Event::OutputProbed(Ok(true)));
    assert!(next.is_finished());
    assert!(matches!(action, Action::Fail(PipelineError::OutputAlreadyExists(_))));
    let (next, action) = probing().step(Event::OutputProbed(Ok(false)));
    assert!(matches!(next, Pipeline::WritingOutput));
    match action {
        Action::WriteOutput { path, contents } => {
            assert_eq!(path, PathBuf::from("out.tex"));
            assert_eq!(contents, "the document");
        },
        other => panic!("unexpected: {:?}", other),
    }
    let failed = Err(io_error(std::io::ErrorKind::PermissionDenied));
    let (_, action) = probing().step(Event::OutputProbed(failed));
    assert!(matches!(action, Action::WriteOutput { .. }));
}

#[test]
fn model_returns_the_name_of_the_model() {
    let cli = cli(None);
    assert_eq!(cli.model(), MODEL);
    assert_eq!(cli.model(), cli.model);
}
