use latex_compiler::compile::{
    plan_job, validate_text, CompileError, MAX_TEXT_LENGTH,
};
use latex_compiler::latex::{
    engine_candidate, engine_probe_step, no_engine_error, EngineProbe, LatexCompiler, LatexError,
    ENGINE_CANDIDATES,
};
use latex_compiler::naming::job_base_name;

#[test]
fn engine_candidates_in_preference_order() {
    assert_eq!(ENGINE_CANDIDATES, 3);
    assert_eq!(engine_candidate(0), "pdflatex");
    assert_eq!(engine_candidate(1), "xelatex");
    assert_eq!(engine_candidate(2), "lualatex");
}

#[test]
fn probe_selects_first_responding_candidate() {
    for i in 0..3 {
        match engine_probe_step(i, true) {
            EngineProbe::Selected(name) => assert_eq!(name, engine_candidate(i)),
            _ => panic!("a responding candidate must be selected"),
        }
    }
}

#[test]
fn probe_moves_on_then_gives_up() {
    assert!(matches!(engine_probe_step(0, false), EngineProbe::TryNext(1)));
    assert!(matches!(engine_probe_step(1, false), EngineProbe::TryNext(2)));
    assert!(matches!(engine_probe_step(2, false), EngineProbe::Exhausted));
}

#[test]
fn exhausted_probe_is_tool_not_found() {
    match no_engine_error() {
        LatexError::ToolNotFound(m) => {
            assert_eq!(m, "No LaTeX engine found. Please install TeX Live or MiKTeX")
        }
        _ => panic!("an exhausted search must be ToolNotFound"),
    }
}

#[test]
fn describe_renders_each_failure_kind() {
    let io = LatexError::IoError("disk full".to_string());
    assert_eq!(io.describe(), "I/O error: disk full");
    let comp = LatexError::CompilationError("bad brace".to_string());
    assert_eq!(comp.describe(), "LaTeX compilation error: bad brace");
    let tool = LatexError::ToolNotFound("none".to_string());
    assert_eq!(tool.describe(), "Tool not found: none");
}

#[test]
fn compiler_keeps_workspace_and_engine() {
    let c = LatexCompiler::new("/tmp/ws".to_string(), "pdflatex".to_string());
    assert_eq!(c.work_dir().as_str(), "/tmp/ws");
    assert_eq!(c.engine().as_str(), "pdflatex");
}

#[test]
fn source_and_artifact_paths() {
    let c = LatexCompiler::new("/tmp/ws".to_string(), "pdflatex".to_string());
    assert_eq!(c.source_path("main"), "/tmp/ws/main.tex");
    assert_eq!(c.artifact_path("main"), "/tmp/ws/main.pdf");
}

#[test]
fn invocation_arguments_are_batch_outdir_source() {
    let c = LatexCompiler::new("/tmp/ws".to_string(), "xelatex".to_string());
    let args = c.invocation_args("/tmp/ws/main.tex");
    assert_eq!(
        args,
        vec![
            "-interaction=nonstopmode".to_string(),
            "-output-directory".to_string(),
            "/tmp/ws".to_string(),
            "/tmp/ws/main.tex".to_string(),
        ]
    );
}

#[test]
fn clean_run_with_artifact_resolves_to_its_path() {
    let c = LatexCompiler::new("/tmp/ws".to_string(), "pdflatex".to_string());
    match c.resolve_run("main", true, "some log", "", true) {
        Ok(p) => assert_eq!(p, "/tmp/ws/main.pdf"),
        Err(_) => panic!("a clean run with an artifact must succeed"),
    }
}

#[test]
fn failed_run_embeds_both_streams_verbatim() {
    let c = LatexCompiler::new("/tmp/ws".to_string(), "pdflatex".to_string());
    match c.resolve_run("main", false, "the log", "undefined control sequence", false) {
        Err(LatexError::CompilationError(m)) => {
            assert_eq!(
                m,
                "LaTeX compilation failed:\nSTDOUT:\nthe log\nSTDERR:\nundefined control sequence"
            );
            assert!(m.contains("undefined control sequence"));
            assert!(m.contains("the log"));
        }
        _ => panic!("a non-zero exit must be CompilationError"),
    }
}

#[test]
fn failed_run_with_artifact_still_fails() {
    let c = LatexCompiler::new("/tmp/ws".to_string(), "pdflatex".to_string());
    assert!(matches!(
        c.resolve_run("main", false, "", "boom", true),
        Err(LatexError::CompilationError(_))
    ));
}

#[test]
fn clean_run_without_artifact_is_not_a_success() {
    let c = LatexCompiler::new("/tmp/ws".to_string(), "pdflatex".to_string());
    match c.resolve_run("main", true, "ok", "", false) {
        Err(LatexError::CompilationError(m)) => assert_eq!(m, "PDF file was not generated"),
        _ => panic!("a clean run without an artifact must fail"),
    }
}

#[test]
fn empty_text_is_rejected() {
    match validate_text("") {
        Err(CompileError::InvalidInput(m)) => assert_eq!(m, "Text cannot be empty"),
        _ => panic!("empty text must be InvalidInput"),
    }
}

#[test]
fn whitespace_only_text_is_rejected() {
    match validate_text(" \t\r\n  ") {
        Err(CompileError::InvalidInput(m)) => assert_eq!(m, "Text cannot be empty"),
        _ => panic!("whitespace-only text must be InvalidInput"),
    }
}

#[test]
fn unicode_whitespace_only_text_is_rejected() {
    match validate_text("\u{a0}\u{2003}\u{3000}") {
        Err(CompileError::InvalidInput(m)) => assert_eq!(m, "Text cannot be empty"),
        _ => panic!("unicode whitespace-only text must be InvalidInput"),
    }
}

#[test]
fn ordinary_text_is_accepted() {
    assert!(validate_text("\\documentclass{article}").is_ok());
}

#[test]
fn line_and_paragraph_separators_count_as_whitespace() {
    assert!(matches!(
        validate_text("\u{2028}\u{2029}\u{202f}\u{205f}\u{85}"),
        Err(CompileError::InvalidInput(_))
    ));
}

#[test]
fn non_ascii_text_is_not_blank() {
    assert!(validate_text("λ \u{a0}").is_ok());
    assert!(validate_text(" x ").is_ok());
}

#[test]
fn text_at_the_ceiling_is_accepted() {
    let text = "a".repeat(MAX_TEXT_LENGTH);
    assert!(validate_text(&text).is_ok());
}

#[test]
fn text_over_the_ceiling_is_rejected() {
    let text = "a".repeat(MAX_TEXT_LENGTH + 1);
    match validate_text(&text) {
        Err(CompileError::InvalidInput(m)) => assert_eq!(m, "Text too large (max 1MB)"),
        _ => panic!("oversize text must be InvalidInput"),
    }
}

#[test]
fn oversize_blank_text_reads_as_empty() {
    let text = " ".repeat(MAX_TEXT_LENGTH + 1);
    match validate_text(&text) {
        Err(CompileError::InvalidInput(m)) => assert_eq!(m, "Text cannot be empty"),
        _ => panic!("blank text must be InvalidInput"),
    }
}

#[test]
fn job_names_follow_the_token() {
    assert_eq!(job_base_name(0), "job_0");
    assert_eq!(job_base_name(7), "job_7");
    assert_eq!(job_base_name(42), "job_42");
    assert_eq!(job_base_name(1000), "job_1000");
    assert_eq!(job_base_name(u64::MAX), "job_18446744073709551615");
}

#[test]
fn distinct_tokens_name_distinct_jobs() {
    assert_ne!(job_base_name(1), job_base_name(2));
    assert_ne!(job_base_name(0), job_base_name(10));
    assert_ne!(job_base_name(12), job_base_name(120));
}

#[test]
fn planned_job_carries_everything_the_runner_needs() {
    let c = LatexCompiler::new("/tmp/ws".to_string(), "pdflatex".to_string());
    let job = plan_job(&c, "\\documentclass{article}", 5).expect("accepted text plans a job");
    assert_eq!(job.base_name, "job_5");
    assert_eq!(job.source_path, "/tmp/ws/job_5.tex");
    assert_eq!(job.program, "pdflatex");
    assert_eq!(
        job.args,
        vec![
            "-interaction=nonstopmode".to_string(),
            "-output-directory".to_string(),
            "/tmp/ws".to_string(),
            "/tmp/ws/job_5.tex".to_string(),
        ]
    );
}

#[test]
fn rejected_text_plans_no_job() {
    let c = LatexCompiler::new("/tmp/ws".to_string(), "pdflatex".to_string());
    assert!(matches!(
        plan_job(&c, "   ", 5),
        Err(CompileError::InvalidInput(_))
    ));
    let oversize = "b".repeat(MAX_TEXT_LENGTH + 1);
    assert!(matches!(
        plan_job(&c, &oversize, 5),
        Err(CompileError::InvalidInput(_))
    ));
}

#[test]
fn concurrent_requests_never_share_paths() {
    let c = LatexCompiler::new("/tmp/ws".to_string(), "pdflatex".to_string());
    let first = plan_job(&c, "first document", 11).unwrap();
    let second = plan_job(&c, "second document", 12).unwrap();
    assert_ne!(first.base_name, second.base_name);
    assert_ne!(first.source_path, second.source_path);
    assert_ne!(
        c.artifact_path(&first.base_name),
        c.artifact_path(&second.base_name)
    );
    let first_artifact = c.resolve_run(&first.base_name, true, "", "", true).unwrap();
    let second_artifact = c.resolve_run(&second.base_name, true, "", "", true).unwrap();
    assert_eq!(first_artifact, "/tmp/ws/job_11.pdf");
    assert_eq!(second_artifact, "/tmp/ws/job_12.pdf");
    assert_ne!(first_artifact, second_artifact);
}
