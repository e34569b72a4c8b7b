//! The compilation pipeline: engine selection, workspace paths, engine
//! invocation arguments, and classification of an engine run's outcome.
//!
//! The pipeline never touches the host itself. The caller probes candidate
//! engines, writes the source file, spawns the engine and checks for the
//! artifact; this module decides what to probe, what to write where, what to
//! run, and what every observation means.

use vstd::prelude::*;
use vstd::string::StringExecFns;

verus! {

/// A failure of the compilation pipeline.
#[derive(Debug, Clone)]
pub enum LatexError {
    /// The workspace could not be created, read or written; the payload is
    /// the underlying I/O failure rendered as text.
    IoError(String),
    /// The engine exited with a failure, or exited cleanly without leaving
    /// the expected artifact behind; the payload is the diagnostic report.
    CompilationError(String),
    /// No known engine responded on this host.
    ToolNotFound(String),
}

/// What a pipeline failure reads as, one line per kind.
pub open spec fn error_text(e: LatexError) -> Seq<char> {
    match e {
        LatexError::IoError(m) => "I/O error: "@ + m@,
        LatexError::CompilationError(m) => "LaTeX compilation error: "@ + m@,
        LatexError::ToolNotFound(m) => "Tool not found: "@ + m@,
    }
}

impl LatexError {
    /// Render the failure as one human-readable line.
    pub fn describe(&self) -> (s: String)
        ensures
            s@ == error_text(*self),
    {
        match self {
            LatexError::IoError(m) => {
                let mut s = "I/O error: ".to_owned();
                s.append(m.as_str());
                s
            },
            LatexError::CompilationError(m) => {
                let mut s = "LaTeX compilation error: ".to_owned();
                s.append(m.as_str());
                s
            },
            LatexError::ToolNotFound(m) => {
                let mut s = "Tool not found: ".to_owned();
                s.append(m.as_str());
                s
            },
        }
    }
}

/// The fixed preference order of external engines: the candidate probed at
/// position `i`.
pub open spec fn candidate_name(i: int) -> Seq<char> {
    if i == 0 {
        "pdflatex"@
    } else if i == 1 {
        "xelatex"@
    } else {
        "lualatex"@
    }
}

/// How many candidate engines the locator knows.
pub const ENGINE_CANDIDATES: usize = 3;

/// The name of the candidate engine probed at position `i`, primary choice
/// first.
pub fn engine_candidate(i: usize) -> (name: &'static str)
    requires
        i < ENGINE_CANDIDATES,
    ensures
        name@ == candidate_name(i as int),
{
    if i == 0 {
        "pdflatex"
    } else if i == 1 {
        "xelatex"
    } else {
        "lualatex"
    }
}

/// What the engine locator decides after one probe.
pub enum EngineProbe {
    /// The candidate just probed responded: select it.
    Selected(String),
    /// The candidate did not respond: probe the candidate at this position
    /// next.
    TryNext(usize),
    /// No candidate is left to probe.
    Exhausted,
}

/// One step of the engine locator: the candidate at position `i` was probed
/// and either `responded` to a version query or did not. The first candidate
/// that responds is selected; when the list runs out the search is exhausted.
pub fn engine_probe_step(i: usize, responded: bool) -> (step: EngineProbe)
    requires
        i < ENGINE_CANDIDATES,
    ensures
        responded ==> (step matches EngineProbe::Selected(e) && e@ == candidate_name(i as int)),
        !responded && i + 1 < ENGINE_CANDIDATES ==> step == EngineProbe::TryNext((i + 1) as usize),
        !responded && i + 1 >= ENGINE_CANDIDATES ==> step == EngineProbe::Exhausted,
{
    if responded {
        EngineProbe::Selected(engine_candidate(i).to_owned())
    } else if i + 1 < ENGINE_CANDIDATES {
        EngineProbe::TryNext(i + 1)
    } else {
        EngineProbe::Exhausted
    }
}

/// `file` placed inside `dir`.
pub open spec fn joined_path(dir: Seq<char>, file: Seq<char>) -> Seq<char> {
    dir + "/"@ + file
}

/// The source file a job named `base` is persisted as.
pub open spec fn source_file_name(base: Seq<char>) -> Seq<char> {
    base + ".tex"@
}

/// The artifact the engine is expected to leave behind for a job named
/// `stem`.
pub open spec fn artifact_file_name(stem: Seq<char>) -> Seq<char> {
    stem + ".pdf"@
}

/// The diagnostic report embedded in a failure when the engine exits
/// non-zero: both captured streams, verbatim.
pub open spec fn failure_report(stdout: Seq<char>, stderr: Seq<char>) -> Seq<char> {
    "LaTeX compilation failed:\nSTDOUT:\n"@ + stdout + "\nSTDERR:\n"@ + stderr
}

/// What one engine run resolves to, in the abstract.
pub enum RunVerdict {
    /// The run produced the artifact at this path.
    Artifact(Seq<char>),
    /// The run failed; the report reads so.
    Failure(Seq<char>),
}

/// Classification of one engine run of the job named `stem`: a non-zero exit
/// fails with both captured streams embedded; a clean exit without the
/// artifact fails with a fixed reason; a clean exit with the artifact present
/// resolves to the artifact's path.
pub open spec fn run_verdict(
    work_dir: Seq<char>,
    stem: Seq<char>,
    exit_success: bool,
    stdout: Seq<char>,
    stderr: Seq<char>,
    artifact_exists: bool,
) -> RunVerdict {
    if !exit_success {
        RunVerdict::Failure(failure_report(stdout, stderr))
    } else if !artifact_exists {
        RunVerdict::Failure("PDF file was not generated"@)
    } else {
        RunVerdict::Artifact(joined_path(work_dir, artifact_file_name(stem)))
    }
}

/// Law: a run whose engine exits non-zero fails with the diagnostic report,
/// whether or not an artifact appeared — and the report carries the captured
/// standard error verbatim, as its tail.
pub proof fn lemma_failed_run_reports_streams(
    work_dir: Seq<char>,
    stem: Seq<char>,
    stdout: Seq<char>,
    stderr: Seq<char>,
    artifact_exists: bool,
)
    ensures
        run_verdict(work_dir, stem, false, stdout, stderr, artifact_exists)
            == RunVerdict::Failure(failure_report(stdout, stderr)),
        failure_report(stdout, stderr).subrange(
            failure_report(stdout, stderr).len() - stderr.len(),
            failure_report(stdout, stderr).len() as int,
        ) == stderr,
{
    let report = failure_report(stdout, stderr);
    let head = "LaTeX compilation failed:\nSTDOUT:\n"@ + stdout + "\nSTDERR:\n"@;
    assert(report.len() == head.len() + stderr.len());
    let tail = report.subrange(report.len() - stderr.len(), report.len() as int);
    assert forall|i: int| 0 <= i < stderr.len() implies tail[i] == stderr[i] by {
        assert(report[head.len() + i] == stderr[i]);
    }
    assert(tail =~= stderr);
}

/// Law: a run whose engine exits cleanly but leaves no artifact behind is a
/// failure with the fixed "not generated" reason, never a false success.
pub proof fn lemma_missing_artifact_fails(
    work_dir: Seq<char>,
    stem: Seq<char>,
    stdout: Seq<char>,
    stderr: Seq<char>,
)
    ensures
        run_verdict(work_dir, stem, true, stdout, stderr, false) == RunVerdict::Failure(
            "PDF file was not generated"@,
        ),
{
}

/// A compilation pipeline: one selected engine and one workspace directory,
/// both fixed for the pipeline's lifetime.
///
/// The workspace must exist and be writable before any compilation is
/// attempted; the caller creates it (and probes the engine) before
/// constructing the pipeline.
pub struct LatexCompiler {
    work_dir: String,
    latex_engine: String,
}

impl LatexCompiler {
    /// The workspace directory all jobs of this pipeline live in.
    pub closed spec fn work_dir_spec(&self) -> Seq<char> {
        self.work_dir@
    }

    /// The engine this pipeline invokes.
    pub closed spec fn engine_spec(&self) -> Seq<char> {
        self.latex_engine@
    }

    /// Build a pipeline over an already-created workspace and an
    /// already-selected engine.
    pub fn new(work_dir: String, latex_engine: String) -> (c: LatexCompiler)
        ensures
            c.work_dir_spec() == work_dir@,
            c.engine_spec() == latex_engine@,
    {
        LatexCompiler { work_dir, latex_engine }
    }

    /// The workspace directory, for the caller that creates and fills it.
    pub fn work_dir(&self) -> (d: &String)
        ensures
            d@ == self.work_dir_spec(),
    {
        &self.work_dir
    }

    /// The selected engine's name, for the caller that spawns it.
    pub fn engine(&self) -> (e: &String)
        ensures
            e@ == self.engine_spec(),
    {
        &self.latex_engine
    }

    /// Where the source text of the job named `output_name` is persisted:
    /// `<work_dir>/<output_name>.tex`.
    pub fn source_path(&self, output_name: &str) -> (p: String)
        ensures
            p@ == joined_path(self.work_dir_spec(), source_file_name(output_name@)),
    {
        let mut p = self.work_dir.clone();
        p.append("/");
        p.append(output_name);
        p.append(".tex");
        proof {
            assert(p@ =~= joined_path(self.work_dir_spec(), source_file_name(output_name@)));
        }
        p
    }

    /// Where the engine leaves the artifact of the job named `stem`:
    /// `<work_dir>/<stem>.pdf`.
    pub fn artifact_path(&self, stem: &str) -> (p: String)
        ensures
            p@ == joined_path(self.work_dir_spec(), artifact_file_name(stem@)),
    {
        let mut p = self.work_dir.clone();
        p.append("/");
        p.append(stem);
        p.append(".pdf");
        proof {
            assert(p@ =~= joined_path(self.work_dir_spec(), artifact_file_name(stem@)));
        }
        p
    }

    /// The arguments the engine is spawned with: batch mode, the workspace as
    /// the explicit output directory, and the persisted source file.
    pub fn invocation_args(&self, tex_path: &str) -> (args: Vec<String>)
        ensures
            args@.len() == 4,
            args@[0]@ == "-interaction=nonstopmode"@,
            args@[1]@ == "-output-directory"@,
            args@[2]@ == self.work_dir_spec(),
            args@[3]@ == tex_path@,
    {
        let mut args: Vec<String> = Vec::new();
        args.push("-interaction=nonstopmode".to_owned());
        args.push("-output-directory".to_owned());
        args.push(self.work_dir.clone());
        args.push(tex_path.to_owned());
        args
    }

    /// Classify one engine run of the job named `stem`, from what the caller
    /// observed: the exit status, both captured streams, and whether the
    /// expected artifact now exists.
    ///
    /// A non-zero exit fails with both streams embedded verbatim; a clean
    /// exit without an artifact fails with a fixed reason, never a false
    /// success; a clean exit with the artifact present resolves to the
    /// artifact's path.
    pub fn resolve_run(
        &self,
        stem: &str,
        exit_success: bool,
        stdout: &str,
        stderr: &str,
        artifact_exists: bool,
    ) -> (r: Result<String, LatexError>)
        ensures
            exit_success && artifact_exists ==> (r matches Ok(p) && p@ == joined_path(
                self.work_dir_spec(),
                artifact_file_name(stem@),
            )),
            !exit_success ==> (r matches Err(LatexError::CompilationError(m)) && m@
                == failure_report(stdout@, stderr@)),
            exit_success && !artifact_exists ==> (r matches Err(LatexError::CompilationError(m))
                && m@ == "PDF file was not generated"@),
            (match r {
                Ok(p) => run_verdict(
                    self.work_dir_spec(),
                    stem@,
                    exit_success,
                    stdout@,
                    stderr@,
                    artifact_exists,
                ) == RunVerdict::Artifact(p@),
                Err(LatexError::CompilationError(m)) => run_verdict(
                    self.work_dir_spec(),
                    stem@,
                    exit_success,
                    stdout@,
                    stderr@,
                    artifact_exists,
                ) == RunVerdict::Failure(m@),
                Err(_) => false,
            }),
    {
        if !exit_success {
            let mut m = "LaTeX compilation failed:\nSTDOUT:\n".to_owned();
            m.append(stdout);
            m.append("\nSTDERR:\n");
            m.append(stderr);
            return Err(LatexError::CompilationError(m));
        }
        if !artifact_exists {
            return Err(LatexError::CompilationError("PDF file was not generated".to_owned()));
        }
        Ok(self.artifact_path(stem))
    }
}

/// The error an exhausted engine search ends in.
pub fn no_engine_error() -> (e: LatexError)
    ensures
        e matches LatexError::ToolNotFound(m)
            && m@ == "No LaTeX engine found. Please install TeX Live or MiKTeX"@,
{
    LatexError::ToolNotFound("No LaTeX engine found. Please install TeX Live or MiKTeX".to_owned())
}

} // verus!
