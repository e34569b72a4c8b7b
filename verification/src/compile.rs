//! The request side of the pipeline: the compile request and response
//! shapes, validation of submitted source text, and the mapping of pipeline
//! failures onto request-level errors.

use vstd::prelude::*;
use vstd::string::StringExecFns;
use vstd::std_specs::iter::IteratorSpec;
use vstd::string::StringSliceAdditionalSpecFns;

use crate::latex::{
    artifact_file_name, error_text, joined_path, run_verdict, source_file_name, LatexCompiler,
    LatexError, RunVerdict,
};
use crate::naming::{job_base_name, job_name};

verus! {

/// A failure of one compile request.
#[derive(Debug, Clone)]
pub enum CompileError {
    /// The submitted text was rejected before any filesystem or process
    /// activity.
    InvalidInput(String),
    /// The pipeline ran and failed; the payload is the pipeline's report.
    CompilationFailed(String),
    /// The engine outlived its allotted time.
    Timeout,
    /// The service itself failed: the pipeline could not be constructed, or
    /// the produced artifact could not be read back.
    InternalError(String),
}

/// The options bag a request may carry. All three fields are accepted on the
/// wire and reserved: none is enforced yet.
#[derive(Debug, Clone)]
pub struct CompileOptions {
    pub timeout_seconds: Option<u64>,
    pub output_format: Option<String>,
    pub optimization_level: Option<String>,
}

impl Default for CompileOptions {
    /// An empty options bag: nothing requested.
    fn default() -> (o: CompileOptions)
        ensures
            o.timeout_seconds is None,
            o.output_format is None,
            o.optimization_level is None,
    {
        CompileOptions { timeout_seconds: None, output_format: None, optimization_level: None }
    }
}

/// One unit of work: raw source text plus the options bag.
#[derive(Debug, Clone)]
pub struct CompileRequest {
    pub text: String,
    pub options: CompileOptions,
}

/// What one compile request resolved to.
#[derive(Debug, Clone)]
pub struct CompileResponse {
    pub success: bool,
    pub message: String,
    /// The compiled artifact, typically a PDF document, as raw bytes.
    pub output: Option<Vec<u8>>,
    /// Errors encountered during compilation.
    pub errors: Option<Vec<String>>,
    /// Warnings encountered during compilation.
    pub warnings: Option<Vec<String>>,
}

/// The size ceiling on submitted source text, in bytes.
pub const MAX_TEXT_LENGTH: usize = 1000000;

/// The characters `str::trim` strips: Unicode white space.
pub open spec fn is_space(c: char) -> bool {
    ||| c == ' '
    ||| c == '\t'
    ||| c == '\n'
    ||| c == '\r'
    ||| c == '\u{b}'
    ||| c == '\u{c}'
    ||| c == '\u{85}'
    ||| c == '\u{a0}'
    ||| c == '\u{1680}'
    ||| c == '\u{2000}'
    ||| c == '\u{2001}'
    ||| c == '\u{2002}'
    ||| c == '\u{2003}'
    ||| c == '\u{2004}'
    ||| c == '\u{2005}'
    ||| c == '\u{2006}'
    ||| c == '\u{2007}'
    ||| c == '\u{2008}'
    ||| c == '\u{2009}'
    ||| c == '\u{200a}'
    ||| c == '\u{2028}'
    ||| c == '\u{2029}'
    ||| c == '\u{202f}'
    ||| c == '\u{205f}'
    ||| c == '\u{3000}'
}

/// Text that trims to nothing: empty, or white space throughout.
pub open spec fn is_blank(text: Seq<char>) -> bool {
    forall|i: int| 0 <= i < text.len() ==> is_space(text[i])
}

/// Whether `c` is Unicode white space.
pub fn is_space_char(c: char) -> (r: bool)
    ensures
        r == is_space(c),
{
    c == ' ' || c == '\t' || c == '\n' || c == '\r' || c == '\u{b}' || c == '\u{c}' || c
        == '\u{85}' || c == '\u{a0}' || c == '\u{1680}' || c == '\u{2000}' || c == '\u{2001}' || c
        == '\u{2002}' || c == '\u{2003}' || c == '\u{2004}' || c == '\u{2005}' || c == '\u{2006}'
        || c == '\u{2007}' || c == '\u{2008}' || c == '\u{2009}' || c == '\u{200a}' || c
        == '\u{2028}' || c == '\u{2029}' || c == '\u{202f}' || c == '\u{205f}' || c == '\u{3000}'
}

/// Whether `text` is empty or white space throughout.
pub fn is_blank_text(text: &str) -> (r: bool)
    ensures
        r == is_blank(text@),
{
    let whole: Ghost<Seq<char>> = Ghost(text@);
    let mut it = text.chars();
    let ghost mut seen: int = 0;
    loop
        invariant
            whole@ == text@,
            0 <= seen <= whole@.len(),
            it.remaining() =~= whole@.subrange(seen, whole@.len() as int),
            forall|j: int| 0 <= j < seen ==> is_space(whole@[j]),
        ensures
            seen == whole@.len(),
            forall|j: int| 0 <= j < whole@.len() ==> is_space(whole@[j]),
        decreases whole@.len() - seen,
    {
        match it.next() {
            None => {
                break ;
            },
            Some(c) => {
                if !is_space_char(c) {
                    assert(c == whole@[seen]);
                    return false;
                }
                proof {
                    seen = seen + 1;
                }
            },
        }
    }
    true
}

/// What validation makes of submitted text: the rejection message, or
/// nothing when the text is accepted. Blank text is rejected first, then
/// text over the size ceiling (in bytes); everything else is accepted.
pub open spec fn validation_verdict(text: &str) -> Option<Seq<char>> {
    if is_blank(text@) {
        Some("Text cannot be empty"@)
    } else if text.spec_bytes().len() > MAX_TEXT_LENGTH {
        Some("Text too large (max 1MB)"@)
    } else {
        None
    }
}

/// Law: empty or white-space-only text is rejected, with the fixed "empty"
/// message, before any filesystem or process activity — a rejected request
/// is never handed a job to run.
pub proof fn lemma_blank_text_rejected(text: &str)
    requires
        is_blank(text@),
    ensures
        validation_verdict(text) == Some("Text cannot be empty"@),
{
}

/// Law: text over the size ceiling is rejected, with the fixed "too large"
/// message, before any filesystem or process activity.
pub proof fn lemma_oversize_text_rejected(text: &str)
    requires
        !is_blank(text@),
        text.spec_bytes().len() > MAX_TEXT_LENGTH,
    ensures
        validation_verdict(text) == Some("Text too large (max 1MB)"@),
{
}

/// Law: accepted text — neither blank nor over the ceiling — together with a
/// run whose engine exits cleanly and leaves the artifact behind resolves to
/// the artifact's path, never to a failure.
pub proof fn lemma_accepted_clean_run_succeeds(
    text: &str,
    work_dir: Seq<char>,
    stem: Seq<char>,
    stdout: Seq<char>,
    stderr: Seq<char>,
)
    requires
        !is_blank(text@),
        text.spec_bytes().len() <= MAX_TEXT_LENGTH,
    ensures
        validation_verdict(text) is None,
        run_verdict(work_dir, stem, true, stdout, stderr, true) == RunVerdict::Artifact(
            joined_path(work_dir, artifact_file_name(stem)),
        ),
{
}

/// Validate submitted source text, before any filesystem or process
/// activity: empty or white-space-only text is rejected, then text over the
/// size ceiling (in bytes) is rejected; everything else is accepted.
pub fn validate_text(text: &str) -> (r: Result<(), CompileError>)
    ensures
        (match r {
            Ok(_) => validation_verdict(text) is None,
            Err(CompileError::InvalidInput(m)) => validation_verdict(text) == Some(m@),
            Err(_) => false,
        }),
{
    if is_blank_text(text) {
        return Err(CompileError::InvalidInput("Text cannot be empty".to_owned()));
    }
    if text.as_bytes().len() > MAX_TEXT_LENGTH {
        return Err(CompileError::InvalidInput("Text too large (max 1MB)".to_owned()));
    }
    Ok(())
}

/// A pipeline failure, seen from the request: the run failed.
pub fn compilation_failed(e: &LatexError) -> (r: CompileError)
    ensures
        r matches CompileError::CompilationFailed(m) && m@ == error_text(*e),
{
    CompileError::CompilationFailed(e.describe())
}

/// A pipeline-construction failure, seen from the request: the service is
/// misconfigured, not the input.
pub fn construction_failed(e: &LatexError) -> (r: CompileError)
    ensures
        r matches CompileError::InternalError(m) && m@ == error_text(*e),
{
    CompileError::InternalError(e.describe())
}

/// A failure to read the produced artifact back, seen from the request.
pub fn artifact_read_failed(io_message: String) -> (r: CompileError)
    ensures
        r matches CompileError::InternalError(m) && m@ == io_message@,
{
    CompileError::InternalError(io_message)
}

/// Everything the runner needs for one planned compile job. A job is handed
/// out only for accepted text, so nothing is persisted and no engine is
/// spawned for a rejected request.
#[derive(Debug, Clone)]
pub struct CompileJob {
    /// The job's base name: the stem of both of its on-disk files.
    pub base_name: String,
    /// Where the source text is to be persisted, verbatim, overwriting any
    /// prior file of the same name.
    pub source_path: String,
    /// The engine to spawn once the source is persisted.
    pub program: String,
    /// The arguments to spawn the engine with.
    pub args: Vec<String>,
}

/// Validate one request's text and plan its job: the job's files are named
/// after the request's own token, so no two in-flight requests share a path.
pub fn plan_job(compiler: &LatexCompiler, text: &str, token: u64) -> (r: Result<
    CompileJob,
    CompileError,
>)
    ensures
        r is Ok <==> validation_verdict(text) is None,
        (match r {
            Ok(job) => {
                &&& job.base_name@ == job_name(token as nat)
                &&& job.source_path@ == joined_path(
                    compiler.work_dir_spec(),
                    source_file_name(job_name(token as nat)),
                )
                &&& job.program@ == compiler.engine_spec()
                &&& job.args@.len() == 4
                &&& job.args@[0]@ == "-interaction=nonstopmode"@
                &&& job.args@[1]@ == "-output-directory"@
                &&& job.args@[2]@ == compiler.work_dir_spec()
                &&& job.args@[3]@ == job.source_path@
            },
            Err(CompileError::InvalidInput(m)) => validation_verdict(text) == Some(m@),
            Err(_) => false,
        }),
{
    match validate_text(text) {
        Err(e) => {
            return Err(e);
        },
        Ok(_) => {},
    }
    let base_name = job_base_name(token);
    let source_path = compiler.source_path(base_name.as_str());
    let args = compiler.invocation_args(source_path.as_str());
    let program = compiler.engine().clone();
    Ok(CompileJob { base_name, source_path, program, args })
}

/// The response one successful compilation resolves to: the artifact's
/// bytes, a fixed message, and no errors or warnings.
pub fn success_response(bytes: Vec<u8>) -> (r: CompileResponse)
    ensures
        r.success,
        r.message@ == "Compilation successful"@,
        r.output matches Some(b) && b@ == bytes@,
        r.errors is None,
        r.warnings is None,
{
    CompileResponse {
        success: true,
        message: "Compilation successful".to_owned(),
        output: Some(bytes),
        errors: None,
        warnings: None,
    }
}

} // verus!
