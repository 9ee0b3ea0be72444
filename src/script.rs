use vstd::prelude::*;
use std::cell::RefCell;
use starlark::environment::{Globals, GlobalsBuilder, LibraryExtension, Module};
use starlark::eval::Evaluator;
use starlark::syntax::{AstModule, Dialect};
use crate::target::opt_text;

verus! {

#[verifier::external_type_specification]
#[verifier::external_body]
pub struct ExAstModule(starlark::syntax::AstModule);

#[verifier::external_type_specification]
#[verifier::external_body]
pub struct ExStarlarkError(starlark::Error);

#[verifier::external_type_specification]
#[verifier::external_body]
pub struct ExGlobals(starlark::environment::Globals);

/// Whether a script text is a well-formed Starlark module in the standard dialect.
pub uninterp spec fn script_parses(text: Seq<char>) -> bool;

/// Relies on `starlark::syntax::AstModule::parse` with the standard dialect:
/// success depends on the text alone.
#[verifier::external_body]
fn parse_module(text: String) -> (r: Result<AstModule, starlark::Error>)
    ensures
        r is Ok <==> script_parses(text@),
{
    AstModule::parse("post_request.star", text, &Dialect::Standard)
}

/// Relies on the `Display` text of `starlark::Error`.
#[verifier::external_body]
fn error_message(e: &starlark::Error) -> (r: String) {
    e.to_string()
}

/// Relies on `starlark::Error::span` and `FileSpan::resolve_span`: the
/// 0-based line and column where the error starts, when it has a place.
#[verifier::external_body]
fn error_position(e: &starlark::Error) -> (r: Option<(usize, usize)>) {
    match e.span() {
        Some(s) => {
            let p = s.resolve_span().begin;
            Some((p.line, p.column))
        },
        None => None,
    }
}

/// Why a post-response script did not run to the end. Neither kind changes
/// the response that the request delivers.
#[derive(Debug, Clone, PartialEq, Eq)]
pub enum ScriptError {
    /// The text is not a well-formed module; the place is a 0-based line and
    /// column, where the parser gives one.
    Parse { message: String, position: Option<(usize, usize)> },
    /// The module failed while it ran.
    Eval { message: String },
}

/// What running the post-response script left behind: the lines it printed,
/// in order, and its error if it had one.
#[derive(Debug, Clone, PartialEq, Eq)]
pub struct ScriptReport {
    pub log: Vec<String>,
    pub error: Option<ScriptError>,
}

/// Parses a post-response script. A text that does not parse gives a
/// `ScriptError::Parse` and nothing to run.
pub fn parse_script(text: &str) -> (r: Result<AstModule, ScriptError>)
    ensures
        r is Ok <==> script_parses(text@),
        r matches Err(e) ==> e is Parse,
{
    match parse_module(text.to_string()) {
        Ok(m) => Ok(m),
        Err(e) => {
            let message = error_message(&e);
            let position = error_position(&e);
            Err(ScriptError::Parse { message, position })
        },
    }
}

impl ScriptReport {
    /// A script that parsed and ran, printing these lines.
    pub fn finished(log: Vec<String>) -> (r: ScriptReport)
        ensures
            r.log == log,
            r.error is None,
    {
        ScriptReport { log, error: None }
    }

    /// A script that stopped with `error` after printing these lines.
    pub fn failed(log: Vec<String>, error: ScriptError) -> (r: ScriptReport)
        ensures
            r.log == log,
            r.error == Some(error),
    {
        ScriptReport { log, error: Some(error) }
    }
}

/// The lines a script prints, in order, and its runtime error message if it
/// failed, when it runs in a fresh module with `status_code` bound and only
/// `print` among the globals.
pub uninterp spec fn script_run(text: Seq<char>, status_code: u16) -> (Seq<Seq<char>>, Option<Seq<char>>);

/// Whether a globals table holds `print` and nothing else.
pub uninterp spec fn print_only(g: Globals) -> bool;

/// The texts of a sequence of strings.
pub open spec fn texts(v: Seq<String>) -> Seq<Seq<char>> {
    v.map_values(|s: String| s@)
}

/// `r` reports a run of `text` with this status code: a text that does not
/// parse gives a parse error and no output; one that parses gives the lines
/// it printed, and a runtime error exactly when the run failed.
pub open spec fn is_run_report(text: Seq<char>, status_code: u16, r: ScriptReport) -> bool {
    if script_parses(text) {
        &&& texts(r.log@) == script_run(text, status_code).0
        &&& r.error is None <==> script_run(text, status_code).1 is None
        &&& r.error matches Some(e) ==> (e matches ScriptError::Eval { message } && Some(message@)
            == script_run(text, status_code).1)
    } else {
        r.error matches Some(e) && e is Parse && r.log@.len() == 0
    }
}

/// Receives what a script prints.
#[verifier::external_body]
pub struct LineSink {
    lines: RefCell<Vec<String>>,
}

impl starlark::PrintHandler for LineSink {
    /// Keeps the printed line.
    #[verifier::external_body]
    fn println(&self, text: &str) -> starlark::Result<()> {
        self.lines.borrow_mut().push(text.to_string());
        Ok(())
    }
}

/// Relies on `GlobalsBuilder::new` (no functions), `LibraryExtension::Print`'s
/// `add` (the `print` function) and `GlobalsBuilder::build`.
#[verifier::external_body]
fn print_only_globals() -> (r: Globals)
    ensures
        print_only(r),
{
    let mut builder = GlobalsBuilder::new();
    LibraryExtension::Print.add(&mut builder);
    builder.build()
}

/// Relies on `AstModule::parse`, `Module::with_temp_heap` (a fresh module and
/// heap), `Module::set`, `Evaluator::new`, `Evaluator::set_print_handler` and
/// `Evaluator::eval_module`: with print-only globals, what a run prints and how
/// it ends depend on the text and the status code alone.
#[verifier::external_body]
fn eval_text(globals: &Globals, text: &str, status_code: u16) -> (r: Option<(Vec<String>, Option<String>)>)
    requires
        print_only(*globals),
    ensures
        r is Some <==> script_parses(text@),
        r matches Some(p) ==> (texts(p.0@), opt_text(p.1)) == script_run(text@, status_code),
{
    let ast = AstModule::parse("post_request.star", text.to_string(), &Dialect::Standard).ok()?;
    let sink = LineSink { lines: RefCell::new(Vec::new()) };
    let failure = Module::with_temp_heap(|module| {
        module.set("status_code", module.heap().alloc(i32::from(status_code)));
        let mut eval = Evaluator::new(&module);
        eval.set_print_handler(&sink);
        eval.eval_module(ast, globals).err().map(|e| e.to_string())
    });
    Some((sink.lines.into_inner(), failure))
}

/// The sandbox that post-response scripts run in: one globals table holding
/// `print` only, built once and shared by every run. Each run gets a fresh
/// module, so nothing carries over from one run to the next.
pub struct ScriptRuntime {
    globals: Globals,
}

impl ScriptRuntime {
    #[verifier::type_invariant]
    spec fn inv(&self) -> bool {
        print_only(self.globals)
    }

    pub fn new() -> (r: ScriptRuntime) {
        ScriptRuntime { globals: print_only_globals() }
    }

    /// Parses and runs `text` once with `status_code` bound. Script errors are
    /// reported, never raised.
    pub fn run(&self, text: &str, status_code: u16) -> (r: ScriptReport)
        ensures
            is_run_report(text@, status_code, r),
    {
        proof {
            use_type_invariant(self);
        }
        match eval_text(&self.globals, text, status_code) {
            Some((log, failure)) => match failure {
                None => ScriptReport::finished(log),
                Some(message) => ScriptReport::failed(log, ScriptError::Eval { message }),
            },
            None => match parse_script(text) {
                Err(e) => ScriptReport::failed(Vec::new(), e),
                Ok(_) => {
                    proof {
                        assert(false);
                    }
                    ScriptReport::finished(Vec::new())
                },
            },
        }
    }
}

/// Runs `text` once in a fresh sandbox.
pub fn run_script(text: &str, status_code: u16) -> (r: ScriptReport)
    ensures
        is_run_report(text@, status_code, r),
{
    let rt = ScriptRuntime::new();
    rt.run(text, status_code)
}

/// Running the same text with the same status code twice prints the same
/// lines and ends the same way: no run leaves state behind for another.
pub proof fn lemma_runs_agree(text: Seq<char>, status_code: u16, r1: ScriptReport, r2: ScriptReport)
    requires
        is_run_report(text, status_code, r1),
        is_run_report(text, status_code, r2),
    ensures
        texts(r1.log@) == texts(r2.log@),
        r1.error is None <==> r2.error is None,
        (r1.error is Some && r2.error is Some) ==> (r1.error->0 is Parse <==> r2.error->0 is Parse),
{
}

} // verus!
