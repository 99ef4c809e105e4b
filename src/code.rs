//! The pure half of the compile-test pipeline and of the code store: where
//! candidate source and its build artifacts go, the structural acceptance
//! check, and how a build's exit and error stream become an outcome. Reading
//! and writing files and running the compiler are left to the caller.
use crate::executor::{lower_of, lowercase, upper_of, uppercase};
use crate::value::{digit_char, digits, push_char, push_digits};
use vstd::prelude::*;

verus! {

/// Relies on `str::chars` (collected into a `Vec`): the characters in order.
#[verifier::external_body]
fn chars_of(s: &str) -> (r: Vec<char>)
    ensures
        r@ == s@,
{
    s.chars().collect()
}

/// Whether `p` occurs in `s` as a contiguous run.
pub open spec fn occurs_in(s: Seq<char>, p: Seq<char>) -> bool {
    exists|i: int| 0 <= i && i + p.len() <= s.len() && #[trigger] s.subrange(i, i + p.len()) == p
}

/// Relies on `str::contains` with a `&str` pattern: whether the pattern
/// matches a sub-slice of the string.
#[verifier::external_body]
fn contains_text(s: &str, p: &str) -> (r: bool)
    ensures
        r == occurs_in(s@, p@),
{
    s.contains(p)
}

/// The characters with the Unicode `White_Space` property.
pub open spec fn is_blank_char(c: char) -> bool {
    ('\u{9}' <= c && c <= '\u{d}') || c == ' ' || c == '\u{85}' || c == '\u{a0}' || c == '\u{1680}'
        || ('\u{2000}' <= c && c <= '\u{200a}') || c == '\u{2028}' || c == '\u{2029}' || c
        == '\u{202f}' || c == '\u{205f}' || c == '\u{3000}'
}

fn blank_char(c: char) -> (r: bool)
    ensures
        r == is_blank_char(c),
{
    ('\u{9}' <= c && c <= '\u{d}') || c == ' ' || c == '\u{85}' || c == '\u{a0}' || c == '\u{1680}'
        || ('\u{2000}' <= c && c <= '\u{200a}') || c == '\u{2028}' || c == '\u{2029}' || c
        == '\u{202f}' || c == '\u{205f}' || c == '\u{3000}'
}

pub open spec fn is_blank(line: Seq<char>) -> bool {
    forall|i: int| 0 <= i < line.len() ==> is_blank_char(line[i])
}

/// The lines finished so far and the line being read, after reading `s`.
pub open spec fn split_lines(s: Seq<char>) -> (Seq<Seq<char>>, Seq<char>)
    decreases s.len(),
{
    if s.len() == 0 {
        (Seq::empty(), Seq::empty())
    } else {
        let (done, cur) = split_lines(s.drop_last());
        if s.last() == '\n' {
            (done.push(cur), Seq::empty())
        } else {
            (done, cur.push(s.last()))
        }
    }
}

/// A line without its `\r` ending, if it has one.
pub open spec fn strip_cr(line: Seq<char>) -> Seq<char> {
    if line.len() > 0 && line.last() == '\r' {
        line.drop_last()
    } else {
        line
    }
}

/// The pieces of `s` between line feeds; a line ended by `\r\n` loses the
/// `\r`, while a last line with no line feed after it is kept as it is.
pub open spec fn lines_of(s: Seq<char>) -> Seq<Seq<char>> {
    split_lines(s).0.map_values(|l: Seq<char>| strip_cr(l)).push(split_lines(s).1)
}

/// The diagnostics in an error stream: its lines, in order, without those
/// that are empty or whitespace only.
pub open spec fn diagnostics_of(s: Seq<char>) -> Seq<Seq<char>> {
    lines_of(s).filter(|l: Seq<char>| !is_blank(l))
}

fn is_blank_line(line: &Vec<char>) -> (r: bool)
    ensures
        r == is_blank(line@),
{
    let mut i: usize = 0;
    while i < line.len()
        invariant
            0 <= i <= line@.len(),
            forall|j: int| 0 <= j < i ==> is_blank_char(line@[j]),
        decreases line@.len() - i,
    {
        if !blank_char(line[i]) {
            return false;
        }
        i = i + 1;
    }
    true
}

fn string_of(cs: &Vec<char>) -> (r: String)
    ensures
        r@ == cs@,
{
    let mut s = String::new();
    let mut i: usize = 0;
    while i < cs.len()
        invariant
            0 <= i <= cs@.len(),
            s@ == cs@.take(i as int),
        decreases cs@.len() - i,
    {
        push_char(&mut s, cs[i]);
        i = i + 1;
        assert(s@ =~= cs@.take(i as int));
    }
    assert(cs@.take(i as int) =~= cs@);
    s
}

fn strip_cr_chars(line: &Vec<char>) -> (r: Vec<char>)
    ensures
        r@ == strip_cr(line@),
{
    let mut cs = line.clone();
    assert(cs@ == line@);
    if cs.len() > 0 && cs[cs.len() - 1] == '\r' {
        cs.pop();
    }
    assert(cs@ =~= strip_cr(line@));
    cs
}

/// Appends `line` to `out` unless it is blank.
fn keep_line(out: &mut Vec<String>, line: &Vec<char>)
    ensures
        final(out)@.map_values(|l: String| l@) == old(out)@.map_values(|l: String| l@) + seq![
            line@,
        ].filter(|l: Seq<char>| !is_blank(l)),
{
    let ghost prev = out@;
    reveal_with_fuel(Seq::filter, 2);
    if !is_blank_line(line) {
        out.push(string_of(line));
        assert(seq![line@].filter(|l: Seq<char>| !is_blank(l)) =~= seq![line@]);
        assert(out@.map_values(|l: String| l@) =~= prev.map_values(|l: String| l@) + seq![line@]);
    } else {
        assert(seq![line@].filter(|l: Seq<char>| !is_blank(l)) =~= Seq::<Seq<char>>::empty());
        assert(out@.map_values(|l: String| l@) =~= prev.map_values(|l: String| l@) + Seq::<Seq<char>>::empty());
    }
}

/// The diagnostic lines of a compiler's error stream.
pub fn parse_diagnostics(stderr: &str) -> (r: Vec<String>)
    ensures
        r@.map_values(|l: String| l@) == diagnostics_of(stderr@),
{
    let cs = chars_of(stderr);
    let ghost s = stderr@;
    let mut out: Vec<String> = Vec::new();
    let mut cur: Vec<char> = Vec::new();
    let mut i: usize = 0;
    while i < cs.len()
        invariant
            cs@ == s,
            0 <= i <= s.len(),
            cur@ == split_lines(s.take(i as int)).1,
            out@.map_values(|l: String| l@) == split_lines(s.take(i as int)).0.map_values(
                |l: Seq<char>| strip_cr(l),
            ).filter(|l: Seq<char>| !is_blank(l)),
        decreases s.len() - i,
    {
        let c = cs[i];
        proof {
            assert(s.take(i + 1).drop_last() =~= s.take(i as int));
        }
        if c == '\n' {
            let ghost done = split_lines(s.take(i as int)).0;
            keep_line(&mut out, &strip_cr_chars(&cur));
            proof {
                let f = |l: Seq<char>| strip_cr(l);
                let p = |l: Seq<char>| !is_blank(l);
                assert(done.push(cur@).map_values(f) =~= done.map_values(f) + seq![f(cur@)]);
                Seq::<Seq<char>>::filter_distributes_over_add(done.map_values(f), seq![f(cur@)], p);
            }
            cur = Vec::new();
        } else {
            cur.push(c);
        }
        i = i + 1;
    }
    let ghost done = split_lines(s).0;
    assert(s.take(i as int) =~= s);
    keep_line(&mut out, &cur);
    proof {
        let f = |l: Seq<char>| strip_cr(l);
        let p = |l: Seq<char>| !is_blank(l);
        assert(done.map_values(f).push(cur@) =~= done.map_values(f) + seq![cur@]);
        Seq::<Seq<char>>::filter_distributes_over_add(done.map_values(f), seq![cur@], p);
    }
    out
}

/// Where candidate source is kept: one file per formula, named by the
/// lower-cased formula name, under `code_directory`.
#[derive(Clone, Debug)]
pub struct FormulaCodeManager {
    pub code_directory: String,
}

/// Where one compile-test puts its source and where the build puts its
/// artifact.
#[derive(Clone, Debug)]
pub struct CandidatePaths {
    pub source: String,
    pub artifact: String,
}

/// Why candidate source was refused before it was stored.
#[derive(Clone, Copy, Debug, PartialEq, Eq, Structural)]
pub enum CodeProblem {
    MissingExecutorImpl,
    MissingExecute,
    MissingValidateParameters,
    MissingGetOutputColumns,
}

/// The first executor operation that `code` does not show.
pub open spec fn code_problem(code: Seq<char>) -> Option<CodeProblem> {
    if !occurs_in(code, "impl FormulaExecutor"@) {
        Some(CodeProblem::MissingExecutorImpl)
    } else if !occurs_in(code, "fn execute"@) {
        Some(CodeProblem::MissingExecute)
    } else if !occurs_in(code, "fn validate_parameters"@) {
        Some(CodeProblem::MissingValidateParameters)
    } else if !occurs_in(code, "fn get_output_columns"@) {
        Some(CodeProblem::MissingGetOutputColumns)
    } else {
        None
    }
}

pub open spec fn code_problem_text(p: CodeProblem) -> Seq<char> {
    match p {
        CodeProblem::MissingExecutorImpl => "Code must implement FormulaExecutor trait"@,
        CodeProblem::MissingExecute => "Code must implement execute method"@,
        CodeProblem::MissingValidateParameters => "Code must implement validate_parameters method"@,
        CodeProblem::MissingGetOutputColumns => "Code must implement get_output_columns method"@,
    }
}

impl CodeProblem {
    pub fn message(&self) -> (r: String)
        ensures
            r@ == code_problem_text(*self),
    {
        match self {
            CodeProblem::MissingExecutorImpl => String::from_str("Code must implement FormulaExecutor trait"),
            CodeProblem::MissingExecute => String::from_str("Code must implement execute method"),
            CodeProblem::MissingValidateParameters => String::from_str(
                "Code must implement validate_parameters method",
            ),
            CodeProblem::MissingGetOutputColumns => String::from_str(
                "Code must implement get_output_columns method",
            ),
        }
    }
}

/// The file that holds the saved source of a formula.
pub open spec fn code_path_spec(dir: Seq<char>, formula_name: Seq<char>) -> Seq<char> {
    dir + "/"@ + lower_of(formula_name) + ".rs"@
}

/// The scratch directory of the compile-tests.
pub open spec fn scratch_spec(dir: Seq<char>) -> Seq<char> {
    dir + "/scratch/"@
}

/// The file stem of one compile-test: the call's identifier, then the
/// lower-cased formula name.
pub open spec fn candidate_stem(formula_name: Seq<char>, id: u64) -> Seq<char> {
    "test_"@ + digits(id as nat) + seq!['_'] + lower_of(formula_name)
}

pub open spec fn candidate_source_spec(dir: Seq<char>, formula_name: Seq<char>, id: u64) -> Seq<char> {
    scratch_spec(dir) + candidate_stem(formula_name, id) + ".rs"@
}

pub open spec fn candidate_artifact_spec(dir: Seq<char>, formula_name: Seq<char>, id: u64) -> Seq<
    char,
> {
    scratch_spec(dir) + "lib"@ + candidate_stem(formula_name, id) + ".rlib"@
}

/// What a build attempt gave: a clean exit, a failing exit with its error
/// stream, or no process at all (with the reason it could not start).
#[derive(Clone, Debug)]
pub enum CompileRun {
    Built,
    Failed(String),
    LaunchFailed(String),
}

/// The outcome of a compile-test.
#[derive(Clone, Debug)]
pub struct CodeTestResponse {
    pub success: bool,
    pub message: String,
    pub compilation_time_ms: Option<u64>,
    pub errors: Vec<String>,
}

/// What a build attempt is reported as: success, message and diagnostics.
pub open spec fn outcome_of(run: CompileRun) -> (bool, Seq<char>, Seq<Seq<char>>) {
    match run {
        CompileRun::Built => (true, "Code compiled successfully"@, Seq::empty()),
        CompileRun::Failed(stderr) => (false, "Compilation failed"@, diagnostics_of(stderr@)),
        CompileRun::LaunchFailed(reason) => (
            false,
            "Failed to run compiler: "@ + reason@,
            seq![reason@],
        ),
    }
}

/// The report of one compile-test, from its own build attempt alone.
pub fn compile_outcome(run: CompileRun, elapsed_ms: u64) -> (r: CodeTestResponse)
    ensures
        (r.success, r.message@, r.errors@.map_values(|l: String| l@)) == outcome_of(run),
        r.compilation_time_ms == Some(elapsed_ms),
{
    match run {
        CompileRun::Built => {
            let errors: Vec<String> = Vec::new();
            assert(errors@.map_values(|l: String| l@) =~= Seq::<Seq<char>>::empty());
            CodeTestResponse {
                success: true,
                message: String::from_str("Code compiled successfully"),
                compilation_time_ms: Some(elapsed_ms),
                errors,
            }
        },
        CompileRun::Failed(stderr) => CodeTestResponse {
            success: false,
            message: String::from_str("Compilation failed"),
            compilation_time_ms: Some(elapsed_ms),
            errors: parse_diagnostics(stderr.as_str()),
        },
        CompileRun::LaunchFailed(reason) => {
            let mut message = String::from_str("Failed to run compiler: ");
            message.append(reason.as_str());
            let mut errors: Vec<String> = Vec::new();
            errors.push(reason);
            assert(errors@.map_values(|l: String| l@) =~= seq![reason@]);
            CodeTestResponse {
                success: false,
                message,
                compilation_time_ms: Some(elapsed_ms),
                errors,
            }
        },
    }
}

/// The report of a stored candidate.
#[derive(Clone, Debug)]
pub struct CodeSaveResponse {
    pub success: bool,
    pub message: String,
    pub formula_name: String,
    pub saved_at: String,
}

/// A request to store candidate source.
#[derive(Clone, Debug)]
pub struct CodeSaveRequest {
    pub code: String,
}

/// A request to compile-test candidate source.
#[derive(Clone, Debug)]
pub struct CodeTestRequest {
    pub code: String,
}

pub fn save_response(formula_name: &str, saved_at: String) -> (r: CodeSaveResponse)
    ensures
        r.success,
        r.message@ == "Code saved successfully for formula: "@ + formula_name@,
        r.formula_name@ == formula_name@,
        r.saved_at == saved_at,
{
    let mut message = String::from_str("Code saved successfully for formula: ");
    message.append(formula_name);
    CodeSaveResponse { success: true, message, formula_name: String::from_str(formula_name), saved_at }
}

/// The formula name that a stored file stands for: its stem, upper-cased,
/// for a file ending in `.rs`.
pub open spec fn candidate_name_spec(file_name: Seq<char>) -> Option<Seq<char>> {
    if file_name.len() >= 3 && file_name.skip(file_name.len() - 3) == seq!['.', 'r', 's'] {
        Some(upper_of(file_name.take(file_name.len() - 3)))
    } else {
        None
    }
}

pub fn candidate_name(file_name: &str) -> (r: Option<String>)
    ensures
        match candidate_name_spec(file_name@) {
            Some(n) => r matches Some(s) && s@ == n,
            None => r is None,
        },
{
    let cs = chars_of(file_name);
    let n = cs.len();
    if n < 3 || cs[n - 3] != '.' || cs[n - 2] != 'r' || cs[n - 1] != 's' {
        proof {
            if n >= 3 {
                let t = file_name@.skip(n - 3);
                assert(t.len() == 3 && t[0] == cs@[n - 3] && t[1] == cs@[n - 2] && t[2] == cs@[n - 1]);
            }
        }
        return None;
    }
    assert(file_name@.skip(n - 3) =~= seq!['.', 'r', 's']);
    let mut stem: Vec<char> = Vec::new();
    let mut i: usize = 0;
    while i < n - 3
        invariant
            n == cs@.len(),
            n >= 3,
            0 <= i <= n - 3,
            stem@ == cs@.take(i as int),
        decreases n - 3 - i,
    {
        stem.push(cs[i]);
        i = i + 1;
        assert(stem@ =~= cs@.take(i as int));
    }
    let s = string_of(&stem);
    Some(uppercase(s.as_str()))
}

impl FormulaCodeManager {
    pub fn new() -> (r: FormulaCodeManager)
        ensures
            r.code_directory@ == "formula_code"@,
    {
        FormulaCodeManager { code_directory: String::from_str("formula_code") }
    }

    /// The structural acceptance check: the source must show an
    /// `impl FormulaExecutor` and the three operations.
    pub fn validate_rust_code(&self, code: &str) -> (r: Result<(), CodeProblem>)
        ensures
            match code_problem(code@) {
                None => r is Ok,
                Some(p) => r == Err::<(), CodeProblem>(p),
            },
    {
        if !contains_text(code, "impl FormulaExecutor") {
            return Err(CodeProblem::MissingExecutorImpl);
        }
        if !contains_text(code, "fn execute") {
            return Err(CodeProblem::MissingExecute);
        }
        if !contains_text(code, "fn validate_parameters") {
            return Err(CodeProblem::MissingValidateParameters);
        }
        if !contains_text(code, "fn get_output_columns") {
            return Err(CodeProblem::MissingGetOutputColumns);
        }
        Ok(())
    }

    /// The file that holds the saved source of `formula_name`.
    pub fn code_path(&self, formula_name: &str) -> (r: String)
        ensures
            r@ == code_path_spec(self.code_directory@, formula_name@),
    {
        let mut p = self.code_directory.clone();
        p.append("/");
        p.append(lowercase(formula_name).as_str());
        p.append(".rs");
        p
    }

    /// Where accepted source for `formula_name` is to be written, once it
    /// passes the structural check.
    pub fn save_target(&self, formula_name: &str, code: &str) -> (r: Result<String, CodeProblem>)
        ensures
            match code_problem(code@) {
                None => r matches Ok(p) && p@ == code_path_spec(self.code_directory@, formula_name@),
                Some(p) => r == Err::<String, CodeProblem>(p),
            },
    {
        self.validate_rust_code(code)?;
        Ok(self.code_path(formula_name))
    }

    /// The scratch directory of the compile-tests.
    pub fn scratch_directory(&self) -> (r: String)
        ensures
            r@ == scratch_spec(self.code_directory@),
    {
        let mut p = self.code_directory.clone();
        p.append("/scratch/");
        p
    }

    fn stem(formula_name: &str, id: u64) -> (r: String)
        ensures
            r@ == candidate_stem(formula_name@, id),
    {
        let mut s = String::from_str("test_");
        push_digits(&mut s, id);
        push_char(&mut s, '_');
        s.append(lowercase(formula_name).as_str());
        s
    }

    /// The paths of the compile-test numbered `id` of `formula_name`.
    pub fn candidate_paths(&self, formula_name: &str, id: u64) -> (r: CandidatePaths)
        ensures
            r.source@ == candidate_source_spec(self.code_directory@, formula_name@, id),
            r.artifact@ == candidate_artifact_spec(self.code_directory@, formula_name@, id),
    {
        let stem = Self::stem(formula_name, id);
        let mut source = self.scratch_directory();
        source.append(stem.as_str());
        source.append(".rs");
        let mut artifact = self.scratch_directory();
        artifact.append("lib");
        artifact.append(stem.as_str());
        artifact.append(".rlib");
        CandidatePaths { source, artifact }
    }
}


pub open spec fn char_digit(c: char) -> nat {
    if c == '1' { 1 } else if c == '2' { 2 } else if c == '3' { 3 } else if c == '4' { 4 }
    else if c == '5' { 5 } else if c == '6' { 6 } else if c == '7' { 7 } else if c == '8' { 8 }
    else if c == '9' { 9 } else { 0 }
}

/// The number that a run of decimal digits reads as.
pub open spec fn digits_value(s: Seq<char>) -> nat
    decreases s.len(),
{
    if s.len() == 0 {
        0
    } else {
        digits_value(s.drop_last()) * 10 + char_digit(s.last())
    }
}

proof fn lemma_digits_value(n: nat)
    ensures
        digits_value(digits(n)) == n,
        forall|i: int| 0 <= i < digits(n).len() ==> digits(n)[i] != '_',
    decreases n,
{
    if n < 10 {
        assert(digits(n).drop_last() =~= Seq::<char>::empty());
        assert(char_digit(digit_char(n)) == n);
        assert(digits_value(Seq::<char>::empty()) == 0);
        assert(digits_value(digits(n)) == digits_value(digits(n).drop_last()) * 10 + char_digit(digits(n).last()));
    } else {
        lemma_digits_value(n / 10);
        assert(digits(n).drop_last() =~= digits(n / 10));
        let d = n % 10;
        assert(char_digit(digit_char(d)) == d);
        assert(digits(n).last() == digit_char(d));
        assert(digits_value(digits(n)) == digits_value(digits(n / 10)) * 10 + d);
        assert((n / 10) * 10 + d == n) by (nonlinear_arith)
            requires
                d == n % 10,
        ;
    }
}

proof fn lemma_tagged_ids(p: Seq<char>, a: u64, ra: Seq<char>, b: u64, rb: Seq<char>)
    requires
        p + digits(a as nat) + seq!['_'] + ra == p + digits(b as nat) + seq!['_'] + rb,
    ensures
        a == b,
{
    let x = p + digits(a as nat) + seq!['_'] + ra;
    let da = digits(a as nat);
    let db = digits(b as nat);
    lemma_digits_value(a as nat);
    lemma_digits_value(b as nat);
    if da.len() < db.len() {
        assert(x[(p.len() + da.len()) as int] == '_');
        assert(x[(p.len() + da.len()) as int] == db[da.len() as int]);
    } else if db.len() < da.len() {
        assert(x[(p.len() + db.len()) as int] == da[db.len() as int]);
        assert((p + db + seq!['_'] + rb)[(p.len() + db.len()) as int] == '_');
    } else {
        assert(da =~= x.subrange(p.len() as int, (p.len() + da.len()) as int));
        assert(db =~= (p + db + seq!['_'] + rb).subrange(p.len() as int, (p.len() + db.len()) as int));
    }
}

/// Two compile-tests with different identifiers never share a source file
/// or an artifact, whatever formula names they are for.
pub proof fn law_candidate_paths_distinct(
    dir: Seq<char>,
    first_name: Seq<char>,
    first_id: u64,
    second_name: Seq<char>,
    second_id: u64,
)
    requires
        first_id != second_id,
    ensures
        candidate_source_spec(dir, first_name, first_id) != candidate_source_spec(
            dir,
            second_name,
            second_id,
        ),
        candidate_artifact_spec(dir, first_name, first_id) != candidate_artifact_spec(
            dir,
            second_name,
            second_id,
        ),
{
    let p = scratch_spec(dir) + "test_"@;
    let q = scratch_spec(dir) + "lib"@ + "test_"@;
    let d1 = digits(first_id as nat);
    let d2 = digits(second_id as nat);
    let l1 = lower_of(first_name);
    let l2 = lower_of(second_name);
    assert(candidate_source_spec(dir, first_name, first_id) =~= p + d1 + seq!['_'] + (l1 + ".rs"@));
    assert(candidate_source_spec(dir, second_name, second_id) =~= p + d2 + seq!['_'] + (l2 + ".rs"@));
    assert(candidate_artifact_spec(dir, first_name, first_id) =~= q + d1 + seq!['_'] + (l1 + ".rlib"@));
    assert(candidate_artifact_spec(dir, second_name, second_id) =~= q + d2 + seq!['_'] + (l2
        + ".rlib"@));
    if candidate_source_spec(dir, first_name, first_id) == candidate_source_spec(dir, second_name, second_id) {
        lemma_tagged_ids(p, first_id, l1 + ".rs"@, second_id, l2 + ".rs"@);
    }
    if candidate_artifact_spec(dir, first_name, first_id) == candidate_artifact_spec(dir, second_name, second_id) {
        lemma_tagged_ids(q, first_id, l1 + ".rlib"@, second_id, l2 + ".rlib"@);
    }
}

/// A clean build is reported as a success with no diagnostics.
pub proof fn law_clean_build_reports_success(run: CompileRun)
    requires
        run is Built,
    ensures
        outcome_of(run).0,
        outcome_of(run).2.len() == 0,
{
}

/// A failed build whose error stream holds a non-blank line is reported as a
/// failure with at least one diagnostic, and every diagnostic is non-empty.
pub proof fn law_failed_build_reports_diagnostics(stderr: String)
    requires
        exists|i: int| 0 <= i < lines_of(stderr@).len() && !is_blank(#[trigger] lines_of(stderr@)[i]),
    ensures
        !outcome_of(CompileRun::Failed(stderr)).0,
        outcome_of(CompileRun::Failed(stderr)).2.len() >= 1,
        forall|j: int|
            0 <= j < outcome_of(CompileRun::Failed(stderr)).2.len() ==> #[trigger] outcome_of(
                CompileRun::Failed(stderr),
            ).2[j].len() > 0,
{
    let ls = lines_of(stderr@);
    let pred = |l: Seq<char>| !is_blank(l);
    let i = choose|i: int| 0 <= i < ls.len() && !is_blank(#[trigger] ls[i]);
    broadcast use vstd::seq_lib::group_filter_ensures;
    assert(ls.filter(pred).contains(ls[i]));
    let d = ls.filter(pred);
    assert forall|j: int| 0 <= j < d.len() implies #[trigger] d[j].len() > 0 by {
        assert(pred(d[j]));
        if d[j].len() == 0 {
            assert(is_blank(d[j]));
        }
    }
}

} // verus!
