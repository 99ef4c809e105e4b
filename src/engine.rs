//! The formula registry: descriptors bound to executors, with their lifecycle.
use crate::descriptor::{config_problem, validate_formula_config, ConfigProblem, FormulaConfig};
use crate::executor::{missing_parameter_message, rows_view, Executor, FormulaExecutor, RecordModel};
use crate::value::{text_eq, Number, Record, Value, ValueModel};
use std::time::Instant;
use vstd::prelude::*;

verus! {

/// A descriptor with the executor bound to it, if one is.
#[derive(Clone, Debug)]
pub struct RegisteredFormula {
    pub config: FormulaConfig,
    pub executor: Option<Executor>,
}

/// Why a registry operation was refused.
#[derive(Clone, Debug)]
pub enum EngineError {
    Config(ConfigProblem),
    NotFound(String),
    Disabled(String),
    ExecutorMissing(String),
}

#[verifier::external_type_specification]
#[verifier::external_body]
pub struct ExInstant(Instant);

/// Relies on `Instant::now`: a reading of the monotonic clock.
#[verifier::external_body]
fn clock_now() -> Instant {
    Instant::now()
}

/// Relies on `Instant::elapsed` (with `Duration::as_millis`): the whole
/// milliseconds since `start`.
#[verifier::external_body]
fn millis_since(start: &Instant) -> u128 {
    start.elapsed().as_millis()
}

fn elapsed_ms(start: &Instant) -> u64 {
    let ms = millis_since(start);
    if ms > u64::MAX as u128 {
        u64::MAX
    } else {
        ms as u64
    }
}

/// How the rows of an execution are to be presented.
#[derive(Clone, Debug)]
pub struct OutputConfig {
    pub output_column: String,
    pub include_metadata: bool,
    pub sample_size: Option<usize>,
}

/// A request to run a formula over a batch of rows.
#[derive(Clone, Debug)]
pub struct FormulaExecutionRequest {
    pub formula_name: String,
    pub data: Vec<Record>,
    pub parameters: Record,
    pub output_config: OutputConfig,
}

#[derive(Clone, Copy, Debug, PartialEq, Eq, Structural)]
pub enum ExecutionStatus {
    Success,
    Error,
}

/// What running a formula gave: its rows, or why the formula refused.
#[derive(Clone, Debug)]
pub struct FormulaExecutionResult {
    pub status: ExecutionStatus,
    pub data: Vec<Record>,
    pub metadata: Record,
    pub processing_time_ms: u64,
    pub formula_name: String,
    pub error_message: Option<String>,
}

/// A count as a whole number, capped at the largest mantissa.
pub open spec fn count_number(n: int) -> Number {
    Number { mantissa: if n > i64::MAX { i64::MAX } else { n as i64 }, scale: 0 }
}

fn count_value(n: u64) -> (r: Value)
    ensures
        r@ == ValueModel::Number(count_number(n as int)),
{
    let m: i64 = if n > i64::MAX as u64 {
        i64::MAX
    } else {
        n as i64
    };
    Value::Number(Number { mantissa: m, scale: 0 })
}

/// The metadata of a successful execution.
pub open spec fn success_metadata(name: Seq<char>, ms: u64, input_rows: int, output_rows: int) -> RecordModel {
    Map::empty().insert("formula_name"@, ValueModel::Text(name)).insert(
        "processing_time_ms"@,
        ValueModel::Number(count_number(ms as int)),
    ).insert("input_rows"@, ValueModel::Number(count_number(input_rows))).insert(
        "output_rows"@,
        ValueModel::Number(count_number(output_rows)),
    )
}

pub open spec fn validation_failure_message(p: Seq<char>) -> Seq<char> {
    "Parameter validation failed: "@ + missing_parameter_message(p)
}

/// A result that reports a failure with `message` and no rows.
pub open spec fn reports_failure(res: FormulaExecutionResult, message: Seq<char>) -> bool {
    &&& res.status == ExecutionStatus::Error
    &&& res.data@.len() == 0
    &&& res.metadata@ == Map::<Seq<char>, ValueModel>::empty()
    &&& res.error_message matches Some(m) && m@ == message
}

/// What running `executor` on `data` with `parameters` is reported as: a
/// failed validation, a failed execution, or the executor's rows.
pub open spec fn reports_outcome(
    res: FormulaExecutionResult,
    executor: Executor,
    data: Seq<Record>,
    parameters: RecordModel,
) -> bool {
    match executor.validation_spec(parameters) {
        Some(p) => reports_failure(res, validation_failure_message(p)),
        None => match executor.execution_spec(rows_view(data), parameters) {
            Err(p) => reports_failure(res, missing_parameter_message(p)),
            Ok(rows) => {
                &&& res.status == ExecutionStatus::Success
                &&& rows_view(res.data@) == rows
                &&& res.error_message is None
                &&& res.metadata@ == success_metadata(
                    res.formula_name@,
                    res.processing_time_ms,
                    data.len() as int,
                    rows.len() as int,
                )
            },
        },
    }
}

fn failure(formula_name: String, message: String, start: &Instant) -> (res: FormulaExecutionResult)
    ensures
        reports_failure(res, message@),
        res.formula_name == formula_name,
{
    FormulaExecutionResult {
        status: ExecutionStatus::Error,
        data: Vec::new(),
        metadata: Record::new(),
        processing_time_ms: elapsed_ms(start),
        formula_name,
        error_message: Some(message),
    }
}

pub open spec fn key_of(e: RegisteredFormula) -> Seq<char> {
    e.config.name@
}

/// The registry that a list of entries stands for, keyed by formula name.
pub open spec fn entries_model(s: Seq<RegisteredFormula>) -> Map<Seq<char>, RegisteredFormula>
    decreases s.len(),
{
    if s.len() == 0 {
        Map::empty()
    } else {
        entries_model(s.drop_last()).insert(key_of(s.last()), s.last())
    }
}

pub open spec fn names_unique(s: Seq<RegisteredFormula>) -> bool {
    forall|i: int, j: int| 0 <= i < s.len() && 0 <= j < s.len() && i != j ==> key_of(s[i]) != key_of(
        s[j],
    )
}

proof fn lemma_model_has(s: Seq<RegisteredFormula>, i: int)
    requires
        names_unique(s),
        0 <= i < s.len(),
    ensures
        entries_model(s).contains_key(key_of(s[i])),
        entries_model(s)[key_of(s[i])] == s[i],
    decreases s.len(),
{
    if i < s.len() - 1 {
        assert(key_of(s.last()) != key_of(s[i]));
        assert(s.drop_last()[i] == s[i]);
        lemma_model_has(s.drop_last(), i);
    }
}

proof fn lemma_model_keys(s: Seq<RegisteredFormula>, k: Seq<char>)
    ensures
        entries_model(s).contains_key(k) <==> exists|i: int| 0 <= i < s.len() && key_of(s[i]) == k,
    decreases s.len(),
{
    if s.len() > 0 {
        lemma_model_keys(s.drop_last(), k);
        if entries_model(s).contains_key(k) && key_of(s.last()) != k {
            let i = choose|i: int| 0 <= i < s.len() - 1 && key_of(s.drop_last()[i]) == k;
            assert(key_of(s[i]) == k);
        }
        if exists|i: int| 0 <= i < s.len() && key_of(s[i]) == k {
            let i = choose|i: int| 0 <= i < s.len() && key_of(s[i]) == k;
            if i < s.len() - 1 {
                assert(key_of(s.drop_last()[i]) == k);
            }
        }
    }
}

/// With unique names, the model is determined by each entry under its name.
proof fn lemma_model_ext(s: Seq<RegisteredFormula>, m: Map<Seq<char>, RegisteredFormula>)
    requires
        names_unique(s),
        forall|i: int| 0 <= i < s.len() ==> m.contains_key(key_of(s[i])) && m[key_of(s[i])] == s[i],
        forall|k: Seq<char>| m.contains_key(k) ==> exists|i: int| 0 <= i < s.len() && key_of(s[i]) == k,
    ensures
        entries_model(s) == m,
{
    assert forall|k: Seq<char>| entries_model(s).contains_key(k) <==> m.contains_key(k) by {
        lemma_model_keys(s, k);
    }
    assert forall|k: Seq<char>| entries_model(s).contains_key(k) implies entries_model(s)[k] == m[k] by {
        lemma_model_keys(s, k);
        let i = choose|i: int| 0 <= i < s.len() && key_of(s[i]) == k;
        lemma_model_has(s, i);
    }
    assert(entries_model(s) =~= m);
}

proof fn lemma_model_update(s: Seq<RegisteredFormula>, i: int, e: RegisteredFormula)
    requires
        names_unique(s),
        0 <= i < s.len(),
        key_of(e) == key_of(s[i]),
    ensures
        names_unique(s.update(i, e)),
        entries_model(s.update(i, e)) == entries_model(s).insert(key_of(e), e),
{
    let t = s.update(i, e);
    let m = entries_model(s).insert(key_of(e), e);
    assert forall|j: int| 0 <= j < t.len() implies m.contains_key(key_of(t[j])) && m[key_of(t[j])]
        == t[j] by {
        if j != i {
            lemma_model_has(s, j);
        }
    }
    assert forall|k: Seq<char>| m.contains_key(k) implies exists|j: int|
        0 <= j < t.len() && key_of(t[j]) == k by {
        if k != key_of(e) {
            lemma_model_keys(s, k);
            let j = choose|j: int| 0 <= j < s.len() && key_of(s[j]) == k;
            assert(key_of(t[j]) == k);
        } else {
            assert(key_of(t[i]) == k);
        }
    }
    lemma_model_ext(t, m);
}

proof fn lemma_model_remove(s: Seq<RegisteredFormula>, i: int)
    requires
        names_unique(s),
        0 <= i < s.len(),
    ensures
        names_unique(s.remove(i)),
        entries_model(s.remove(i)) == entries_model(s).remove(key_of(s[i])),
{
    let t = s.remove(i);
    let m = entries_model(s).remove(key_of(s[i]));
    assert forall|j: int| 0 <= j < t.len() implies m.contains_key(key_of(t[j])) && m[key_of(t[j])]
        == t[j] by {
        if j < i {
            lemma_model_has(s, j);
        } else {
            lemma_model_has(s, j + 1);
        }
    }
    assert forall|k: Seq<char>| m.contains_key(k) implies exists|j: int|
        0 <= j < t.len() && key_of(t[j]) == k by {
        lemma_model_keys(s, k);
        let j = choose|j: int| 0 <= j < s.len() && key_of(s[j]) == k;
        if j < i {
            assert(key_of(t[j]) == k);
        } else {
            assert(key_of(t[j - 1]) == k);
        }
    }
    lemma_model_ext(t, m);
}

proof fn lemma_model_push(s: Seq<RegisteredFormula>, e: RegisteredFormula)
    requires
        names_unique(s),
        !entries_model(s).contains_key(key_of(e)),
    ensures
        names_unique(s.push(e)),
        entries_model(s.push(e)) == entries_model(s).insert(key_of(e), e),
{
    assert(s.push(e).drop_last() =~= s);
    assert forall|i: int| 0 <= i < s.len() implies key_of(s[i]) != key_of(e) by {
        lemma_model_has(s, i);
    }
}

/// Whether `name` is bound to an executor of another kind than `executor`.
pub open spec fn bound_to_other(
    m: Map<Seq<char>, RegisteredFormula>,
    name: Seq<char>,
    executor: Executor,
) -> bool {
    m.contains_key(name) && match m[name].executor {
        Some(bound) => bound != executor,
        None => false,
    }
}

/// `listed` holds the descriptor of each formula of `m` (each active one,
/// with `active_only`) exactly once, in some order.
pub open spec fn is_listing(
    m: Map<Seq<char>, RegisteredFormula>,
    listed: Seq<&FormulaConfig>,
    active_only: bool,
) -> bool {
    &&& forall|i: int|
        0 <= i < listed.len() ==> m.contains_key(listed[i].name@) && m[listed[i].name@].config
            == *listed[i] && (active_only ==> listed[i].is_active)
    &&& forall|k: Seq<char>|
        m.contains_key(k) && (active_only ==> m[k].config.is_active) ==> exists|i: int|
            0 <= i < listed.len() && listed[i].name@ == k
    &&& forall|i: int, j: int| 0 <= i < j < listed.len() ==> listed[i].name@ != listed[j].name@
}

/// The registry `m` after a valid registration of `config` with `executor`.
pub open spec fn registered(
    m: Map<Seq<char>, RegisteredFormula>,
    config: FormulaConfig,
    executor: Executor,
) -> Map<Seq<char>, RegisteredFormula> {
    m.insert(config.name@, RegisteredFormula { config, executor: Some(executor) })
}

/// The registry `m` with the active flag of `name` set to `is_active`.
pub open spec fn status_set(
    m: Map<Seq<char>, RegisteredFormula>,
    name: Seq<char>,
    is_active: bool,
) -> Map<Seq<char>, RegisteredFormula> {
    m.insert(
        name,
        RegisteredFormula { config: FormulaConfig { is_active, ..m[name].config }, ..m[name] },
    )
}

/// The registry of formulas, keyed by name.
pub struct DynamicFormulaEngine {
    entries: Vec<RegisteredFormula>,
}

impl View for DynamicFormulaEngine {
    type V = Map<Seq<char>, RegisteredFormula>;

    closed spec fn view(&self) -> Map<Seq<char>, RegisteredFormula> {
        entries_model(self.entries@)
    }
}

impl DynamicFormulaEngine {
    /// The registry's internal invariant: one entry per name, each under its
    /// own descriptor's name.
    pub closed spec fn wf(&self) -> bool {
        names_unique(self.entries@)
    }

    pub fn new() -> (r: DynamicFormulaEngine)
        ensures
            r.wf(),
            r@ == Map::<Seq<char>, RegisteredFormula>::empty(),
    {
        DynamicFormulaEngine { entries: Vec::new() }
    }

    /// The position of the entry named `name`.
    fn position(&self, name: &str) -> (r: Option<usize>)
        requires
            self.wf(),
        ensures
            r is None ==> !self@.contains_key(name@),
            r matches Some(i) ==> i < self.entries@.len() && key_of(self.entries@[i as int])
                == name@,
    {
        let mut i: usize = 0;
        while i < self.entries.len()
            invariant
                0 <= i <= self.entries@.len(),
                forall|j: int| 0 <= j < i ==> key_of(self.entries@[j]) != name@,
            decreases self.entries@.len() - i,
        {
            if text_eq(self.entries[i].config.name.as_str(), name) {
                return Some(i);
            }
            i = i + 1;
        }
        proof {
            lemma_model_keys(self.entries@, name@);
        }
        None
    }

    /// Binds `config` and `executor` under the descriptor's name, active or not
    /// as the descriptor says. A valid descriptor replaces whatever was
    /// registered under that name, unless the name is bound to an executor of
    /// another kind.
    pub fn register_formula(&mut self, config: FormulaConfig, executor: Executor) -> (r: Result<
        (),
        EngineError,
    >)
        requires
            old(self).wf(),
        ensures
            final(self).wf(),
            match config_problem(config) {
                Some(p) => r == Err::<(), EngineError>(EngineError::Config(p)) && final(self)@ == old(
                    self,
                )@,
                None => if bound_to_other(old(self)@, config.name@, executor) {
                    r == Err::<(), EngineError>(EngineError::Config(ConfigProblem::ExecutorMismatch))
                        && final(self)@ == old(self)@
                } else {
                    r is Ok && final(self)@ == registered(old(self)@, config, executor)
                },
            },
    {
        if let Err(p) = validate_formula_config(&config) {
            return Err(EngineError::Config(p));
        }
        if let Some(i) = self.position(config.name.as_str()) {
            proof {
                lemma_model_has(self.entries@, i as int);
            }
            if let Some(bound) = self.entries[i].executor {
                if bound != executor {
                    return Err(EngineError::Config(ConfigProblem::ExecutorMismatch));
                }
            }
        }
        self.put(RegisteredFormula { config, executor: Some(executor) });
        Ok(())
    }

    /// Binds a descriptor alone, replacing the descriptor registered under its
    /// name and keeping the executor bound there, if any.
    pub fn register_descriptor(&mut self, config: FormulaConfig) -> (r: Result<(), EngineError>)
        requires
            old(self).wf(),
        ensures
            final(self).wf(),
            match config_problem(config) {
                Some(p) => r == Err::<(), EngineError>(EngineError::Config(p)) && final(self)@ == old(
                    self,
                )@,
                None => r is Ok && final(self)@ == old(self)@.insert(
                    config.name@,
                    RegisteredFormula {
                        config,
                        executor: if old(self)@.contains_key(config.name@) {
                            old(self)@[config.name@].executor
                        } else {
                            None
                        },
                    },
                ),
            },
    {
        if let Err(p) = validate_formula_config(&config) {
            return Err(EngineError::Config(p));
        }
        let executor = match self.position(config.name.as_str()) {
            Some(i) => {
                proof {
                    lemma_model_has(self.entries@, i as int);
                }
                self.entries[i].executor
            },
            None => None,
        };
        self.put(RegisteredFormula { config, executor });
        Ok(())
    }

    /// Replaces the descriptor of a registered formula, keeping its executor.
    pub fn update_formula(&mut self, config: FormulaConfig) -> (r: Result<(), EngineError>)
        requires
            old(self).wf(),
        ensures
            final(self).wf(),
            !old(self)@.contains_key(config.name@) ==> final(self)@ == old(self)@ && (r matches Err(
                EngineError::NotFound(n),
            ) && n@ == config.name@),
            old(self)@.contains_key(config.name@) ==> match config_problem(config) {
                Some(p) => r == Err::<(), EngineError>(EngineError::Config(p)) && final(self)@ == old(
                    self,
                )@,
                None => r is Ok && final(self)@ == old(self)@.insert(
                    config.name@,
                    RegisteredFormula { config, executor: old(self)@[config.name@].executor },
                ),
            },
    {
        let i = match self.position(config.name.as_str()) {
            Some(i) => i,
            None => return Err(EngineError::NotFound(config.name.clone())),
        };
        proof {
            lemma_model_has(self.entries@, i as int);
        }
        if let Err(p) = validate_formula_config(&config) {
            return Err(EngineError::Config(p));
        }
        let executor = self.entries[i].executor;
        self.put(RegisteredFormula { config, executor });
        Ok(())
    }

    /// Removes a formula, descriptor and executor both.
    pub fn remove_formula(&mut self, formula_name: &str) -> (r: Result<(), EngineError>)
        requires
            old(self).wf(),
        ensures
            final(self).wf(),
            old(self)@.contains_key(formula_name@) ==> r is Ok && final(self)@ == old(self)@.remove(
                formula_name@,
            ),
            !old(self)@.contains_key(formula_name@) ==> final(self)@ == old(self)@ && (r matches Err(
                EngineError::NotFound(n),
            ) && n@ == formula_name@),
    {
        match self.position(formula_name) {
            Some(i) => {
                let ghost s = self.entries@;
                self.entries.remove(i);
                proof {
                    lemma_model_has(s, i as int);
                    lemma_model_remove(s, i as int);
                }
                Ok(())
            },
            None => Err(EngineError::NotFound(String::from_str(formula_name))),
        }
    }

    /// Sets the active flag of a formula's descriptor; nothing else changes.
    pub fn set_formula_status(&mut self, formula_name: &str, is_active: bool) -> (r: Result<
        (),
        EngineError,
    >)
        requires
            old(self).wf(),
        ensures
            final(self).wf(),
            old(self)@.contains_key(formula_name@) ==> r is Ok && final(self)@ == status_set(
                old(self)@,
                formula_name@,
                is_active,
            ),
            !old(self)@.contains_key(formula_name@) ==> final(self)@ == old(self)@ && (r matches Err(
                EngineError::NotFound(n),
            ) && n@ == formula_name@),
    {
        match self.position(formula_name) {
            Some(i) => {
                let ghost s = self.entries@;
                proof {
                    lemma_model_has(s, i as int);
                    assert(old(self)@.contains_key(formula_name@));
                }
                let mut e = self.entries.remove(i);
                e.config.is_active = is_active;
                self.entries.insert(i, e);
                proof {
                    assert(self.entries@ =~= s.update(i as int, e));
                    lemma_model_update(s, i as int, e);
                }
                Ok(())
            },
            None => Err(EngineError::NotFound(String::from_str(formula_name))),
        }
    }

    /// Runs a formula: refused when the name is unknown, the formula disabled,
    /// or no executor bound; otherwise the executor validates the parameters
    /// and runs over the rows, and either failure is reported in the result.
    pub fn execute_formula(&self, request: FormulaExecutionRequest) -> (r: Result<
        FormulaExecutionResult,
        EngineError,
    >)
        requires
            self.wf(),
        ensures
            ({
                let name = request.formula_name@;
                &&& !self@.contains_key(name) ==> (r matches Err(EngineError::NotFound(n)) && n@
                    == name)
                &&& self@.contains_key(name) && !self@[name].config.is_active ==> (r matches Err(
                    EngineError::Disabled(n),
                ) && n@ == name)
                &&& self@.contains_key(name) && self@[name].config.is_active
                    && self@[name].executor is None ==> (r matches Err(
                    EngineError::ExecutorMissing(n),
                ) && n@ == name)
                &&& self@.contains_key(name) && self@[name].config.is_active
                    && self@[name].executor is Some ==> (r matches Ok(res)
                    && res.formula_name@ == name && reports_outcome(
                    res,
                    self@[name].executor.unwrap(),
                    request.data@,
                    request.parameters@,
                ))
            }),
    {
        let start = clock_now();
        let i = match self.position(request.formula_name.as_str()) {
            Some(i) => i,
            None => return Err(EngineError::NotFound(request.formula_name)),
        };
        proof {
            lemma_model_has(self.entries@, i as int);
        }
        let entry = &self.entries[i];
        if !entry.config.is_active {
            return Err(EngineError::Disabled(request.formula_name));
        }
        let executor = match entry.executor {
            Some(e) => e,
            None => return Err(EngineError::ExecutorMissing(request.formula_name)),
        };
        if let Err(e) = executor.validate_parameters(&request.parameters) {
            let mut message = String::from_str("Parameter validation failed: ");
            message.append(e.message().as_str());
            return Ok(failure(request.formula_name, message, &start));
        }
        match executor.execute(request.data.as_slice(), &request.parameters) {
            Ok(rows) => {
                let ms = elapsed_ms(&start);
                let mut metadata = Record::new();
                metadata.insert(String::from_str("formula_name"), Value::Text(request.formula_name.clone()));
                metadata.insert(String::from_str("processing_time_ms"), count_value(ms));
                metadata.insert(String::from_str("input_rows"), count_value(request.data.len() as u64));
                metadata.insert(String::from_str("output_rows"), count_value(rows.len() as u64));
                Ok(
                    FormulaExecutionResult {
                        status: ExecutionStatus::Success,
                        data: rows,
                        metadata,
                        processing_time_ms: ms,
                        formula_name: request.formula_name,
                        error_message: None,
                    },
                )
            },
            Err(e) => Ok(failure(request.formula_name, e.message(), &start)),
        }
    }

    /// The descriptors of all registered formulas, one per name.
    pub fn get_formulas(&self) -> (r: Vec<&FormulaConfig>)
        requires
            self.wf(),
        ensures
            is_listing(self@, r@, false),
    {
        self.collect(false)
    }

    /// The descriptors of the active formulas, one per name.
    pub fn get_active_formulas(&self) -> (r: Vec<&FormulaConfig>)
        requires
            self.wf(),
        ensures
            is_listing(self@, r@, true),
    {
        self.collect(true)
    }

    fn collect(&self, active_only: bool) -> (r: Vec<&FormulaConfig>)
        requires
            self.wf(),
        ensures
            forall|i: int|
                0 <= i < r@.len() ==> self@.contains_key(r@[i].name@) && self@[r@[i].name@].config
                    == *r@[i] && (active_only ==> r@[i].is_active),
            forall|k: Seq<char>|
                self@.contains_key(k) && (active_only ==> self@[k].config.is_active) ==> exists|i: int|
                    0 <= i < r@.len() && r@[i].name@ == k,
            forall|i: int, j: int| 0 <= i < j < r@.len() ==> r@[i].name@ != r@[j].name@,
    {
        let ghost s = self.entries@;
        let mut out: Vec<&FormulaConfig> = Vec::new();
        let mut i: usize = 0;
        while i < self.entries.len()
            invariant
                s == self.entries@,
                names_unique(s),
                0 <= i <= s.len(),
                forall|j: int| #![trigger out@[j]]
                    0 <= j < out@.len() ==> exists|k: int|
                        0 <= k < i && #[trigger] s[k].config == *out@[j] && (active_only ==> s[k].config.is_active),
                forall|k: int|
                    0 <= k < i && (active_only ==> s[k].config.is_active) ==> exists|j: int|
                        0 <= j < out@.len() && out@[j].name@ == key_of(s[k]),
                forall|a: int, b: int| 0 <= a < b < out@.len() ==> out@[a].name@ != out@[b].name@,
            decreases s.len() - i,
        {
            let c = &self.entries[i].config;
            if !active_only || c.is_active {
                let ghost prev = out@;
                proof {
                    assert forall|j: int| 0 <= j < prev.len() implies prev[j].name@ != c.name@ by {
                        let k = choose|k: int|
                            0 <= k < i && #[trigger] s[k].config == *prev[j] && (active_only
                                ==> s[k].config.is_active);
                        assert(k != i);
                    }
                }
                out.push(c);
                proof {
                    assert(out@ == prev.push(c));
                    assert forall|k: int|
                        0 <= k < i + 1 && (active_only ==> s[k].config.is_active) implies exists|j: int|
                        0 <= j < out@.len() && out@[j].name@ == key_of(s[k]) by {
                        if k == i {
                            assert(out@[prev.len() as int] == c);
                        } else {
                            let j = choose|j: int| 0 <= j < prev.len() && prev[j].name@ == key_of(s[k]);
                            assert(out@[j] == prev[j]);
                        }
                    }
                    assert forall|j: int| #![trigger out@[j]] 0 <= j < out@.len() implies exists|k: int|
                        0 <= k < i + 1 && #[trigger] s[k].config == *out@[j] && (active_only
                            ==> s[k].config.is_active) by {
                        if j == prev.len() {
                            assert(s[i as int].config == *out@[j]);
                        } else {
                            assert(out@[j] == prev[j]);
                            let k = choose|k: int|
                                0 <= k < i && #[trigger] s[k].config == *prev[j] && (active_only
                                    ==> s[k].config.is_active);
                            assert(s[k].config == *out@[j]);
                        }
                    }
                }
            }
            i = i + 1;
        }
        proof {
            assert forall|j: int| 0 <= j < out@.len() implies self@.contains_key(out@[j].name@)
                && self@[out@[j].name@].config == *out@[j] && (active_only ==> out@[j].is_active) by {
                let k = choose|k: int|
                    0 <= k < s.len() && #[trigger] s[k].config == *out@[j] && (active_only ==> s[k].config.is_active);
                lemma_model_has(s, k);
            }
            assert forall|k: Seq<char>|
                self@.contains_key(k) && (active_only ==> self@[k].config.is_active) implies exists|j: int|
                0 <= j < out@.len() && out@[j].name@ == k by {
                lemma_model_keys(s, k);
                let m = choose|m: int| 0 <= m < s.len() && key_of(s[m]) == k;
                lemma_model_has(s, m);
            }
        }
        out
    }

    /// The descriptor registered under `name`.
    pub fn get_formula(&self, name: &str) -> (r: Option<&FormulaConfig>)
        requires
            self.wf(),
        ensures
            self@.contains_key(name@) ==> r == Some(&self@[name@].config),
            !self@.contains_key(name@) ==> r is None,
    {
        match self.position(name) {
            Some(i) => {
                proof {
                    lemma_model_has(self.entries@, i as int);
                }
                Some(&self.entries[i].config)
            },
            None => None,
        }
    }

    /// Puts `e` under its name, replacing any entry of that name.
    fn put(&mut self, e: RegisteredFormula)
        requires
            old(self).wf(),
        ensures
            final(self).wf(),
            final(self)@ == old(self)@.insert(key_of(e), e),
    {
        let ghost s = self.entries@;
        match self.position(e.config.name.as_str()) {
            Some(i) => {
                self.entries.remove(i);
                self.entries.insert(i, e);
                proof {
                    assert(self.entries@ =~= s.update(i as int, e));
                    lemma_model_update(s, i as int, e);
                }
            },
            None => {
                self.entries.push(e);
                proof {
                    lemma_model_push(s, e);
                }
            },
        }
    }
}


/// Registering a valid descriptor (under a name not bound to an executor of
/// another kind) and then listing shows that descriptor exactly once.
pub proof fn law_register_then_list(
    m: Map<Seq<char>, RegisteredFormula>,
    config: FormulaConfig,
    executor: Executor,
    listed: Seq<&FormulaConfig>,
)
    requires
        config_problem(config) is None,
        !bound_to_other(m, config.name@, executor),
        is_listing(registered(m, config, executor), listed, false),
    ensures
        exists|i: int| 0 <= i < listed.len() && *listed[i] == config,
        forall|i: int, j: int|
            0 <= i < listed.len() && 0 <= j < listed.len() && listed[i].name@ == config.name@
                && listed[j].name@ == config.name@ ==> i == j,
{
    let after = registered(m, config, executor);
    assert(after.contains_key(config.name@));
    let i = choose|i: int| 0 <= i < listed.len() && listed[i].name@ == config.name@;
    assert(*listed[i] == config);
    assert forall|a: int, b: int|
        0 <= a < listed.len() && 0 <= b < listed.len() && listed[a].name@ == config.name@
            && listed[b].name@ == config.name@ implies a == b by {
        if a < b {
            assert(listed[a].name@ != listed[b].name@);
        } else if b < a {
            assert(listed[b].name@ != listed[a].name@);
        }
    }
}

/// A second registration under the same name replaces the first: the
/// registry is as if only the second had been made.
pub proof fn law_register_twice_replaces(
    m: Map<Seq<char>, RegisteredFormula>,
    first: FormulaConfig,
    second: FormulaConfig,
    executor: Executor,
)
    requires
        first.name@ == second.name@,
    ensures
        registered(registered(m, first, executor), second, executor) == registered(m, second, executor),
        !bound_to_other(registered(m, first, executor), second.name@, executor),
{
    assert(registered(registered(m, first, executor), second, executor) =~= registered(m, second, executor));
}

/// Disabling a registered formula makes execution refuse it as disabled;
/// enabling it again leaves the registry as enabling alone would, and, for a
/// formula that was active, exactly as it was.
pub proof fn law_disable_then_enable(m: Map<Seq<char>, RegisteredFormula>, name: Seq<char>)
    requires
        m.contains_key(name),
    ensures
        status_set(m, name, false).contains_key(name),
        !status_set(m, name, false)[name].config.is_active,
        status_set(status_set(m, name, false), name, true) == status_set(m, name, true),
        m[name].config.is_active ==> status_set(status_set(m, name, false), name, true) == m,
{
    let off = status_set(m, name, false);
    assert(status_set(off, name, true) =~= status_set(m, name, true));
    if m[name].config.is_active {
        assert(m[name].config == FormulaConfig { is_active: true, ..m[name].config });
        assert(m[name] == RegisteredFormula { config: FormulaConfig { is_active: true, ..m[name].config }, ..m[name] });
        assert(status_set(m, name, true) =~= m);
    }
}

} // verus!
