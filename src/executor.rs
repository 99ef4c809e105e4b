//! The executor interface and the built-in executors.
use crate::value::{
    display_text, number_sum, numeric_or_zero, Number, Record, Value, ValueModel,
};
use vstd::prelude::*;

verus! {

/// A row, or a set of parameters, as a mapping.
pub type RecordModel = Map<Seq<char>, ValueModel>;

pub open spec fn rows_view(s: Seq<Record>) -> Seq<RecordModel> {
    s.map_values(|r: Record| r@)
}

/// What `str::to_uppercase` returns for a string.
pub uninterp spec fn upper_of(s: Seq<char>) -> Seq<char>;

/// What `str::to_lowercase` returns for a string.
pub uninterp spec fn lower_of(s: Seq<char>) -> Seq<char>;

/// Relies on `str::to_uppercase`: the Unicode upper-case mapping, which
/// depends on the characters alone; an empty string stays empty.
#[verifier::external_body]
pub(crate) fn uppercase(s: &str) -> (r: String)
    ensures
        r@ == upper_of(s@),
        s@.len() == 0 ==> r@.len() == 0,
{
    s.to_uppercase()
}

/// Relies on `str::to_lowercase`: the Unicode lower-case mapping, which
/// depends on the characters alone; an empty string stays empty.
#[verifier::external_body]
pub(crate) fn lowercase(s: &str) -> (r: String)
    ensures
        r@ == lower_of(s@),
        s@.len() == 0 ==> r@.len() == 0,
{
    s.to_lowercase()
}

/// Why an executor refused its parameters.
#[derive(Clone, Debug, PartialEq, Eq)]
pub enum ExecutorError {
    /// A required parameter is absent (or, where it names a column, not a string).
    MissingParameter(String),
}

pub open spec fn missing_parameter_message(name: Seq<char>) -> Seq<char> {
    "Missing required parameter: "@ + name
}

impl ExecutorError {
    pub open spec fn parameter(&self) -> Seq<char> {
        match self {
            ExecutorError::MissingParameter(n) => n@,
        }
    }

    pub fn message(&self) -> (r: String)
        ensures
            r@ == missing_parameter_message(self.parameter()),
    {
        match self {
            ExecutorError::MissingParameter(n) => {
                let mut m = String::from_str("Missing required parameter: ");
                m.append(n.as_str());
                m
            },
        }
    }
}

/// The three operations that every formula implementation offers. Each is
/// stated by a spec function of the parameters (and rows) alone.
pub trait FormulaExecutor {
    /// `None` when the parameters are acceptable, else the missing parameter.
    spec fn validation_spec(&self, parameters: RecordModel) -> Option<Seq<char>>;

    /// The output rows, or the missing parameter.
    spec fn execution_spec(&self, data: Seq<RecordModel>, parameters: RecordModel) -> Result<
        Seq<RecordModel>,
        Seq<char>,
    >;

    /// The columns that a successful execution adds.
    spec fn output_columns_spec(&self, parameters: RecordModel) -> Seq<Seq<char>>;

    fn execute(&self, data: &[Record], parameters: &Record) -> (r: Result<Vec<Record>, ExecutorError>)
        ensures
            match self.execution_spec(rows_view(data@), parameters@) {
                Ok(rows) => r matches Ok(v) && rows_view(v@) == rows,
                Err(p) => r matches Err(e) && e.parameter() == p,
            },
    ;

    fn validate_parameters(&self, parameters: &Record) -> (r: Result<(), ExecutorError>)
        ensures
            match self.validation_spec(parameters@) {
                None => r is Ok,
                Some(p) => r matches Err(e) && e.parameter() == p,
            },
    ;

    fn get_output_columns(&self, parameters: &Record) -> (r: Vec<String>)
        ensures
            r@.map_values(|s: String| s@) == self.output_columns_spec(parameters@),
    ;
}

/// The string held by parameter `name`, if it is present and a string.
pub open spec fn text_parameter_spec(parameters: RecordModel, name: Seq<char>) -> Option<Seq<char>> {
    if parameters.contains_key(name) {
        match parameters[name] {
            ValueModel::Text(s) => Some(s),
            _ => None,
        }
    } else {
        None
    }
}

fn text_parameter<'a>(parameters: &'a Record, name: &str) -> (r: Option<&'a str>)
    ensures
        match text_parameter_spec(parameters@, name@) {
            Some(s) => r matches Some(t) && t@ == s,
            None => r is None,
        },
{
    match parameters.get(name) {
        Some(v) => v.as_str(),
        None => None,
    }
}

fn missing(name: &str) -> (e: ExecutorError)
    ensures
        e.parameter() == name@,
{
    ExecutorError::MissingParameter(String::from_str(name))
}

fn require_present(parameters: &Record, name: &str) -> (r: Result<(), ExecutorError>)
    ensures
        parameters@.contains_key(name@) ==> r is Ok,
        !parameters@.contains_key(name@) ==> (r matches Err(e) && e.parameter() == name@),
{
    if parameters.contains_key(name) {
        Ok(())
    } else {
        Err(missing(name))
    }
}

pub open spec fn text_column_param() -> Seq<char> {
    "text_column"@
}

pub open spec fn upper_column() -> Seq<char> {
    "upper_result"@
}

pub open spec fn lower_column() -> Seq<char> {
    "lower_result"@
}

pub open spec fn add_column() -> Seq<char> {
    "add_result"@
}

pub open spec fn number1_param() -> Seq<char> {
    "number1"@
}

pub open spec fn number2_param() -> Seq<char> {
    "number2"@
}

/// A row after UPPER on `column`: the upper-cased text of the column's value
/// under `upper_result`; a row without the column is left as it is.
pub open spec fn upper_row(row: RecordModel, column: Seq<char>) -> RecordModel {
    if row.contains_key(column) {
        row.insert(upper_column(), ValueModel::Text(upper_of(display_text(row[column]))))
    } else {
        row
    }
}

/// A row after LOWER on `column`, as `upper_row` with the lower-case mapping.
pub open spec fn lower_row(row: RecordModel, column: Seq<char>) -> RecordModel {
    if row.contains_key(column) {
        row.insert(lower_column(), ValueModel::Text(lower_of(display_text(row[column]))))
    } else {
        row
    }
}

pub open spec fn operand(row: RecordModel, column: Seq<char>) -> Number {
    numeric_or_zero(if row.contains_key(column) { Some(row[column]) } else { None })
}

/// What ADD writes for a sum: the number, or null when it does not fit.
pub open spec fn sum_value(sum: Option<Number>) -> ValueModel {
    match sum {
        Some(n) => ValueModel::Number(n),
        None => ValueModel::Null,
    }
}

/// A row after ADD: the sum of the two operand columns under `add_result`,
/// an absent or non-numeric operand counting as zero.
pub open spec fn add_row(row: RecordModel, first: Seq<char>, second: Seq<char>) -> RecordModel {
    row.insert(add_column(), sum_value(number_sum(operand(row, first), operand(row, second))))
}

/// Upper-cases (or lower-cases) the text of `column` into `output` on each row.
fn map_case(data: &[Record], column: &str, upper: bool) -> (r: Vec<Record>)
    ensures
        rows_view(r@) == rows_view(data@).map_values(
            |row: RecordModel|
                if upper {
                    upper_row(row, column@)
                } else {
                    lower_row(row, column@)
                },
        ),
{
    let mut out: Vec<Record> = Vec::new();
    let mut i: usize = 0;
    while i < data.len()
        invariant
            0 <= i <= data@.len(),
            out@.len() == i,
            forall|j: int|
                0 <= j < i ==> #[trigger] out@[j]@ == (if upper {
                    upper_row(data@[j]@, column@)
                } else {
                    lower_row(data@[j]@, column@)
                }),
        decreases data@.len() - i,
    {
        let row = &data[i];
        let mut new_row = row.duplicate();
        match row.get(column) {
            Some(v) => {
                let text = match v.as_str() {
                    Some(s) => String::from_str(s),
                    None => v.display(),
                };
                if upper {
                    new_row.insert(String::from_str("upper_result"), Value::Text(uppercase(text.as_str())));
                } else {
                    new_row.insert(String::from_str("lower_result"), Value::Text(lowercase(text.as_str())));
                }
            },
            None => {},
        }
        out.push(new_row);
        i = i + 1;
    }
    assert(rows_view(out@) =~= rows_view(data@).map_values(
        |row: RecordModel|
            if upper {
                upper_row(row, column@)
            } else {
                lower_row(row, column@)
            },
    ));
    out
}


fn operand_of(row: &Record, column: &str) -> (n: Number)
    ensures
        n == operand(row@, column@),
{
    match row.get(column) {
        Some(v) => match v.as_number() {
            Some(n) => n,
            None => Number::from_i64(0),
        },
        None => Number::from_i64(0),
    }
}

fn map_add(data: &[Record], first: &str, second: &str) -> (r: Vec<Record>)
    ensures
        rows_view(r@) == rows_view(data@).map_values(|row: RecordModel| add_row(row, first@, second@)),
{
    let mut out: Vec<Record> = Vec::new();
    let mut i: usize = 0;
    while i < data.len()
        invariant
            0 <= i <= data@.len(),
            out@.len() == i,
            forall|j: int| 0 <= j < i ==> #[trigger] out@[j]@ == add_row(data@[j]@, first@, second@),
        decreases data@.len() - i,
    {
        let row = &data[i];
        let mut new_row = row.duplicate();
        let sum = match operand_of(row, first).add(operand_of(row, second)) {
            Some(n) => Value::Number(n),
            None => Value::Null,
        };
        new_row.insert(String::from_str("add_result"), sum);
        out.push(new_row);
        i = i + 1;
    }
    assert(rows_view(out@) =~= rows_view(data@).map_values(
        |row: RecordModel| add_row(row, first@, second@),
    ));
    out
}

fn single_column(name: &str) -> (r: Vec<String>)
    ensures
        r@.map_values(|s: String| s@) == seq![name@],
{
    let mut v: Vec<String> = Vec::new();
    v.push(String::from_str(name));
    assert(v@.map_values(|s: String| s@) =~= seq![name@]);
    v
}

/// UPPER: upper-cases the column named by `text_column` into `upper_result`.
#[derive(Clone, Copy, Debug)]
pub struct UpperFormulaExecutor;

impl FormulaExecutor for UpperFormulaExecutor {
    open spec fn validation_spec(&self, parameters: RecordModel) -> Option<Seq<char>> {
        if parameters.contains_key(text_column_param()) {
            None
        } else {
            Some(text_column_param())
        }
    }

    open spec fn execution_spec(&self, data: Seq<RecordModel>, parameters: RecordModel) -> Result<
        Seq<RecordModel>,
        Seq<char>,
    > {
        match text_parameter_spec(parameters, text_column_param()) {
            Some(c) => Ok(data.map_values(|row: RecordModel| upper_row(row, c))),
            None => Err(text_column_param()),
        }
    }

    open spec fn output_columns_spec(&self, parameters: RecordModel) -> Seq<Seq<char>> {
        seq![upper_column()]
    }

    fn execute(&self, data: &[Record], parameters: &Record) -> (r: Result<Vec<Record>, ExecutorError>) {
        match text_parameter(parameters, "text_column") {
            Some(c) => {
                let r = map_case(data, c, true);
                assert(rows_view(r@) =~= rows_view(data@).map_values(|row: RecordModel| upper_row(row, c@)));
                Ok(r)
            },
            None => Err(missing("text_column")),
        }
    }

    fn validate_parameters(&self, parameters: &Record) -> (r: Result<(), ExecutorError>) {
        require_present(parameters, "text_column")
    }

    fn get_output_columns(&self, parameters: &Record) -> (r: Vec<String>) {
        single_column("upper_result")
    }
}

/// LOWER: lower-cases the column named by `text_column` into `lower_result`.
#[derive(Clone, Copy, Debug)]
pub struct LowerFormulaExecutor;

impl FormulaExecutor for LowerFormulaExecutor {
    open spec fn validation_spec(&self, parameters: RecordModel) -> Option<Seq<char>> {
        if parameters.contains_key(text_column_param()) {
            None
        } else {
            Some(text_column_param())
        }
    }

    open spec fn execution_spec(&self, data: Seq<RecordModel>, parameters: RecordModel) -> Result<
        Seq<RecordModel>,
        Seq<char>,
    > {
        match text_parameter_spec(parameters, text_column_param()) {
            Some(c) => Ok(data.map_values(|row: RecordModel| lower_row(row, c))),
            None => Err(text_column_param()),
        }
    }

    open spec fn output_columns_spec(&self, parameters: RecordModel) -> Seq<Seq<char>> {
        seq![lower_column()]
    }

    fn execute(&self, data: &[Record], parameters: &Record) -> (r: Result<Vec<Record>, ExecutorError>) {
        match text_parameter(parameters, "text_column") {
            Some(c) => {
                let r = map_case(data, c, false);
                assert(rows_view(r@) =~= rows_view(data@).map_values(|row: RecordModel| lower_row(row, c@)));
                Ok(r)
            },
            None => Err(missing("text_column")),
        }
    }

    fn validate_parameters(&self, parameters: &Record) -> (r: Result<(), ExecutorError>) {
        require_present(parameters, "text_column")
    }

    fn get_output_columns(&self, parameters: &Record) -> (r: Vec<String>) {
        single_column("lower_result")
    }
}

/// ADD: the sum of the columns named by `number1` and `number2`, into `add_result`.
#[derive(Clone, Copy, Debug)]
pub struct AddFormulaExecutor;

impl FormulaExecutor for AddFormulaExecutor {
    open spec fn validation_spec(&self, parameters: RecordModel) -> Option<Seq<char>> {
        if !parameters.contains_key(number1_param()) {
            Some(number1_param())
        } else if !parameters.contains_key(number2_param()) {
            Some(number2_param())
        } else {
            None
        }
    }

    open spec fn execution_spec(&self, data: Seq<RecordModel>, parameters: RecordModel) -> Result<
        Seq<RecordModel>,
        Seq<char>,
    > {
        match text_parameter_spec(parameters, number1_param()) {
            None => Err(number1_param()),
            Some(a) => match text_parameter_spec(parameters, number2_param()) {
                None => Err(number2_param()),
                Some(b) => Ok(data.map_values(|row: RecordModel| add_row(row, a, b))),
            },
        }
    }

    open spec fn output_columns_spec(&self, parameters: RecordModel) -> Seq<Seq<char>> {
        seq![add_column()]
    }

    fn execute(&self, data: &[Record], parameters: &Record) -> (r: Result<Vec<Record>, ExecutorError>) {
        let a = match text_parameter(parameters, "number1") {
            Some(a) => a,
            None => return Err(missing("number1")),
        };
        let b = match text_parameter(parameters, "number2") {
            Some(b) => b,
            None => return Err(missing("number2")),
        };
        let r = map_add(data, a, b);
        assert(rows_view(r@) =~= rows_view(data@).map_values(|row: RecordModel| add_row(row, a@, b@)));
        Ok(r)
    }

    fn validate_parameters(&self, parameters: &Record) -> (r: Result<(), ExecutorError>) {
        require_present(parameters, "number1")?;
        require_present(parameters, "number2")
    }

    fn get_output_columns(&self, parameters: &Record) -> (r: Vec<String>) {
        single_column("add_result")
    }
}

/// The executor bound to a registered formula: one of the built-ins.
#[derive(Clone, Copy, Debug, PartialEq, Eq, Structural)]
pub enum Executor {
    Upper,
    Lower,
    Add,
}

impl FormulaExecutor for Executor {
    open spec fn validation_spec(&self, parameters: RecordModel) -> Option<Seq<char>> {
        match self {
            Executor::Upper => UpperFormulaExecutor.validation_spec(parameters),
            Executor::Lower => LowerFormulaExecutor.validation_spec(parameters),
            Executor::Add => AddFormulaExecutor.validation_spec(parameters),
        }
    }

    open spec fn execution_spec(&self, data: Seq<RecordModel>, parameters: RecordModel) -> Result<
        Seq<RecordModel>,
        Seq<char>,
    > {
        match self {
            Executor::Upper => UpperFormulaExecutor.execution_spec(data, parameters),
            Executor::Lower => LowerFormulaExecutor.execution_spec(data, parameters),
            Executor::Add => AddFormulaExecutor.execution_spec(data, parameters),
        }
    }

    open spec fn output_columns_spec(&self, parameters: RecordModel) -> Seq<Seq<char>> {
        match self {
            Executor::Upper => UpperFormulaExecutor.output_columns_spec(parameters),
            Executor::Lower => LowerFormulaExecutor.output_columns_spec(parameters),
            Executor::Add => AddFormulaExecutor.output_columns_spec(parameters),
        }
    }

    fn execute(&self, data: &[Record], parameters: &Record) -> (r: Result<Vec<Record>, ExecutorError>) {
        match self {
            Executor::Upper => UpperFormulaExecutor.execute(data, parameters),
            Executor::Lower => LowerFormulaExecutor.execute(data, parameters),
            Executor::Add => AddFormulaExecutor.execute(data, parameters),
        }
    }

    fn validate_parameters(&self, parameters: &Record) -> (r: Result<(), ExecutorError>) {
        match self {
            Executor::Upper => UpperFormulaExecutor.validate_parameters(parameters),
            Executor::Lower => LowerFormulaExecutor.validate_parameters(parameters),
            Executor::Add => AddFormulaExecutor.validate_parameters(parameters),
        }
    }

    fn get_output_columns(&self, parameters: &Record) -> (r: Vec<String>) {
        match self {
            Executor::Upper => UpperFormulaExecutor.get_output_columns(parameters),
            Executor::Lower => LowerFormulaExecutor.get_output_columns(parameters),
            Executor::Add => AddFormulaExecutor.get_output_columns(parameters),
        }
    }
}


/// UPPER and LOWER: on each row holding the configured column, the output
/// column holds the case-mapped text of that column and every other column
/// is kept; a row without the column comes out unchanged.
pub proof fn law_case_rows(data: Seq<RecordModel>, parameters: RecordModel, column: Seq<char>)
    requires
        text_parameter_spec(parameters, text_column_param()) == Some(column),
    ensures
        UpperFormulaExecutor.execution_spec(data, parameters) matches Ok(out) && out.len()
            == data.len() && forall|i: int|
            0 <= i < data.len() ==> if data[i].contains_key(column) {
                &&& out[i].contains_key(upper_column())
                &&& out[i][upper_column()] == ValueModel::Text(upper_of(display_text(data[i][column])))
                &&& forall|k: Seq<char>|
                    k != upper_column() ==> (#[trigger] out[i].contains_key(k) == data[i].contains_key(k)
                        && (data[i].contains_key(k) ==> out[i][k] == data[i][k]))
            } else {
                out[i] == data[i]
            },
        LowerFormulaExecutor.execution_spec(data, parameters) matches Ok(out) && out.len()
            == data.len() && forall|i: int|
            0 <= i < data.len() ==> if data[i].contains_key(column) {
                &&& out[i].contains_key(lower_column())
                &&& out[i][lower_column()] == ValueModel::Text(lower_of(display_text(data[i][column])))
                &&& forall|k: Seq<char>|
                    k != lower_column() ==> (#[trigger] out[i].contains_key(k) == data[i].contains_key(k)
                        && (data[i].contains_key(k) ==> out[i][k] == data[i][k]))
            } else {
                out[i] == data[i]
            },
{
}

/// ADD: a row that lacks an operand column gets the same `add_result` as
/// if that column held zero.
pub proof fn law_add_missing_operand(row: RecordModel, first: Seq<char>, second: Seq<char>)
    requires
        !row.contains_key(second),
    ensures
        add_row(row, first, second)[add_column()] == add_row(
            row.insert(second, ValueModel::Number(Number { mantissa: 0, scale: 0 })),
            first,
            second,
        )[add_column()],
{
    let zero_row = row.insert(second, ValueModel::Number(Number { mantissa: 0, scale: 0 }));
    assert(operand(zero_row, second) == operand(row, second));
    assert(operand(zero_row, first) == operand(row, first));
}

} // verus!
