//! Skeleton executor source for a formula: a generic template built from the
//! formula's name and parameters, or a ready template for a well-known formula.
use crate::executor::{lower_of, lowercase};
use crate::templates::{
    TEXT_JOIN_TEMPLATE,
    IF_TEMPLATE,
    SUM_TEMPLATE,
    COUNT_TEMPLATE,
    LOWER_TEMPLATE,
    TRIM_TEMPLATE,
    TEXT_LENGTH_TEMPLATE,
    PROPER_CASE_TEMPLATE,
    SUBTRACT_TEMPLATE,
    MULTIPLY_TEMPLATE,
    DIVIDE_TEMPLATE,
    UNIQUE_COUNT_TEMPLATE,
    SUMIF_TEMPLATE,
    COUNTIF_TEMPLATE,
    PIVOT_TEMPLATE,
    DEPIVOT_TEMPLATE,
    REMOVE_DUPLICATES_TEMPLATE,
    FILLNA_TEMPLATE,
};
use crate::value::text_eq;
use vstd::prelude::*;

verus! {

pub const PIECE_0: &'static str = r##"use anyhow::{Result, anyhow};
use serde_json::Value;
use std::collections::HashMap;

pub struct "##;
pub const PIECE_1: &'static str = r##";

impl FormulaExecutor for "##;
pub const PIECE_2: &'static str = r##" {
    fn execute(&self, data: &[HashMap<String, Value>], parameters: &HashMap<String, Value>) -> Result<Vec<HashMap<String, Value>>> {
"##;
pub const PIECE_3: &'static str = r##"

        let result: Vec<HashMap<String, Value>> = data.iter().map(|row| {
            let mut new_row = row.clone();
            
            // Implement "##;
pub const PIECE_4: &'static str = r##" logic here
            // Access parameters: "##;
pub const PIECE_5: &'static str = r##"_param
            // Process data: row.get("column_name")
            // Example implementation:
            // let value = row.get("##;
pub const PIECE_6: &'static str = r##"_param).and_then(|v| v.as_str()).unwrap_or("");
            // let processed_value = process_value(value);
            // new_row.insert(""##;
pub const PIECE_7: &'static str = r##"".to_string(), Value::String(processed_value));
            
            new_row
        }).collect();
        
        Ok(result)
    }

    fn validate_parameters(&self, parameters: &HashMap<String, Value>) -> Result<()> {
"##;
pub const PIECE_8: &'static str = r##"
        Ok(())
    }

    fn get_output_columns(&self, _parameters: &HashMap<String, Value>) -> Vec<String> {
        vec![""##;
pub const PIECE_9: &'static str = r##"".to_string()]
    }
}"##;
pub const CHECK_0: &'static str = r##"        if !parameters.contains_key(""##;
pub const CHECK_1: &'static str = r##"") {
            return Err(anyhow!("Missing required parameter: "##;
pub const CHECK_2: &'static str = r##""));
        }"##;
pub const FETCH_0: &'static str = r##"        let "##;
pub const FETCH_1: &'static str = r##"_param = parameters.get(""##;
pub const FETCH_2: &'static str = r##"")
            .and_then(|v| v.as_str())
            .ok_or_else(|| anyhow!("Missing required parameter: "##;
pub const FETCH_3: &'static str = r##""))?;"##;

/// The items of `s` with `sep` between each two.
pub open spec fn joined(s: Seq<Seq<char>>, sep: Seq<char>) -> Seq<char>
    decreases s.len(),
{
    if s.len() == 0 {
        Seq::empty()
    } else if s.len() == 1 {
        s[0]
    } else {
        joined(s.drop_last(), sep) + sep + s.last()
    }
}

/// The check of one required parameter in a generated `validate_parameters`.
pub open spec fn check_block(p: Seq<char>) -> Seq<char> {
    CHECK_0@ + p + CHECK_1@ + p + CHECK_2@
}

/// The reading of one parameter in a generated `execute`.
pub open spec fn fetch_block(p: Seq<char>) -> Seq<char> {
    FETCH_0@ + p + FETCH_1@ + p + FETCH_2@ + p + FETCH_3@
}

/// The reading blocks (`fetch`) or the checks of the parameters.
pub open spec fn blocks_of(parameters: Seq<Seq<char>>, fetch: bool) -> Seq<Seq<char>> {
    parameters.map_values(
        |p: Seq<char>|
            if fetch {
                fetch_block(p)
            } else {
                check_block(p)
            },
    )
}

/// The generic executor source for `formula_name` with `parameters`: a
/// struct `<name>Executor` that reads and checks each parameter and writes
/// the column `<lower-cased name>_result`.
pub open spec fn template_text(formula_name: Seq<char>, parameters: Seq<Seq<char>>) -> Seq<char> {
    let struct_name = formula_name + "Executor"@;
    let output = lower_of(formula_name) + "_result"@;
    let first = if parameters.len() > 0 {
        parameters[0]
    } else {
        "input"@
    };
    PIECE_0@ + struct_name + PIECE_1@ + struct_name + PIECE_2@ + joined(
        blocks_of(parameters, true),
        "\n\n"@,
    ) + PIECE_3@ + formula_name + PIECE_4@ + first + PIECE_5@ + first + PIECE_6@ + output + PIECE_7@
        + joined(blocks_of(parameters, false), "\n"@) + PIECE_8@ + output
        + PIECE_9@
}

/// The source that `generate_specific_executor` gives for a formula name.
pub open spec fn specific_text(formula_name: Seq<char>) -> Seq<char> {
    if formula_name == "TEXT_JOIN"@ {
        TEXT_JOIN_TEMPLATE@
    } else if formula_name == "IF"@ {
        IF_TEMPLATE@
    } else if formula_name == "SUM"@ {
        SUM_TEMPLATE@
    } else if formula_name == "COUNT"@ {
        COUNT_TEMPLATE@
    } else if formula_name == "LOWER"@ {
        LOWER_TEMPLATE@
    } else if formula_name == "TRIM"@ {
        TRIM_TEMPLATE@
    } else if formula_name == "TEXT_LENGTH"@ {
        TEXT_LENGTH_TEMPLATE@
    } else if formula_name == "PROPER_CASE"@ {
        PROPER_CASE_TEMPLATE@
    } else if formula_name == "SUBTRACT"@ {
        SUBTRACT_TEMPLATE@
    } else if formula_name == "MULTIPLY"@ {
        MULTIPLY_TEMPLATE@
    } else if formula_name == "DIVIDE"@ {
        DIVIDE_TEMPLATE@
    } else if formula_name == "UNIQUE_COUNT"@ {
        UNIQUE_COUNT_TEMPLATE@
    } else if formula_name == "SUMIF"@ {
        SUMIF_TEMPLATE@
    } else if formula_name == "COUNTIF"@ {
        COUNTIF_TEMPLATE@
    } else if formula_name == "PIVOT"@ {
        PIVOT_TEMPLATE@
    } else if formula_name == "DEPIVOT"@ {
        DEPIVOT_TEMPLATE@
    } else if formula_name == "REMOVE_DUPLICATES"@ {
        REMOVE_DUPLICATES_TEMPLATE@
    } else if formula_name == "FILLNA"@ {
        FILLNA_TEMPLATE@
    } else {
        template_text(formula_name, seq!["input"@])
    }
}

pub open spec fn names_view(s: Seq<String>) -> Seq<Seq<char>> {
    s.map_values(|p: String| p@)
}

fn fetch_text(p: &str) -> (r: String)
    ensures
        r@ == fetch_block(p@),
{
    let mut s = String::from_str(FETCH_0);
    s.append(p);
    s.append(FETCH_1);
    s.append(p);
    s.append(FETCH_2);
    s.append(p);
    s.append(FETCH_3);
    s
}

fn check_text(p: &str) -> (r: String)
    ensures
        r@ == check_block(p@),
{
    let mut s = String::from_str(CHECK_0);
    s.append(p);
    s.append(CHECK_1);
    s.append(p);
    s.append(CHECK_2);
    s
}

/// The blocks of the parameters (reading blocks, or checks) joined by `sep`.
fn join_blocks(parameters: &[String], sep: &str, fetch: bool) -> (r: String)
    ensures
        r@ == joined(blocks_of(names_view(parameters@), fetch), sep@),
{
    let ghost blocks = blocks_of(names_view(parameters@), fetch);
    let mut out = String::new();
    let mut i: usize = 0;
    while i < parameters.len()
        invariant
            0 <= i <= parameters@.len(),
            blocks == blocks_of(names_view(parameters@), fetch),
            out@ == joined(blocks.take(i as int), sep@),
        decreases parameters@.len() - i,
    {
        let b = if fetch {
            fetch_text(parameters[i].as_str())
        } else {
            check_text(parameters[i].as_str())
        };
        if i > 0 {
            out.append(sep);
        }
        out.append(b.as_str());
        proof {
            let t = blocks.take(i + 1);
            assert(t.drop_last() =~= blocks.take(i as int));
            assert(names_view(parameters@)[i as int] == parameters@[i as int]@);
            assert(t.last() == b@);
            assert(out@ =~= joined(t, sep@));
        }
        i = i + 1;
    }
    assert(blocks.take(i as int) =~= blocks);
    out
}

/// Generates executor source for formulas.
#[derive(Clone, Copy, Debug)]
pub struct FormulaExecutorGenerator;

impl FormulaExecutorGenerator {
    /// The generic executor source for `formula_name` with `parameters`.
    pub fn generate_executor_template(formula_name: &str, parameters: &[String]) -> (r: String)
        ensures
            r@ == template_text(formula_name@, names_view(parameters@)),
    {
        let mut struct_name = String::from_str(formula_name);
        struct_name.append("Executor");
        let mut output = lowercase(formula_name);
        output.append("_result");
        let first = if parameters.len() > 0 {
            parameters[0].clone()
        } else {
            String::from_str("input")
        };
        let extraction = join_blocks(parameters, "\n\n", true);
        let validation = join_blocks(parameters, "\n", false);
        let ghost names = names_view(parameters@);
        assert(parameters@.len() > 0 ==> first@ == names[0]);
        let mut s = String::from_str(PIECE_0);
        s.append(struct_name.as_str());
        s.append(PIECE_1);
        s.append(struct_name.as_str());
        s.append(PIECE_2);
        s.append(extraction.as_str());
        s.append(PIECE_3);
        s.append(formula_name);
        s.append(PIECE_4);
        s.append(first.as_str());
        s.append(PIECE_5);
        s.append(first.as_str());
        s.append(PIECE_6);
        s.append(output.as_str());
        s.append(PIECE_7);
        s.append(validation.as_str());
        s.append(PIECE_8);
        s.append(output.as_str());
        s.append(PIECE_9);
        s
    }

    /// The ready template of a well-known formula, else the generic template
    /// with the one parameter `input`.
    pub fn generate_specific_executor(formula_name: &str) -> (r: String)
        ensures
            r@ == specific_text(formula_name@),
    {
        if text_eq(formula_name, "TEXT_JOIN") {
            String::from_str(TEXT_JOIN_TEMPLATE)
        } else if text_eq(formula_name, "IF") {
            String::from_str(IF_TEMPLATE)
        } else if text_eq(formula_name, "SUM") {
            String::from_str(SUM_TEMPLATE)
        } else if text_eq(formula_name, "COUNT") {
            String::from_str(COUNT_TEMPLATE)
        } else if text_eq(formula_name, "LOWER") {
            String::from_str(LOWER_TEMPLATE)
        } else if text_eq(formula_name, "TRIM") {
            String::from_str(TRIM_TEMPLATE)
        } else if text_eq(formula_name, "TEXT_LENGTH") {
            String::from_str(TEXT_LENGTH_TEMPLATE)
        } else if text_eq(formula_name, "PROPER_CASE") {
            String::from_str(PROPER_CASE_TEMPLATE)
        } else if text_eq(formula_name, "SUBTRACT") {
            String::from_str(SUBTRACT_TEMPLATE)
        } else if text_eq(formula_name, "MULTIPLY") {
            String::from_str(MULTIPLY_TEMPLATE)
        } else if text_eq(formula_name, "DIVIDE") {
            String::from_str(DIVIDE_TEMPLATE)
        } else if text_eq(formula_name, "UNIQUE_COUNT") {
            String::from_str(UNIQUE_COUNT_TEMPLATE)
        } else if text_eq(formula_name, "SUMIF") {
            String::from_str(SUMIF_TEMPLATE)
        } else if text_eq(formula_name, "COUNTIF") {
            String::from_str(COUNTIF_TEMPLATE)
        } else if text_eq(formula_name, "PIVOT") {
            String::from_str(PIVOT_TEMPLATE)
        } else if text_eq(formula_name, "DEPIVOT") {
            String::from_str(DEPIVOT_TEMPLATE)
        } else if text_eq(formula_name, "REMOVE_DUPLICATES") {
            String::from_str(REMOVE_DUPLICATES_TEMPLATE)
        } else if text_eq(formula_name, "FILLNA") {
            String::from_str(FILLNA_TEMPLATE)
        } else {
            let parameters = vec![String::from_str("input")];
            assert(names_view(parameters@) =~= seq!["input"@]);
            Self::generate_executor_template(formula_name, parameters.as_slice())
        }
    }
}

} // verus!
