//! Syncing formula metadata sent by a client: which descriptors are kept,
//! what is wrong with each, and the identifiers and timestamps they get.
use crate::descriptor::{FormulaConfig, FormulaParameter};
use crate::value::{digits, push_digits};
use vstd::prelude::*;

verus! {

/// A batch of descriptors to sync.
#[derive(Clone, Debug)]
pub struct FormulaConfigRequest {
    pub formulas: Vec<FormulaConfig>,
}

/// The answer to a metadata request.
#[derive(Clone, Debug)]
pub struct FormulaConfigResponse {
    pub success: bool,
    pub message: String,
    pub formulas: Option<Vec<FormulaConfig>>,
    pub errors: Option<Vec<String>>,
}

pub open spec fn formula_message(name: Seq<char>, what: Seq<char>) -> Seq<char> {
    "Formula '"@ + name + "' "@ + what
}

pub open spec fn parameter_message(name: Seq<char>, position: nat, what: Seq<char>) -> Seq<char> {
    "Formula '"@ + name + "' parameter "@ + digits(position) + " "@ + what
}

/// The problems of one parameter (at 1-based `position`): each of name,
/// label and description that is empty.
pub open spec fn parameter_messages(name: Seq<char>, p: FormulaParameter, position: nat) -> Seq<
    Seq<char>,
> {
    (if p.name@.len() == 0 {
        seq![parameter_message(name, position, "has empty name"@)]
    } else {
        Seq::empty()
    }) + (if p.label@.len() == 0 {
        seq![parameter_message(name, position, "has empty label"@)]
    } else {
        Seq::empty()
    }) + (if p.description@.len() == 0 {
        seq![parameter_message(name, position, "has empty description"@)]
    } else {
        Seq::empty()
    })
}

/// The problems of the parameters, in order.
pub open spec fn parameters_messages(name: Seq<char>, ps: Seq<FormulaParameter>) -> Seq<Seq<char>>
    decreases ps.len(),
{
    if ps.len() == 0 {
        Seq::empty()
    } else {
        parameters_messages(name, ps.drop_last()) + parameter_messages(name, ps.last(), ps.len())
    }
}

/// Whether a descriptor is stored: its name, category and description are
/// all non-empty.
pub open spec fn is_kept(f: FormulaConfig) -> bool {
    f.name@.len() > 0 && f.category@.len() > 0 && f.description@.len() > 0
}

/// The problems of one descriptor: the first empty one of name, category and
/// description; else those of its parameters.
pub open spec fn sync_messages(f: FormulaConfig) -> Seq<Seq<char>> {
    if f.name@.len() == 0 {
        seq![formula_message(f.name@, "has empty name"@)]
    } else if f.category@.len() == 0 {
        seq![formula_message(f.name@, "has empty category"@)]
    } else if f.description@.len() == 0 {
        seq![formula_message(f.name@, "has empty description"@)]
    } else {
        parameters_messages(f.name@, f.parameters@)
    }
}

pub open spec fn texts(s: Seq<String>) -> Seq<Seq<char>> {
    s.map_values(|t: String| t@)
}

fn formula_text(name: &str, what: &str) -> (r: String)
    ensures
        r@ == formula_message(name@, what@),
{
    let mut s = String::from_str("Formula '");
    s.append(name);
    s.append("' ");
    s.append(what);
    s
}

fn parameter_text(name: &str, position: u64, what: &str) -> (r: String)
    ensures
        r@ == parameter_message(name@, position as nat, what@),
{
    let mut s = String::from_str("Formula '");
    s.append(name);
    s.append("' parameter ");
    push_digits(&mut s, position);
    s.append(" ");
    s.append(what);
    s
}

/// The problems of one descriptor, and whether it is stored.
pub fn check_synced_formula(f: &FormulaConfig) -> (r: (Vec<String>, bool))
    ensures
        texts(r.0@) == sync_messages(*f),
        r.1 == is_kept(*f),
{
    let mut out: Vec<String> = Vec::new();
    if f.name.as_str().is_empty() {
        out.push(formula_text(f.name.as_str(), "has empty name"));
        assert(texts(out@) =~= sync_messages(*f));
        return (out, false);
    }
    if f.category.as_str().is_empty() {
        out.push(formula_text(f.name.as_str(), "has empty category"));
        assert(texts(out@) =~= sync_messages(*f));
        return (out, false);
    }
    if f.description.as_str().is_empty() {
        out.push(formula_text(f.name.as_str(), "has empty description"));
        assert(texts(out@) =~= sync_messages(*f));
        return (out, false);
    }
    let ps = &f.parameters;
    let mut i: usize = 0;
    while i < ps.len()
        invariant
            0 <= i <= ps@.len(),
            texts(out@) == parameters_messages(f.name@, ps@.take(i as int)),
        decreases ps@.len() - i,
    {
        let p = &ps[i];
        let position = (i as u64) + 1;
        let ghost before = texts(out@);
        if p.name.as_str().is_empty() {
            out.push(parameter_text(f.name.as_str(), position, "has empty name"));
        }
        if p.label.as_str().is_empty() {
            out.push(parameter_text(f.name.as_str(), position, "has empty label"));
        }
        if p.description.as_str().is_empty() {
            out.push(parameter_text(f.name.as_str(), position, "has empty description"));
        }
        proof {
            let t = ps@.take(i + 1);
            assert(t.drop_last() =~= ps@.take(i as int));
            assert(t.last() == *p);
            assert(t.len() == position);
            let m = parameter_messages(f.name@, *p, position as nat);
            assert(texts(out@) =~= before + m);
        }
        i = i + 1;
    }
    assert(ps@.take(i as int) =~= ps@);
    (out, true)
}

/// The identifier a synced descriptor is stored under: its own, else one
/// made from the sync time.
pub open spec fn synced_id(f: FormulaConfig, now: Seq<char>) -> Seq<char> {
    match f.id {
        Some(id) => id@,
        None => "formula_"@ + now,
    }
}

/// `r` is `f` as stored by a sync at time `now`: with an identifier, its
/// creation time (kept, or `now`) and `now` as its update time.
pub open spec fn is_stamped(r: FormulaConfig, f: FormulaConfig, now: Seq<char>) -> bool {
    &&& r.id matches Some(id) && id@ == synced_id(f, now)
    &&& r.created_at matches Some(c) && c@ == match f.created_at {
        Some(old) => old@,
        None => now,
    }
    &&& r.updated_at matches Some(u) && u@ == now
    &&& r == (FormulaConfig { id: r.id, created_at: r.created_at, updated_at: r.updated_at, ..f })
}

pub fn stamp_synced_formula(f: FormulaConfig, now: &str) -> (r: FormulaConfig)
    ensures
        is_stamped(r, f, now@),
{
    let id = match &f.id {
        Some(id) => id.clone(),
        None => {
            let mut s = String::from_str("formula_");
            s.append(now);
            s
        },
    };
    let created = match &f.created_at {
        Some(c) => c.clone(),
        None => String::from_str(now),
    };
    FormulaConfig { id: Some(id), created_at: Some(created), updated_at: Some(String::from_str(now)), ..f }
}

/// The problems of each descriptor of a batch, in order.
pub open spec fn batch_messages(fs: Seq<FormulaConfig>) -> Seq<Seq<char>>
    decreases fs.len(),
{
    if fs.len() == 0 {
        Seq::empty()
    } else {
        batch_messages(fs.drop_last()) + sync_messages(fs.last())
    }
}

pub open spec fn kept_of(fs: Seq<FormulaConfig>) -> Seq<FormulaConfig> {
    fs.filter(|f: FormulaConfig| is_kept(f))
}

/// Checks a batch of descriptors: every problem found, and the descriptors
/// to store (those kept, stamped at `now`), in order.
pub fn sync_formulas(formulas: Vec<FormulaConfig>, now: &str) -> (r: (Vec<String>, Vec<FormulaConfig>))
    ensures
        texts(r.0@) == batch_messages(formulas@),
        r.1@.len() == kept_of(formulas@).len(),
        forall|j: int| 0 <= j < r.1@.len() ==> is_stamped(r.1@[j], kept_of(formulas@)[j], now@),
{
    let ghost all = formulas@;
    let n = formulas.len();
    let mut rest = formulas;
    let mut errors: Vec<String> = Vec::new();
    let mut stored: Vec<FormulaConfig> = Vec::new();
    let mut i: usize = 0;
    while rest.len() > 0
        invariant
            0 <= i <= all.len(),
            n == all.len(),
            rest@ == all.skip(i as int),
            texts(errors@) == batch_messages(all.take(i as int)),
            stored@.len() == kept_of(all.take(i as int)).len(),
            forall|j: int|
                0 <= j < stored@.len() ==> is_stamped(stored@[j], kept_of(all.take(i as int))[j], now@),
        decreases rest@.len(),
    {
        let f = rest.remove(0);
        assert(f == all[i as int]);
        let ghost t = all.take(i + 1);
        assert(t.drop_last() =~= all.take(i as int));
        assert(t =~= all.take(i as int) + seq![f]);
        let (mut problems, keep) = check_synced_formula(&f);
        let ghost before = texts(errors@);
        errors.append(&mut problems);
        assert(texts(errors@) =~= before + sync_messages(f));
        proof {
            reveal_with_fuel(Seq::filter, 2);
            Seq::<FormulaConfig>::filter_distributes_over_add(
                all.take(i as int),
                seq![f],
                |g: FormulaConfig| is_kept(g),
            );
        }
        if keep {
            stored.push(stamp_synced_formula(f, now));
            assert(seq![f].filter(|g: FormulaConfig| is_kept(g)) =~= seq![f]);
        } else {
            assert(seq![f].filter(|g: FormulaConfig| is_kept(g)) =~= Seq::<FormulaConfig>::empty());
        }
        proof {
            assert(kept_of(t) == kept_of(all.take(i as int)) + seq![f].filter(|g: FormulaConfig| is_kept(g)));
        }
        i = i + 1;
        assert(rest@ =~= all.skip(i as int));
    }
    assert(all.take(i as int) =~= all);
    (errors, stored)
}

/// The answer to a sync: a success exactly when no problem was found.
pub fn sync_response(errors: Vec<String>, formulas: Vec<FormulaConfig>) -> (r: FormulaConfigResponse)
    ensures
        r.success == (errors@.len() == 0),
        r.formulas == Some(formulas),
        r.success ==> r.errors is None && r.message@ == "Formula configurations synced successfully"@,
        !r.success ==> r.errors == Some(errors) && r.message@
            == "Some formula configurations had validation errors"@,
{
    if errors.len() == 0 {
        FormulaConfigResponse {
            success: true,
            message: String::from_str("Formula configurations synced successfully"),
            formulas: Some(formulas),
            errors: None,
        }
    } else {
        FormulaConfigResponse {
            success: false,
            message: String::from_str("Some formula configurations had validation errors"),
            formulas: Some(formulas),
            errors: Some(errors),
        }
    }
}

} // verus!
