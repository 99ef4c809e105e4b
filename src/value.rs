//! Dynamically typed cell values and records (rows and parameter sets).
use vstd::prelude::*;

verus! {

/// Powers of ten.
pub open spec fn pow10(n: nat) -> int
    decreases n,
{
    if n == 0 {
        1
    } else {
        10 * pow10((n - 1) as nat)
    }
}

pub proof fn lemma_pow10_positive(n: nat)
    ensures
        pow10(n) >= 1,
    decreases n,
{
    if n > 0 {
        lemma_pow10_positive((n - 1) as nat);
    }
}

pub proof fn lemma_pow10_monotone(a: nat, b: nat)
    requires
        a <= b,
    ensures
        pow10(a) <= pow10(b),
    decreases b,
{
    if a < b {
        lemma_pow10_monotone(a, (b - 1) as nat);
        lemma_pow10_positive((b - 1) as nat);
    }
}

/// An exact decimal number: `mantissa / 10^scale`.
#[derive(Clone, Copy, Debug, PartialEq, Eq, Structural)]
pub struct Number {
    pub mantissa: i64,
    pub scale: u8,
}

/// The mantissa of `n` brought to `scale` decimal places (`scale >= n.scale`).
pub open spec fn aligned(n: Number, scale: nat) -> int {
    n.mantissa * pow10((scale - n.scale) as nat)
}

pub open spec fn max_scale(a: Number, b: Number) -> u8 {
    if a.scale >= b.scale {
        a.scale
    } else {
        b.scale
    }
}

pub open spec fn fits_i64(x: int) -> bool {
    i64::MIN <= x <= i64::MAX
}

/// The exact sum of two numbers, at the larger of their scales, or `None`
/// when its mantissa does not fit in 64 bits. A sum of two whole numbers is
/// written with one decimal place (`5.0`), as a floating-point sum is, where
/// that still fits.
pub open spec fn number_sum(a: Number, b: Number) -> Option<Number> {
    let s = max_scale(a, b);
    let x = aligned(a, s as nat) + aligned(b, s as nat);
    if !fits_i64(x) {
        None
    } else if s == 0 && fits_i64(10 * x) {
        Some(Number { mantissa: (10 * x) as i64, scale: 1 })
    } else {
        Some(Number { mantissa: x as i64, scale: s })
    }
}

/// `10^k` when it fits in an `i128`.
fn pow10_checked(k: u8) -> (r: Option<i128>)
    ensures
        r matches Some(p) ==> p == pow10(k as nat),
        r is None ==> pow10(k as nat) > i128::MAX,
{
    let mut p: i128 = 1;
    let mut i: u8 = 0;
    while i < k
        invariant
            i <= k,
            p == pow10(i as nat),
        decreases k - i,
    {
        match p.checked_mul(10) {
            Some(q) => {
                p = q;
            },
            None => {
                proof {
                    lemma_pow10_positive(i as nat);
                    assert(pow10((i + 1) as nat) == 10 * p);
                    lemma_pow10_monotone((i + 1) as nat, k as nat);
                }
                return None;
            },
        }
        i = i + 1;
    }
    Some(p)
}

/// `n` aligned to `scale` places, when that fits in an `i128`.
fn aligned_checked(n: Number, scale: u8) -> (r: Option<i128>)
    requires
        scale >= n.scale,
    ensures
        r matches Some(x) ==> x == aligned(n, scale as nat),
        r is None ==> aligned(n, scale as nat) > i128::MAX || aligned(n, scale as nat)
            < -i128::MAX,
{
    if n.mantissa == 0 {
        assert(aligned(n, scale as nat) == 0);
        return Some(0);
    }
    let k = scale - n.scale;
    let m = n.mantissa as i128;
    match pow10_checked(k) {
        Some(p) => m.checked_mul(p),
        None => {
            let ghost pk = pow10(k as nat);
            assert(m * pk > i128::MAX || m * pk < -i128::MAX) by (nonlinear_arith)
                requires
                    m != 0,
                    pk > i128::MAX,
            ;
            None
        },
    }
}

impl Number {
    /// A whole number.
    pub fn from_i64(v: i64) -> (r: Number)
        ensures
            r == (Number { mantissa: v, scale: 0 }),
    {
        Number { mantissa: v, scale: 0 }
    }

    /// The sum of two numbers, as `number_sum` states it.
    pub fn add(self, other: Number) -> (r: Option<Number>)
        ensures
            r == number_sum(self, other),
    {
        let s = if self.scale >= other.scale {
            self.scale
        } else {
            other.scale
        };
        let ghost exact = aligned(self, s as nat) + aligned(other, s as nat);
        proof {
            lemma_pow10_positive((s - self.scale) as nat);
            lemma_pow10_positive((s - other.scale) as nat);
            assert(s == self.scale || s == other.scale);
            assert(pow10(0) == 1);
        }
        let a = match aligned_checked(self, s) {
            Some(a) => a,
            None => {
                assert(aligned(other, s as nat) == other.mantissa);
                return None;
            },
        };
        let b = match aligned_checked(other, s) {
            Some(b) => b,
            None => {
                assert(aligned(self, s as nat) == self.mantissa);
                return None;
            },
        };
        let sum = match a.checked_add(b) {
            Some(sum) => sum,
            None => return None,
        };
        if sum < i64::MIN as i128 || sum > i64::MAX as i128 {
            return None;
        }
        let m = sum as i64;
        if s == 0 {
            if let Some(tenfold) = m.checked_mul(10) {
                return Some(Number { mantissa: tenfold, scale: 1 });
            }
        }
        Some(Number { mantissa: m, scale: s })
    }
}


pub open spec fn digit_char(d: nat) -> char {
    if d == 0 { '0' } else if d == 1 { '1' } else if d == 2 { '2' } else if d == 3 { '3' }
    else if d == 4 { '4' } else if d == 5 { '5' } else if d == 6 { '6' } else if d == 7 { '7' }
    else if d == 8 { '8' } else { '9' }
}

/// The decimal digits of `n`, most significant first, with no leading zero.
pub open spec fn digits(n: nat) -> Seq<char>
    decreases n,
{
    if n < 10 {
        seq![digit_char(n)]
    } else {
        digits(n / 10).push(digit_char(n % 10))
    }
}

pub open spec fn abs(x: int) -> nat {
    if x < 0 {
        (-x) as nat
    } else {
        x as nat
    }
}

/// The JSON text of a number: an optional minus sign, the digits, and a
/// decimal point `scale` places from the right (with a leading `0` where the
/// digits are fewer than that).
pub open spec fn number_text(n: Number) -> Seq<char> {
    let d = digits(abs(n.mantissa as int));
    let s = n.scale as int;
    let body = if s == 0 {
        d
    } else if d.len() > s {
        d.take(d.len() - s) + seq!['.'] + d.skip(d.len() - s)
    } else {
        seq!['0', '.'] + Seq::new((s - d.len()) as nat, |_i: int| '0') + d
    };
    if n.mantissa < 0 {
        seq!['-'] + body
    } else {
        body
    }
}

/// Relies on `String::push`: appends one character.
#[verifier::external_body]
pub(crate) fn push_char(s: &mut String, c: char)
    ensures
        final(s)@ == old(s)@.push(c),
{
    s.push(c)
}

fn digit_to_char(d: u64) -> (c: char)
    requires
        d < 10,
    ensures
        c == digit_char(d as nat),
{
    if d == 0 { '0' } else if d == 1 { '1' } else if d == 2 { '2' } else if d == 3 { '3' }
    else if d == 4 { '4' } else if d == 5 { '5' } else if d == 6 { '6' } else if d == 7 { '7' }
    else if d == 8 { '8' } else { '9' }
}

pub(crate) fn push_digits(s: &mut String, n: u64)
    ensures
        final(s)@ == old(s)@ + digits(n as nat),
    decreases n,
{
    if n >= 10 {
        push_digits(s, n / 10);
    }
    push_char(s, digit_to_char(n % 10));
    assert(final(s)@ =~= old(s)@ + digits(n as nat));
}

impl Number {
    /// The number written as JSON text.
    pub fn to_text(&self) -> (r: String)
        ensures
            r@ == number_text(*self),
    {
        let m = self.mantissa as i128;
        let a: u64 = if m < 0 {
            (-m) as u64
        } else {
            m as u64
        };
        let mut d = String::new();
        push_digits(&mut d, a);
        let ghost dv = digits(abs(self.mantissa as int));
        assert(d@ =~= dv);
        let len = d.as_str().unicode_len();
        let s = self.scale as usize;
        let mut out = String::new();
        if self.mantissa < 0 {
            push_char(&mut out, '-');
        }
        let ghost prefix = out@;
        if s == 0 {
            out.append(d.as_str());
            assert(out@ =~= number_text(*self));
            return out;
        }
        if len <= s {
            push_char(&mut out, '0');
            push_char(&mut out, '.');
            let mut z: usize = len;
            while z < s
                invariant
                    len <= z <= s,
                    out@ =~= prefix + seq!['0', '.'] + Seq::new((z - len) as nat, |_i: int| '0'),
                decreases s - z,
            {
                push_char(&mut out, '0');
                z = z + 1;
            }
            out.append(d.as_str());
            assert(out@ =~= number_text(*self));
            return out;
        }
        let point = len - s;
        let mut i: usize = 0;
        while i < len
            invariant
                0 <= i <= len,
                len == dv.len(),
                d@ == dv,
                point == len - s,
                0 < point < len,
                out@ =~= prefix + (if i <= point { dv.take(i as int) } else { dv.take(point as int)
                    + seq!['.'] + dv.subrange(point as int, i as int) }),
            decreases len - i,
        {
            if i == point {
                push_char(&mut out, '.');
            }
            let c = d.as_str().get_char(i);
            push_char(&mut out, c);
            i = i + 1;
        }
        assert(dv.subrange(point as int, len as int) =~= dv.skip(point as int));
        assert(out@ =~= number_text(*self));
        out
    }
}


/// A cell value. Arrays and objects are carried through unchanged as their
/// JSON text: no formula reads inside them.
#[derive(Clone, Debug)]
pub enum Value {
    Null,
    Bool(bool),
    Number(Number),
    Text(String),
    Composite(String),
}

/// What a `Value` holds, with strings as character sequences.
pub enum ValueModel {
    Null,
    Bool(bool),
    Number(Number),
    Text(Seq<char>),
    Composite(Seq<char>),
}

impl View for Value {
    type V = ValueModel;

    open spec fn view(&self) -> ValueModel {
        match self {
            Value::Null => ValueModel::Null,
            Value::Bool(b) => ValueModel::Bool(*b),
            Value::Number(n) => ValueModel::Number(*n),
            Value::Text(s) => ValueModel::Text(s@),
            Value::Composite(j) => ValueModel::Composite(j@),
        }
    }
}

/// The text a value reads as: a string is its own characters, anything else
/// its JSON text.
pub open spec fn display_text(v: ValueModel) -> Seq<char> {
    match v {
        ValueModel::Null => seq!['n', 'u', 'l', 'l'],
        ValueModel::Bool(b) => if b {
            seq!['t', 'r', 'u', 'e']
        } else {
            seq!['f', 'a', 'l', 's', 'e']
        },
        ValueModel::Number(n) => number_text(n),
        ValueModel::Text(s) => s,
        ValueModel::Composite(j) => j,
    }
}

/// The number a value reads as, in arithmetic: its own number, else zero.
pub open spec fn numeric_or_zero(v: Option<ValueModel>) -> Number {
    match v {
        Some(ValueModel::Number(n)) => n,
        _ => Number { mantissa: 0, scale: 0 },
    }
}

impl Value {
    /// The string inside a `Text` value.
    pub fn as_str(&self) -> (r: Option<&str>)
        ensures
            match self@ {
                ValueModel::Text(s) => r matches Some(t) && t@ == s,
                _ => r is None,
            },
    {
        match self {
            Value::Text(s) => Some(s.as_str()),
            _ => None,
        }
    }

    /// The number inside a `Number` value.
    pub fn as_number(&self) -> (r: Option<Number>)
        ensures
            match self@ {
                ValueModel::Number(n) => r == Some(n),
                _ => r is None,
            },
    {
        match self {
            Value::Number(n) => Some(*n),
            _ => None,
        }
    }

    /// A copy of this value.
    pub fn duplicate(&self) -> (r: Value)
        ensures
            r@ == self@,
    {
        match self {
            Value::Null => Value::Null,
            Value::Bool(b) => Value::Bool(*b),
            Value::Number(n) => Value::Number(*n),
            Value::Text(s) => Value::Text(s.clone()),
            Value::Composite(j) => Value::Composite(j.clone()),
        }
    }

    /// The text this value reads as (see `display_text`).
    pub fn display(&self) -> (r: String)
        ensures
            r@ == display_text(self@),
    {
        match self {
            Value::Null => {
                let mut s = String::new();
                push_char(&mut s, 'n');
                push_char(&mut s, 'u');
                push_char(&mut s, 'l');
                push_char(&mut s, 'l');
                assert(s@ =~= display_text(self@));
                s
            },
            Value::Bool(b) => {
                let mut s = String::new();
                if *b {
                    push_char(&mut s, 't');
                    push_char(&mut s, 'r');
                    push_char(&mut s, 'u');
                    push_char(&mut s, 'e');
                } else {
                    push_char(&mut s, 'f');
                    push_char(&mut s, 'a');
                    push_char(&mut s, 'l');
                    push_char(&mut s, 's');
                    push_char(&mut s, 'e');
                }
                assert(s@ =~= display_text(self@));
                s
            },
            Value::Number(n) => n.to_text(),
            Value::Text(s) => s.clone(),
            Value::Composite(j) => j.clone(),
        }
    }
}

/// Whether two strings hold the same characters.
pub fn text_eq(a: &str, b: &str) -> (r: bool)
    ensures
        r == (a@ == b@),
{
    let n = a.unicode_len();
    if n != b.unicode_len() {
        return false;
    }
    let mut i: usize = 0;
    while i < n
        invariant
            n == a@.len() == b@.len(),
            0 <= i <= n,
            forall|j: int| 0 <= j < i ==> a@[j] == b@[j],
        decreases n - i,
    {
        if a.get_char(i) != b.get_char(i) {
            return false;
        }
        i = i + 1;
    }
    assert(a@ =~= b@);
    true
}

/// The mapping that a list of entries stands for: a later entry for a key
/// shadows an earlier one.
pub open spec fn entries_map(s: Seq<(String, Value)>) -> Map<Seq<char>, ValueModel>
    decreases s.len(),
{
    if s.len() == 0 {
        Map::empty()
    } else {
        entries_map(s.drop_last()).insert(s.last().0@, s.last().1@)
    }
}

proof fn lemma_entries_map_prefix(s: Seq<(String, Value)>, i: int, k: Seq<char>)
    requires
        0 <= i <= s.len(),
        forall|j: int| i <= j < s.len() ==> s[j].0@ != k,
    ensures
        entries_map(s).contains_key(k) == entries_map(s.take(i)).contains_key(k),
        entries_map(s).contains_key(k) ==> entries_map(s)[k] == entries_map(s.take(i))[k],
    decreases s.len(),
{
    if i < s.len() {
        assert(s.drop_last().take(i) =~= s.take(i));
        lemma_entries_map_prefix(s.drop_last(), i, k);
    } else {
        assert(s.take(i) =~= s);
    }
}

/// A mapping from names to values: a row of a table, or a set of parameters.
#[derive(Clone, Debug)]
pub struct Record {
    entries: Vec<(String, Value)>,
}

impl View for Record {
    type V = Map<Seq<char>, ValueModel>;

    closed spec fn view(&self) -> Map<Seq<char>, ValueModel> {
        entries_map(self.entries@)
    }
}

impl Record {
    pub fn new() -> (r: Record)
        ensures
            r@ == Map::<Seq<char>, ValueModel>::empty(),
    {
        Record { entries: Vec::new() }
    }

    /// Sets `key` to `value`, replacing what it held.
    pub fn insert(&mut self, key: String, value: Value)
        ensures
            final(self)@ == old(self)@.insert(key@, value@),
    {
        self.entries.push((key, value));
        proof {
            assert(self.entries@.drop_last() =~= old(self).entries@);
        }
    }

    /// The value held under `key`.
    pub fn get(&self, key: &str) -> (r: Option<&Value>)
        ensures
            r is Some == self@.contains_key(key@),
            r matches Some(v) ==> v@ == self@[key@],
    {
        let mut i = self.entries.len();
        while i > 0
            invariant
                0 <= i <= self.entries@.len(),
                forall|j: int| i <= j < self.entries@.len() ==> self.entries@[j].0@ != key@,
            decreases i,
        {
            let e = &self.entries[i - 1];
            if text_eq(e.0.as_str(), key) {
                proof {
                    let s = self.entries@;
                    lemma_entries_map_prefix(s, i as int, key@);
                    assert(s.take(i as int).drop_last() =~= s.take(i - 1));
                }
                return Some(&e.1);
            }
            i = i - 1;
        }
        proof {
            lemma_entries_map_prefix(self.entries@, 0, key@);
            assert(self.entries@.take(0) =~= Seq::<(String, Value)>::empty());
        }
        None
    }

    /// A copy of this record.
    pub fn duplicate(&self) -> (r: Record)
        ensures
            r@ == self@,
    {
        let mut out = Record::new();
        let mut i: usize = 0;
        while i < self.entries.len()
            invariant
                0 <= i <= self.entries@.len(),
                out@ == entries_map(self.entries@.take(i as int)),
            decreases self.entries@.len() - i,
        {
            let e = &self.entries[i];
            out.insert(e.0.clone(), e.1.duplicate());
            proof {
                assert(self.entries@.take(i + 1).drop_last() =~= self.entries@.take(i as int));
            }
            i = i + 1;
        }
        assert(self.entries@.take(i as int) =~= self.entries@);
        out
    }

    pub fn contains_key(&self, key: &str) -> (r: bool)
        ensures
            r == self@.contains_key(key@),
    {
        self.get(key).is_some()
    }

    /// The entries, oldest first; a later entry for a key shadows an earlier one.
    pub fn entries(&self) -> (r: &Vec<(String, Value)>)
        ensures
            entries_map(r@) == self@,
    {
        &self.entries
    }
}

} // verus!
