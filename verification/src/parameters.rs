//! The parameter model: typed scalar values, named parameters, the
//! bundle a caller submits for one run, and the self-describing
//! metadata records a simulation publishes for introspection.
//!
//! Applying a bundle is a permissive merge: entries whose name is not
//! recognized, or whose value has the wrong variant for the field, are
//! skipped without error, and among several entries for one field the
//! last one wins. The spec functions here characterize that merge: for
//! each field the applied value is the last bundle entry of the right
//! name and variant, if any.

use vstd::prelude::*;
use crate::fixed::Fixed;
use vstd::string::StringExecFns;

verus! {

/// A scalar value of one of the closed set of parameter types.
/// Exactly one variant is active; real quantities are fixed-point.
#[derive(Clone, PartialEq, Debug)]
pub enum ParameterType {
    UnsignedInteger(u32),
    Integer(i32),
    Float(Fixed),
    Boolean(bool),
    Text(String),
}

/// A named value, produced by the caller when configuring a run.
#[derive(Clone, PartialEq, Debug)]
pub struct Parameter {
    pub value: ParameterType,
    pub name: String,
}

/// Self-describing metadata for one configurable input: its declared
/// type, default, and advisory bounds and step for a UI or validator.
#[derive(Clone, PartialEq, Debug)]
pub struct ParameterDescription {
    pub name: String,
    pub description: String,
    pub default: ParameterType,
    pub required: bool,
    pub data_type: String,
    pub lower_bound: Option<ParameterType>,
    pub upper_bound: Option<ParameterType>,
    pub step: Option<ParameterType>,
}

/// The decimal digit characters.
pub open spec fn spec_digit(d: int) -> char {
    if d == 0 {
        '0'
    } else if d == 1 {
        '1'
    } else if d == 2 {
        '2'
    } else if d == 3 {
        '3'
    } else if d == 4 {
        '4'
    } else if d == 5 {
        '5'
    } else if d == 6 {
        '6'
    } else if d == 7 {
        '7'
    } else if d == 8 {
        '8'
    } else {
        '9'
    }
}

/// The decimal rendering of a natural number, most significant digit
/// first, with no leading zeros except for zero itself.
pub open spec fn spec_dec_nat(n: nat) -> Seq<char>
    decreases n,
{
    if n < 10 {
        seq![spec_digit(n as int)]
    } else {
        spec_dec_nat(n / 10) + seq![spec_digit((n % 10) as int)]
    }
}

/// The exact decimal expansion of a 32-bit binary fraction
/// `frac / 2^32`, digit by digit: each step multiplies by ten, emits
/// the integer part and keeps the remainder. Thirty-two digits of
/// fuel always exhaust the fraction, so no digit is lost.
pub open spec fn spec_frac_digits(frac: nat, fuel: nat) -> Seq<char>
    decreases fuel,
{
    if frac == 0 || fuel == 0 {
        Seq::<char>::empty()
    } else {
        seq![spec_digit(((frac * 10) / 0x1_0000_0000) as int)] + spec_frac_digits(
            (frac * 10) % 0x1_0000_0000,
            (fuel - 1) as nat,
        )
    }
}

/// The decimal rendering of a fixed-point value: sign, integer part,
/// a decimal point, and the exact expansion of the fractional part
/// (a lone zero when the value is whole).
pub open spec fn spec_fixed_chars(bits: int) -> Seq<char> {
    let sign = if bits < 0 {
        seq!['-']
    } else {
        Seq::<char>::empty()
    };
    let m = if bits < 0 {
        -bits
    } else {
        bits
    };
    let frac = m % 0x1_0000_0000;
    sign + spec_dec_nat((m / 0x1_0000_0000) as nat) + seq!['.'] + (if frac == 0 {
        seq!['0']
    } else {
        spec_frac_digits(frac as nat, 32)
    })
}

/// The rendering of one scalar value: the variant's name around its
/// payload.
pub open spec fn spec_value_chars(v: ParameterType) -> Seq<char> {
    match v {
        ParameterType::UnsignedInteger(n) => "UnsignedInteger("@ + spec_dec_nat(n as nat) + ")"@,
        ParameterType::Integer(n) => "Integer("@ + (if n < 0 {
            seq!['-'] + spec_dec_nat((-(n as int)) as nat)
        } else {
            spec_dec_nat(n as nat)
        }) + ")"@,
        ParameterType::Float(f) => "Float("@ + spec_fixed_chars(f.bits as int) + ")"@,
        ParameterType::Boolean(b) => if b {
            "Boolean(true)"@
        } else {
            "Boolean(false)"@
        },
        ParameterType::Text(s) => "Text("@ + s@ + ")"@,
    }
}

/// The rendering of an optional scalar value.
pub open spec fn spec_opt_value_chars(o: Option<ParameterType>) -> Seq<char> {
    match o {
        Option::Some(v) => "Some("@ + spec_value_chars(v) + ")"@,
        Option::None => "None"@,
    }
}

/// The one-line rendering a descriptor owes: the name, the declared
/// type tag and the description, and, for a descriptor that has a
/// lower bound, its bounds and step. The branch is chosen on the
/// lower bound alone, even when the upper bound or the step is
/// absent.
pub open spec fn spec_descriptor_line(d: ParameterDescription) -> Seq<char> {
    let head = d.name@ + "("@ + d.data_type@ + "): "@ + d.description@;
    if d.lower_bound is Some {
        head + ". Between "@ + spec_opt_value_chars(d.lower_bound) + " and "@
            + spec_opt_value_chars(d.upper_bound) + " in steps of "@ + spec_opt_value_chars(d.step)
            + "."@
    } else {
        head + "."@
    }
}

/// Append one decimal digit character.
fn push_digit(s: &mut String, d: u64)
    requires
        d < 10,
    ensures
        final(s)@ == old(s)@ + seq![spec_digit(d as int)],
{
    proof {
        reveal_strlit("0");
        reveal_strlit("1");
        reveal_strlit("2");
        reveal_strlit("3");
        reveal_strlit("4");
        reveal_strlit("5");
        reveal_strlit("6");
        reveal_strlit("7");
        reveal_strlit("8");
        reveal_strlit("9");
    }
    if d == 0 {
        s.append("0");
    } else if d == 1 {
        s.append("1");
    } else if d == 2 {
        s.append("2");
    } else if d == 3 {
        s.append("3");
    } else if d == 4 {
        s.append("4");
    } else if d == 5 {
        s.append("5");
    } else if d == 6 {
        s.append("6");
    } else if d == 7 {
        s.append("7");
    } else if d == 8 {
        s.append("8");
    } else {
        s.append("9");
    }
    proof {
        assert(s@ =~= old(s)@ + seq![spec_digit(d as int)]);
    }
}

/// Append the decimal rendering of a natural number.
fn push_dec_u64(s: &mut String, n: u64)
    ensures
        final(s)@ == old(s)@ + spec_dec_nat(n as nat),
    decreases n,
{
    if n >= 10 {
        push_dec_u64(s, n / 10);
        push_digit(s, n % 10);
        proof {
            assert(s@ =~= old(s)@ + spec_dec_nat(n as nat));
        }
    } else {
        push_digit(s, n);
    }
}

/// Append the exact decimal expansion of a 32-bit binary fraction.
fn push_frac_digits(s: &mut String, frac: u64, fuel: u32)
    requires
        frac < 0x1_0000_0000,
    ensures
        final(s)@ == old(s)@ + spec_frac_digits(frac as nat, fuel as nat),
    decreases fuel,
{
    if frac == 0 || fuel == 0 {
        proof {
            assert(s@ =~= old(s)@ + spec_frac_digits(frac as nat, fuel as nat));
        }
    } else {
        let t: u64 = frac * 10;
        let d: u64 = t / 0x1_0000_0000;
        let rem: u64 = t % 0x1_0000_0000;
        proof {
            vstd::arithmetic::div_mod::lemma_div_is_ordered(
                t as int,
                0x9_ffff_fff6,
                0x1_0000_0000,
            );
        }
        push_digit(s, d);
        push_frac_digits(s, rem, fuel - 1);
        proof {
            assert(s@ =~= old(s)@ + spec_frac_digits(frac as nat, fuel as nat));
        }
    }
}

/// Append the decimal rendering of a fixed-point value.
fn push_fixed(s: &mut String, f: Fixed)
    ensures
        final(s)@ == old(s)@ + spec_fixed_chars(f.bits as int),
{
    proof {
        reveal_strlit("-");
        reveal_strlit(".");
        reveal_strlit("0");
    }
    let m: u64 = if f.bits < 0 {
        s.append("-");
        (-(f.bits as i128)) as u64
    } else {
        f.bits as u64
    };
    let ip: u64 = m / 0x1_0000_0000;
    let frac: u64 = m % 0x1_0000_0000;
    push_dec_u64(s, ip);
    s.append(".");
    if frac == 0 {
        s.append("0");
    } else {
        push_frac_digits(s, frac, 32);
    }
    proof {
        assert(s@ =~= old(s)@ + spec_fixed_chars(f.bits as int));
    }
}

/// Append the rendering of one scalar value.
fn push_value(s: &mut String, v: &ParameterType)
    ensures
        final(s)@ == old(s)@ + spec_value_chars(*v),
{
    match v {
        ParameterType::UnsignedInteger(n) => {
            s.append("UnsignedInteger(");
            push_dec_u64(s, *n as u64);
            s.append(")");
        },
        ParameterType::Integer(n) => {
            s.append("Integer(");
            if *n < 0 {
                proof {
                    reveal_strlit("-");
                }
                s.append("-");
                push_dec_u64(s, (-(*n as i64)) as u64);
            } else {
                push_dec_u64(s, *n as u64);
            }
            s.append(")");
        },
        ParameterType::Float(f) => {
            s.append("Float(");
            push_fixed(s, *f);
            s.append(")");
        },
        ParameterType::Boolean(b) => {
            if *b {
                s.append("Boolean(true)");
            } else {
                s.append("Boolean(false)");
            }
        },
        ParameterType::Text(t) => {
            s.append("Text(");
            s.append(t.as_str());
            s.append(")");
        },
    }
    proof {
        assert(s@ =~= old(s)@ + spec_value_chars(*v));
    }
}

/// Append the rendering of an optional scalar value.
fn push_opt_value(s: &mut String, o: &Option<ParameterType>)
    ensures
        final(s)@ == old(s)@ + spec_opt_value_chars(*o),
{
    match o {
        Option::Some(v) => {
            s.append("Some(");
            push_value(s, v);
            s.append(")");
            proof {
                assert(s@ =~= old(s)@ + spec_opt_value_chars(*o));
            }
        },
        Option::None => {
            s.append("None");
        },
    }
}

impl ParameterDescription {
    /// The one-line human-readable rendering of this descriptor: the
    /// name, the declared type tag and the description, followed by
    /// the bounds and step whenever a lower bound is declared.
    pub fn to_string(&self) -> (r: String)
        ensures
            r@ == spec_descriptor_line(*self),
    {
        let mut s = String::new();
        s.append(self.name.as_str());
        s.append("(");
        s.append(self.data_type.as_str());
        s.append("): ");
        s.append(self.description.as_str());
        if self.lower_bound.is_some() {
            s.append(". Between ");
            push_opt_value(&mut s, &self.lower_bound);
            s.append(" and ");
            push_opt_value(&mut s, &self.upper_bound);
            s.append(" in steps of ");
            push_opt_value(&mut s, &self.step);
            s.append(".");
        } else {
            s.append(".");
        }
        proof {
            assert(s@ =~= spec_descriptor_line(*self));
        }
        s
    }
}

/// The bundle of named values submitted for one run.
#[derive(Clone, PartialEq, Debug)]
pub struct SimulationParameters {
    pub params: Vec<Parameter>,
}

/// The full self-description of one simulation.
#[derive(Clone, PartialEq, Debug)]
pub struct SimulationDetails {
    pub name: String,
    pub parameters: Vec<ParameterDescription>,
}

/// The value of the last bundle entry named `name` holding an unsigned
/// integer, if any: the value a permissive merge assigns to a `u32` field.
pub open spec fn last_set_u32(ps: Seq<Parameter>, name: Seq<char>) -> Option<u32>
    decreases ps.len(),
{
    if ps.len() == 0 {
        None
    } else if ps.last().name@ == name && ps.last().value is UnsignedInteger {
        Some(ps.last().value->UnsignedInteger_0)
    } else {
        last_set_u32(ps.drop_last(), name)
    }
}

/// The value of the last bundle entry named `name` holding a fixed-point
/// value, if any: the value a permissive merge assigns to a `Fixed` field.
pub open spec fn last_set_fixed(ps: Seq<Parameter>, name: Seq<char>) -> Option<Fixed>
    decreases ps.len(),
{
    if ps.len() == 0 {
        None
    } else if ps.last().name@ == name && ps.last().value is Float {
        Some(ps.last().value->Float_0)
    } else {
        last_set_fixed(ps.drop_last(), name)
    }
}

/// The merged value of a `u32` field: the last applicable entry wins,
/// and a bundle with none leaves the field at its current value.
pub open spec fn or_u32(o: Option<u32>, d: u32) -> u32 {
    match o {
        Option::Some(v) => v,
        Option::None => d,
    }
}

/// The merged value of a fixed-point field.
pub open spec fn or_fixed(o: Option<Fixed>, d: Fixed) -> Fixed {
    match o {
        Option::Some(v) => v,
        Option::None => d,
    }
}

/// One step of the permissive merge: extending the examined prefix by
/// entry `i` either overwrites the field with that entry's value, when
/// name and variant both match, or changes nothing.
pub proof fn lemma_last_set_step(ps: Seq<Parameter>, i: int, name: Seq<char>)
    requires
        0 <= i < ps.len(),
    ensures
        last_set_u32(ps.take(i + 1), name) == (if ps[i].name@ == name && ps[i].value
            is UnsignedInteger {
            Some(ps[i].value->UnsignedInteger_0)
        } else {
            last_set_u32(ps.take(i), name)
        }),
        last_set_fixed(ps.take(i + 1), name) == (if ps[i].name@ == name && ps[i].value is Float {
            Some(ps[i].value->Float_0)
        } else {
            last_set_fixed(ps.take(i), name)
        }),
{
    assert(ps.take(i + 1).drop_last() =~= ps.take(i));
    assert(ps.take(i + 1).last() == ps[i]);
}

/// The configurable field names of the built-in simulations are
/// pairwise distinct, so at most one field matches a bundle entry.
pub proof fn lemma_field_names_distinct()
    ensures
        "width"@ !== "height"@,
        "width"@ !== "c_real"@,
        "width"@ !== "c_imaginary"@,
        "width"@ !== "max_iter"@,
        "width"@ !== "escape_radius"@,
        "width"@ !== "n_birds"@,
        "height"@ !== "c_real"@,
        "height"@ !== "c_imaginary"@,
        "height"@ !== "max_iter"@,
        "height"@ !== "escape_radius"@,
        "height"@ !== "n_birds"@,
        "c_real"@ !== "c_imaginary"@,
        "c_real"@ !== "max_iter"@,
        "c_real"@ !== "escape_radius"@,
        "c_real"@ !== "n_birds"@,
        "c_imaginary"@ !== "max_iter"@,
        "c_imaginary"@ !== "escape_radius"@,
        "c_imaginary"@ !== "n_birds"@,
        "max_iter"@ !== "escape_radius"@,
        "max_iter"@ !== "n_birds"@,
        "escape_radius"@ !== "n_birds"@,
{
    reveal_strlit("width");
    reveal_strlit("height");
    reveal_strlit("c_real");
    reveal_strlit("c_imaginary");
    reveal_strlit("max_iter");
    reveal_strlit("escape_radius");
    reveal_strlit("n_birds");
    assert("width"@.len() == 5);
    assert("height"@.len() == 6);
    assert("c_real"@.len() == 6);
    assert("c_imaginary"@.len() == 11);
    assert("max_iter"@.len() == 8);
    assert("escape_radius"@.len() == 13);
    assert("n_birds"@.len() == 7);
    assert("height"@[0] == 'h');
    assert("c_real"@[0] == 'c');
}

/// An unsigned-integer field is untouched by a bundle with no entry of
/// its name and variant. Unknown names and mismatched variants alike
/// leave the field to its current value.
pub proof fn lemma_last_set_u32_none(ps: Seq<Parameter>, name: Seq<char>)
    requires
        forall|i: int|
            0 <= i < ps.len() ==> !(ps[i].name@ == name && ps[i].value is UnsignedInteger),
    ensures
        last_set_u32(ps, name) is None,
    decreases ps.len(),
{
    if ps.len() > 0 {
        assert(ps.last() == ps[ps.len() - 1]);
        lemma_last_set_u32_none(ps.drop_last(), name);
    }
}

/// The fixed-point analogue of `lemma_last_set_u32_none`.
pub proof fn lemma_last_set_fixed_none(ps: Seq<Parameter>, name: Seq<char>)
    requires
        forall|i: int| 0 <= i < ps.len() ==> !(ps[i].name@ == name && ps[i].value is Float),
    ensures
        last_set_fixed(ps, name) is None,
    decreases ps.len(),
{
    if ps.len() > 0 {
        assert(ps.last() == ps[ps.len() - 1]);
        lemma_last_set_fixed_none(ps.drop_last(), name);
    }
}

} // verus!
