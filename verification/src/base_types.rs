//! The tagged runtime value of the language, the closed set of declared
//! type tags, and the declaration-time coercion policy over them.
//!
//! The verified core never computes with floating point: a `Float` value
//! carries the decimal literal text it came from, and all rules over
//! floats here are rules over tags and texts.

use vstd::prelude::*;
use vstd::string::StringExecFns;

verus! {

/// Relies on `String::push` of std: it appends exactly the given
/// character to the end of the string.
pub assume_specification[ std::string::String::push ](s: &mut std::string::String, ch: char)
    ensures
        final(s)@ == old(s)@.push(ch),
;

/// A runtime scalar value.
#[derive(Debug, PartialEq, Eq)]
pub enum BaseTypes {
    Int(i32),
    /// A decimal value, carried as its literal text.
    Float(String),
    StringWrapper(String),
    Bool(bool),
    Char(char),
    Null,
}

impl Clone for BaseTypes {
    fn clone(&self) -> (res: Self)
        ensures
            res == *self,
    {
        match self {
            BaseTypes::Int(i) => BaseTypes::Int(*i),
            BaseTypes::Float(s) => BaseTypes::Float(s.clone()),
            BaseTypes::StringWrapper(s) => BaseTypes::StringWrapper(s.clone()),
            BaseTypes::Bool(b) => BaseTypes::Bool(*b),
            BaseTypes::Char(c) => BaseTypes::Char(*c),
            BaseTypes::Null => BaseTypes::Null,
        }
    }
}

/// The declared type of a variable: the tag of a value, without a payload.
#[derive(Debug, Clone, Copy, PartialEq, Eq, Structural)]
pub enum TypeTag {
    Int,
    Float,
    StringWrapper,
    Bool,
    Char,
    Null,
}

/// The tag of a value.
pub open spec fn value_tag(v: BaseTypes) -> TypeTag {
    match v {
        BaseTypes::Int(_) => TypeTag::Int,
        BaseTypes::Float(_) => TypeTag::Float,
        BaseTypes::StringWrapper(_) => TypeTag::StringWrapper,
        BaseTypes::Bool(_) => TypeTag::Bool,
        BaseTypes::Char(_) => TypeTag::Char,
        BaseTypes::Null => TypeTag::Null,
    }
}

/// The declared-type widening rule: a declared `Int` becomes `Float`
/// before the assigned value is checked against it; every other tag is
/// kept.
pub open spec fn widen_type(t: TypeTag) -> TypeTag {
    match t {
        TypeTag::Int => TypeTag::Float,
        _ => t,
    }
}

/// Whether declaring a variable of (already widened) type `t` with the
/// computed value `v` raises a coercion warning: always for `Null`, and
/// otherwise exactly when the value's tag differs from the declared tag.
pub open spec fn decl_warns(t: TypeTag, v: BaseTypes) -> bool {
    t == TypeTag::Null || value_tag(v) != t
}

/// Whether `v` is the zero-value default of the declared type `t`.
pub open spec fn is_default_of(t: TypeTag, v: BaseTypes) -> bool {
    match t {
        TypeTag::Int => v == BaseTypes::Int(0),
        TypeTag::Float => v matches BaseTypes::Float(s) && s@ == "0.0"@,
        TypeTag::StringWrapper => v matches BaseTypes::StringWrapper(s) && s@.len() == 0,
        TypeTag::Bool => v == BaseTypes::Bool(false),
        TypeTag::Char => v == BaseTypes::Char('\0'),
        TypeTag::Null => v == BaseTypes::Null,
    }
}

/// What a declaration of (widened) type `t` stores when the computed value
/// is `given`: the value itself when its tag matches, the type's default
/// under a warning otherwise, and `Null` for a `Null` declared type.
pub open spec fn stored_value_ok(t: TypeTag, given: BaseTypes, stored: BaseTypes) -> bool {
    if t == TypeTag::Null {
        stored == BaseTypes::Null
    } else if value_tag(given) == t {
        stored == given
    } else {
        is_default_of(t, stored)
    }
}

/// The decimal digit character of `d` (meaningful for `0 <= d < 10`).
pub open spec fn digit_char(d: int) -> char {
    ((48 + d) as u8) as char
}

/// The decimal numeral of the non-negative number `n`, most significant
/// digit first.
pub open spec fn nat_text(n: int) -> Seq<char>
    decreases n,
{
    if n < 10 {
        seq![digit_char(n)]
    } else {
        nat_text(n / 10).push(digit_char(n % 10))
    }
}

/// The decimal text of the integer `i`, with a leading minus sign when
/// it is negative.
pub open spec fn int_text(i: int) -> Seq<char> {
    if i < 0 {
        seq!['-'] + nat_text(-i)
    } else {
        nat_text(i)
    }
}

/// The characters `BaseTypes::to_string` renders a value to: integers as
/// decimal numerals, decimals and strings as their text, booleans and the
/// absent value as their keywords, characters as themselves.
pub open spec fn value_label(v: BaseTypes) -> Seq<char> {
    match v {
        BaseTypes::Int(i) => int_text(i as int),
        BaseTypes::Float(s) => s@,
        BaseTypes::StringWrapper(s) => s@,
        BaseTypes::Bool(b) => if b {
            "true"@
        } else {
            "false"@
        },
        BaseTypes::Char(c) => seq![c],
        BaseTypes::Null => "null"@,
    }
}

/// Appends the decimal numeral of `n` to `s`.
fn push_nat(s: &mut String, n: u32)
    ensures
        final(s)@ == old(s)@ + nat_text(n as int),
    decreases n,
{
    let ghost s0 = s@;
    if n >= 10 {
        push_nat(s, n / 10);
    }
    let d = (n % 10) as u8;
    let c = (48 + d) as char;
    proof {
        assert(c == digit_char(n as int % 10));
    }
    s.push(c);
    proof {
        if n < 10 {
            assert(n as int % 10 == n as int);
            assert(s@ =~= s0 + nat_text(n as int));
        } else {
            assert(s@ =~= s0 + nat_text(n as int));
        }
    }
}

impl BaseTypes {
    /// The tag of this value.
    pub fn tag(&self) -> (t: TypeTag)
        ensures
            t == value_tag(*self),
    {
        match self {
            BaseTypes::Int(_) => TypeTag::Int,
            BaseTypes::Float(_) => TypeTag::Float,
            BaseTypes::StringWrapper(_) => TypeTag::StringWrapper,
            BaseTypes::Bool(_) => TypeTag::Bool,
            BaseTypes::Char(_) => TypeTag::Char,
            BaseTypes::Null => TypeTag::Null,
        }
    }

    /// The human-readable text of this value, exactly as `value_label`
    /// describes — the form the table dump prints.
    pub fn to_string(&self) -> (r: String)
        ensures
            r@ == value_label(*self),
    {
        match self {
            BaseTypes::Int(i) => {
                let mut s = String::new();
                if *i < 0 {
                    s.append("-");
                    let m: u32 = (-(*i as i64)) as u32;
                    push_nat(&mut s, m);
                    proof {
                        reveal_strlit("-");
                        assert("-"@ =~= seq!['-']);
                        assert(s@ =~= seq!['-'] + nat_text(m as int));
                    }
                } else {
                    push_nat(&mut s, *i as u32);
                    proof {
                        assert(s@ =~= nat_text(*i as int));
                    }
                }
                s
            },
            BaseTypes::Float(t) => t.clone(),
            BaseTypes::StringWrapper(t) => t.clone(),
            BaseTypes::Bool(b) => if *b {
                "true".to_owned()
            } else {
                "false".to_owned()
            },
            BaseTypes::Char(c) => {
                let mut s = String::new();
                s.push(*c);
                proof {
                    assert(s@ =~= seq![*c]);
                }
                s
            },
            BaseTypes::Null => "null".to_owned(),
        }
    }
}

/// Applies the widening rule to a declared type.
pub fn widen(t: TypeTag) -> (r: TypeTag)
    ensures
        r == widen_type(t),
{
    match t {
        TypeTag::Int => TypeTag::Float,
        _ => t,
    }
}

/// The zero-value default of the declared type `t`.
pub fn default_value_of(t: TypeTag) -> (v: BaseTypes)
    ensures
        is_default_of(t, v),
{
    match t {
        TypeTag::Int => BaseTypes::Int(0),
        TypeTag::Float => {
            let z = "0.0".to_owned();
            BaseTypes::Float(z)
        },
        TypeTag::StringWrapper => BaseTypes::StringWrapper(String::new()),
        TypeTag::Bool => BaseTypes::Bool(false),
        TypeTag::Char => BaseTypes::Char('\0'),
        TypeTag::Null => BaseTypes::Null,
    }
}

/// Whether declaring a variable of (widened) type `t` with value `v`
/// raises a coercion warning.
pub fn declaration_warns(t: TypeTag, v: &BaseTypes) -> (r: bool)
    ensures
        r == decl_warns(t, *v),
{
    if t == TypeTag::Null {
        true
    } else {
        let vt = v.tag();
        vt != t
    }
}

/// A plain wrapper around one integer value.
pub struct Int {
    pub value: i32,
}

impl Int {
    pub fn new(value: i32) -> (r: Int)
        ensures
            r.value == value,
    {
        Int { value }
    }
}

/// A plain wrapper around one decimal value, kept as its literal text.
pub struct Float {
    pub value: String,
}

impl Float {
    pub fn new(value: String) -> (r: Float)
        ensures
            r.value == value,
    {
        Float { value }
    }
}

/// A plain wrapper around one string value.
pub struct StringWrapper {
    pub value: String,
}

impl StringWrapper {
    pub fn new(value: String) -> (r: StringWrapper)
        ensures
            r.value == value,
    {
        StringWrapper { value }
    }
}

/// A plain wrapper around one character value.
pub struct Char {
    pub value: char,
}

impl Char {
    pub fn new(value: char) -> (r: Char)
        ensures
            r.value == value,
    {
        Char { value }
    }
}

/// A plain wrapper around one boolean value.
pub struct Bool {
    pub value: bool,
}

impl Bool {
    pub fn new(value: bool) -> (r: Bool)
        ensures
            r.value == value,
    {
        Bool { value }
    }
}

/// A plain wrapper around the absent value.
pub struct Null {
    pub value: (),
}

impl Null {
    pub fn new() -> (r: Null) {
        Null { value: () }
    }
}

} // verus!
