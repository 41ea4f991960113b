//! A small JSON document model with a verified serializer and parser.
//!
//! Values carry decimal numbers as an integer mantissa with a decimal scale,
//! so that documents written by floating-point producers can be held and
//! re-emitted exactly without floating-point arithmetic.
use vstd::prelude::*;

use crate::text::{dec_digits, digit_char, push_decimal};

verus! {

/// Mantissa bound: parsed and serialized mantissas stay below 10^15.
pub const MANTISSA_LIMIT: i64 = 1_000_000_000_000_000;

/// Upper bound on the decimal scale of a number.
pub const SCALE_LIMIT: u32 = 9;

/// A decimal number `mantissa / 10^scale`, kept exact.
#[derive(Clone, Copy, Debug, PartialEq, Eq, Structural)]
pub struct Number {
    pub mantissa: i64,
    pub scale: u32,
}

impl Number {
    /// Bounds under which the number serializes and re-parses exactly.
    pub open spec fn wf(self) -> bool {
        -MANTISSA_LIMIT < self.mantissa < MANTISSA_LIMIT && self.scale <= SCALE_LIMIT
    }

    /// Whether the number is in serializable range.
    pub fn is_wf(&self) -> (r: bool)
        ensures
            r == self.wf(),
    {
        -MANTISSA_LIMIT < self.mantissa && self.mantissa < MANTISSA_LIMIT && self.scale
            <= SCALE_LIMIT
    }

    /// The whole number `v`.
    pub fn from_u32(v: u32) -> (r: Number)
        ensures
            r == (Number { mantissa: v as i64, scale: 0 }),
            r.wf(),
    {
        Number { mantissa: v as i64, scale: 0 }
    }

    /// The whole number `v`.
    pub fn from_i32(v: i32) -> (r: Number)
        ensures
            r == (Number { mantissa: v as i64, scale: 0 }),
            r.wf(),
    {
        Number { mantissa: v as i64, scale: 0 }
    }

    /// The value as a `u32` if the number is a whole number in range.
    pub fn as_u32(&self) -> (r: Option<u32>)
        ensures
            r == (if self.scale == 0 && 0 <= self.mantissa <= u32::MAX {
                Some(self.mantissa as u32)
            } else {
                None::<u32>
            }),
    {
        if self.scale == 0 && 0 <= self.mantissa && self.mantissa <= u32::MAX as i64 {
            Some(self.mantissa as u32)
        } else {
            None
        }
    }

    /// The value as an `i32` if the number is a whole number in range.
    pub fn as_i32(&self) -> (r: Option<i32>)
        ensures
            r == (if self.scale == 0 && i32::MIN <= self.mantissa <= i32::MAX {
                Some(self.mantissa as i32)
            } else {
                None::<i32>
            }),
    {
        if self.scale == 0 && i32::MIN as i64 <= self.mantissa && self.mantissa <= i32::MAX as i64 {
            Some(self.mantissa as i32)
        } else {
            None
        }
    }
}

/// A JSON document as parsed or about to be serialized.
pub enum Json {
    Null,
    Bool(bool),
    Num(Number),
    Str(String),
    Arr(Vec<Json>),
    Obj(Vec<(String, Json)>),
}

/// The mathematical value of a JSON document: strings as character
/// sequences, arrays and objects as sequences.
pub enum JsonVal {
    Null,
    Bool(bool),
    Num(Number),
    Str(Seq<char>),
    Arr(Seq<JsonVal>),
    Obj(Seq<(Seq<char>, JsonVal)>),
}

pub open spec fn json_view(j: Json) -> JsonVal
    decreases j,
{
    match j {
        Json::Null => JsonVal::Null,
        Json::Bool(b) => JsonVal::Bool(b),
        Json::Num(n) => JsonVal::Num(n),
        Json::Str(s) => JsonVal::Str(s@),
        Json::Arr(v) => JsonVal::Arr(json_views(v@)),
        Json::Obj(v) => JsonVal::Obj(pair_views(v@)),
    }
}

pub open spec fn json_views(s: Seq<Json>) -> Seq<JsonVal>
    decreases s,
{
    if s.len() == 0 {
        Seq::empty()
    } else {
        seq![json_view(s[0])] + json_views(s.drop_first())
    }
}

pub open spec fn pair_views(s: Seq<(String, Json)>) -> Seq<(Seq<char>, JsonVal)>
    decreases s,
{
    if s.len() == 0 {
        Seq::empty()
    } else {
        seq![(s[0].0@, json_view(s[0].1))] + pair_views(s.drop_first())
    }
}

impl View for Json {
    type V = JsonVal;

    open spec fn view(&self) -> JsonVal {
        json_view(*self)
    }
}

pub broadcast proof fn lemma_json_views_len(s: Seq<Json>)
    ensures
        (#[trigger] json_views(s)).len() == s.len(),
    decreases s.len(),
{
    if s.len() > 0 {
        lemma_json_views_len(s.drop_first());
    }
}

pub broadcast proof fn lemma_json_views_index(s: Seq<Json>, i: int)
    requires
        0 <= i < s.len(),
    ensures
        #[trigger] json_views(s)[i] == json_view(s[i]),
    decreases s.len(),
{
    lemma_json_views_len(s);
    if i > 0 {
        lemma_json_views_index(s.drop_first(), i - 1);
    }
}

pub broadcast proof fn lemma_pair_views_len(s: Seq<(String, Json)>)
    ensures
        (#[trigger] pair_views(s)).len() == s.len(),
    decreases s.len(),
{
    if s.len() > 0 {
        lemma_pair_views_len(s.drop_first());
    }
}

pub broadcast proof fn lemma_pair_views_index(s: Seq<(String, Json)>, i: int)
    requires
        0 <= i < s.len(),
    ensures
        #[trigger] pair_views(s)[i] == (s[i].0@, json_view(s[i].1)),
    decreases s.len(),
{
    lemma_pair_views_len(s);
    if i > 0 {
        lemma_pair_views_index(s.drop_first(), i - 1);
    }
}

impl JsonVal {
    /// All numbers in the document are in serializable range.
    pub open spec fn wf(self) -> bool
        decreases self,
    {
        match self {
            JsonVal::Num(n) => n.wf(),
            JsonVal::Arr(s) => elems_wf(s),
            JsonVal::Obj(s) => members_wf(s),
            _ => true,
        }
    }
}

pub open spec fn elems_wf(s: Seq<JsonVal>) -> bool
    decreases s,
{
    s.len() == 0 || (s[0].wf() && elems_wf(s.drop_first()))
}

pub open spec fn members_wf(s: Seq<(Seq<char>, JsonVal)>) -> bool
    decreases s,
{
    s.len() == 0 || (s[0].1.wf() && members_wf(s.drop_first()))
}

pub proof fn lemma_elems_wf_index(s: Seq<JsonVal>, i: int)
    requires
        elems_wf(s),
        0 <= i < s.len(),
    ensures
        s[i].wf(),
    decreases i,
{
    if i > 0 {
        lemma_elems_wf_index(s.drop_first(), i - 1);
    }
}

pub proof fn lemma_members_wf_index(s: Seq<(Seq<char>, JsonVal)>, i: int)
    requires
        members_wf(s),
        0 <= i < s.len(),
    ensures
        s[i].1.wf(),
    decreases i,
{
    if i > 0 {
        lemma_members_wf_index(s.drop_first(), i - 1);
    }
}

pub proof fn lemma_elems_wf_push(s: Seq<JsonVal>, e: JsonVal)
    ensures
        elems_wf(s.push(e)) == (elems_wf(s) && e.wf()),
    decreases s.len(),
{
    if s.len() == 0 {
        assert(s.push(e)[0] == e);
        assert(s.push(e).drop_first() =~= Seq::<JsonVal>::empty());
        assert(elems_wf(Seq::<JsonVal>::empty()));
    } else {
        assert(s.push(e)[0] == s[0]);
        assert(s.push(e).drop_first() =~= s.drop_first().push(e));
        lemma_elems_wf_push(s.drop_first(), e);
    }
}

pub proof fn lemma_members_wf_push(s: Seq<(Seq<char>, JsonVal)>, k: Seq<char>, v: JsonVal)
    ensures
        members_wf(s.push((k, v))) == (members_wf(s) && v.wf()),
    decreases s.len(),
{
    if s.len() == 0 {
        assert(s.push((k, v))[0] == (k, v));
        assert(s.push((k, v)).drop_first() =~= Seq::<(Seq<char>, JsonVal)>::empty());
        assert(members_wf(Seq::<(Seq<char>, JsonVal)>::empty()));
    } else {
        assert(s.push((k, v))[0] == s[0]);
        assert(s.push((k, v)).drop_first() =~= s.drop_first().push((k, v)));
        lemma_members_wf_push(s.drop_first(), k, v);
    }
}

// ---------------------------------------------------------------------------
// Serialization
// ---------------------------------------------------------------------------
/// JSON insignificant whitespace.
pub open spec fn json_ws(c: char) -> bool {
    c == ' ' || c == '\t' || c == '\n' || c == '\r'
}

pub open spec fn is_digit(c: char) -> bool {
    48 <= c as u32 <= 57
}

pub open spec fn digit_val(c: char) -> nat {
    (c as u32 - 48) as nat
}

/// Lower-case hexadecimal digit for `d` in 0..16.
pub open spec fn hex_char(d: int) -> char {
    if d == 0 {
        '0'
    } else if d == 1 {
        '1'
    } else if d == 2 {
        '2'
    } else if d == 3 {
        '3'
    } else if d == 4 {
        '4'
    } else if d == 5 {
        '5'
    } else if d == 6 {
        '6'
    } else if d == 7 {
        '7'
    } else if d == 8 {
        '8'
    } else if d == 9 {
        '9'
    } else if d == 10 {
        'a'
    } else if d == 11 {
        'b'
    } else if d == 12 {
        'c'
    } else if d == 13 {
        'd'
    } else if d == 14 {
        'e'
    } else {
        'f'
    }
}

/// Value of a hexadecimal digit character, upper or lower case.
pub open spec fn hex_val(c: char) -> Option<u32> {
    let u = c as u32;
    if 48 <= u <= 57 {
        Some((u - 48) as u32)
    } else if 97 <= u <= 102 {
        Some((u - 87) as u32)
    } else if 65 <= u <= 70 {
        Some((u - 55) as u32)
    } else {
        None
    }
}

pub open spec fn pow10(k: nat) -> nat
    decreases k,
{
    if k == 0 {
        1
    } else {
        10 * pow10((k - 1) as nat)
    }
}

/// How a character appears inside a serialized JSON string.
pub open spec fn esc_char(c: char) -> Seq<char> {
    if c == '"' {
        seq!['\\', '"']
    } else if c == '\\' {
        seq!['\\', '\\']
    } else if c == '\n' {
        seq!['\\', 'n']
    } else if c == '\r' {
        seq!['\\', 'r']
    } else if c == '\t' {
        seq!['\\', 't']
    } else if (c as u32) < 0x20 {
        seq!['\\', 'u', '0', '0', hex_char((c as u32 / 16) as int), hex_char((c as u32 % 16) as int)]
    } else {
        seq![c]
    }
}

pub open spec fn ser_str_body(s: Seq<char>) -> Seq<char>
    decreases s.len(),
{
    if s.len() == 0 {
        Seq::empty()
    } else {
        esc_char(s[0]) + ser_str_body(s.drop_first())
    }
}

pub open spec fn ser_string(s: Seq<char>) -> Seq<char> {
    seq!['"'] + ser_str_body(s) + seq!['"']
}

pub open spec fn abs_mantissa(m: i64) -> nat {
    if m < 0 {
        (-m) as nat
    } else {
        m as nat
    }
}

/// Exactly `k` decimal digits of `f`, most significant first.
pub open spec fn frac_digits(f: nat, k: nat) -> Seq<char>
    decreases k,
{
    if k == 0 {
        Seq::empty()
    } else {
        frac_digits(f / 10, (k - 1) as nat) + seq![digit_char((f % 10) as int)]
    }
}

pub open spec fn ser_number(n: Number) -> Seq<char> {
    let a = abs_mantissa(n.mantissa);
    let sign: Seq<char> = if n.mantissa < 0 {
        seq!['-']
    } else {
        Seq::empty()
    };
    if n.scale == 0 {
        sign + dec_digits(a)
    } else {
        sign + dec_digits(a / pow10(n.scale as nat)) + seq!['.'] + frac_digits(
            a % pow10(n.scale as nat),
            n.scale as nat,
        )
    }
}

pub open spec fn ser_json(j: JsonVal) -> Seq<char>
    decreases j,
{
    match j {
        JsonVal::Null => seq!['n', 'u', 'l', 'l'],
        JsonVal::Bool(b) => if b {
            seq!['t', 'r', 'u', 'e']
        } else {
            seq!['f', 'a', 'l', 's', 'e']
        },
        JsonVal::Num(n) => ser_number(n),
        JsonVal::Str(s) => ser_string(s),
        JsonVal::Arr(elems) => seq!['['] + ser_elems(elems) + seq![']'],
        JsonVal::Obj(pairs) => seq!['{'] + ser_members(pairs) + seq!['}'],
    }
}

pub open spec fn ser_elems(s: Seq<JsonVal>) -> Seq<char>
    decreases s,
{
    if s.len() == 0 {
        Seq::empty()
    } else if s.len() == 1 {
        ser_json(s[0])
    } else {
        ser_json(s[0]) + seq![','] + ser_elems(s.drop_first())
    }
}

pub open spec fn ser_members(s: Seq<(Seq<char>, JsonVal)>) -> Seq<char>
    decreases s,
{
    if s.len() == 0 {
        Seq::empty()
    } else if s.len() == 1 {
        ser_string(s[0].0) + seq![':'] + ser_json(s[0].1)
    } else {
        ser_string(s[0].0) + seq![':'] + ser_json(s[0].1) + seq![','] + ser_members(s.drop_first())
    }
}

proof fn lemma_ser_str_body_snoc(s: Seq<char>, c: char)
    ensures
        ser_str_body(s.push(c)) == ser_str_body(s) + esc_char(c),
    decreases s.len(),
{
    if s.len() == 0 {
        assert(s.push(c) =~= seq![c]);
        assert(s.push(c).drop_first() =~= Seq::<char>::empty());
        assert(ser_str_body(Seq::<char>::empty()) =~= Seq::<char>::empty());
        assert(ser_str_body(s.push(c)) =~= esc_char(c));
        assert(ser_str_body(s) + esc_char(c) =~= esc_char(c));
    } else {
        assert(s.push(c).drop_first() =~= s.drop_first().push(c));
        lemma_ser_str_body_snoc(s.drop_first(), c);
        assert(ser_str_body(s.push(c)) =~= ser_str_body(s) + esc_char(c));
    }
}

proof fn lemma_ser_elems_snoc(s: Seq<JsonVal>, e: JsonVal)
    ensures
        ser_elems(s.push(e)) == if s.len() == 0 {
            ser_json(e)
        } else {
            ser_elems(s) + seq![','] + ser_json(e)
        },
    decreases s.len(),
{
    if s.len() == 0 {
        assert(s.push(e).len() == 1);
        assert(s.push(e)[0] == e);
    } else {
        assert(s.push(e).drop_first() =~= s.drop_first().push(e));
        lemma_ser_elems_snoc(s.drop_first(), e);
        if s.len() == 1 {
            assert(ser_elems(s.push(e)) =~= ser_elems(s) + seq![','] + ser_json(e));
        } else {
            assert(ser_elems(s.push(e)) =~= ser_elems(s) + seq![','] + ser_json(e));
        }
    }
}

proof fn lemma_ser_members_snoc(s: Seq<(Seq<char>, JsonVal)>, k: Seq<char>, v: JsonVal)
    ensures
        ser_members(s.push((k, v))) == if s.len() == 0 {
            ser_string(k) + seq![':'] + ser_json(v)
        } else {
            ser_members(s) + seq![','] + ser_string(k) + seq![':'] + ser_json(v)
        },
    decreases s.len(),
{
    if s.len() == 0 {
        assert(s.push((k, v)).len() == 1);
        assert(s.push((k, v))[0] == (k, v));
        assert(ser_members(s.push((k, v))) =~= ser_string(k) + seq![':'] + ser_json(v));
    } else {
        assert(s.push((k, v)).drop_first() =~= s.drop_first().push((k, v)));
        lemma_ser_members_snoc(s.drop_first(), k, v);
        assert(ser_members(s.push((k, v))) =~= ser_members(s) + seq![','] + ser_string(k) + seq![':']
            + ser_json(v));
    }
}

fn exec_hex_char(d: u32) -> (c: char)
    requires
        d < 16,
    ensures
        c == hex_char(d as int),
{
    if d == 0 {
        '0'
    } else if d == 1 {
        '1'
    } else if d == 2 {
        '2'
    } else if d == 3 {
        '3'
    } else if d == 4 {
        '4'
    } else if d == 5 {
        '5'
    } else if d == 6 {
        '6'
    } else if d == 7 {
        '7'
    } else if d == 8 {
        '8'
    } else if d == 9 {
        '9'
    } else if d == 10 {
        'a'
    } else if d == 11 {
        'b'
    } else if d == 12 {
        'c'
    } else if d == 13 {
        'd'
    } else if d == 14 {
        'e'
    } else {
        'f'
    }
}

fn write_escaped(c: char, out: &mut Vec<char>)
    ensures
        final(out)@ == old(out)@ + esc_char(c),
{
    if c == '"' {
        out.push('\\');
        out.push('"');
        assert(final(out)@ =~= old(out)@ + esc_char(c));
    } else if c == '\\' {
        out.push('\\');
        out.push('\\');
        assert(final(out)@ =~= old(out)@ + esc_char(c));
    } else if c == '\n' {
        out.push('\\');
        out.push('n');
        assert(final(out)@ =~= old(out)@ + esc_char(c));
    } else if c == '\r' {
        out.push('\\');
        out.push('r');
        assert(final(out)@ =~= old(out)@ + esc_char(c));
    } else if c == '\t' {
        out.push('\\');
        out.push('t');
        assert(final(out)@ =~= old(out)@ + esc_char(c));
    } else if (c as u32) < 0x20 {
        let u = c as u32;
        out.push('\\');
        out.push('u');
        out.push('0');
        out.push('0');
        out.push(exec_hex_char(u / 16));
        out.push(exec_hex_char(u % 16));
        assert(final(out)@ =~= old(out)@ + esc_char(c));
    } else {
        out.push(c);
        assert(final(out)@ =~= old(out)@ + esc_char(c));
    }
}

fn write_string(s: &str, out: &mut Vec<char>)
    ensures
        final(out)@ == old(out)@ + ser_string(s@),
{
    let chars = crate::text::str_to_chars(s);
    out.push('"');
    let mut i: usize = 0;
    while i < chars.len()
        invariant
            i <= chars@.len(),
            chars@ == s@,
            out@ == old(out)@ + seq!['"'] + ser_str_body(s@.take(i as int)),
        decreases chars@.len() - i,
    {
        let ghost pre = out@;
        write_escaped(chars[i], out);
        proof {
            lemma_ser_str_body_snoc(s@.take(i as int), s@[i as int]);
            assert(s@.take(i as int).push(s@[i as int]) =~= s@.take(i + 1 as int));
            assert(out@ =~= old(out)@ + seq!['"'] + ser_str_body(s@.take(i + 1 as int)));
        }
        i += 1;
    }
    out.push('"');
    proof {
        assert(s@.take(s@.len() as int) =~= s@);
        assert(final(out)@ =~= old(out)@ + ser_string(s@));
    }
}

fn pow10_u64(k: u32) -> (r: u64)
    requires
        k <= 15,
    ensures
        r == pow10(k as nat),
        r >= 1,
    decreases k,
{
    if k == 0 {
        1
    } else {
        let p = pow10_u64(k - 1);
        proof {
            lemma_pow10_bound(k as nat);
        }
        10 * p
    }
}

proof fn lemma_pow10_pos(k: nat)
    ensures
        pow10(k) >= 1,
    decreases k,
{
    if k > 0 {
        lemma_pow10_pos((k - 1) as nat);
    }
}

proof fn lemma_pow10_mono(a: nat, b: nat)
    requires
        a <= b,
    ensures
        pow10(a) <= pow10(b),
    decreases b,
{
    if a < b {
        lemma_pow10_mono(a, (b - 1) as nat);
        lemma_pow10_pos((b - 1) as nat);
    }
}

proof fn lemma_pow10_bound(k: nat)
    requires
        k <= 15,
    ensures
        1 <= pow10(k) <= 1_000_000_000_000_000,
{
    lemma_pow10_pos(k);
    lemma_pow10_mono(k, 15);
    assert(pow10(15) == 1_000_000_000_000_000) by {
        reveal_with_fuel(pow10, 17);
    };
}

fn write_frac(f: u64, k: u32, out: &mut Vec<char>)
    ensures
        final(out)@ == old(out)@ + frac_digits(f as nat, k as nat),
    decreases k,
{
    if k == 0 {
    } else {
        write_frac(f / 10, k - 1, out);
        let d = f % 10;
        let c: char = if d == 0 {
            '0'
        } else if d == 1 {
            '1'
        } else if d == 2 {
            '2'
        } else if d == 3 {
            '3'
        } else if d == 4 {
            '4'
        } else if d == 5 {
            '5'
        } else if d == 6 {
            '6'
        } else if d == 7 {
            '7'
        } else if d == 8 {
            '8'
        } else {
            '9'
        };
        out.push(c);
        assert(final(out)@ =~= old(out)@ + frac_digits(f as nat, k as nat));
    }
}

fn write_number(n: &Number, out: &mut Vec<char>)
    requires
        n.wf(),
    ensures
        final(out)@ == old(out)@ + ser_number(*n),
{
    let a: u64 = if n.mantissa < 0 {
        (-n.mantissa) as u64
    } else {
        n.mantissa as u64
    };
    assert(a == abs_mantissa(n.mantissa));
    if n.mantissa < 0 {
        out.push('-');
    }
    if n.scale == 0 {
        push_decimal(a, out);
        assert(final(out)@ =~= old(out)@ + ser_number(*n));
    } else {
        let p = pow10_u64(n.scale);
        push_decimal(a / p, out);
        out.push('.');
        write_frac(a % p, n.scale, out);
        assert(final(out)@ =~= old(out)@ + ser_number(*n));
    }
}

/// Appends the serialization of `j` to `out`.
pub fn write_json(j: &Json, out: &mut Vec<char>)
    requires
        j@.wf(),
    ensures
        final(out)@ == old(out)@ + ser_json(j@),
    decreases *j,
{
    broadcast use lemma_json_views_len, lemma_json_views_index, lemma_pair_views_len, lemma_pair_views_index;

    match j {
        Json::Null => {
            out.push('n');
            out.push('u');
            out.push('l');
            out.push('l');
            assert(final(out)@ =~= old(out)@ + ser_json(j@));
        },
        Json::Bool(b) => {
            if *b {
                out.push('t');
                out.push('r');
                out.push('u');
                out.push('e');
            } else {
                out.push('f');
                out.push('a');
                out.push('l');
                out.push('s');
                out.push('e');
            }
            assert(final(out)@ =~= old(out)@ + ser_json(j@));
        },
        Json::Num(n) => {
            write_number(n, out);
        },
        Json::Str(s) => {
            write_string(s.as_str(), out);
        },
        Json::Arr(v) => {
            out.push('[');
            let mut i: usize = 0;
            while i < v.len()
                invariant
                    i <= v@.len(),
                    j@ == JsonVal::Arr(json_views(v@)),
                    j@.wf(),
                    *j == Json::Arr(*v),
                    out@ == old(out)@ + seq!['['] + ser_elems(json_views(v@).take(i as int)),
                decreases v@.len() - i,
            {
                proof {
                    assert(decreases_to!(*j => *v));
                    assert(decreases_to!(*v => v@));
                    assert(decreases_to!(v@ => v@[i as int]));
                    lemma_json_views_len(v@);
                    lemma_json_views_index(v@, i as int);
                    lemma_elems_wf_index(json_views(v@), i as int);
                    assert(json_views(v@)[i as int].wf());
                }
                if i > 0 {
                    out.push(',');
                }
                write_json(&v[i], out);
                proof {
                    lemma_ser_elems_snoc(json_views(v@).take(i as int), json_view(v@[i as int]));
                    assert(json_views(v@).take(i as int).push(json_view(v@[i as int])) =~= json_views(
                        v@,
                    ).take(i + 1 as int));
                    assert(out@ =~= old(out)@ + seq!['['] + ser_elems(
                        json_views(v@).take(i + 1 as int),
                    ));
                }
                i += 1;
            }
            out.push(']');
            proof {
                assert(json_views(v@).take(v@.len() as int) =~= json_views(v@));
                assert(final(out)@ =~= old(out)@ + ser_json(j@));
            }
        },
        Json::Obj(v) => {
            out.push('{');
            let mut i: usize = 0;
            while i < v.len()
                invariant
                    i <= v@.len(),
                    j@ == JsonVal::Obj(pair_views(v@)),
                    j@.wf(),
                    *j == Json::Obj(*v),
                    out@ == old(out)@ + seq!['{'] + ser_members(pair_views(v@).take(i as int)),
                decreases v@.len() - i,
            {
                proof {
                    assert(decreases_to!(*j => *v));
                    assert(decreases_to!(*v => v@));
                    assert(decreases_to!(v@ => v@[i as int]));
                    assert(decreases_to!(v@[i as int] => v@[i as int].1));
                    lemma_pair_views_len(v@);
                    lemma_pair_views_index(v@, i as int);
                    lemma_members_wf_index(pair_views(v@), i as int);
                    assert(pair_views(v@)[i as int].1.wf());
                }
                if i > 0 {
                    out.push(',');
                }
                write_string(v[i].0.as_str(), out);
                out.push(':');
                write_json(&v[i].1, out);
                proof {
                    lemma_ser_members_snoc(
                        pair_views(v@).take(i as int),
                        v@[i as int].0@,
                        json_view(v@[i as int].1),
                    );
                    assert(pair_views(v@).take(i as int).push(
                        (v@[i as int].0@, json_view(v@[i as int].1)),
                    ) =~= pair_views(v@).take(i + 1 as int));
                    assert(out@ =~= old(out)@ + seq!['{'] + ser_members(
                        pair_views(v@).take(i + 1 as int),
                    ));
                }
                i += 1;
            }
            out.push('}');
            proof {
                assert(pair_views(v@).take(v@.len() as int) =~= pair_views(v@));
                assert(final(out)@ =~= old(out)@ + ser_json(j@));
            }
        },
    }
}

/// Serializes `j` as a compact JSON text.
pub fn to_text(j: &Json) -> (r: String)
    requires
        j@.wf(),
    ensures
        r@ == ser_json(j@),
{
    let mut out: Vec<char> = Vec::new();
    write_json(j, &mut out);
    crate::text::chars_to_string(&out)
}

// ---------------------------------------------------------------------------
// Parsing (specification)
// ---------------------------------------------------------------------------
/// Drops leading JSON whitespace.
pub open spec fn ws_trim(s: Seq<char>) -> Seq<char>
    decreases s.len(),
{
    if s.len() > 0 && json_ws(s[0]) {
        ws_trim(s.drop_first())
    } else {
        s
    }
}

/// Scans a run of digits, accumulating their value onto `acc`; fails on
/// values reaching the mantissa limit.
pub open spec fn sp_digits(s: Seq<char>, acc: nat) -> Option<(nat, Seq<char>)>
    decreases s.len(),
{
    if s.len() > 0 && is_digit(s[0]) {
        if acc * 10 + digit_val(s[0]) < 1_000_000_000_000_000 {
            sp_digits(s.drop_first(), acc * 10 + digit_val(s[0]))
        } else {
            None
        }
    } else {
        Some((acc, s))
    }
}

pub open spec fn sp_number(s: Seq<char>) -> Option<(Number, Seq<char>)> {
    let neg = s.len() > 0 && s[0] == '-';
    let t = if neg {
        s.drop_first()
    } else {
        s
    };
    if t.len() > 0 && is_digit(t[0]) {
        match sp_digits(t, 0) {
            None => None,
            Some((iv, r1)) => {
                if r1.len() >= 2 && r1[0] == '.' && is_digit(r1[1]) {
                    match sp_digits(r1.drop_first(), iv) {
                        None => None,
                        Some((m, r2)) => {
                            let sc = r1.len() - 1 - r2.len();
                            if 1 <= sc <= SCALE_LIMIT {
                                let mantissa: i64 = if neg {
                                    (0 - (m as int)) as i64
                                } else {
                                    m as i64
                                };
                                Some((Number { mantissa, scale: sc as u32 }, r2))
                            } else {
                                None
                            }
                        },
                    }
                } else {
                    let mantissa: i64 = if neg {
                        (0 - (iv as int)) as i64
                    } else {
                        iv as i64
                    };
                    Some((Number { mantissa, scale: 0 }, r1))
                }
            },
        }
    } else {
        None
    }
}

/// The control character with code `u` in 0..32.
pub open spec fn control_char(u: nat) -> char {
    if u == 0 {
        '\u{00}'
    } else if u == 1 {
        '\u{01}'
    } else if u == 2 {
        '\u{02}'
    } else if u == 3 {
        '\u{03}'
    } else if u == 4 {
        '\u{04}'
    } else if u == 5 {
        '\u{05}'
    } else if u == 6 {
        '\u{06}'
    } else if u == 7 {
        '\u{07}'
    } else if u == 8 {
        '\u{08}'
    } else if u == 9 {
        '\u{09}'
    } else if u == 10 {
        '\u{0a}'
    } else if u == 11 {
        '\u{0b}'
    } else if u == 12 {
        '\u{0c}'
    } else if u == 13 {
        '\u{0d}'
    } else if u == 14 {
        '\u{0e}'
    } else if u == 15 {
        '\u{0f}'
    } else if u == 16 {
        '\u{10}'
    } else if u == 17 {
        '\u{11}'
    } else if u == 18 {
        '\u{12}'
    } else if u == 19 {
        '\u{13}'
    } else if u == 20 {
        '\u{14}'
    } else if u == 21 {
        '\u{15}'
    } else if u == 22 {
        '\u{16}'
    } else if u == 23 {
        '\u{17}'
    } else if u == 24 {
        '\u{18}'
    } else if u == 25 {
        '\u{19}'
    } else if u == 26 {
        '\u{1a}'
    } else if u == 27 {
        '\u{1b}'
    } else if u == 28 {
        '\u{1c}'
    } else if u == 29 {
        '\u{1d}'
    } else if u == 30 {
        '\u{1e}'
    } else {
        '\u{1f}'
    }
}

/// Resolves the character after a backslash inside a string.
pub open spec fn sp_escape(s: Seq<char>) -> Option<(char, Seq<char>)> {
    if s.len() == 0 {
        None
    } else if s[0] == '"' {
        Some(('"', s.drop_first()))
    } else if s[0] == '\\' {
        Some(('\\', s.drop_first()))
    } else if s[0] == '/' {
        Some(('/', s.drop_first()))
    } else if s[0] == 'b' {
        Some(('\u{08}', s.drop_first()))
    } else if s[0] == 'f' {
        Some(('\u{0c}', s.drop_first()))
    } else if s[0] == 'n' {
        Some(('\n', s.drop_first()))
    } else if s[0] == 'r' {
        Some(('\r', s.drop_first()))
    } else if s[0] == 't' {
        Some(('\t', s.drop_first()))
    } else if s[0] == 'u' && s.len() >= 5 {
        match hex_val(s[1]) {
            None => None,
            Some(a) => match hex_val(s[2]) {
                None => None,
                Some(b) => match hex_val(s[3]) {
                    None => None,
                    Some(c) => match hex_val(s[4]) {
                        None => None,
                        Some(d) => {
                            let code = a * 4096 + b * 256 + c * 16 + d;
                            if code < 0x20 {
                                Some((control_char(code as nat), s.skip(5)))
                            } else {
                                None
                            }
                        },
                    },
                },
            },
        }
    } else {
        None
    }
}

/// Scans a string body up to and including the closing quote.
pub open spec fn sp_str_body(s: Seq<char>) -> Option<(Seq<char>, Seq<char>)>
    decreases s.len(),
{
    if s.len() == 0 {
        None
    } else if s[0] == '"' {
        Some((Seq::empty(), s.drop_first()))
    } else if s[0] == '\\' {
        match sp_escape(s.drop_first()) {
            None => None,
            Some((c, r)) => if r.len() < s.len() {
                match sp_str_body(r) {
                    None => None,
                    Some((t, r2)) => Some((seq![c] + t, r2)),
                }
            } else {
                None
            },
        }
    } else if (s[0] as u32) < 0x20 {
        None
    } else {
        match sp_str_body(s.drop_first()) {
            None => None,
            Some((t, r2)) => Some((seq![s[0]] + t, r2)),
        }
    }
}

pub open spec fn sp_value(s: Seq<char>) -> Option<(JsonVal, Seq<char>)>
    decreases s.len(), 1int,
{
    if s.len() == 0 {
        None
    } else if s[0] == 'n' {
        if s.len() >= 4 && s[1] == 'u' && s[2] == 'l' && s[3] == 'l' {
            Some((JsonVal::Null, s.skip(4)))
        } else {
            None
        }
    } else if s[0] == 't' {
        if s.len() >= 4 && s[1] == 'r' && s[2] == 'u' && s[3] == 'e' {
            Some((JsonVal::Bool(true), s.skip(4)))
        } else {
            None
        }
    } else if s[0] == 'f' {
        if s.len() >= 5 && s[1] == 'a' && s[2] == 'l' && s[3] == 's' && s[4] == 'e' {
            Some((JsonVal::Bool(false), s.skip(5)))
        } else {
            None
        }
    } else if s[0] == '-' || is_digit(s[0]) {
        match sp_number(s) {
            None => None,
            Some((n, r)) => Some((JsonVal::Num(n), r)),
        }
    } else if s[0] == '"' {
        match sp_str_body(s.drop_first()) {
            None => None,
            Some((t, r)) => Some((JsonVal::Str(t), r)),
        }
    } else if s[0] == '[' {
        let r1 = ws_trim(s.drop_first());
        if r1.len() > 0 && r1[0] == ']' {
            Some((JsonVal::Arr(Seq::empty()), r1.drop_first()))
        } else if r1.len() < s.len() {
            match sp_elems(r1) {
                None => None,
                Some((vs, r2)) => Some((JsonVal::Arr(vs), r2)),
            }
        } else {
            None
        }
    } else if s[0] == '{' {
        let r1 = ws_trim(s.drop_first());
        if r1.len() > 0 && r1[0] == '}' {
            Some((JsonVal::Obj(Seq::empty()), r1.drop_first()))
        } else if r1.len() < s.len() {
            match sp_members(r1) {
                None => None,
                Some((ps, r2)) => Some((JsonVal::Obj(ps), r2)),
            }
        } else {
            None
        }
    } else {
        None
    }
}

pub open spec fn sp_elems(s: Seq<char>) -> Option<(Seq<JsonVal>, Seq<char>)>
    decreases s.len(), 2int,
{
    match sp_value(s) {
        None => None,
        Some((v, r1)) => {
            let r2 = ws_trim(r1);
            if r2.len() > 0 && r2[0] == ',' {
                let r3 = ws_trim(r2.drop_first());
                if r3.len() < s.len() {
                    match sp_elems(r3) {
                        None => None,
                        Some((vs, r4)) => Some((seq![v] + vs, r4)),
                    }
                } else {
                    None
                }
            } else if r2.len() > 0 && r2[0] == ']' {
                Some((seq![v], r2.drop_first()))
            } else {
                None
            }
        },
    }
}

pub open spec fn sp_members(s: Seq<char>) -> Option<(Seq<(Seq<char>, JsonVal)>, Seq<char>)>
    decreases s.len(), 2int,
{
    if s.len() > 0 && s[0] == '"' {
        match sp_str_body(s.drop_first()) {
            None => None,
            Some((k, r1)) => {
                let r2 = ws_trim(r1);
                if r2.len() > 0 && r2[0] == ':' {
                    let r3 = ws_trim(r2.drop_first());
                    if r3.len() < s.len() {
                        match sp_value(r3) {
                            None => None,
                            Some((v, r4)) => {
                                let r5 = ws_trim(r4);
                                if r5.len() > 0 && r5[0] == ',' {
                                    let r6 = ws_trim(r5.drop_first());
                                    if r6.len() < s.len() {
                                        match sp_members(r6) {
                                            None => None,
                                            Some((ps, r7)) => Some((seq![(k, v)] + ps, r7)),
                                        }
                                    } else {
                                        None
                                    }
                                } else if r5.len() > 0 && r5[0] == '}' {
                                    Some((seq![(k, v)], r5.drop_first()))
                                } else {
                                    None
                                }
                            },
                        }
                    } else {
                        None
                    }
                } else {
                    None
                }
            },
        }
    } else {
        None
    }
}

/// Parses a complete JSON text: one value, possibly surrounded by whitespace.
pub open spec fn sp_json(s: Seq<char>) -> Option<JsonVal> {
    match sp_value(ws_trim(s)) {
        None => None,
        Some((v, r)) => if ws_trim(r).len() == 0 {
            Some(v)
        } else {
            None
        },
    }
}

// ---------------------------------------------------------------------------
// Round trip: parsing a serialized document gives the document back
// ---------------------------------------------------------------------------
/// What may follow a serialized value without changing how it parses.
pub open spec fn value_term(rest: Seq<char>) -> bool {
    rest.len() == 0 || rest[0] == ',' || rest[0] == ']' || rest[0] == '}'
}

spec fn all_digits(s: Seq<char>) -> bool
    decreases s.len(),
{
    s.len() == 0 || (is_digit(s[0]) && all_digits(s.drop_first()))
}

spec fn digits_val(s: Seq<char>, acc: nat) -> nat
    decreases s.len(),
{
    if s.len() == 0 {
        acc
    } else {
        digits_val(s.drop_first(), acc * 10 + digit_val(s[0]))
    }
}

proof fn lemma_all_digits_push(s: Seq<char>, c: char)
    requires
        all_digits(s),
        is_digit(c),
    ensures
        all_digits(s.push(c)),
    decreases s.len(),
{
    if s.len() == 0 {
        assert(s.push(c)[0] == c);
        assert(s.push(c).drop_first() =~= Seq::<char>::empty());
        assert(all_digits(Seq::<char>::empty()));
    } else {
        assert(s.push(c)[0] == s[0]);
        assert(s.push(c).drop_first() =~= s.drop_first().push(c));
        lemma_all_digits_push(s.drop_first(), c);
    }
}

proof fn lemma_digits_val_append(s: Seq<char>, c: char, acc: nat)
    ensures
        digits_val(s.push(c), acc) == digits_val(s, acc) * 10 + digit_val(c),
    decreases s.len(),
{
    if s.len() == 0 {
        assert(s.push(c)[0] == c);
        assert(s.push(c).drop_first() =~= Seq::<char>::empty());
        assert(digits_val(Seq::<char>::empty(), acc * 10 + digit_val(c)) == acc * 10 + digit_val(
            c,
        ));
        assert(digits_val(s, acc) == acc);
    } else {
        assert(s.push(c)[0] == s[0]);
        assert(s.push(c).drop_first() =~= s.drop_first().push(c));
        lemma_digits_val_append(s.drop_first(), c, acc * 10 + digit_val(s[0]));
    }
}

proof fn lemma_digits_val_lb(s: Seq<char>, acc: nat)
    ensures
        digits_val(s, acc) >= acc,
    decreases s.len(),
{
    if s.len() > 0 {
        lemma_digits_val_lb(s.drop_first(), acc * 10 + digit_val(s[0]));
    }
}

proof fn lemma_dec_digits_props(n: nat)
    ensures
        all_digits(dec_digits(n)),
        dec_digits(n).len() >= 1,
        digits_val(dec_digits(n), 0) == n,
    decreases n,
{
    if n < 10 {
        assert(dec_digits(n) =~= seq![digit_char(n as int)]);
        assert(is_digit(digit_char(n as int)));
        assert(digit_val(digit_char(n as int)) == n);
        assert(dec_digits(n).drop_first() =~= Seq::<char>::empty());
        assert(all_digits(Seq::<char>::empty()));
        assert(digits_val(Seq::<char>::empty(), n) == n);
        assert(digits_val(dec_digits(n), 0) == n);
    } else {
        lemma_dec_digits_props(n / 10);
        let c = digit_char((n % 10) as int);
        assert(dec_digits(n) =~= dec_digits(n / 10).push(c));
        assert(is_digit(c));
        assert(digit_val(c) == n % 10);
        lemma_all_digits_push(dec_digits(n / 10), c);
        lemma_digits_val_append(dec_digits(n / 10), c, 0);
        assert(digits_val(dec_digits(n), 0) == (n / 10) * 10 + n % 10);
    }
}

proof fn lemma_frac_digits_props(f: nat, k: nat, acc: nat)
    requires
        f < pow10(k),
    ensures
        all_digits(frac_digits(f, k)),
        frac_digits(f, k).len() == k,
        digits_val(frac_digits(f, k), acc) == acc * pow10(k) + f,
    decreases k,
{
    if k == 0 {
        assert(frac_digits(f, k) =~= Seq::<char>::empty());
    } else {
        assert(pow10(k) == 10 * pow10((k - 1) as nat));
        assert(f / 10 < pow10((k - 1) as nat)) by (nonlinear_arith)
            requires
                f < 10 * pow10((k - 1) as nat),
        ;
        lemma_frac_digits_props(f / 10, (k - 1) as nat, acc);
        let c = digit_char((f % 10) as int);
        assert(frac_digits(f, k) =~= frac_digits(f / 10, (k - 1) as nat).push(c));
        assert(is_digit(c));
        assert(digit_val(c) == f % 10);
        lemma_all_digits_push(frac_digits(f / 10, (k - 1) as nat), c);
        lemma_digits_val_append(frac_digits(f / 10, (k - 1) as nat), c, acc);
        assert(digits_val(frac_digits(f, k), acc) == (acc * pow10((k - 1) as nat) + f / 10) * 10 + f
            % 10);
        assert((acc * pow10((k - 1) as nat) + f / 10) * 10 + f % 10 == acc * (10 * pow10(
            (k - 1) as nat,
        )) + ((f / 10) * 10 + f % 10)) by (nonlinear_arith);
        assert((f / 10) * 10 + f % 10 == f);
    }
}

proof fn lemma_sp_digits_exact(ds: Seq<char>, rest: Seq<char>, acc: nat)
    requires
        all_digits(ds),
        digits_val(ds, acc) < 1_000_000_000_000_000,
        rest.len() == 0 || !is_digit(rest[0]),
    ensures
        sp_digits(ds + rest, acc) == Some((digits_val(ds, acc), rest)),
    decreases ds.len(),
{
    let s = ds + rest;
    if ds.len() == 0 {
        assert(s =~= rest);
    } else {
        assert(s[0] == ds[0]);
        assert(is_digit(s[0]));
        let acc2 = acc * 10 + digit_val(ds[0]);
        lemma_digits_val_lb(ds.drop_first(), acc2);
        assert(digits_val(ds, acc) == digits_val(ds.drop_first(), acc2));
        assert(acc2 < 1_000_000_000_000_000);
        assert(s.drop_first() =~= ds.drop_first() + rest);
        lemma_sp_digits_exact(ds.drop_first(), rest, acc2);
    }
}

#[verifier::rlimit(100)]
proof fn lemma_rt_number(n: Number, rest: Seq<char>)
    requires
        n.wf(),
        rest.len() == 0 || (!is_digit(rest[0]) && rest[0] != '.'),
    ensures
        sp_number(ser_number(n) + rest) == Some((n, rest)),
{
    let a = abs_mantissa(n.mantissa);
    let neg = n.mantissa < 0;
    let s = ser_number(n) + rest;
    if n.scale == 0 {
        let ds = dec_digits(a);
        lemma_dec_digits_props(a);
        if neg {
            assert(ser_number(n) =~= seq!['-'] + ds);
            assert(s[0] == '-');
            assert(s.drop_first() =~= ds + rest);
        } else {
            assert(ser_number(n) =~= ds);
            assert(s =~= ds + rest);
            assert(s[0] == ds[0]);
            assert(!(s[0] == '-'));
        }
        let t: Seq<char> = if neg {
            s.drop_first()
        } else {
            s
        };
        assert(t =~= ds + rest);
        assert(t[0] == ds[0]);
        assert(is_digit(t[0]));
        lemma_sp_digits_exact(ds, rest, 0);
        assert(sp_digits(t, 0) == Some((a, rest)));
        assert(!(rest.len() >= 2 && rest[0] == '.' && is_digit(rest[1])));
        if neg {
            assert(((0 - (a as int)) as i64) == n.mantissa);
        } else {
            assert((a as i64) == n.mantissa);
        }
    } else {
        let sc = n.scale as nat;
        let p = pow10(sc);
        lemma_pow10_bound(sc);
        broadcast use vstd::arithmetic::div_mod::lemma_fundamental_div_mod;
        broadcast use vstd::arithmetic::div_mod::lemma_mod_division_less_than_divisor;

        let iv = a / p;
        let fv = a % p;
        assert(a == p * iv + fv);
        assert(0 <= fv < p);
        assert(iv <= p * iv) by (nonlinear_arith)
            requires
                p >= 1,
                iv >= 0,
        ;
        assert(iv <= a);
        let ids = dec_digits(iv);
        let fds = frac_digits(fv, sc);
        lemma_dec_digits_props(iv);
        lemma_frac_digits_props(fv, sc, iv);
        assert(digits_val(fds, iv) == iv * p + fv);
        assert(iv * p == p * iv) by (nonlinear_arith);
        assert(digits_val(fds, iv) == a);
        assert(ser_number(n) =~= (if neg {
            seq!['-']
        } else {
            Seq::<char>::empty()
        }) + ids + seq!['.'] + fds);
        if neg {
            assert(s[0] == '-');
        } else {
            assert(s =~= ids + seq!['.'] + fds + rest);
            assert(s[0] == ids[0]);
            assert(is_digit(s[0]));
            assert(!(s[0] == '-'));
        }
        let t: Seq<char> = if neg {
            s.drop_first()
        } else {
            s
        };
        assert(t =~= ids + (seq!['.'] + fds + rest));
        assert(t[0] == ids[0]);
        assert(is_digit(t[0]));
        let r1 = seq!['.'] + fds + rest;
        assert(r1[0] == '.');
        assert(!is_digit('.'));
        lemma_sp_digits_exact(ids, r1, 0);
        assert(sp_digits(t, 0) == Some((iv, r1)));
        assert(r1.len() == 1 + sc + rest.len());
        assert(r1.len() >= 2);
        assert(r1[1] == fds[0]);
        assert(is_digit(r1[1]));
        assert(r1.drop_first() =~= fds + rest);
        lemma_sp_digits_exact(fds, rest, iv);
        assert(sp_digits(r1.drop_first(), iv) == Some((a, rest)));
        assert(r1.len() - 1 - rest.len() == sc);
        if neg {
            assert(((0 - (a as int)) as i64) == n.mantissa);
        } else {
            assert((a as i64) == n.mantissa);
        }
        assert((sc as u32) == n.scale);
    }
}

proof fn lemma_hex_char_val(d: u32)
    requires
        d < 16,
    ensures
        hex_val(hex_char(d as int)) == Some(d),
{
}

proof fn lemma_control_char_code(c: char)
    requires
        (c as u32) < 0x20,
    ensures
        control_char((c as u32) as nat) == c,
{
    assert(control_char((c as u32) as nat) as u32 == c as u32);
}

proof fn lemma_rt_str_body(t: Seq<char>, rest: Seq<char>)
    ensures
        sp_str_body(ser_str_body(t) + seq!['"'] + rest) == Some((t, rest)),
    decreases t.len(),
{
    let s = ser_str_body(t) + seq!['"'] + rest;
    if t.len() == 0 {
        assert(ser_str_body(t) =~= Seq::<char>::empty());
        assert(s =~= seq!['"'] + rest);
        assert(s[0] == '"');
        assert(s.drop_first() =~= rest);
    } else {
        let c = t[0];
        let tail = ser_str_body(t.drop_first()) + seq!['"'] + rest;
        assert(ser_str_body(t) == esc_char(c) + ser_str_body(t.drop_first()));
        assert(s =~= esc_char(c) + tail);
        lemma_rt_str_body(t.drop_first(), rest);
        assert(seq![c] + t.drop_first() =~= t);
        if c == '"' || c == '\\' || c == '\n' || c == '\r' || c == '\t' {
            assert(s[0] == '\\');
            let e = s.drop_first();
            if c == '"' {
                assert(e =~= seq!['"'] + tail);
                assert(e[0] == '"');
            } else if c == '\\' {
                assert(e =~= seq!['\\'] + tail);
                assert(e[0] == '\\');
            } else if c == '\n' {
                assert(e =~= seq!['n'] + tail);
                assert(e[0] == 'n');
            } else if c == '\r' {
                assert(e =~= seq!['r'] + tail);
                assert(e[0] == 'r');
            } else {
                assert(e =~= seq!['t'] + tail);
                assert(e[0] == 't');
            }
            assert(e.drop_first() =~= tail);
            assert(sp_escape(e) == Some((c, tail)));
            assert(tail.len() < s.len());
            assert(sp_str_body(s) == Some((seq![c] + t.drop_first(), rest)));
        } else if (c as u32) < 0x20 {
            let u = c as u32;
            assert(esc_char(c) =~= seq!['\\', 'u', '0', '0', hex_char((u / 16) as int), hex_char(
                (u % 16) as int,
            )]);
            assert(s[0] == '\\');
            let e = s.drop_first();
            assert(e =~= seq!['u', '0', '0', hex_char((u / 16) as int), hex_char((u % 16) as int)]
                + tail);
            assert(e[0] == 'u');
            assert(e.len() >= 5);
            assert(e[1] == '0' && e[2] == '0');
            assert(e[3] == hex_char((u / 16) as int));
            assert(e[4] == hex_char((u % 16) as int));
            assert(hex_val('0') == Some(0u32));
            lemma_hex_char_val(u / 16);
            lemma_hex_char_val(u % 16);
            assert((u / 16) * 16 + u % 16 == u);
            assert(u < 0x20);
            lemma_control_char_code(c);
            assert(e.skip(5) =~= tail);
            assert(sp_escape(e) == Some((c, tail)));
            assert(tail.len() < s.len());
            assert(sp_str_body(s) == Some((seq![c] + t.drop_first(), rest)));
        } else {
            assert(esc_char(c) =~= seq![c]);
            assert(s[0] == c);
            assert(c != '"' && c != '\\');
            assert(!((s[0] as u32) < 0x20));
            assert(s.drop_first() =~= tail);
            assert(sp_str_body(s) == Some((seq![c] + t.drop_first(), rest)));
        }
    }
}

proof fn lemma_ws_id(s: Seq<char>)
    requires
        s.len() == 0 || !json_ws(s[0]),
    ensures
        ws_trim(s) == s,
{
}

proof fn lemma_ser_starts(j: JsonVal)
    requires
        j.wf(),
    ensures
        ser_json(j).len() >= 1,
        !json_ws(ser_json(j)[0]),
        ser_json(j)[0] != ']',
        ser_json(j)[0] != '}',
    decreases j,
{
    match j {
        JsonVal::Null => {},
        JsonVal::Bool(b) => {},
        JsonVal::Num(n) => {
            let a = abs_mantissa(n.mantissa);
            lemma_dec_digits_props(a);
            if n.scale == 0 {
                if n.mantissa < 0 {
                    assert(ser_json(j)[0] == '-');
                } else {
                    assert(ser_json(j)[0] == dec_digits(a)[0]);
                    assert(is_digit(ser_json(j)[0]));
                }
            } else {
                lemma_pow10_bound(n.scale as nat);
                lemma_dec_digits_props(a / pow10(n.scale as nat));
                if n.mantissa < 0 {
                    assert(ser_json(j)[0] == '-');
                } else {
                    assert(ser_json(j)[0] == dec_digits(a / pow10(n.scale as nat))[0]);
                    assert(is_digit(ser_json(j)[0]));
                }
            }
        },
        JsonVal::Str(t) => {
            assert(ser_json(j)[0] == '"');
        },
        JsonVal::Arr(elems) => {
            assert(ser_json(j)[0] == '[');
        },
        JsonVal::Obj(pairs) => {
            assert(ser_json(j)[0] == '{');
        },
    }
}

#[verifier::rlimit(100)]
proof fn lemma_rt_value(j: JsonVal, rest: Seq<char>)
    requires
        j.wf(),
        value_term(rest),
    ensures
        sp_value(ser_json(j) + rest) == Some((j, rest)),
    decreases j,
{
    let s = ser_json(j) + rest;
    match j {
        JsonVal::Null => {
            assert(s.len() >= 4);
            assert(s[0] == 'n' && s[1] == 'u' && s[2] == 'l' && s[3] == 'l');
            assert(s.skip(4) =~= rest);
            assert(sp_value(s) =~~= Some((j, rest)));
        },
        JsonVal::Bool(b) => {
            if b {
                assert(s[0] == 't' && s[1] == 'r' && s[2] == 'u' && s[3] == 'e');
                assert(s.skip(4) =~= rest);
            } else {
                assert(s[0] == 'f' && s[1] == 'a' && s[2] == 'l' && s[3] == 's' && s[4] == 'e');
                assert(s.skip(5) =~= rest);
            }
            assert(sp_value(s) =~~= Some((j, rest)));
        },
        JsonVal::Num(n) => {
            lemma_rt_number(n, rest);
            lemma_ser_starts(j);
            let a = abs_mantissa(n.mantissa);
            lemma_dec_digits_props(a);
            if n.scale != 0 {
                lemma_pow10_bound(n.scale as nat);
                lemma_dec_digits_props(a / pow10(n.scale as nat));
            }
            assert(s[0] == ser_json(j)[0]);
            if n.mantissa < 0 {
                assert(s[0] == '-');
            } else {
                assert(is_digit(s[0]));
            }
            assert(s[0] != 'n' && s[0] != 't' && s[0] != 'f');
            assert(sp_value(s) == Some((JsonVal::Num(n), rest)));
            assert(sp_value(s) =~~= Some((j, rest)));
        },
        JsonVal::Str(t) => {
            assert(ser_json(j) == ser_string(t));
            assert(s[0] == '"');
            assert(s[0] != 'n' && s[0] != 't' && s[0] != 'f' && s[0] != '-' && !is_digit(s[0]));
            assert(s.drop_first() =~= ser_str_body(t) + seq!['"'] + rest);
            lemma_rt_str_body(t, rest);
            assert(sp_value(s) == Some((JsonVal::Str(t), rest)));
            assert(sp_value(s) =~~= Some((j, rest)));
        },
        JsonVal::Arr(elems) => {
            assert(decreases_to!(j => elems));
            let inner = ser_elems(elems);
            assert(ser_json(j) == seq!['['] + inner + seq![']']);
            assert(s[0] == '[');
            assert(s[0] != 'n' && s[0] != 't' && s[0] != 'f' && s[0] != '-' && !is_digit(s[0])
                && s[0] != '"');
            let t = s.drop_first();
            assert(t =~= inner + seq![']'] + rest);
            if elems.len() == 0 {
                assert(inner =~= Seq::<char>::empty());
                assert(t =~= seq![']'] + rest);
                lemma_ws_id(t);
                assert(t[0] == ']');
                assert(t.drop_first() =~= rest);
                assert(sp_value(s) == Some((JsonVal::Arr(Seq::empty()), rest)));
                assert(elems =~= Seq::<JsonVal>::empty());
                assert(sp_value(s) =~~= Some((j, rest)));
            } else {
                let e0 = elems[0];
                assert(e0.wf());
                lemma_ser_starts(e0);
                if elems.len() == 1 {
                    assert(inner == ser_json(e0));
                } else {
                    assert(inner == ser_json(e0) + seq![','] + ser_elems(elems.drop_first()));
                }
                assert(t[0] == ser_json(e0)[0]);
                lemma_ws_id(t);
                assert(t[0] != ']');
                assert(t.len() < s.len());
                lemma_rt_elems(elems, rest);
                assert(sp_elems(t) == Some((elems, rest)));
                assert(sp_value(s) == Some((JsonVal::Arr(elems), rest)));
                assert(sp_value(s) =~~= Some((j, rest)));
            }
        },
        JsonVal::Obj(pairs) => {
            assert(decreases_to!(j => pairs));
            let inner = ser_members(pairs);
            assert(ser_json(j) == seq!['{'] + inner + seq!['}']);
            assert(s[0] == '{');
            assert(s[0] != 'n' && s[0] != 't' && s[0] != 'f' && s[0] != '-' && !is_digit(s[0])
                && s[0] != '"' && s[0] != '[');
            let t = s.drop_first();
            assert(t =~= inner + seq!['}'] + rest);
            if pairs.len() == 0 {
                assert(inner =~= Seq::<char>::empty());
                assert(t =~= seq!['}'] + rest);
                lemma_ws_id(t);
                assert(t[0] == '}');
                assert(t.drop_first() =~= rest);
                assert(sp_value(s) == Some((JsonVal::Obj(Seq::empty()), rest)));
                assert(pairs =~= Seq::<(Seq<char>, JsonVal)>::empty());
                assert(sp_value(s) =~~= Some((j, rest)));
            } else {
                if pairs.len() == 1 {
                    assert(inner == ser_string(pairs[0].0) + seq![':'] + ser_json(pairs[0].1));
                } else {
                    assert(inner == ser_string(pairs[0].0) + seq![':'] + ser_json(pairs[0].1)
                        + seq![','] + ser_members(pairs.drop_first()));
                }
                assert(t[0] == '"');
                lemma_ws_id(t);
                assert(t[0] != '}');
                assert(t.len() < s.len());
                lemma_rt_members(pairs, rest);
                assert(sp_members(t) == Some((pairs, rest)));
                assert(sp_value(s) == Some((JsonVal::Obj(pairs), rest)));
                assert(sp_value(s) =~~= Some((j, rest)));
            }
        },
    }
}

#[verifier::rlimit(100)]
proof fn lemma_rt_elems(elems: Seq<JsonVal>, rest: Seq<char>)
    requires
        elems_wf(elems),
        elems.len() >= 1,
    ensures
        sp_elems(ser_elems(elems) + seq![']'] + rest) == Some((elems, rest)),
    decreases elems,
{
    let e0 = elems[0];
    assert(e0.wf());
    let s = ser_elems(elems) + seq![']'] + rest;
    if elems.len() == 1 {
        assert(ser_elems(elems) == ser_json(e0));
        let r1 = seq![']'] + rest;
        assert(s =~= ser_json(e0) + r1);
        lemma_rt_value(e0, r1);
        assert(sp_value(s) == Some((e0, r1)));
        lemma_ws_id(r1);
        assert(r1[0] == ']');
        assert(r1[0] != ',');
        assert(r1.drop_first() =~= rest);
        assert(seq![e0] =~= elems);
        assert(sp_elems(s) == Some((elems, rest)));
    } else {
        let d = elems.drop_first();
        assert(elems_wf(d));
        assert(d.len() >= 1);
        let tail = seq![','] + ser_elems(d) + seq![']'] + rest;
        assert(ser_elems(elems) == ser_json(e0) + seq![','] + ser_elems(d));
        assert(s =~= ser_json(e0) + tail);
        lemma_rt_value(e0, tail);
        assert(sp_value(s) == Some((e0, tail)));
        lemma_ws_id(tail);
        assert(tail[0] == ',');
        let u = tail.drop_first();
        assert(u =~= ser_elems(d) + seq![']'] + rest);
        let d0 = d[0];
        assert(d0.wf());
        lemma_ser_starts(d0);
        if d.len() == 1 {
            assert(ser_elems(d) == ser_json(d0));
        } else {
            assert(ser_elems(d) == ser_json(d0) + seq![','] + ser_elems(d.drop_first()));
        }
        assert(u[0] == ser_json(d0)[0]);
        lemma_ws_id(u);
        assert(u.len() < s.len());
        lemma_rt_elems(d, rest);
        assert(sp_elems(u) == Some((d, rest)));
        assert(seq![e0] + d =~= elems);
        assert(sp_elems(s) == Some((elems, rest)));
    }
}

#[verifier::rlimit(100)]
proof fn lemma_rt_members(pairs: Seq<(Seq<char>, JsonVal)>, rest: Seq<char>)
    requires
        members_wf(pairs),
        pairs.len() >= 1,
    ensures
        sp_members(ser_members(pairs) + seq!['}'] + rest) == Some((pairs, rest)),
    decreases pairs,
{
    let k0 = pairs[0].0;
    let v0 = pairs[0].1;
    assert(pairs[0] == (k0, v0));
    assert(v0.wf());
    let s = ser_members(pairs) + seq!['}'] + rest;
    if pairs.len() == 1 {
        assert(ser_members(pairs) == ser_string(k0) + seq![':'] + ser_json(v0));
        let after_v = seq!['}'] + rest;
        let after_key = seq![':'] + ser_json(v0) + after_v;
        assert(s =~= seq!['"'] + (ser_str_body(k0) + seq!['"'] + after_key));
        assert(s[0] == '"');
        assert(s.drop_first() =~= ser_str_body(k0) + seq!['"'] + after_key);
        lemma_rt_str_body(k0, after_key);
        assert(sp_str_body(s.drop_first()) == Some((k0, after_key)));
        lemma_ws_id(after_key);
        assert(after_key[0] == ':');
        let r3pre = after_key.drop_first();
        assert(r3pre =~= ser_json(v0) + after_v);
        lemma_ser_starts(v0);
        lemma_ws_id(r3pre);
        assert(r3pre.len() < s.len());
        lemma_rt_value(v0, after_v);
        assert(sp_value(r3pre) == Some((v0, after_v)));
        lemma_ws_id(after_v);
        assert(after_v[0] == '}');
        assert(after_v[0] != ',');
        assert(after_v.drop_first() =~= rest);
        assert(seq![(k0, v0)] =~= pairs);
        assert(sp_members(s) == Some((pairs, rest)));
    } else {
        let d = pairs.drop_first();
        assert(members_wf(d));
        assert(d.len() >= 1);
        let after_v = seq![','] + ser_members(d) + seq!['}'] + rest;
        let after_key = seq![':'] + ser_json(v0) + after_v;
        assert(ser_members(pairs) == ser_string(k0) + seq![':'] + ser_json(v0) + seq![',']
            + ser_members(d));
        assert(s =~= seq!['"'] + (ser_str_body(k0) + seq!['"'] + after_key));
        assert(s[0] == '"');
        assert(s.drop_first() =~= ser_str_body(k0) + seq!['"'] + after_key);
        lemma_rt_str_body(k0, after_key);
        assert(sp_str_body(s.drop_first()) == Some((k0, after_key)));
        lemma_ws_id(after_key);
        assert(after_key[0] == ':');
        let r3pre = after_key.drop_first();
        assert(r3pre =~= ser_json(v0) + after_v);
        lemma_ser_starts(v0);
        lemma_ws_id(r3pre);
        assert(r3pre.len() < s.len());
        lemma_rt_value(v0, after_v);
        assert(sp_value(r3pre) == Some((v0, after_v)));
        lemma_ws_id(after_v);
        assert(after_v[0] == ',');
        let u = after_v.drop_first();
        assert(u =~= ser_members(d) + seq!['}'] + rest);
        assert(u[0] == '"');
        lemma_ws_id(u);
        assert(u.len() < s.len());
        lemma_rt_members(d, rest);
        assert(sp_members(u) == Some((d, rest)));
        assert(seq![(k0, v0)] + d =~= pairs);
        assert(sp_members(s) == Some((pairs, rest)));
    }
}

// ---------------------------------------------------------------------------
// Parsing (executable)
// ---------------------------------------------------------------------------
pub proof fn lemma_json_views_push(s: Seq<Json>, e: Json)
    ensures
        json_views(s.push(e)) == json_views(s).push(json_view(e)),
    decreases s.len(),
{
    if s.len() == 0 {
        assert(s.push(e)[0] == e);
        assert(s.push(e).drop_first() =~= Seq::<Json>::empty());
        assert(json_views(Seq::<Json>::empty()) =~= Seq::<JsonVal>::empty());
        assert(json_views(s.push(e)) =~= json_views(s).push(json_view(e)));
    } else {
        assert(s.push(e)[0] == s[0]);
        assert(s.push(e).drop_first() =~= s.drop_first().push(e));
        lemma_json_views_push(s.drop_first(), e);
        assert(json_views(s.push(e)) =~= json_views(s).push(json_view(e)));
    }
}

pub proof fn lemma_pair_views_push(s: Seq<(String, Json)>, k: String, v: Json)
    ensures
        pair_views(s.push((k, v))) == pair_views(s).push((k@, json_view(v))),
    decreases s.len(),
{
    if s.len() == 0 {
        assert(s.push((k, v))[0] == (k, v));
        assert(s.push((k, v)).drop_first() =~= Seq::<(String, Json)>::empty());
        assert(pair_views(Seq::<(String, Json)>::empty()) =~= Seq::<(Seq<char>, JsonVal)>::empty());
        assert(pair_views(s.push((k, v))) =~= pair_views(s).push((k@, json_view(v))));
    } else {
        assert(s.push((k, v))[0] == s[0]);
        assert(s.push((k, v)).drop_first() =~= s.drop_first().push((k, v)));
        lemma_pair_views_push(s.drop_first(), k, v);
        assert(pair_views(s.push((k, v))) =~= pair_views(s).push((k@, json_view(v))));
    }
}

fn exec_json_ws(c: char) -> (r: bool)
    ensures
        r == json_ws(c),
{
    c == ' ' || c == '\t' || c == '\n' || c == '\r'
}

fn exec_is_digit(c: char) -> (r: bool)
    ensures
        r == is_digit(c),
{
    let u = c as u32;
    48 <= u && u <= 57
}

fn exec_hex_val(c: char) -> (r: Option<u32>)
    ensures
        r == hex_val(c),
{
    let u = c as u32;
    if 48 <= u && u <= 57 {
        Some(u - 48)
    } else if 97 <= u && u <= 102 {
        Some(u - 87)
    } else if 65 <= u && u <= 70 {
        Some(u - 55)
    } else {
        None
    }
}

fn exec_control_char(u: u32) -> (c: char)
    requires
        u < 0x20,
    ensures
        c == control_char(u as nat),
{
    if u == 0 {
        '\u{00}'
    } else if u == 1 {
        '\u{01}'
    } else if u == 2 {
        '\u{02}'
    } else if u == 3 {
        '\u{03}'
    } else if u == 4 {
        '\u{04}'
    } else if u == 5 {
        '\u{05}'
    } else if u == 6 {
        '\u{06}'
    } else if u == 7 {
        '\u{07}'
    } else if u == 8 {
        '\u{08}'
    } else if u == 9 {
        '\u{09}'
    } else if u == 10 {
        '\u{0a}'
    } else if u == 11 {
        '\u{0b}'
    } else if u == 12 {
        '\u{0c}'
    } else if u == 13 {
        '\u{0d}'
    } else if u == 14 {
        '\u{0e}'
    } else if u == 15 {
        '\u{0f}'
    } else if u == 16 {
        '\u{10}'
    } else if u == 17 {
        '\u{11}'
    } else if u == 18 {
        '\u{12}'
    } else if u == 19 {
        '\u{13}'
    } else if u == 20 {
        '\u{14}'
    } else if u == 21 {
        '\u{15}'
    } else if u == 22 {
        '\u{16}'
    } else if u == 23 {
        '\u{17}'
    } else if u == 24 {
        '\u{18}'
    } else if u == 25 {
        '\u{19}'
    } else if u == 26 {
        '\u{1a}'
    } else if u == 27 {
        '\u{1b}'
    } else if u == 28 {
        '\u{1c}'
    } else if u == 29 {
        '\u{1d}'
    } else if u == 30 {
        '\u{1e}'
    } else {
        '\u{1f}'
    }
}

fn skip_ws_from(s: &Vec<char>, i: usize) -> (j: usize)
    requires
        i <= s@.len(),
    ensures
        i <= j <= s@.len(),
        ws_trim(s@.skip(i as int)) == s@.skip(j as int),
{
    let mut j = i;
    while j < s.len() && exec_json_ws(s[j])
        invariant
            i <= j <= s@.len(),
            ws_trim(s@.skip(i as int)) == ws_trim(s@.skip(j as int)),
        decreases s@.len() - j,
    {
        proof {
            assert(s@.skip(j as int)[0] == s@[j as int]);
            assert(s@.skip(j as int).drop_first() =~= s@.skip(j + 1 as int));
        }
        j += 1;
    }
    proof {
        if j < s@.len() {
            assert(s@.skip(j as int)[0] == s@[j as int]);
            lemma_ws_id(s@.skip(j as int));
        } else {
            assert(s@.skip(j as int).len() == 0);
            lemma_ws_id(s@.skip(j as int));
        }
    }
    j
}

fn parse_digits(s: &Vec<char>, i: usize, acc: u64) -> (r: Option<(u64, usize)>)
    requires
        i <= s@.len(),
        acc < 1_000_000_000_000_000,
    ensures
        match r {
            Some(p) => i <= p.1 <= s@.len() && p.0 < 1_000_000_000_000_000 && sp_digits(
                s@.skip(i as int),
                acc as nat,
            ) == Some((p.0 as nat, s@.skip(p.1 as int))) && (i < s@.len() && is_digit(
                s@[i as int],
            ) ==> p.1 > i),
            None => sp_digits(s@.skip(i as int), acc as nat) is None,
        },
{
    let mut j = i;
    let mut a = acc;
    loop
        invariant
            i <= j <= s@.len(),
            a < 1_000_000_000_000_000,
            sp_digits(s@.skip(i as int), acc as nat) == sp_digits(s@.skip(j as int), a as nat),
        decreases s@.len() - j,
    {
        if j == s.len() {
            proof {
                assert(s@.skip(j as int).len() == 0);
            }
            return Some((a, j));
        }
        let c = s[j];
        proof {
            assert(s@.skip(j as int)[0] == s@[j as int]);
        }
        if !exec_is_digit(c) {
            return Some((a, j));
        }
        let d: u64 = (c as u32 - 48) as u64;
        assert(d == digit_val(c));
        let next = a * 10 + d;
        if next >= 1_000_000_000_000_000 {
            return None;
        }
        proof {
            assert(s@.skip(j as int).drop_first() =~= s@.skip(j + 1 as int));
        }
        a = next;
        j += 1;
    }
}

fn parse_number(s: &Vec<char>, i: usize) -> (r: Option<(Number, usize)>)
    requires
        i <= s@.len(),
    ensures
        match r {
            Some(p) => i < p.1 <= s@.len() && p.0.wf() && sp_number(s@.skip(i as int)) == Some(
                (p.0, s@.skip(p.1 as int)),
            ),
            None => sp_number(s@.skip(i as int)) is None,
        },
{
    let ghost t0 = s@.skip(i as int);
    if i == s.len() {
        return None;
    }
    proof {
        assert(t0[0] == s@[i as int]);
    }
    let neg = s[i] == '-';
    let i1 = if neg {
        i + 1
    } else {
        i
    };
    let ghost t = if neg {
        t0.drop_first()
    } else {
        t0
    };
    proof {
        assert(t =~= s@.skip(i1 as int));
    }
    if i1 == s.len() {
        return None;
    }
    proof {
        assert(t[0] == s@[i1 as int]);
    }
    if !exec_is_digit(s[i1]) {
        return None;
    }
    match parse_digits(s, i1, 0) {
        None => {
            return None;
        },
        Some((iv, j1)) => {
            proof {
                assert(sp_digits(t, 0) == Some((iv as nat, s@.skip(j1 as int))));
            }
            let ghost r1 = s@.skip(j1 as int);
            let dot = s.len() - j1 > 1 && s[j1] == '.' && exec_is_digit(s[j1 + 1]);
            proof {
                if j1 < s@.len() {
                    assert(r1[0] == s@[j1 as int]);
                }
                if j1 + 1 < s@.len() {
                    assert(r1[1] == s@[j1 + 1 as int]);
                }
                assert(dot == (r1.len() >= 2 && r1[0] == '.' && is_digit(r1[1])));
            }
            if dot {
                proof {
                    assert(r1.drop_first() =~= s@.skip(j1 + 1 as int));
                }
                match parse_digits(s, j1 + 1, iv) {
                    None => {
                        return None;
                    },
                    Some((m, j2)) => {
                        let ghost r2 = s@.skip(j2 as int);
                        let sc = j2 - (j1 + 1);
                        proof {
                            assert(r1.len() - 1 - r2.len() == sc as int);
                        }
                        if 1 <= sc && sc <= 9 {
                            let mantissa: i64 = if neg {
                                -(m as i64)
                            } else {
                                m as i64
                            };
                            let n = Number { mantissa, scale: sc as u32 };
                            proof {
                                if neg {
                                    assert(mantissa == (0 - (m as int)) as i64);
                                }
                                assert(n.wf());
                            }
                            return Some((n, j2));
                        } else {
                            return None;
                        }
                    },
                }
            } else {
                let mantissa: i64 = if neg {
                    -(iv as i64)
                } else {
                    iv as i64
                };
                let n = Number { mantissa, scale: 0 };
                proof {
                    if neg {
                        assert(mantissa == (0 - (iv as int)) as i64);
                    }
                    assert(n.wf());
                }
                return Some((n, j1));
            }
        },
    }
}

fn parse_escape(s: &Vec<char>, i: usize) -> (r: Option<(char, usize)>)
    requires
        i <= s@.len(),
    ensures
        match r {
            Some(p) => i < p.1 <= s@.len() && sp_escape(s@.skip(i as int)) == Some(
                (p.0, s@.skip(p.1 as int)),
            ),
            None => sp_escape(s@.skip(i as int)) is None,
        },
{
    let ghost t = s@.skip(i as int);
    if i == s.len() {
        return None;
    }
    proof {
        assert(t[0] == s@[i as int]);
        assert(t.drop_first() =~= s@.skip(i + 1 as int));
    }
    let c = s[i];
    if c == '"' {
        Some(('"', i + 1))
    } else if c == '\\' {
        Some(('\\', i + 1))
    } else if c == '/' {
        Some(('/', i + 1))
    } else if c == 'b' {
        Some(('\u{08}', i + 1))
    } else if c == 'f' {
        Some(('\u{0c}', i + 1))
    } else if c == 'n' {
        Some(('\n', i + 1))
    } else if c == 'r' {
        Some(('\r', i + 1))
    } else if c == 't' {
        Some(('\t', i + 1))
    } else if c == 'u' && s.len() - i >= 5 {
        proof {
            assert(t.len() >= 5);
            assert(t[1] == s@[i + 1 as int]);
            assert(t[2] == s@[i + 2 as int]);
            assert(t[3] == s@[i + 3 as int]);
            assert(t[4] == s@[i + 4 as int]);
        }
        let h1 = exec_hex_val(s[i + 1]);
        let h2 = exec_hex_val(s[i + 2]);
        let h3 = exec_hex_val(s[i + 3]);
        let h4 = exec_hex_val(s[i + 4]);
        match (h1, h2, h3, h4) {
            (Some(a), Some(b), Some(cc), Some(d)) => {
                let code = a * 4096 + b * 256 + cc * 16 + d;
                if code < 0x20 {
                    proof {
                        assert(t.skip(5) =~= s@.skip(i + 5 as int));
                    }
                    Some((exec_control_char(code), i + 5))
                } else {
                    None
                }
            },
            _ => None,
        }
    } else {
        None
    }
}

spec fn body_rel(orig: Seq<char>, pre: Seq<char>, cur: Seq<char>) -> bool {
    match sp_str_body(cur) {
        None => sp_str_body(orig) is None,
        Some((t, r)) => sp_str_body(orig) == Some((pre + t, r)),
    }
}

proof fn lemma_body_rel_step(orig: Seq<char>, pre: Seq<char>, cur: Seq<char>, c: char, cur2: Seq<
    char,
>)
    requires
        body_rel(orig, pre, cur),
        sp_str_body(cur) == (match sp_str_body(cur2) {
            None => None::<(Seq<char>, Seq<char>)>,
            Some((t, r)) => Some((seq![c] + t, r)),
        }),
    ensures
        body_rel(orig, pre.push(c), cur2),
{
    match sp_str_body(cur2) {
        Some((t, r)) => {
            assert(pre.push(c) + t =~= pre + (seq![c] + t));
        },
        None => {},
    }
}

fn parse_string_body(s: &Vec<char>, i: usize) -> (r: Option<(Vec<char>, usize)>)
    requires
        i <= s@.len(),
    ensures
        match r {
            Some(p) => i < p.1 <= s@.len() && sp_str_body(s@.skip(i as int)) == Some(
                (p.0@, s@.skip(p.1 as int)),
            ),
            None => sp_str_body(s@.skip(i as int)) is None,
        },
{
    let mut out: Vec<char> = Vec::new();
    let mut j = i;
    loop
        invariant
            i <= j <= s@.len(),
            body_rel(s@.skip(i as int), out@, s@.skip(j as int)),
        decreases s@.len() - j,
    {
        let ghost orig = s@.skip(i as int);
        let ghost cur = s@.skip(j as int);
        if j == s.len() {
            proof {
                assert(cur.len() == 0);
            }
            return None;
        }
        proof {
            assert(cur[0] == s@[j as int]);
            assert(cur.drop_first() =~= s@.skip(j + 1 as int));
        }
        let c = s[j];
        if c == '"' {
            proof {
                assert(sp_str_body(cur) == Some((Seq::<char>::empty(), s@.skip(j + 1 as int))));
                assert(out@ + Seq::<char>::empty() =~= out@);
            }
            return Some((out, j + 1));
        } else if c == '\\' {
            match parse_escape(s, j + 1) {
                None => {
                    return None;
                },
                Some((ch, j2)) => {
                    proof {
                        assert(sp_escape(cur.drop_first()) == Some((ch, s@.skip(j2 as int))));
                        assert(s@.skip(j2 as int).len() < cur.len());
                        lemma_body_rel_step(orig, out@, cur, ch, s@.skip(j2 as int));
                    }
                    out.push(ch);
                    j = j2;
                },
            }
        } else if (c as u32) < 0x20 {
            return None;
        } else {
            proof {
                lemma_body_rel_step(orig, out@, cur, c, s@.skip(j + 1 as int));
            }
            out.push(c);
            j += 1;
        }
    }
}

spec fn elems_rel(orig: Seq<char>, pre: Seq<JsonVal>, cur: Seq<char>) -> bool {
    match sp_elems(cur) {
        None => sp_elems(orig) is None,
        Some((vs, r)) => sp_elems(orig) == Some((pre + vs, r)),
    }
}

proof fn lemma_elems_rel_step(
    orig: Seq<char>,
    pre: Seq<JsonVal>,
    cur: Seq<char>,
    v: JsonVal,
    cur2: Seq<char>,
)
    requires
        elems_rel(orig, pre, cur),
        sp_elems(cur) == (match sp_elems(cur2) {
            None => None::<(Seq<JsonVal>, Seq<char>)>,
            Some((vs, r)) => Some((seq![v] + vs, r)),
        }),
    ensures
        elems_rel(orig, pre.push(v), cur2),
{
    match sp_elems(cur2) {
        Some((vs, r)) => {
            assert(pre.push(v) + vs =~= pre + (seq![v] + vs));
        },
        None => {},
    }
}

spec fn members_rel(
    orig: Seq<char>,
    pre: Seq<(Seq<char>, JsonVal)>,
    cur: Seq<char>,
) -> bool {
    match sp_members(cur) {
        None => sp_members(orig) is None,
        Some((ps, r)) => sp_members(orig) == Some((pre + ps, r)),
    }
}

proof fn lemma_members_rel_step(
    orig: Seq<char>,
    pre: Seq<(Seq<char>, JsonVal)>,
    cur: Seq<char>,
    k: Seq<char>,
    v: JsonVal,
    cur2: Seq<char>,
)
    requires
        members_rel(orig, pre, cur),
        sp_members(cur) == (match sp_members(cur2) {
            None => None::<(Seq<(Seq<char>, JsonVal)>, Seq<char>)>,
            Some((ps, r)) => Some((seq![(k, v)] + ps, r)),
        }),
    ensures
        members_rel(orig, pre.push((k, v)), cur2),
{
    match sp_members(cur2) {
        Some((ps, r)) => {
            assert(pre.push((k, v)) + ps =~= pre + (seq![(k, v)] + ps));
        },
        None => {},
    }
}

fn parse_value(s: &Vec<char>, i: usize) -> (r: Option<(Json, usize)>)
    requires
        i <= s@.len(),
    ensures
        match r {
            Some(p) => i < p.1 <= s@.len() && sp_value(s@.skip(i as int)) == Some(
                (p.0@, s@.skip(p.1 as int)),
            ),
            None => sp_value(s@.skip(i as int)) is None,
        },
    decreases s@.len() - i, 0int,
{
    let ghost t = s@.skip(i as int);
    if i == s.len() {
        return None;
    }
    proof {
        assert(t[0] == s@[i as int]);
    }
    let c = s[i];
    if c == 'n' {
        if s.len() - i >= 4 && s[i + 1] == 'u' && s[i + 2] == 'l' && s[i + 3] == 'l' {
            proof {
                assert(t.len() >= 4);
                assert(t[1] == s@[i + 1 as int] && t[2] == s@[i + 2 as int] && t[3] == s@[i
                    + 3 as int]);
                assert(t.skip(4) =~= s@.skip(i + 4 as int));
                assert(json_view(Json::Null) == JsonVal::Null);
            }
            Some((Json::Null, i + 4))
        } else {
            proof {
                if t.len() >= 4 {
                    assert(t[1] == s@[i + 1 as int] && t[2] == s@[i + 2 as int] && t[3] == s@[i
                        + 3 as int]);
                }
            }
            None
        }
    } else if c == 't' {
        if s.len() - i >= 4 && s[i + 1] == 'r' && s[i + 2] == 'u' && s[i + 3] == 'e' {
            proof {
                assert(t.len() >= 4);
                assert(t[1] == s@[i + 1 as int] && t[2] == s@[i + 2 as int] && t[3] == s@[i
                    + 3 as int]);
                assert(t.skip(4) =~= s@.skip(i + 4 as int));
            }
            Some((Json::Bool(true), i + 4))
        } else {
            proof {
                if t.len() >= 4 {
                    assert(t[1] == s@[i + 1 as int] && t[2] == s@[i + 2 as int] && t[3] == s@[i
                        + 3 as int]);
                }
            }
            None
        }
    } else if c == 'f' {
        if s.len() - i >= 5 && s[i + 1] == 'a' && s[i + 2] == 'l' && s[i + 3] == 's' && s[i + 4]
            == 'e' {
            proof {
                assert(t.len() >= 5);
                assert(t[1] == s@[i + 1 as int] && t[2] == s@[i + 2 as int] && t[3] == s@[i
                    + 3 as int] && t[4] == s@[i + 4 as int]);
                assert(t.skip(5) =~= s@.skip(i + 5 as int));
            }
            Some((Json::Bool(false), i + 5))
        } else {
            proof {
                if t.len() >= 5 {
                    assert(t[1] == s@[i + 1 as int] && t[2] == s@[i + 2 as int] && t[3] == s@[i
                        + 3 as int] && t[4] == s@[i + 4 as int]);
                }
            }
            None
        }
    } else if c == '-' || exec_is_digit(c) {
        match parse_number(s, i) {
            None => None,
            Some((n, j)) => Some((Json::Num(n), j)),
        }
    } else if c == '"' {
        proof {
            assert(t.drop_first() =~= s@.skip(i + 1 as int));
        }
        match parse_string_body(s, i + 1) {
            None => None,
            Some((chars, j)) => {
                let st = crate::text::chars_to_string(&chars);
                proof {
                    assert(json_view(Json::Str(st)) == JsonVal::Str(chars@));
                }
                Some((Json::Str(st), j))
            },
        }
    } else if c == '[' {
        proof {
            assert(t.drop_first() =~= s@.skip(i + 1 as int));
        }
        let j1 = skip_ws_from(s, i + 1);
        let ghost r1 = s@.skip(j1 as int);
        if j1 < s.len() && s[j1] == ']' {
            let empty_items: Vec<Json> = Vec::new();
            proof {
                assert(r1[0] == s@[j1 as int]);
                assert(r1.drop_first() =~= s@.skip(j1 + 1 as int));
                assert(empty_items@ =~= Seq::<Json>::empty());
                assert(json_views(empty_items@) =~= Seq::<JsonVal>::empty());
                assert(json_view(Json::Arr(empty_items)) == JsonVal::Arr(Seq::<JsonVal>::empty()));
            }
            Some((Json::Arr(empty_items), j1 + 1))
        } else {
            proof {
                if j1 < s@.len() {
                    assert(r1[0] == s@[j1 as int]);
                }
                assert(r1.len() < t.len());
            }
            match parse_elems(s, j1) {
                None => None,
                Some((items, j2)) => Some((Json::Arr(items), j2)),
            }
        }
    } else if c == '{' {
        proof {
            assert(t.drop_first() =~= s@.skip(i + 1 as int));
        }
        let j1 = skip_ws_from(s, i + 1);
        let ghost r1 = s@.skip(j1 as int);
        if j1 < s.len() && s[j1] == '}' {
            let empty_items: Vec<(String, Json)> = Vec::new();
            proof {
                assert(r1[0] == s@[j1 as int]);
                assert(r1.drop_first() =~= s@.skip(j1 + 1 as int));
                assert(empty_items@ =~= Seq::<(String, Json)>::empty());
                assert(pair_views(empty_items@) =~= Seq::<(Seq<char>, JsonVal)>::empty());
                assert(json_view(Json::Obj(empty_items)) == JsonVal::Obj(
                    Seq::<(Seq<char>, JsonVal)>::empty(),
                ));
            }
            Some((Json::Obj(empty_items), j1 + 1))
        } else {
            proof {
                if j1 < s@.len() {
                    assert(r1[0] == s@[j1 as int]);
                }
                assert(r1.len() < t.len());
            }
            match parse_members(s, j1) {
                None => None,
                Some((items, j2)) => Some((Json::Obj(items), j2)),
            }
        }
    } else {
        None
    }
}

fn parse_elems(s: &Vec<char>, i: usize) -> (r: Option<(Vec<Json>, usize)>)
    requires
        i <= s@.len(),
    ensures
        match r {
            Some(p) => i < p.1 <= s@.len() && sp_elems(s@.skip(i as int)) == Some(
                (json_views(p.0@), s@.skip(p.1 as int)),
            ),
            None => sp_elems(s@.skip(i as int)) is None,
        },
    decreases s@.len() - i, 1int,
{
    let mut items: Vec<Json> = Vec::new();
    let mut j = i;
    proof {
        assert(json_views(Seq::<Json>::empty()) =~= Seq::<JsonVal>::empty());
    }
    loop
        invariant
            i <= j <= s@.len(),
            elems_rel(s@.skip(i as int), json_views(items@), s@.skip(j as int)),
        decreases s@.len() - j,
    {
        let ghost orig = s@.skip(i as int);
        let ghost cur = s@.skip(j as int);
        match parse_value(s, j) {
            None => {
                return None;
            },
            Some((v, j2)) => {
                let ghost vv = v@;
                proof {
                    assert(sp_value(cur) == Some((vv, s@.skip(j2 as int))));
                }
                let j3 = skip_ws_from(s, j2);
                let ghost r2 = s@.skip(j3 as int);
                proof {
                    assert(ws_trim(s@.skip(j2 as int)) == r2);
                }
                if j3 == s.len() {
                    proof {
                        assert(r2.len() == 0);
                    }
                    return None;
                }
                proof {
                    assert(r2[0] == s@[j3 as int]);
                }
                let c = s[j3];
                if c == ',' {
                    proof {
                        assert(r2.drop_first() =~= s@.skip(j3 + 1 as int));
                    }
                    let j4 = skip_ws_from(s, j3 + 1);
                    proof {
                        assert(s@.skip(j4 as int).len() < cur.len());
                        lemma_elems_rel_step(orig, json_views(items@), cur, vv, s@.skip(j4 as int));
                        lemma_json_views_push(items@, v);
                    }
                    items.push(v);
                    j = j4;
                } else if c == ']' {
                    proof {
                        assert(r2.drop_first() =~= s@.skip(j3 + 1 as int));
                        assert(sp_elems(cur) == Some((seq![vv], s@.skip(j3 + 1 as int))));
                        lemma_json_views_push(items@, v);
                        assert(json_views(items@).push(vv) =~= json_views(items@) + seq![vv]);
                        match sp_elems(orig) {
                            Some(p) => {
                                assert(p.0 =~= json_views(items@.push(v)));
                            },
                            None => {},
                        }
                    }
                    items.push(v);
                    return Some((items, j3 + 1));
                } else {
                    return None;
                }
            },
        }
    }
}

fn parse_members(s: &Vec<char>, i: usize) -> (r: Option<(Vec<(String, Json)>, usize)>)
    requires
        i <= s@.len(),
    ensures
        match r {
            Some(p) => i < p.1 <= s@.len() && sp_members(s@.skip(i as int)) == Some(
                (pair_views(p.0@), s@.skip(p.1 as int)),
            ),
            None => sp_members(s@.skip(i as int)) is None,
        },
    decreases s@.len() - i, 1int,
{
    let mut items: Vec<(String, Json)> = Vec::new();
    let mut j = i;
    proof {
        assert(pair_views(Seq::<(String, Json)>::empty()) =~= Seq::<(Seq<char>, JsonVal)>::empty());
    }
    loop
        invariant
            i <= j <= s@.len(),
            members_rel(s@.skip(i as int), pair_views(items@), s@.skip(j as int)),
        decreases s@.len() - j,
    {
        let ghost orig = s@.skip(i as int);
        let ghost cur = s@.skip(j as int);
        if j == s.len() {
            proof {
                assert(cur.len() == 0);
            }
            return None;
        }
        proof {
            assert(cur[0] == s@[j as int]);
            assert(cur.drop_first() =~= s@.skip(j + 1 as int));
        }
        if s[j] != '"' {
            return None;
        }
        match parse_string_body(s, j + 1) {
            None => {
                return None;
            },
            Some((kchars, j2)) => {
                let ghost kv = kchars@;
                let j3 = skip_ws_from(s, j2);
                let ghost r2 = s@.skip(j3 as int);
                if j3 == s.len() {
                    proof {
                        assert(r2.len() == 0);
                    }
                    return None;
                }
                proof {
                    assert(r2[0] == s@[j3 as int]);
                }
                if s[j3] != ':' {
                    return None;
                }
                proof {
                    assert(r2.drop_first() =~= s@.skip(j3 + 1 as int));
                }
                let j4 = skip_ws_from(s, j3 + 1);
                let ghost r3 = s@.skip(j4 as int);
                proof {
                    assert(r3.len() < cur.len());
                }
                match parse_value(s, j4) {
                    None => {
                        return None;
                    },
                    Some((v, j5)) => {
                        let ghost vv = v@;
                        let j6 = skip_ws_from(s, j5);
                        let ghost r5 = s@.skip(j6 as int);
                        if j6 == s.len() {
                            proof {
                                assert(r5.len() == 0);
                            }
                            return None;
                        }
                        proof {
                            assert(r5[0] == s@[j6 as int]);
                        }
                        let c = s[j6];
                        let key = crate::text::chars_to_string(&kchars);
                        if c == ',' {
                            proof {
                                assert(r5.drop_first() =~= s@.skip(j6 + 1 as int));
                            }
                            let j7 = skip_ws_from(s, j6 + 1);
                            proof {
                                assert(s@.skip(j7 as int).len() < cur.len());
                                lemma_members_rel_step(
                                    orig,
                                    pair_views(items@),
                                    cur,
                                    kv,
                                    vv,
                                    s@.skip(j7 as int),
                                );
                                lemma_pair_views_push(items@, key, v);
                            }
                            items.push((key, v));
                            j = j7;
                        } else if c == '}' {
                            proof {
                                assert(r5.drop_first() =~= s@.skip(j6 + 1 as int));
                                assert(sp_members(cur) == Some(
                                    (seq![(kv, vv)], s@.skip(j6 + 1 as int)),
                                ));
                                lemma_pair_views_push(items@, key, v);
                                assert(pair_views(items@).push((kv, vv)) =~= pair_views(items@)
                                    + seq![(kv, vv)]);
                                match sp_members(orig) {
                                    Some(p) => {
                                        assert(p.0 =~= pair_views(items@.push((key, v))));
                                    },
                                    None => {},
                                }
                            }
                            items.push((key, v));
                            return Some((items, j6 + 1));
                        } else {
                            return None;
                        }
                    },
                }
            },
        }
    }
}

/// Parses a complete JSON text.
pub fn from_text(s: &str) -> (r: Option<Json>)
    ensures
        match r {
            Some(j) => sp_json(s@) == Some(j@),
            None => sp_json(s@) is None,
        },
{
    let chars = crate::text::str_to_chars(s);
    proof {
        assert(chars@.skip(0) =~= s@);
    }
    let i0 = skip_ws_from(&chars, 0);
    match parse_value(&chars, i0) {
        None => None,
        Some((v, j)) => {
            let j2 = skip_ws_from(&chars, j);
            if j2 == chars.len() {
                proof {
                    assert(ws_trim(chars@.skip(j as int)).len() == 0);
                }
                Some(v)
            } else {
                proof {
                    assert(ws_trim(chars@.skip(j as int)).len() > 0);
                }
                None
            }
        },
    }
}

/// Parsing the serialization of any well-formed document yields the document
/// back: the serializer and parser form an exact round trip.
pub proof fn lemma_json_round_trip(j: JsonVal)
    requires
        j.wf(),
    ensures
        sp_json(ser_json(j)) == Some(j),
{
    lemma_ser_starts(j);
    lemma_ws_id(ser_json(j));
    assert(ser_json(j) + Seq::<char>::empty() =~= ser_json(j));
    lemma_rt_value(j, Seq::empty());
    assert(sp_value(ws_trim(ser_json(j))) == Some((j, Seq::<char>::empty())));
    assert(ws_trim(Seq::<char>::empty()).len() == 0);
}

} // verus!
