//! Query-string encoders shared by every endpoint: decimal rendering of
//! the scalar parameter types, the indexed list encoder and the
//! optional-argument encoder.

use vstd::prelude::*;

verus! {

/// The decimal digit character for `d`; meaningful for `0 <= d <= 9`.
pub open spec fn spec_digit(d: int) -> char {
    if d == 0 {
        '0'
    } else if d == 1 {
        '1'
    } else if d == 2 {
        '2'
    } else if d == 3 {
        '3'
    } else if d == 4 {
        '4'
    } else if d == 5 {
        '5'
    } else if d == 6 {
        '6'
    } else if d == 7 {
        '7'
    } else if d == 8 {
        '8'
    } else {
        '9'
    }
}

/// The decimal rendering of a non-negative integer, most significant
/// digit first; a lone `0` for zero.
pub open spec fn spec_dec(n: int) -> Seq<char>
    decreases n,
{
    if n < 10 {
        seq![spec_digit(n)]
    } else {
        spec_dec(n / 10).push(spec_digit(n % 10))
    }
}

/// The decimal rendering of a signed integer: a minus sign before the
/// digits when the value is negative.
pub open spec fn spec_dec_signed(n: int) -> Seq<char> {
    if n < 0 {
        seq!['-'] + spec_dec(-n)
    } else {
        spec_dec(n)
    }
}

/// The textual form of a boolean, as the query string carries it.
pub open spec fn spec_bool(b: bool) -> Seq<char> {
    if b {
        "true"@
    } else {
        "false"@
    }
}

/// The one-character string for the decimal digit `d`.
fn digit_str(d: u64) -> (r: &'static str)
    requires
        d < 10,
    ensures
        r@ == seq![spec_digit(d as int)],
{
    proof {
        reveal_strlit("0");
        reveal_strlit("1");
        reveal_strlit("2");
        reveal_strlit("3");
        reveal_strlit("4");
        reveal_strlit("5");
        reveal_strlit("6");
        reveal_strlit("7");
        reveal_strlit("8");
        reveal_strlit("9");
    }
    if d == 0 {
        assert("0"@ =~= seq![spec_digit(0int)]);
        "0"
    } else if d == 1 {
        assert("1"@ =~= seq![spec_digit(1int)]);
        "1"
    } else if d == 2 {
        assert("2"@ =~= seq![spec_digit(2int)]);
        "2"
    } else if d == 3 {
        assert("3"@ =~= seq![spec_digit(3int)]);
        "3"
    } else if d == 4 {
        assert("4"@ =~= seq![spec_digit(4int)]);
        "4"
    } else if d == 5 {
        assert("5"@ =~= seq![spec_digit(5int)]);
        "5"
    } else if d == 6 {
        assert("6"@ =~= seq![spec_digit(6int)]);
        "6"
    } else if d == 7 {
        assert("7"@ =~= seq![spec_digit(7int)]);
        "7"
    } else if d == 8 {
        assert("8"@ =~= seq![spec_digit(8int)]);
        "8"
    } else {
        assert("9"@ =~= seq![spec_digit(9int)]);
        "9"
    }
}

/// Renders `n` in decimal, exactly as the query string carries it.
pub fn u64_to_string(n: u64) -> (r: String)
    ensures
        r@ == spec_dec(n as int),
    decreases n,
{
    if n < 10 {
        digit_str(n).to_owned()
    } else {
        let mut s = u64_to_string(n / 10);
        s.append(digit_str(n % 10));
        proof {
            assert(s@ =~= spec_dec(n as int));
        }
        s
    }
}

/// Renders `n` in decimal.
pub fn u32_to_string(n: u32) -> (r: String)
    ensures
        r@ == spec_dec(n as int),
{
    u64_to_string(n as u64)
}

/// Renders `n` in decimal, with a minus sign when negative.
pub fn i32_to_string(n: i32) -> (r: String)
    ensures
        r@ == spec_dec_signed(n as int),
{
    if n >= 0 {
        u64_to_string(n as u64)
    } else {
        let m: u64 = (-(n as i64)) as u64;
        assert(m as int == -(n as int));
        let mut s = "-".to_owned();
        let digits = u64_to_string(m);
        s.append(digits.as_str());
        proof {
            reveal_strlit("-");
            assert(s@ =~= spec_dec_signed(n as int));
        }
        s
    }
}

/// Renders a boolean as `true` or `false`.
pub fn bool_to_string(b: bool) -> (r: &'static str)
    ensures
        r@ == spec_bool(b),
{
    if b {
        "true"
    } else {
        "false"
    }
}

/// One indexed fragment of the list encoder: `name[i]=value`.
pub open spec fn spec_fragment(name: Seq<char>, i: int, value: Seq<char>) -> Seq<char> {
    name + "["@ + spec_dec(i) + "]="@ + value
}

/// The fragments of the list encoder: one per element, indexed by
/// position, in input order.
pub open spec fn spec_fragments(name: Seq<char>, values: Seq<Seq<char>>) -> Seq<Seq<char>> {
    Seq::new(values.len(), |i: int| spec_fragment(name, i, values[i]))
}

/// Joins parts with `&`; an empty input gives the empty string.
pub open spec fn spec_join_amp(parts: Seq<Seq<char>>) -> Seq<char>
    decreases parts.len(),
{
    if parts.len() == 0 {
        Seq::empty()
    } else if parts.len() == 1 {
        parts[0]
    } else {
        spec_join_amp(parts.drop_last()) + "&"@ + parts.last()
    }
}

/// What the list encoder returns: `name[0]=v0&name[1]=v1&...`.
pub open spec fn spec_url_encode(name: Seq<char>, values: Seq<Seq<char>>) -> Seq<char> {
    spec_join_amp(spec_fragments(name, values))
}

/// The list encoder, for an input of length `n`, produces exactly `n`
/// indexed fragments, one per element in input order, joined by `&`;
/// an empty input produces the empty string.
pub proof fn lemma_list_encoder_shape(name: Seq<char>, values: Seq<Seq<char>>)
    ensures
        spec_fragments(name, values).len() == values.len(),
        forall|i: int|
            0 <= i < values.len() ==> spec_fragments(name, values)[i] == spec_fragment(
                name,
                i,
                values[i],
            ),
        values.len() == 0 ==> spec_url_encode(name, values) == Seq::<char>::empty(),
{
}

/// Extending the joined prefix by one part appends `&` and that part
/// (or is that part alone, for the first).
proof fn lemma_join_amp_take_succ(parts: Seq<Seq<char>>, i: int)
    requires
        0 <= i < parts.len(),
    ensures
        i == 0 ==> spec_join_amp(parts.take(1)) == parts[0],
        i >= 1 ==> spec_join_amp(parts.take(i + 1)) == spec_join_amp(parts.take(i)) + "&"@
            + parts[i],
{
    if i == 0 {
        assert(parts.take(1).len() == 1);
        assert(parts.take(1)[0] == parts[0]);
    } else {
        assert(parts.take(i + 1).drop_last() =~= parts.take(i));
        assert(parts.take(i + 1).last() == parts[i]);
    }
}

/// Renders an ordered list as repeated indexed query parameters,
/// `name[0]=v0&name[1]=v1`, preserving input order and writing
/// zero-based positional indices; an empty list renders as the empty
/// string.
pub fn url_encode(name: &str, list: &Vec<String>) -> (r: String)
    ensures
        r@ == spec_url_encode(name@, list.deep_view()),
{
    let ghost frags = spec_fragments(name@, list.deep_view());
    let mut out = String::new();
    let mut i: usize = 0;
    while i < list.len()
        invariant
            i <= list.len(),
            list.deep_view().len() == list@.len(),
            frags == spec_fragments(name@, list.deep_view()),
            out@ == spec_join_amp(frags.take(i as int)),
        decreases list@.len() - i,
    {
        if i > 0 {
            out.append("&");
        }
        out.append(name);
        out.append("[");
        let idx = u64_to_string(i as u64);
        out.append(idx.as_str());
        out.append("]=");
        out.append(list[i].as_str());
        proof {
            lemma_join_amp_take_succ(frags, i as int);
            assert(list.deep_view()[i as int] == list@[i as int]@);
            assert(out@ =~= spec_join_amp(frags.take(i as int + 1)));
        }
        i = i + 1;
    }
    proof {
        assert(frags.take(list@.len() as int) =~= frags);
    }
    out
}

/// What the optional-argument encoder returns: the empty string for an
/// absent value, a single `&name=value` fragment for a present one.
pub open spec fn spec_optional(name: Seq<char>, value: Option<Seq<char>>) -> Seq<char> {
    match value {
        Option::None => Seq::empty(),
        Option::Some(v) => "&"@ + name + "="@ + v,
    }
}

/// Renders an optional, already-rendered value under `name`: nothing
/// when absent, `&name=value` when present.
pub fn optional_argument(name: &str, value: &Option<String>) -> (r: String)
    ensures
        r@ == spec_optional(name@, value.deep_view()),
{
    match value {
        Option::None => String::new(),
        Option::Some(v) => {
            let mut out = String::new();
            out.append("&");
            out.append(name);
            out.append("=");
            out.append(v.as_str());
            proof {
                assert(out@ =~= spec_optional(name@, value.deep_view()));
            }
            out
        },
    }
}

/// Renders an optional signed integer under `name`.
pub fn optional_argument_i32(name: &str, value: Option<i32>) -> (r: String)
    ensures
        r@ == spec_optional(
            name@,
            match value {
                Option::Some(n) => Option::Some(spec_dec_signed(n as int)),
                Option::None => Option::<Seq<char>>::None,
            },
        ),
{
    match value {
        Option::None => String::new(),
        Option::Some(n) => {
            let rendered = i32_to_string(n);
            optional_argument(name, &Some(rendered))
        },
    }
}

/// Renders an optional unsigned integer under `name`.
pub fn optional_argument_u32(name: &str, value: Option<u32>) -> (r: String)
    ensures
        r@ == spec_optional(
            name@,
            match value {
                Option::Some(n) => Option::Some(spec_dec(n as int)),
                Option::None => Option::<Seq<char>>::None,
            },
        ),
{
    match value {
        Option::None => String::new(),
        Option::Some(n) => {
            let rendered = u32_to_string(n);
            optional_argument(name, &Some(rendered))
        },
    }
}

/// Renders an optional boolean under `name`.
pub fn optional_argument_bool(name: &str, value: Option<bool>) -> (r: String)
    ensures
        r@ == spec_optional(
            name@,
            match value {
                Option::Some(b) => Option::Some(spec_bool(b)),
                Option::None => Option::<Seq<char>>::None,
            },
        ),
{
    match value {
        Option::None => String::new(),
        Option::Some(b) => {
            let rendered = bool_to_string(b).to_owned();
            optional_argument(name, &Some(rendered))
        },
    }
}

} // verus!
