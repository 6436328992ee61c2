//! Rendering primitives shared by the whole grammar: the `Render` trait,
//! joining, decimal and hexadecimal digits.
use vstd::prelude::*;
use vstd::string::StringExecFns;

verus! {

/// A grammar value with a canonical protocol text.
///
/// Rendering is a pure, total function of the value: it cannot fail for any
/// constructible value.
pub trait Render {
    /// The canonical protocol text of this value.
    spec fn spec_render(&self) -> Seq<char>;

    /// Renders this value to its protocol text.
    fn render(&self) -> (r: String)
        ensures
            r@ == self.spec_render(),
    ;
}

/// Joins the given parts with the separator between each pair of neighbours:
/// no leading, trailing or doubled separator, and empty for no parts.
pub open spec fn spec_join(parts: Seq<Seq<char>>, sep: Seq<char>) -> Seq<char>
    decreases parts.len(),
{
    if parts.len() == 0 {
        Seq::empty()
    } else if parts.len() == 1 {
        parts[0]
    } else {
        spec_join(parts.drop_last(), sep) + sep + parts.last()
    }
}

/// Appending one more part extends the joined text by a separator (when the
/// list was non-empty) and the new part.
pub proof fn lemma_join_push(parts: Seq<Seq<char>>, sep: Seq<char>, part: Seq<char>)
    ensures
        parts.len() == 0 ==> spec_join(parts.push(part), sep) == part,
        parts.len() > 0 ==> spec_join(parts.push(part), sep) == spec_join(parts, sep) + sep
            + part,
{
    let pushed = parts.push(part);
    assert(pushed.drop_last() =~= parts);
    assert(pushed.last() == part);
}

/// The renders of a sequence of values, element by element.
pub open spec fn spec_renders<T: Render>(values: Seq<T>) -> Seq<Seq<char>> {
    values.map(|i: int, v: T| v.spec_render())
}

pub proof fn lemma_renders_push<T: Render>(values: Seq<T>, v: T)
    ensures
        spec_renders(values.push(v)) == spec_renders(values).push(v.spec_render()),
{
    assert(spec_renders(values.push(v)) =~= spec_renders(values).push(v.spec_render()));
}

/// The render of an optional value: absent values render as the empty string.
pub open spec fn spec_opt_render<T: Render>(value: Option<T>) -> Seq<char> {
    match value {
        Option::Some(v) => v.spec_render(),
        Option::None => Seq::empty(),
    }
}

/// Renders an optional value, or the empty string when it is absent.
pub fn to_string_or_empty<T: Render>(value: &Option<T>) -> (r: String)
    ensures
        r@ == spec_opt_render(*value),
{
    match value {
        Option::Some(v) => v.render(),
        Option::None => String::new(),
    }
}

pub open spec fn spec_when(condition: bool, text: Seq<char>) -> Seq<char> {
    if condition {
        text
    } else {
        Seq::empty()
    }
}

/// The given text when the condition holds, the empty string otherwise.
pub fn when<'a>(condition: bool, text: &'a str) -> (r: &'a str)
    ensures
        r@ == spec_when(condition, text@),
{
    if condition {
        text
    } else {
        let r = "";
        proof {
            reveal_strlit("");
            assert(r@ =~= Seq::<char>::empty());
        }
        r
    }
}

/// Renders every element and joins the renders with the separator.
pub fn separated<T: Render>(values: &Vec<T>, sep: &str) -> (r: String)
    ensures
        r@ == spec_join(spec_renders(values@), sep@),
{
    let mut r = String::new();
    let mut i: usize = 0;
    while i < values.len()
        invariant
            i <= values.len(),
            r@ == spec_join(spec_renders(values@.take(i as int)), sep@),
        decreases values.len() - i,
    {
        if i > 0 {
            r.append(sep);
        }
        r.append(values[i].render().as_str());
        proof {
            let prefix = values@.take(i as int);
            assert(prefix.push(values@[i as int]) =~= values@.take(i + 1));
            lemma_renders_push(prefix, values@[i as int]);
            lemma_join_push(spec_renders(prefix), sep@, values@[i as int].spec_render());
        }
        i = i + 1;
    }
    proof {
        assert(values@.take(values@.len() as int) =~= values@);
    }
    r
}

pub open spec fn spec_digit(d: nat) -> Seq<char> {
    if d == 0 {
        "0"@
    } else if d == 1 {
        "1"@
    } else if d == 2 {
        "2"@
    } else if d == 3 {
        "3"@
    } else if d == 4 {
        "4"@
    } else if d == 5 {
        "5"@
    } else if d == 6 {
        "6"@
    } else if d == 7 {
        "7"@
    } else if d == 8 {
        "8"@
    } else {
        "9"@
    }
}

/// The decimal digits of a number, most significant first, no sign and no
/// leading zero (except for the number zero itself).
pub open spec fn spec_dec(n: nat) -> Seq<char>
    decreases n,
{
    if n < 10 {
        spec_digit(n)
    } else {
        spec_dec(n / 10) + spec_digit(n % 10)
    }
}

fn digit_str(d: u32) -> (r: &'static str)
    requires
        d < 10,
    ensures
        r@ == spec_digit(d as nat),
{
    if d == 0 {
        "0"
    } else if d == 1 {
        "1"
    } else if d == 2 {
        "2"
    } else if d == 3 {
        "3"
    } else if d == 4 {
        "4"
    } else if d == 5 {
        "5"
    } else if d == 6 {
        "6"
    } else if d == 7 {
        "7"
    } else if d == 8 {
        "8"
    } else {
        "9"
    }
}

/// Renders a number in decimal.
pub fn render_u32(n: u32) -> (r: String)
    ensures
        r@ == spec_dec(n as nat),
    decreases n,
{
    if n < 10 {
        digit_str(n).to_owned()
    } else {
        let mut r = render_u32(n / 10);
        r.append(digit_str(n % 10));
        r
    }
}

/// The decimal text of a signed number: a minus sign for negative values,
/// then the digits of the magnitude.
pub open spec fn spec_dec_signed(n: int) -> Seq<char> {
    if n < 0 {
        "-"@ + spec_dec((-n) as nat)
    } else {
        spec_dec(n as nat)
    }
}

/// Renders a signed number in decimal.
pub fn render_i32(n: i32) -> (r: String)
    ensures
        r@ == spec_dec_signed(n as int),
{
    if n >= 0 {
        render_u32(n as u32)
    } else {
        let magnitude: u32 = (-(n as i64)) as u32;
        let mut r = "-".to_owned();
        r.append(render_u32(magnitude).as_str());
        r
    }
}

pub open spec fn spec_hex_digit(d: nat) -> Seq<char> {
    if d < 10 {
        spec_digit(d)
    } else if d == 10 {
        "A"@
    } else if d == 11 {
        "B"@
    } else if d == 12 {
        "C"@
    } else if d == 13 {
        "D"@
    } else if d == 14 {
        "E"@
    } else {
        "F"@
    }
}

/// The fixed-width hexadecimal form of one byte: always two uppercase
/// digits, leading zero included.
pub open spec fn spec_hex_byte(b: nat) -> Seq<char> {
    spec_hex_digit(b / 16) + spec_hex_digit(b % 16)
}

fn hex_digit_str(d: u8) -> (r: &'static str)
    requires
        d < 16,
    ensures
        r@ == spec_hex_digit(d as nat),
{
    if d < 10 {
        digit_str(d as u32)
    } else if d == 10 {
        "A"
    } else if d == 11 {
        "B"
    } else if d == 12 {
        "C"
    } else if d == 13 {
        "D"
    } else if d == 14 {
        "E"
    } else {
        "F"
    }
}

/// Renders one byte as two uppercase hexadecimal digits.
pub fn render_hex_byte(b: u8) -> (r: String)
    ensures
        r@ == spec_hex_byte(b as nat),
{
    let mut r = hex_digit_str(b / 16).to_owned();
    r.append(hex_digit_str(b % 16));
    r
}

/// Relies on std's String::pop: removes and returns the last character, or
/// returns None and leaves the string unchanged when it is empty.
#[verifier::external_body]
pub(crate) fn string_pop(s: &mut String) -> (r: Option<char>)
    ensures
        old(s)@.len() == 0 ==> final(s)@ == old(s)@ && r is None,
        old(s)@.len() > 0 ==> final(s)@ == old(s)@.drop_last() && r == Some(old(s)@.last()),
{
    s.pop()
}

/// Relies on std's String::push: appends one character at the end.
#[verifier::external_body]
pub(crate) fn string_push(s: &mut String, c: char)
    ensures
        final(s)@ == old(s)@.push(c),
{
    s.push(c)
}

/// Concatenates two pieces of text.
pub(crate) fn cat2(a: &str, b: &str) -> (r: String)
    ensures
        r@ == a@ + b@,
{
    let mut r = a.to_owned();
    r.append(b);
    r
}

/// Concatenates three pieces of text.
pub(crate) fn cat3(a: &str, b: &str, c: &str) -> (r: String)
    ensures
        r@ == a@ + b@ + c@,
{
    let mut r = a.to_owned();
    r.append(b);
    r.append(c);
    r
}

/// Concatenates four pieces of text.
pub(crate) fn cat4(a: &str, b: &str, c: &str, d: &str) -> (r: String)
    ensures
        r@ == a@ + b@ + c@ + d@,
{
    let mut r = a.to_owned();
    r.append(b);
    r.append(c);
    r.append(d);
    r
}

/// Concatenates six pieces of text.
pub(crate) fn cat6(a: &str, b: &str, c: &str, d: &str, e: &str, f: &str) -> (r: String)
    ensures
        r@ == a@ + b@ + c@ + d@ + e@ + f@,
{
    let mut r = a.to_owned();
    r.append(b);
    r.append(c);
    r.append(d);
    r.append(e);
    r.append(f);
    r
}

impl Render for u32 {
    open spec fn spec_render(&self) -> Seq<char> {
        spec_dec(*self as nat)
    }

    fn render(&self) -> (r: String) {
        render_u32(*self)
    }
}

impl Render for i32 {
    open spec fn spec_render(&self) -> Seq<char> {
        spec_dec_signed(*self as int)
    }

    fn render(&self) -> (r: String) {
        render_i32(*self)
    }
}

impl Render for String {
    open spec fn spec_render(&self) -> Seq<char> {
        self@
    }

    fn render(&self) -> (r: String) {
        self.clone()
    }
}

} // verus!
