//! JSON rendering of the response bodies: strings, products, and markets.
//!
//! The wire format is fixed here rather than delegated to an encoding
//! library: objects list their fields in declaration order, strings escape
//! the quote, the backslash and every control character, and everything is
//! a pure function of the encoded value, so one input has exactly one
//! rendering.

use vstd::prelude::*;
use vstd::string::StringExecFns;

use crate::product::MarketView;
use crate::product::Product;
use crate::product::ProductView;

verus! {

broadcast use {crate::seqfacts::seq_add_assoc, crate::seqfacts::seq_add_empty_left, crate::seqfacts::seq_add_empty_right, crate::seqfacts::seq_push_as_add};

/// Relies on std's `String::push`: appends the given character to the end
/// of the string.
#[verifier::external_body]
pub(crate) fn push_char(out: &mut String, c: char)
    ensures
        final(out)@ == old(out)@.push(c),
{
    out.push(c);
}

/// The lowercase hexadecimal digit of a value below sixteen.
pub open spec fn hex_digit(n: int) -> char {
    if n == 0 {
        '0'
    } else if n == 1 {
        '1'
    } else if n == 2 {
        '2'
    } else if n == 3 {
        '3'
    } else if n == 4 {
        '4'
    } else if n == 5 {
        '5'
    } else if n == 6 {
        '6'
    } else if n == 7 {
        '7'
    } else if n == 8 {
        '8'
    } else if n == 9 {
        '9'
    } else if n == 10 {
        'a'
    } else if n == 11 {
        'b'
    } else if n == 12 {
        'c'
    } else if n == 13 {
        'd'
    } else if n == 14 {
        'e'
    } else {
        'f'
    }
}

fn hex_digit_char(n: u32) -> (c: char)
    requires
        n < 16,
    ensures
        c == hex_digit(n as int),
{
    match n {
        0 => '0',
        1 => '1',
        2 => '2',
        3 => '3',
        4 => '4',
        5 => '5',
        6 => '6',
        7 => '7',
        8 => '8',
        9 => '9',
        10 => 'a',
        11 => 'b',
        12 => 'c',
        13 => 'd',
        14 => 'e',
        _ => 'f',
    }
}

/// How one character is written inside a JSON string: the quote, the
/// backslash and the named control characters get two-character escapes,
/// every other control character a `\u00..` escape, and everything else
/// stands for itself.
pub open spec fn json_escape_char(c: char) -> Seq<char> {
    if c == '"' {
        "\\\""@
    } else if c == '\\' {
        "\\\\"@
    } else if c == '\u{8}' {
        "\\b"@
    } else if c == '\u{c}' {
        "\\f"@
    } else if c == '\n' {
        "\\n"@
    } else if c == '\r' {
        "\\r"@
    } else if c == '\t' {
        "\\t"@
    } else if (c as u32) < 32 {
        "\\u00"@.push(hex_digit((c as u32) as int / 16)).push(hex_digit((c as u32) as int % 16))
    } else {
        Seq::<char>::empty().push(c)
    }
}

/// A whole character sequence written inside a JSON string.
pub open spec fn json_escaped(s: Seq<char>) -> Seq<char>
    decreases s.len(),
{
    if s.len() == 0 {
        Seq::<char>::empty()
    } else {
        json_escaped(s.drop_last()) + json_escape_char(s.last())
    }
}

/// A JSON string: a quote, the escaped characters, a quote.
pub open spec fn json_str(s: Seq<char>) -> Seq<char> {
    "\""@ + json_escaped(s) + "\""@
}

#[verifier::spinoff_prover]
#[verifier::rlimit(50)]
fn append_escaped(out: &mut String, s: &str)
    ensures
        final(out)@ == old(out)@ + json_escaped(s@),
{
    let n = s.unicode_len();
    let mut i: usize = 0;
    while i < n
        invariant
            n == s@.len(),
            i <= n,
            out@ == old(out)@ + json_escaped(s@.take(i as int)),
        decreases n - i,
    {
        let c = s.get_char(i);
        if c == '"' {
            out.append("\\\"");
        } else if c == '\\' {
            out.append("\\\\");
        } else if c == '\u{8}' {
            out.append("\\b");
        } else if c == '\u{c}' {
            out.append("\\f");
        } else if c == '\n' {
            out.append("\\n");
        } else if c == '\r' {
            out.append("\\r");
        } else if c == '\t' {
            out.append("\\t");
        } else if (c as u32) < 32 {
            out.append("\\u00");
            let code: u32 = c as u32;
            let hi = hex_digit_char(code / 16);
            let lo = hex_digit_char(code % 16);
            push_char(out, hi);
            push_char(out, lo);
        } else {
            push_char(out, c);
        }
        proof {
            let post = s@.take(i + 1 as int);
            assert(post.drop_last() =~= s@.take(i as int));
            assert(post.last() == s@[i as int]);
        }
        i = i + 1;
    }
    proof {
        assert(s@.take(n as int) =~= s@);
    }
}

fn append_json_str(out: &mut String, s: &str)
    ensures
        final(out)@ == old(out)@ + json_str(s@),
{
    out.append("\"");
    append_escaped(out, s);
    out.append("\"");
}

/// A single value as a JSON string.
pub fn encode_json_str(s: &str) -> (r: String)
    ensures
        r@ == json_str(s@),
{
    let mut out = String::new();
    append_json_str(&mut out, s);
    out
}

/// Already-rendered elements joined with commas.
pub open spec fn comma_joined(items: Seq<Seq<char>>) -> Seq<char>
    decreases items.len(),
{
    if items.len() == 0 {
        Seq::<char>::empty()
    } else if items.len() == 1 {
        items[0]
    } else {
        comma_joined(items.drop_last()) + ","@ + items.last()
    }
}

/// A product rendered as one JSON object, fields in declaration order.
pub open spec fn product_json(p: ProductView) -> Seq<char> {
    "{\"id\":"@ + json_str(p.id) + ",\"name\":"@ + json_str(p.name) + ",\"typ\":"@ + json_str(
        p.typ,
    ) + ",\"country\":"@ + json_str(p.country) + ",\"unit\":"@ + json_str(p.unit) + ",\"price\":"@
        + json_str(p.price) + ",\"metric\":"@ + json_str(p.metric) + ",\"image_url\":"@ + json_str(
        p.image_url,
    ) + ",\"url\":"@ + json_str(p.url) + ",\"department\":"@ + json_str(p.department)
        + ",\"category\":"@ + json_str(p.category) + ",\"subcategory\":"@ + json_str(p.subcategory)
        + ",\"department_url\":"@ + json_str(p.department_url) + ",\"category_url\":"@ + json_str(
        p.category_url,
    ) + ",\"subcategory_url\":"@ + json_str(p.subcategory_url) + ",\"created_at\":"@ + json_str(
        p.created_at,
    ) + ",\"updated_at\":"@ + json_str(p.updated_at) + "}"@
}

/// A single product as a JSON object.
#[verifier::rlimit(50)]
pub fn encode_product(p: &Product) -> (r: String)
    ensures
        r@ == product_json(p@),
{
    let mut out = String::new();
    out.append("{\"id\":");
    append_json_str(&mut out, p.id.as_str());
    out.append(",\"name\":");
    append_json_str(&mut out, p.name.as_str());
    out.append(",\"typ\":");
    append_json_str(&mut out, p.typ.as_str());
    out.append(",\"country\":");
    append_json_str(&mut out, p.country.as_str());
    out.append(",\"unit\":");
    append_json_str(&mut out, p.unit.as_str());
    out.append(",\"price\":");
    append_json_str(&mut out, p.price.as_str());
    out.append(",\"metric\":");
    append_json_str(&mut out, p.metric.as_str());
    out.append(",\"image_url\":");
    append_json_str(&mut out, p.image_url.as_str());
    out.append(",\"url\":");
    append_json_str(&mut out, p.url.as_str());
    out.append(",\"department\":");
    append_json_str(&mut out, p.department.as_str());
    out.append(",\"category\":");
    append_json_str(&mut out, p.category.as_str());
    out.append(",\"subcategory\":");
    append_json_str(&mut out, p.subcategory.as_str());
    out.append(",\"department_url\":");
    append_json_str(&mut out, p.department_url.as_str());
    out.append(",\"category_url\":");
    append_json_str(&mut out, p.category_url.as_str());
    out.append(",\"subcategory_url\":");
    append_json_str(&mut out, p.subcategory_url.as_str());
    out.append(",\"created_at\":");
    append_json_str(&mut out, p.created_at.as_str());
    out.append(",\"updated_at\":");
    append_json_str(&mut out, p.updated_at.as_str());
    out.append("}");
    out
}

/// One product per element, separated by commas.
pub open spec fn products_json(ps: Seq<ProductView>) -> Seq<char> {
    comma_joined(ps.map_values(|p: ProductView| product_json(p)))
}

/// A JSON array of products.
pub open spec fn products_array_json(ps: Seq<ProductView>) -> Seq<char> {
    "["@ + products_json(ps) + "]"@
}

/// One JSON string per element, separated by commas.
pub open spec fn strings_json(items: Seq<Seq<char>>) -> Seq<char> {
    comma_joined(items.map_values(|s: Seq<char>| json_str(s)))
}

/// A JSON array of strings.
pub open spec fn strings_array_json(items: Seq<Seq<char>>) -> Seq<char> {
    "["@ + strings_json(items) + "]"@
}

/// A market rendered as one JSON object: its country and its products.
pub open spec fn market_json(m: MarketView) -> Seq<char> {
    "{\"country\":"@ + json_str(m.country) + ",\"products\":"@ + products_array_json(m.products)
        + "}"@
}

/// One market per element, separated by commas.
pub open spec fn markets_json(ms: Seq<MarketView>) -> Seq<char> {
    comma_joined(ms.map_values(|m: MarketView| market_json(m)))
}

/// A JSON array of markets.
pub open spec fn markets_array_json(ms: Seq<MarketView>) -> Seq<char> {
    "["@ + markets_json(ms) + "]"@
}

} // verus!
