//! Structured parameter values and their textual rendering.
//!
//! An RPC call carries its parameters as a structured value. The interception
//! layer never interprets parameters; it only renders them into the call's
//! description. The rendering is specified exactly by [`spec_render`].

use vstd::prelude::*;

verus! {

/// A structured value, in the shapes an RPC call's parameters can take.
#[derive(Debug, PartialEq, Eq)]
pub enum JsonValue {
    Null,
    Bool(bool),
    Int(i64),
    Str(String),
    Array(Vec<JsonValue>),
    Object(Vec<(String, JsonValue)>),
}

/// The mathematical model of a [`JsonValue`].
pub enum JsonView {
    Null,
    Bool(bool),
    Int(int),
    Str(Seq<char>),
    Array(Seq<JsonView>),
    Object(Seq<(Seq<char>, JsonView)>),
}

pub open spec fn view_of(v: JsonValue) -> JsonView
    decreases v,
{
    match v {
        JsonValue::Null => JsonView::Null,
        JsonValue::Bool(b) => JsonView::Bool(b),
        JsonValue::Int(i) => JsonView::Int(i as int),
        JsonValue::Str(s) => JsonView::Str(s@),
        JsonValue::Array(elems) => JsonView::Array(view_of_list(elems@)),
        JsonValue::Object(entries) => JsonView::Object(view_of_entries(entries@)),
    }
}

pub open spec fn view_of_list(elems: Seq<JsonValue>) -> Seq<JsonView>
    decreases elems,
{
    if elems.len() == 0 {
        Seq::empty()
    } else {
        seq![view_of(elems[0])] + view_of_list(elems.drop_first())
    }
}

pub open spec fn view_of_entries(entries: Seq<(String, JsonValue)>) -> Seq<(Seq<char>, JsonView)>
    decreases entries,
{
    if entries.len() == 0 {
        Seq::empty()
    } else {
        seq![(entries[0].0@, view_of(entries[0].1))] + view_of_entries(entries.drop_first())
    }
}

impl View for JsonValue {
    type V = JsonView;

    open spec fn view(&self) -> JsonView {
        view_of(*self)
    }
}

pub proof fn lemma_view_of_list(elems: Seq<JsonValue>)
    ensures
        view_of_list(elems).len() == elems.len(),
        forall|i: int| 0 <= i < elems.len() ==> view_of_list(elems)[i] == view_of(elems[i]),
    decreases elems,
{
    if elems.len() > 0 {
        lemma_view_of_list(elems.drop_first());
    }
}

pub proof fn lemma_view_of_entries(entries: Seq<(String, JsonValue)>)
    ensures
        view_of_entries(entries).len() == entries.len(),
        forall|i: int| 0 <= i < entries.len() ==> view_of_entries(entries)[i]
            == (entries[i].0@, view_of(entries[i].1)),
    decreases entries,
{
    if entries.len() > 0 {
        lemma_view_of_entries(entries.drop_first());
    }
}

/// The character for a single decimal digit.
pub open spec fn digit_char(d: nat) -> char {
    if d == 0 { '0' }
    else if d == 1 { '1' }
    else if d == 2 { '2' }
    else if d == 3 { '3' }
    else if d == 4 { '4' }
    else if d == 5 { '5' }
    else if d == 6 { '6' }
    else if d == 7 { '7' }
    else if d == 8 { '8' }
    else { '9' }
}

/// The decimal rendering of a natural number, most significant digit first,
/// with no leading zeros (a lone `0` for zero).
pub open spec fn spec_udec(n: nat) -> Seq<char>
    decreases n,
{
    if n < 10 {
        seq![digit_char(n)]
    } else {
        spec_udec(n / 10) + seq![digit_char(n % 10)]
    }
}

/// The decimal rendering of an integer: a minus sign, then the magnitude.
pub open spec fn spec_idec(i: int) -> Seq<char> {
    if i < 0 {
        seq!['-'] + spec_udec((-i) as nat)
    } else {
        spec_udec(i as nat)
    }
}

/// A string wrapped in double quotes.
pub open spec fn spec_quoted(s: Seq<char>) -> Seq<char> {
    seq!['"'] + s + seq!['"']
}

/// The textual rendering of a structured value: `null`, `true`/`false`,
/// decimal integers, quoted strings, `[..]` arrays and `{"key": ..}` objects,
/// elements separated by `", "`.
pub open spec fn spec_render(v: JsonView) -> Seq<char>
    decreases v,
{
    match v {
        JsonView::Null => seq!['n', 'u', 'l', 'l'],
        JsonView::Bool(b) => if b {
            seq!['t', 'r', 'u', 'e']
        } else {
            seq!['f', 'a', 'l', 's', 'e']
        },
        JsonView::Int(i) => spec_idec(i),
        JsonView::Str(s) => spec_quoted(s),
        JsonView::Array(elems) => seq!['['] + spec_render_list(elems) + seq![']'],
        JsonView::Object(entries) => seq!['{'] + spec_render_entries(entries) + seq!['}'],
    }
}

/// The renderings of a sequence of values, joined by `", "`.
pub open spec fn spec_render_list(elems: Seq<JsonView>) -> Seq<char>
    decreases elems,
{
    if elems.len() == 0 {
        Seq::empty()
    } else if elems.len() == 1 {
        spec_render(elems.last())
    } else {
        spec_render_list(elems.drop_last()) + seq![',', ' '] + spec_render(elems.last())
    }
}

/// The renderings of a sequence of key/value entries, each as
/// `"key": value`, joined by `", "`.
pub open spec fn spec_render_entries(entries: Seq<(Seq<char>, JsonView)>) -> Seq<char>
    decreases entries,
{
    if entries.len() == 0 {
        Seq::empty()
    } else if entries.len() == 1 {
        spec_quoted(entries.last().0) + seq![':', ' '] + spec_render(entries.last().1)
    } else {
        spec_render_entries(entries.drop_last()) + seq![',', ' ']
            + spec_quoted(entries.last().0) + seq![':', ' '] + spec_render(entries.last().1)
    }
}

/// A one-character string slice for a decimal digit.
fn digit_str(d: u64) -> (r: &'static str)
    requires
        d < 10,
    ensures
        r@ == seq![digit_char(d as nat)],
{
    proof {
        reveal_strlit("0");
        reveal_strlit("1");
        reveal_strlit("2");
        reveal_strlit("3");
        reveal_strlit("4");
        reveal_strlit("5");
        reveal_strlit("6");
        reveal_strlit("7");
        reveal_strlit("8");
        reveal_strlit("9");
    }
    match d {
        0 => "0",
        1 => "1",
        2 => "2",
        3 => "3",
        4 => "4",
        5 => "5",
        6 => "6",
        7 => "7",
        8 => "8",
        _ => "9",
    }
}

/// Render a natural number in decimal.
pub fn render_u64(n: u64) -> (r: String)
    ensures
        r@ == spec_udec(n as nat),
    decreases n,
{
    if n < 10 {
        String::from_str(digit_str(n))
    } else {
        let prefix = render_u64(n / 10);
        prefix.concat(digit_str(n % 10))
    }
}

/// Render a signed integer in decimal.
pub fn render_i64(i: i64) -> (r: String)
    ensures
        r@ == spec_idec(i as int),
{
    proof {
        reveal_strlit("-");
    }
    if i >= 0 {
        render_u64(i as u64)
    } else {
        let magnitude: u64 = (-(i as i128)) as u64;
        assert(magnitude as nat == (-(i as int)) as nat);
        String::from_str("-").concat(render_u64(magnitude).as_str())
    }
}

/// Wrap a string in double quotes.
pub fn quoted(s: &str) -> (r: String)
    ensures
        r@ == spec_quoted(s@),
{
    proof {
        reveal_strlit("\"");
    }
    let r = String::from_str("\"").concat(s).concat("\"");
    assert(r@ =~= spec_quoted(s@));
    r
}

/// Render a structured value as [`spec_render`] describes.
pub fn render_value(v: &JsonValue) -> (r: String)
    ensures
        r@ == spec_render(v@),
    decreases v,
{
    match v {
        JsonValue::Null => {
            proof {
                reveal_strlit("null");
            }
            let r = String::from_str("null");
            assert(r@ =~= spec_render(v@));
            r
        },
        JsonValue::Bool(b) => {
            proof {
                reveal_strlit("true");
                reveal_strlit("false");
            }
            let r = if *b {
                String::from_str("true")
            } else {
                String::from_str("false")
            };
            assert(r@ =~= spec_render(v@));
            r
        },
        JsonValue::Int(i) => render_i64(*i),
        JsonValue::Str(s) => quoted(s.as_str()),
        JsonValue::Array(elems) => render_array(elems),
        JsonValue::Object(entries) => render_object(entries),
    }
}

/// Render an array of values: `[..]`, elements joined by `", "`.
fn render_array(elems: &Vec<JsonValue>) -> (r: String)
    ensures
        r@ == seq!['['] + spec_render_list(view_of_list(elems@)) + seq![']'],
    decreases elems,
{
    proof {
        reveal_strlit("[");
        lemma_view_of_list(elems@);
    }
    let ghost views: Seq<JsonView> = view_of_list(elems@);
    let mut out = String::from_str("[");
    assert(out@ =~= seq!['['] + spec_render_list(views.take(0)));
    let mut idx: usize = 0;
    while idx < elems.len()
        invariant
            idx <= elems.len(),
            views == view_of_list(elems@),
            views.len() == elems.len(),
            forall|j: int| 0 <= j < elems.len() ==> views[j] == view_of(elems@[j]),
            out@ == seq!['['] + spec_render_list(views.take(idx as int)),
        decreases elems.len() - idx,
    {
        proof {
            reveal_strlit(", ");
            assert(decreases_to!(*elems => elems[idx as int]));
        }
        if idx > 0 {
            out.append(", ");
        }
        let piece = render_value(&elems[idx]);
        out.append(piece.as_str());
        proof {
            let i = idx as int;
            assert(views.take(i + 1).drop_last() =~= views.take(i));
            assert(views.take(i + 1).last() == views[i]);
            assert(out@ =~= seq!['['] + spec_render_list(views.take(i + 1)));
        }
        idx = idx + 1;
    }
    proof {
        reveal_strlit("]");
        assert(views.take(views.len() as int) =~= views);
    }
    let r = out.concat("]");
    assert(r@ =~= seq!['['] + spec_render_list(views) + seq![']']);
    r
}

/// Render key/value entries: `{"key": value, ..}`.
fn render_object(entries: &Vec<(String, JsonValue)>) -> (r: String)
    ensures
        r@ == seq!['{'] + spec_render_entries(view_of_entries(entries@)) + seq!['}'],
    decreases entries,
{
    proof {
        reveal_strlit("{");
        lemma_view_of_entries(entries@);
    }
    let ghost views: Seq<(Seq<char>, JsonView)> = view_of_entries(entries@);
    let mut out = String::from_str("{");
    assert(out@ =~= seq!['{'] + spec_render_entries(views.take(0)));
    let mut idx: usize = 0;
    while idx < entries.len()
        invariant
            idx <= entries.len(),
            views == view_of_entries(entries@),
            views.len() == entries.len(),
            forall|j: int| 0 <= j < entries.len() ==> views[j]
                == (entries@[j].0@, view_of(entries@[j].1)),
            out@ == seq!['{'] + spec_render_entries(views.take(idx as int)),
        decreases entries.len() - idx,
    {
        proof {
            reveal_strlit(", ");
            reveal_strlit(": ");
            assert(decreases_to!(*entries => entries[idx as int]));
            assert(decreases_to!(entries[idx as int] => entries[idx as int].1));
        }
        if idx > 0 {
            out.append(", ");
        }
        let key = quoted(entries[idx].0.as_str());
        out.append(key.as_str());
        out.append(": ");
        let piece = render_value(&entries[idx].1);
        out.append(piece.as_str());
        proof {
            let i = idx as int;
            assert(views.take(i + 1).drop_last() =~= views.take(i));
            assert(views.take(i + 1).last() == views[i]);
            assert(out@ =~= seq!['{'] + spec_render_entries(views.take(i + 1)));
        }
        idx = idx + 1;
    }
    proof {
        reveal_strlit("}");
        assert(views.take(views.len() as int) =~= views);
    }
    let r = out.concat("}");
    assert(r@ =~= seq!['{'] + spec_render_entries(views) + seq!['}']);
    r
}

} // verus!
