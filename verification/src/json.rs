//! JSON documents as plain data, with a verified parser and printer.
//!
//! The grammar is JSON as webhook bodies use it: objects, arrays, strings
//! with the short and `\u` escapes, numbers, booleans and null.  Integers
//! that fit `i64` become plain integers; every other number — a fraction,
//! an exponent, a larger magnitude — keeps its exact text and is reprinted
//! verbatim, so the crate neither invents precision nor touches floating
//! point.  A `\u` escape must name a scalar value: surrogates are
//! rejected, and escaped astral characters travel as raw UTF-8 instead.

use crate::strutil::push_char;
use vstd::prelude::*;

verus! {

broadcast use vstd::std_specs::vec::group_vec_axioms, vstd::seq::group_seq_axioms;

/// A JSON document as plain data.  Object members keep their textual order;
/// a duplicated key is kept as written and lookups take the first binding.
#[derive(Debug, PartialEq)]
pub enum JsonValue {
    Null,
    Bool(bool),
    Int(i64),
    /// A number outside the integer subset — a fraction, an exponent, or a
    /// magnitude beyond `i64` — held as its exact text and reprinted
    /// verbatim, so that no precision is invented or lost.
    Num(String),
    Str(String),
    Arr(Vec<JsonValue>),
    Obj(Vec<(String, JsonValue)>),
}

/// The mathematical shape of a [`JsonValue`]: the same tree over `Seq` and
/// `int`, which the contracts in this crate speak of.
pub enum JsonNode {
    Null,
    Bool(bool),
    Int(int),
    Num(Seq<char>),
    Str(Seq<char>),
    Arr(Seq<JsonNode>),
    Obj(Seq<(Seq<char>, JsonNode)>),
}

/// The node for each element of `items` from index `i` on.
pub open spec fn nodes_from(items: Seq<JsonValue>, i: int) -> Seq<JsonNode>
    decreases items, items.len() - i,
{
    if i < 0 || i >= items.len() {
        Seq::empty()
    } else {
        proof {
            assert(decreases_to!(items, items.len() - i => items[i], 0int));
        }
        seq![node_of(items[i])] + nodes_from(items, i + 1)
    }
}

/// The key and node for each member of `ms` from index `i` on.
pub open spec fn members_from(ms: Seq<(String, JsonValue)>, i: int) -> Seq<(Seq<char>, JsonNode)>
    decreases ms, ms.len() - i,
{
    if i < 0 || i >= ms.len() {
        Seq::empty()
    } else {
        proof {
            assert(decreases_to!(ms => ms[i]));
            assert(decreases_to!(ms[i] => ms[i].1));
            assert(decreases_to!(ms, ms.len() - i => ms[i].1, 0int));
        }
        seq![(ms[i].0@, node_of(ms[i].1))] + members_from(ms, i + 1)
    }
}

/// The mathematical shape of a value: the same tree over `Seq` and `int`.
pub open spec fn node_of(v: JsonValue) -> JsonNode
    decreases v, 0int,
{
    match v {
        JsonValue::Null => JsonNode::Null,
        JsonValue::Bool(b) => JsonNode::Bool(b),
        JsonValue::Int(n) => JsonNode::Int(n as int),
        JsonValue::Num(t) => JsonNode::Num(t@),
        JsonValue::Str(s) => JsonNode::Str(s@),
        JsonValue::Arr(items) => {
            proof {
                assert(decreases_to!(v => v->Arr_0));
                assert(decreases_to!(v->Arr_0 => v->Arr_0@));
                assert(decreases_to!(v, 0int => v->Arr_0@, items@.len() as int));
            }
            JsonNode::Arr(nodes_from(items@, 0))
        },
        JsonValue::Obj(ms) => {
            proof {
                assert(decreases_to!(v => v->Obj_0));
                assert(decreases_to!(v->Obj_0 => v->Obj_0@));
                assert(decreases_to!(v, 0int => v->Obj_0@, ms@.len() as int));
            }
            JsonNode::Obj(members_from(ms@, 0))
        },
    }
}

impl DeepView for JsonValue {
    type V = JsonNode;

    open spec fn deep_view(&self) -> JsonNode {
        node_of(*self)
    }
}

/// How `nodes_from` reads element by element.
pub proof fn lemma_nodes_from(items: Seq<JsonValue>, i: int)
    requires
        0 <= i <= items.len(),
    ensures
        nodes_from(items, i).len() == items.len() - i,
        forall|j: int|
            i <= j < items.len() ==> nodes_from(items, i)[j - i] == node_of(items[j]),
    decreases items.len() - i,
{
    if i < items.len() {
        lemma_nodes_from(items, i + 1);
    }
}

/// How `members_from` reads member by member.
pub proof fn lemma_members_from(ms: Seq<(String, JsonValue)>, i: int)
    requires
        0 <= i <= ms.len(),
    ensures
        members_from(ms, i).len() == ms.len() - i,
        forall|j: int|
            i <= j < ms.len() ==> members_from(ms, i)[j - i] == (ms[j].0@, node_of(ms[j].1)),
    decreases ms.len() - i,
{
    if i < ms.len() {
        lemma_members_from(ms, i + 1);
    }
}

/// Prepending an element prepends its node.
pub proof fn lemma_nodes_from_prepend(x: JsonValue, items: Seq<JsonValue>)
    ensures
        nodes_from(seq![x] + items, 0) =~= seq![node_of(x)] + nodes_from(items, 0),
{
    lemma_nodes_from(items, 0);
    let l = seq![x] + items;
    lemma_nodes_from(l, 0);
    assert forall|j: int| 0 <= j < l.len() implies nodes_from(l, 0)[j] == (seq![node_of(x)]
        + nodes_from(items, 0))[j] by {
        assert(nodes_from(l, 0)[j] == node_of(l[j]));
        if j == 0 {
            assert(l[0] == x);
        } else {
            assert(l[j] == items[j - 1]);
            assert(nodes_from(items, 0)[j - 1] == node_of(items[j - 1]));
        }
    }
}

/// How `members_from` reads from the start, member by member.
pub proof fn lemma_members_from_zero(ms: Seq<(String, JsonValue)>)
    ensures
        members_from(ms, 0).len() == ms.len(),
        forall|j: int|
            0 <= j < ms.len() ==> #[trigger] members_from(ms, 0)[j] == (
                ms[j].0@,
                node_of(ms[j].1),
            ),
{
    lemma_members_from(ms, 0);
    assert forall|j: int|
        0 <= j < ms.len() implies #[trigger] members_from(ms, 0)[j] == (
        ms[j].0@,
        node_of(ms[j].1),
    ) by {
        assert(members_from(ms, 0)[j - 0] == (ms[j].0@, node_of(ms[j].1)));
    }
}

/// Prepending a member prepends its key and node.
pub proof fn lemma_members_from_prepend(x: (String, JsonValue), ms: Seq<(String, JsonValue)>)
    ensures
        members_from(seq![x] + ms, 0) =~= seq![(x.0@, node_of(x.1))] + members_from(ms, 0),
{
    lemma_members_from(ms, 0);
    let l = seq![x] + ms;
    lemma_members_from(l, 0);
    assert forall|j: int| 0 <= j < l.len() implies members_from(l, 0)[j] == (seq![
        (x.0@, node_of(x.1)),
    ] + members_from(ms, 0))[j] by {
        assert(members_from(l, 0)[j] == (l[j].0@, node_of(l[j].1)));
        if j == 0 {
            assert(l[0] == x);
        } else {
            assert(l[j] == ms[j - 1]);
            assert(members_from(ms, 0)[j - 1] == (ms[j - 1].0@, node_of(ms[j - 1].1)));
        }
    }
}

/// A failed JSON parse, with the character position where parsing stopped.
#[derive(Debug, Clone, Copy, PartialEq, Eq, Structural)]
pub struct JsonParseError {
    pub pos: usize,
}

// ---------------------------------------------------------------------------
// The grammar, as a specification-level parser over character sequences.
// Each function takes an absolute position and returns the parsed piece and
// the position just past it, or `None` where the input does not conform.
// ---------------------------------------------------------------------------
/// JSON whitespace.
pub open spec fn is_ws(c: char) -> bool {
    c == ' ' || c == '\n' || c == '\r' || c == '\t'
}

/// The first position at or after `i` that does not hold whitespace.
pub open spec fn sp_skip_ws(s: Seq<char>, i: int) -> int
    decreases s.len() - i,
{
    if 0 <= i && i < s.len() && is_ws(s[i]) {
        sp_skip_ws(s, i + 1)
    } else {
        i
    }
}

/// Skipping whitespace never moves backwards nor past the end.
pub proof fn lemma_skip_ws(s: Seq<char>, i: int)
    ensures
        i <= sp_skip_ws(s, i),
        i <= s.len() ==> sp_skip_ws(s, i) <= s.len(),
        0 <= i && sp_skip_ws(s, i) < s.len() ==> !is_ws(s[sp_skip_ws(s, i)]),
    decreases s.len() - i,
{
    if 0 <= i && i < s.len() && is_ws(s[i]) {
        lemma_skip_ws(s, i + 1);
    }
}

/// What a backslash escape stands for; `None` for an unsupported escape
/// (`\u` among them).
pub open spec fn spec_unescape(c: char) -> Option<char> {
    if c == '"' {
        Some('"')
    } else if c == '\\' {
        Some('\\')
    } else if c == '/' {
        Some('/')
    } else if c == 'n' {
        Some('\n')
    } else if c == 't' {
        Some('\t')
    } else if c == 'r' {
        Some('\r')
    } else if c == 'b' {
        Some('\u{8}')
    } else if c == 'f' {
        Some('\u{c}')
    } else {
        None
    }
}

/// The value of one hex digit, or -1 for any other character.
pub open spec fn hex_digit_val(c: char) -> int {
    if '0' <= c && c <= '9' {
        c as int - 48
    } else if 'a' <= c && c <= 'f' {
        c as int - 87
    } else if 'A' <= c && c <= 'F' {
        c as int - 55
    } else {
        -1
    }
}

/// The value of the four hex digits at `i`, or -1 where the input ends
/// early or holds a non-hex character.
pub open spec fn hex4_val(s: Seq<char>, i: int) -> int {
    if 0 <= i && i + 4 <= s.len() && hex_digit_val(s[i]) >= 0 && hex_digit_val(s[i + 1]) >= 0
        && hex_digit_val(s[i + 2]) >= 0 && hex_digit_val(s[i + 3]) >= 0 {
        hex_digit_val(s[i]) * 4096 + hex_digit_val(s[i + 1]) * 256 + hex_digit_val(s[i + 2]) * 16
            + hex_digit_val(s[i + 3])
    } else {
        -1
    }
}

/// The scalar value a character carries.
pub open spec fn char_code(c: char) -> int {
    (c as u32) as int
}

/// The character with scalar value `code`, for codes that are scalar
/// values.
pub open spec fn char_of(code: int) -> char {
    choose|c: char| char_code(c) == code
}

/// The body of a string, starting just after the opening quote: the decoded
/// characters and the position just past the closing quote.  Control
/// characters must be escaped, as JSON requires; a `\u` escape must not
/// name a surrogate, which is no scalar value (escaped astral characters
/// are carried as raw UTF-8 instead).
pub open spec fn sp_string(s: Seq<char>, i: int) -> Option<(Seq<char>, int)>
    decreases s.len() - i,
{
    if i < 0 || i >= s.len() {
        None
    } else if s[i] == '"' {
        Some((Seq::empty(), i + 1))
    } else if s[i] == '\\' {
        if i + 1 >= s.len() {
            None
        } else if s[i + 1] == 'u' {
            let code = hex4_val(s, i + 2);
            if code < 0 || (0xD800 <= code && code < 0xE000) {
                None
            } else {
                match sp_string(s, i + 6) {
                    None => None,
                    Some((t, j)) => Some((seq![char_of(code)] + t, j)),
                }
            }
        } else {
            match spec_unescape(s[i + 1]) {
                None => None,
                Some(c) => match sp_string(s, i + 2) {
                    None => None,
                    Some((t, j)) => Some((seq![c] + t, j)),
                },
            }
        }
    } else if (s[i] as u32) < 32 {
        None
    } else {
        match sp_string(s, i + 1) {
            None => None,
            Some((t, j)) => Some((seq![s[i]] + t, j)),
        }
    }
}

/// A parsed string body ends after where it began, within the input.
pub proof fn lemma_sp_string_bounds(s: Seq<char>, i: int)
    ensures
        sp_string(s, i) matches Some(r) ==> i < r.1 <= s.len(),
    decreases s.len() - i,
{
    if 0 <= i && i < s.len() {
        if s[i] == '\\' {
            if i + 1 < s.len() {
                lemma_sp_string_bounds(s, i + 2);
                if i + 6 <= s.len() {
                    lemma_sp_string_bounds(s, i + 6);
                }
            }
        } else {
            lemma_sp_string_bounds(s, i + 1);
        }
    }
}

/// A decimal digit.
pub open spec fn is_digit(c: char) -> bool {
    '0' <= c && c <= '9'
}

/// The number of consecutive digits at `i`.
pub open spec fn digit_count(s: Seq<char>, i: int) -> nat
    decreases s.len() - i,
{
    if 0 <= i && i < s.len() && is_digit(s[i]) {
        1 + digit_count(s, i + 1)
    } else {
        0
    }
}

/// The run of digits ends within the input.
pub proof fn lemma_digit_count(s: Seq<char>, i: int)
    requires
        0 <= i <= s.len(),
    ensures
        i + digit_count(s, i) <= s.len(),
    decreases s.len() - i,
{
    if i < s.len() && is_digit(s[i]) {
        lemma_digit_count(s, i + 1);
    }
}

/// The value of the `n` digits starting at `i`, most significant first.
pub open spec fn digits_value(s: Seq<char>, i: int, n: nat) -> int
    decreases n,
{
    if n == 0 {
        0
    } else {
        digits_value(s, i, (n - 1) as nat) * 10 + (s[i + n - 1] as int - 48)
    }
}

/// The end of an optional fraction part at `i`: past the dot and its
/// digits, `i` itself where no dot stands, `None` for a dot without
/// digits.
pub open spec fn sp_frac_end(s: Seq<char>, i: int) -> Option<int> {
    if 0 <= i && i < s.len() && s[i] == '.' {
        let m = digit_count(s, i + 1);
        if m == 0 {
            None
        } else {
            Some(i + 1 + m)
        }
    } else {
        Some(i)
    }
}

/// The end of an optional exponent part at `i`: past the marker, an
/// optional sign and the digits; `i` itself where no marker stands;
/// `None` for a marker without digits.
pub open spec fn sp_exp_end(s: Seq<char>, i: int) -> Option<int> {
    if 0 <= i && i < s.len() && (s[i] == 'e' || s[i] == 'E') {
        let j = if i + 1 < s.len() && (s[i + 1] == '+' || s[i + 1] == '-') {
            i + 2
        } else {
            i + 1
        };
        let m = digit_count(s, j);
        if m == 0 {
            None
        } else {
            Some(j + m)
        }
    } else {
        Some(i)
    }
}

/// A number, starting at its first character (a digit, or `-` before one):
/// an optional sign, a digit run, an optional fraction and an optional
/// exponent.  A plain integer fitting `i64` becomes `Int`; every other
/// well-formed number keeps its text as `Num`.
pub open spec fn sp_number(s: Seq<char>, i: int) -> Option<(JsonNode, int)> {
    let neg = 0 <= i < s.len() && s[i] == '-';
    let d0 = if neg {
        i + 1
    } else {
        i
    };
    let n = digit_count(s, d0);
    if n == 0 {
        None
    } else {
        let ip = d0 + n;
        match sp_frac_end(s, ip) {
            None => None,
            Some(f) => match sp_exp_end(s, f) {
                None => None,
                Some(e) => {
                    if e == ip {
                        let mag = digits_value(s, d0, n);
                        if neg {
                            if mag <= 0x8000_0000_0000_0000 {
                                Some((JsonNode::Int(-mag), ip))
                            } else {
                                Some((JsonNode::Num(s.subrange(i, ip)), ip))
                            }
                        } else {
                            if mag <= 0x7fff_ffff_ffff_ffff {
                                Some((JsonNode::Int(mag), ip))
                            } else {
                                Some((JsonNode::Num(s.subrange(i, ip)), ip))
                            }
                        }
                    } else {
                        Some((JsonNode::Num(s.subrange(i, e)), e))
                    }
                },
            },
        }
    }
}

/// A fraction part ends within the input.
pub proof fn lemma_sp_frac_end(s: Seq<char>, i: int)
    requires
        0 <= i <= s.len(),
    ensures
        sp_frac_end(s, i) matches Some(f) ==> i <= f <= s.len(),
{
    if i < s.len() && s[i] == '.' {
        lemma_digit_count(s, i + 1);
    }
}

/// An exponent part ends within the input.
pub proof fn lemma_sp_exp_end(s: Seq<char>, i: int)
    requires
        0 <= i <= s.len(),
    ensures
        sp_exp_end(s, i) matches Some(f) ==> i <= f <= s.len(),
{
    if i < s.len() && (s[i] == 'e' || s[i] == 'E') {
        if i + 1 < s.len() && (s[i + 1] == '+' || s[i + 1] == '-') {
            lemma_digit_count(s, i + 2);
        } else {
            lemma_digit_count(s, i + 1);
        }
    }
}

/// A parsed number ends after where it began, within the input.
pub proof fn lemma_sp_number_bounds(s: Seq<char>, i: int)
    requires
        0 <= i <= s.len(),
    ensures
        sp_number(s, i) matches Some(r) ==> i < r.1 <= s.len(),
{
    let neg = i < s.len() && s[i] == '-';
    let d0 = if neg {
        i + 1
    } else {
        i
    };
    if d0 <= s.len() {
        lemma_digit_count(s, d0);
        let n = digit_count(s, d0);
        if n > 0 {
            lemma_sp_frac_end(s, d0 + n);
            if sp_frac_end(s, d0 + n) is Some {
                lemma_sp_exp_end(s, sp_frac_end(s, d0 + n)->Some_0);
            }
        }
    }
}

/// A value: leading whitespace, then an object, array, string, number,
/// `true`, `false` or `null`.  Yields the node and the position just past
/// the value.
pub open spec fn sp_value(s: Seq<char>, i: int) -> Option<(JsonNode, int)>
    decreases s.len() - i, 0int,
{
    let j = sp_skip_ws(s, i);
    proof {
        lemma_skip_ws(s, i);
    }
    if j < 0 || j >= s.len() {
        None
    } else if s[j] == '{' {
        match sp_obj_body(s, j + 1) {
            None => None,
            Some((ms, k)) => Some((JsonNode::Obj(ms), k)),
        }
    } else if s[j] == '[' {
        match sp_arr_body(s, j + 1) {
            None => None,
            Some((items, k)) => Some((JsonNode::Arr(items), k)),
        }
    } else if s[j] == '"' {
        match sp_string(s, j + 1) {
            None => None,
            Some((t, k)) => Some((JsonNode::Str(t), k)),
        }
    } else if s[j] == 't' {
        if j + 4 <= s.len() && s.subrange(j, j + 4) == "true"@ {
            Some((JsonNode::Bool(true), j + 4))
        } else {
            None
        }
    } else if s[j] == 'f' {
        if j + 5 <= s.len() && s.subrange(j, j + 5) == "false"@ {
            Some((JsonNode::Bool(false), j + 5))
        } else {
            None
        }
    } else if s[j] == 'n' {
        if j + 4 <= s.len() && s.subrange(j, j + 4) == "null"@ {
            Some((JsonNode::Null, j + 4))
        } else {
            None
        }
    } else if s[j] == '-' || is_digit(s[j]) {
        sp_number(s, j)
    } else {
        None
    }
}

/// An object body, starting just after `{`: either whitespace and `}`, or a
/// member list.
pub open spec fn sp_obj_body(s: Seq<char>, i: int) -> Option<(Seq<(Seq<char>, JsonNode)>, int)>
    decreases s.len() - i, 2int,
{
    let j = sp_skip_ws(s, i);
    proof {
        lemma_skip_ws(s, i);
    }
    if j < 0 || j >= s.len() {
        None
    } else if s[j] == '}' {
        Some((Seq::empty(), j + 1))
    } else {
        sp_members(s, i)
    }
}

/// A member list: `"key" : value`, continued with `,` or closed with `}`.
/// Yields the members in order and the position just past the `}`.
pub open spec fn sp_members(s: Seq<char>, i: int) -> Option<(Seq<(Seq<char>, JsonNode)>, int)>
    decreases s.len() - i, 1int,
{
    let j = sp_skip_ws(s, i);
    proof {
        lemma_skip_ws(s, i);
        lemma_sp_string_bounds(s, j + 1);
    }
    if j < 0 || j >= s.len() {
        None
    } else if s[j] != '"' {
        None
    } else {
        match sp_string(s, j + 1) {
            None => None,
            Some((key, k)) => {
                let c = sp_skip_ws(s, k);
                proof {
                    lemma_skip_ws(s, k);
                }
                if c >= s.len() || s[c] != ':' {
                    None
                } else {
                    match sp_value(s, c + 1) {
                        None => None,
                        Some((v, m)) => {
                            let w = sp_skip_ws(s, aft(j, m));
                            proof {
                                lemma_skip_ws(s, aft(j, m));
                            }
                            if w >= s.len() {
                                None
                            } else if s[w] == ',' {
                                match sp_members(s, w + 1) {
                                    None => None,
                                    Some((rest, e)) => Some((seq![(key, v)] + rest, e)),
                                }
                            } else if s[w] == '}' {
                                Some((seq![(key, v)], w + 1))
                            } else {
                                None
                            }
                        },
                    }
                }
            },
        }
    }
}

/// An array body, starting just after `[`: either whitespace and `]`, or an
/// element list.
pub open spec fn sp_arr_body(s: Seq<char>, i: int) -> Option<(Seq<JsonNode>, int)>
    decreases s.len() - i, 2int,
{
    let j = sp_skip_ws(s, i);
    proof {
        lemma_skip_ws(s, i);
    }
    if j < 0 || j >= s.len() {
        None
    } else if s[j] == ']' {
        Some((Seq::empty(), j + 1))
    } else {
        sp_elems(s, i)
    }
}

/// An element list: a value, continued with `,` or closed with `]`.
pub open spec fn sp_elems(s: Seq<char>, i: int) -> Option<(Seq<JsonNode>, int)>
    decreases s.len() - i, 1int,
{
    if i > s.len() {
        None
    } else {
        match sp_value(s, i) {
            None => None,
            Some((v, m)) => {
                let w = sp_skip_ws(s, aft(i, m));
                proof {
                    lemma_skip_ws(s, aft(i, m));
                }
                if w >= s.len() {
                    None
                } else if s[w] == ',' {
                    match sp_elems(s, w + 1) {
                        None => None,
                        Some((rest, e)) => Some((seq![v] + rest, e)),
                    }
                } else if s[w] == ']' {
                    Some((seq![v], w + 1))
                } else {
                    None
                }
            },
        }
    }
}

/// Strictly after `prev`: the position itself where it already is, else the
/// next one.  The parser's recursion is stated through this clamp so that
/// every step visibly advances; on conforming input the clamp never moves a
/// position, as the bounds lemmas show.
pub open spec fn aft(prev: int, next: int) -> int {
    if next > prev {
        next
    } else {
        prev + 1
    }
}

/// A whole document: one value, with nothing but whitespace after it.
pub open spec fn sp_doc(s: Seq<char>) -> Option<JsonNode> {
    match sp_value(s, 0) {
        None => None,
        Some((v, j)) => {
            if sp_skip_ws(s, j) == s.len() {
                Some(v)
            } else {
                None
            }
        },
    }
}

// ---------------------------------------------------------------------------
// The executable parser.  Each function is proved to return exactly what its
// specification twin above says, character for character.
// ---------------------------------------------------------------------------
/// Whether `c` is JSON whitespace.
fn is_ws_char(c: char) -> (r: bool)
    ensures
        r == is_ws(c),
{
    c == ' ' || c == '\n' || c == '\r' || c == '\t'
}

/// Skip whitespace from `i`.
fn skip_ws(s: &str, i: usize) -> (r: usize)
    requires
        i <= s@.len(),
    ensures
        r as int == sp_skip_ws(s@, i as int),
        i <= r <= s@.len(),
{
    let n = s.unicode_len();
    let mut k = i;
    while k < n && is_ws_char(s.get_char(k))
        invariant
            i <= k <= n,
            n == s@.len(),
            sp_skip_ws(s@, i as int) == sp_skip_ws(s@, k as int),
        decreases n - k,
    {
        k = k + 1;
    }
    k
}

/// What a backslash escape stands for.
fn unescape_char(c: char) -> (r: Option<char>)
    ensures
        r == spec_unescape(c),
{
    if c == '"' {
        Some('"')
    } else if c == '\\' {
        Some('\\')
    } else if c == '/' {
        Some('/')
    } else if c == 'n' {
        Some('\n')
    } else if c == 't' {
        Some('\t')
    } else if c == 'r' {
        Some('\r')
    } else if c == 'b' {
        Some('\u{8}')
    } else if c == 'f' {
        Some('\u{c}')
    } else {
        None
    }
}

/// The continuation relation for string parsing: what remains to be parsed
/// at `k`, prefixed with what `acc` already holds, is what the whole string
/// body at `i` parses to.
spec fn str_cont(s: Seq<char>, i: int, k: int, acc: Seq<char>) -> bool {
    match sp_string(s, k) {
        None => sp_string(s, i) is None,
        Some((t, j)) => sp_string(s, i) == Some((acc + t, j)),
    }
}

/// Parse a string body, starting just after the opening quote.
fn parse_string(s: &str, i: usize) -> (r: Result<(String, usize), JsonParseError>)
    requires
        i <= s@.len(),
    ensures
        match r {
            Ok(p) => sp_string(s@, i as int) == Some((p.0@, p.1 as int)) && i < p.1 <= s@.len(),
            Err(_) => sp_string(s@, i as int) is None,
        },
{
    let n = s.unicode_len();
    let mut acc = String::new();
    let mut k = i;
    proof {
        let p = sp_string(s@, i as int);
        if p is Some {
            assert(Seq::<char>::empty() + p->Some_0.0 =~= p->Some_0.0);
        }
    }
    loop
        invariant
            i <= k <= n,
            n == s@.len(),
            str_cont(s@, i as int, k as int, acc@),
        decreases n - k,
    {
        if k >= n {
            return Err(JsonParseError { pos: k });
        }
        let c = s.get_char(k);
        if c == '"' {
            proof {
                assert(acc@ + Seq::<char>::empty() =~= acc@);
                lemma_sp_string_bounds(s@, i as int);
            }
            return Ok((acc, k + 1));
        } else if c == '\\' {
            if k + 1 >= n {
                return Err(JsonParseError { pos: k });
            }
            let e = s.get_char(k + 1);
            if e == 'u' {
                if n - k < 6 {
                    return Err(JsonParseError { pos: k });
                }
                let h0 = hex_digit_char(s.get_char(k + 2));
                let h1 = hex_digit_char(s.get_char(k + 3));
                let h2 = hex_digit_char(s.get_char(k + 4));
                let h3 = hex_digit_char(s.get_char(k + 5));
                let code: u32 = match (h0, h1, h2, h3) {
                    (Some(v0), Some(v1), Some(v2), Some(v3)) => v0 * 4096 + v1 * 256 + v2 * 16
                        + v3,
                    _ => {
                        return Err(JsonParseError { pos: k });
                    },
                };
                proof {
                    assert(hex4_val(s@, k + 2) == code as int);
                }
                if 0xD800 <= code && code < 0xE000 {
                    return Err(JsonParseError { pos: k });
                }
                let c2 = crate::strutil::char_from_code(code);
                let ghost acc0 = acc@;
                push_char(&mut acc, c2);
                proof {
                    assert(char_code(c2) == code as int);
                    assert(char_code(char_of(code as int)) == code as int);
                    assert(c2 == char_of(code as int));
                    let p = sp_string(s@, k + 6);
                    if p is Some {
                        assert(acc0 + (seq![c2] + p->Some_0.0) =~= acc0.push(c2) + p->Some_0.0);
                    }
                }
                k = k + 6;
                continue;
            }
            match unescape_char(e) {
                None => {
                    return Err(JsonParseError { pos: k });
                },
                Some(c2) => {
                    let ghost acc0 = acc@;
                    push_char(&mut acc, c2);
                    proof {
                        let p = sp_string(s@, k + 2);
                        if p is Some {
                            assert(acc0 + (seq![c2] + p->Some_0.0) =~= acc0.push(c2)
                                + p->Some_0.0);
                        }
                    }
                    k = k + 2;
                },
            }
        } else if (c as u32) < 32 {
            return Err(JsonParseError { pos: k });
        } else {
            let ghost acc0 = acc@;
            push_char(&mut acc, c);
            proof {
                let p = sp_string(s@, k + 1);
                if p is Some {
                    assert(acc0 + (seq![c] + p->Some_0.0) =~= acc0.push(c) + p->Some_0.0);
                }
            }
            k = k + 1;
        }
    }
}

/// Whether the literal `lit` stands at `j`.
fn expect_lit(s: &str, j: usize, lit: &str) -> (r: bool)
    requires
        j <= s@.len(),
    ensures
        r == (j + lit@.len() <= s@.len() && s@.subrange(j as int, j + lit@.len()) == lit@),
{
    let n = s.unicode_len();
    let ln = lit.unicode_len();
    if n - j < ln {
        return false;
    }
    let mut t: usize = 0;
    while t < ln
        invariant
            t <= ln,
            ln == lit@.len(),
            n == s@.len(),
            j + ln <= n,
            forall|m: int| 0 <= m < t ==> s@[j + m] == lit@[m],
        decreases ln - t,
    {
        if s.get_char(j + t) != lit.get_char(t) {
            proof {
                assert(s@.subrange(j as int, j + lit@.len())[t as int] != lit@[t as int]);
            }
            return false;
        }
        t = t + 1;
    }
    proof {
        assert(s@.subrange(j as int, j + lit@.len()) =~= lit@);
    }
    true
}

/// The accumulator relation for number parsing: `acc` tracks the digit
/// value exactly while it is still small enough to matter, and otherwise
/// just stays over the cap.
spec fn num_acc_ok(dv: int, acc: u128) -> bool {
    (dv <= 0x8000_0000_0000_0000 && acc == dv) || (dv > 0x8000_0000_0000_0000 && acc
        > 0x8000_0000_0000_0000)
}

/// Parse a number, starting at its first character.
fn parse_number(s: &str, i: usize) -> (r: Result<(JsonValue, usize), JsonParseError>)
    requires
        i <= s@.len(),
    ensures
        match r {
            Ok(p) => sp_number(s@, i as int) == Some((node_of(p.0), p.1 as int)) && i < p.1
                <= s@.len(),
            Err(_) => sp_number(s@, i as int) is None,
        },
{
    let n = s.unicode_len();
    let neg = i < n && s.get_char(i) == '-';
    let d0 = if neg {
        i + 1
    } else {
        i
    };
    let mut k = d0;
    let mut acc: u128 = 0;
    while k < n && is_digit_char(s.get_char(k))
        invariant
            d0 <= k <= n,
            n == s@.len(),
            d0 == if neg {
                i + 1
            } else {
                i as int
            },
            digit_count(s@, d0 as int) == (k - d0) + digit_count(s@, k as int),
            num_acc_ok(digits_value(s@, d0 as int, (k - d0) as nat), acc),
        decreases n - k,
    {
        let c = s.get_char(k);
        let d: u32 = (c as u32) - 48;
        let ghost dv0 = digits_value(s@, d0 as int, (k - d0) as nat);
        proof {
            assert(digits_value(s@, d0 as int, ((k - d0) + 1) as nat) == dv0 * 10 + (s@[k as int]
                as int - 48));
            if dv0 > 0x8000_0000_0000_0000 {
                assert(dv0 * 10 + (s@[k as int] as int - 48) > 0x8000_0000_0000_0000)
                    by (nonlinear_arith)
                    requires
                        dv0 > 0x8000_0000_0000_0000,
                        s@[k as int] as int - 48 >= 0,
                ;
            }
        }
        if acc <= 0x8000_0000_0000_0000u128 {
            acc = acc * 10 + (d as u128);
        }
        k = k + 1;
    }
    let m = k - d0;
    if m == 0 {
        return Err(JsonParseError { pos: k });
    }
    proof {
        assert(digit_count(s@, k as int) == 0);
        assert(digit_count(s@, d0 as int) == m);
    }
    // optional fraction
    let mut endpos = k;
    let mut plain = true;
    if endpos < n && s.get_char(endpos) == '.' {
        let fend = scan_digits(s, endpos + 1);
        if fend == endpos + 1 {
            return Err(JsonParseError { pos: endpos });
        }
        proof {
            assert(sp_frac_end(s@, k as int) == Some(fend as int));
        }
        endpos = fend;
        plain = false;
    }
    proof {
        if plain {
            assert(sp_frac_end(s@, k as int) == Some(k as int));
        }
    }
    // optional exponent
    let frac_end_pos = endpos;
    if endpos < n {
        let c = s.get_char(endpos);
        if c == 'e' || c == 'E' {
            let estart = if endpos + 1 < n {
                let c2 = s.get_char(endpos + 1);
                if c2 == '+' || c2 == '-' {
                    endpos + 2
                } else {
                    endpos + 1
                }
            } else {
                endpos + 1
            };
            let eend = scan_digits(s, estart);
            if eend == estart {
                return Err(JsonParseError { pos: endpos });
            }
            proof {
                assert(sp_exp_end(s@, frac_end_pos as int) == Some(eend as int));
            }
            endpos = eend;
            plain = false;
        }
    }
    proof {
        if endpos == frac_end_pos {
            assert(sp_exp_end(s@, frac_end_pos as int) == Some(frac_end_pos as int));
        }
    }
    if !plain {
        let text = String::from_str(s.substring_char(i, endpos));
        return Ok((JsonValue::Num(text), endpos));
    }
    if neg {
        if acc > 0x8000_0000_0000_0000u128 {
            let text = String::from_str(s.substring_char(i, k));
            return Ok((JsonValue::Num(text), k));
        }
        let v: i64 = if acc == 0x8000_0000_0000_0000u128 {
            i64::MIN
        } else {
            -(acc as i64)
        };
        Ok((JsonValue::Int(v), k))
    } else {
        if acc > 0x7fff_ffff_ffff_ffffu128 {
            let text = String::from_str(s.substring_char(i, k));
            return Ok((JsonValue::Num(text), k));
        }
        Ok((JsonValue::Int(acc as i64), k))
    }
}

/// The position just past the run of digits at `i`.
fn scan_digits(s: &str, i: usize) -> (r: usize)
    requires
        i <= s@.len(),
    ensures
        r as int == i + digit_count(s@, i as int),
        i <= r <= s@.len(),
{
    let n = s.unicode_len();
    let mut k = i;
    while k < n && is_digit_char(s.get_char(k))
        invariant
            i <= k <= n,
            n == s@.len(),
            digit_count(s@, i as int) == (k - i) + digit_count(s@, k as int),
        decreases n - k,
    {
        k = k + 1;
    }
    proof {
        assert(digit_count(s@, k as int) == 0);
    }
    k
}

/// Whether `c` is a decimal digit.
fn is_digit_char(c: char) -> (r: bool)
    ensures
        r == is_digit(c),
{
    '0' <= c && c <= '9'
}

/// The value of one hex digit, when `c` is one.
fn hex_digit_char(c: char) -> (r: Option<u32>)
    ensures
        match r {
            Some(v) => hex_digit_val(c) == v as int && v < 16,
            None => hex_digit_val(c) < 0,
        },
{
    if '0' <= c && c <= '9' {
        Some(c as u32 - 48)
    } else if 'a' <= c && c <= 'f' {
        Some(c as u32 - 87)
    } else if 'A' <= c && c <= 'F' {
        Some(c as u32 - 55)
    } else {
        None
    }
}

/// Parse one value, leading whitespace included.
fn parse_value(s: &str, i: usize) -> (r: Result<(JsonValue, usize), JsonParseError>)
    requires
        i <= s@.len(),
    ensures
        match r {
            Ok(p) => sp_value(s@, i as int) == Some((node_of(p.0), p.1 as int)) && i < p.1
                <= s@.len(),
            Err(_) => sp_value(s@, i as int) is None,
        },
    decreases s@.len() - i, 0int,
{
    let n = s.unicode_len();
    let j = skip_ws(s, i);
    if j >= n {
        return Err(JsonParseError { pos: j });
    }
    let c = s.get_char(j);
    if c == '{' {
        match parse_obj_body(s, j + 1) {
            Ok((ms, k)) => Ok((JsonValue::Obj(ms), k)),
            Err(e) => Err(e),
        }
    } else if c == '[' {
        match parse_arr_body(s, j + 1) {
            Ok((items, k)) => Ok((JsonValue::Arr(items), k)),
            Err(e) => Err(e),
        }
    } else if c == '"' {
        match parse_string(s, j + 1) {
            Ok((t, k)) => Ok((JsonValue::Str(t), k)),
            Err(e) => Err(e),
        }
    } else if c == 't' {
        proof {
            reveal_strlit("true");
        }
        if expect_lit(s, j, "true") {
            Ok((JsonValue::Bool(true), j + 4))
        } else {
            Err(JsonParseError { pos: j })
        }
    } else if c == 'f' {
        proof {
            reveal_strlit("false");
        }
        if expect_lit(s, j, "false") {
            Ok((JsonValue::Bool(false), j + 5))
        } else {
            Err(JsonParseError { pos: j })
        }
    } else if c == 'n' {
        proof {
            reveal_strlit("null");
        }
        if expect_lit(s, j, "null") {
            Ok((JsonValue::Null, j + 4))
        } else {
            Err(JsonParseError { pos: j })
        }
    } else if c == '-' || is_digit_char(c) {
        match parse_number(s, j) {
            Ok((v, k)) => Ok((v, k)),
            Err(e) => Err(e),
        }
    } else {
        Err(JsonParseError { pos: j })
    }
}

/// Parse an object body, starting just after `{`.
fn parse_obj_body(s: &str, i: usize) -> (r: Result<
    (Vec<(String, JsonValue)>, usize),
    JsonParseError,
>)
    requires
        i <= s@.len(),
    ensures
        match r {
            Ok(p) => sp_obj_body(s@, i as int) == Some((members_from(p.0@, 0), p.1 as int)) && i
                < p.1 <= s@.len(),
            Err(_) => sp_obj_body(s@, i as int) is None,
        },
    decreases s@.len() - i, 2int,
{
    let n = s.unicode_len();
    let j = skip_ws(s, i);
    if j >= n {
        return Err(JsonParseError { pos: j });
    }
    if s.get_char(j) == '}' {
        let empty: Vec<(String, JsonValue)> = Vec::new();
        proof {
            assert(members_from(empty@, 0) =~= Seq::<(Seq<char>, JsonNode)>::empty());
        }
        Ok((empty, j + 1))
    } else {
        parse_members(s, i)
    }
}

/// Parse a member list, up to and including the closing `}`.
fn parse_members(s: &str, i: usize) -> (r: Result<
    (Vec<(String, JsonValue)>, usize),
    JsonParseError,
>)
    requires
        i <= s@.len(),
    ensures
        match r {
            Ok(p) => sp_members(s@, i as int) == Some((members_from(p.0@, 0), p.1 as int)) && i
                < p.1 <= s@.len(),
            Err(_) => sp_members(s@, i as int) is None,
        },
    decreases s@.len() - i, 1int,
{
    let n = s.unicode_len();
    let j = skip_ws(s, i);
    if j >= n {
        return Err(JsonParseError { pos: j });
    }
    if s.get_char(j) != '"' {
        return Err(JsonParseError { pos: j });
    }
    let (key, k) = match parse_string(s, j + 1) {
        Ok(p) => p,
        Err(e) => {
            return Err(e);
        },
    };
    let c = skip_ws(s, k);
    if c >= n {
        return Err(JsonParseError { pos: c });
    }
    if s.get_char(c) != ':' {
        return Err(JsonParseError { pos: c });
    }
    let (v, m) = match parse_value(s, c + 1) {
        Ok(p) => p,
        Err(e) => {
            return Err(e);
        },
    };
    proof {
        assert(aft(j as int, m as int) == m as int);
    }
    let w = skip_ws(s, m);
    if w >= n {
        return Err(JsonParseError { pos: w });
    }
    let wc = s.get_char(w);
    if wc == ',' {
        let (mut rest, e) = match parse_members(s, w + 1) {
            Ok(p) => p,
            Err(er) => {
                return Err(er);
            },
        };
        let ghost rest0 = rest@;
        rest.insert(0, (key, v));
        proof {
            assert(rest@ =~= seq![(key, v)] + rest0);
            lemma_members_from_prepend((key, v), rest0);
            assert(members_from(rest@, 0) =~= seq![(key@, node_of(v))] + members_from(rest0, 0));
        }
        Ok((rest, e))
    } else if wc == '}' {
        let mut one: Vec<(String, JsonValue)> = Vec::new();
        one.push((key, v));
        proof {
            lemma_members_from(one@, 0);
            assert(members_from(one@, 0) =~= seq![(key@, node_of(v))]);
        }
        Ok((one, w + 1))
    } else {
        Err(JsonParseError { pos: w })
    }
}

/// Parse an array body, starting just after `[`.
fn parse_arr_body(s: &str, i: usize) -> (r: Result<(Vec<JsonValue>, usize), JsonParseError>)
    requires
        i <= s@.len(),
    ensures
        match r {
            Ok(p) => sp_arr_body(s@, i as int) == Some((nodes_from(p.0@, 0), p.1 as int)) && i
                < p.1 <= s@.len(),
            Err(_) => sp_arr_body(s@, i as int) is None,
        },
    decreases s@.len() - i, 2int,
{
    let n = s.unicode_len();
    let j = skip_ws(s, i);
    if j >= n {
        return Err(JsonParseError { pos: j });
    }
    if s.get_char(j) == ']' {
        let empty: Vec<JsonValue> = Vec::new();
        proof {
            assert(nodes_from(empty@, 0) =~= Seq::<JsonNode>::empty());
        }
        Ok((empty, j + 1))
    } else {
        parse_elems(s, i)
    }
}

/// Parse an element list, up to and including the closing `]`.
fn parse_elems(s: &str, i: usize) -> (r: Result<(Vec<JsonValue>, usize), JsonParseError>)
    requires
        i <= s@.len(),
    ensures
        match r {
            Ok(p) => sp_elems(s@, i as int) == Some((nodes_from(p.0@, 0), p.1 as int)) && i < p.1
                <= s@.len(),
            Err(_) => sp_elems(s@, i as int) is None,
        },
    decreases s@.len() - i, 1int,
{
    let n = s.unicode_len();
    let (v, m) = match parse_value(s, i) {
        Ok(p) => p,
        Err(e) => {
            return Err(e);
        },
    };
    proof {
        assert(aft(i as int, m as int) == m as int);
    }
    let w = skip_ws(s, m);
    if w >= n {
        return Err(JsonParseError { pos: w });
    }
    let wc = s.get_char(w);
    if wc == ',' {
        let (mut rest, e) = match parse_elems(s, w + 1) {
            Ok(p) => p,
            Err(er) => {
                return Err(er);
            },
        };
        let ghost rest0 = rest@;
        rest.insert(0, v);
        proof {
            assert(rest@ =~= seq![v] + rest0);
            lemma_nodes_from_prepend(v, rest0);
            assert(nodes_from(rest@, 0) =~= seq![node_of(v)] + nodes_from(rest0, 0));
        }
        Ok((rest, e))
    } else if wc == ']' {
        let mut one: Vec<JsonValue> = Vec::new();
        one.push(v);
        proof {
            lemma_nodes_from(one@, 0);
            assert(nodes_from(one@, 0) =~= seq![node_of(v)]);
        }
        Ok((one, w + 1))
    } else {
        Err(JsonParseError { pos: w })
    }
}

/// Parse a whole JSON document: one value with nothing but whitespace
/// around it.  Returns exactly the value the grammar gives the text, or an
/// error where the text does not conform.
pub fn parse(s: &str) -> (r: Result<JsonValue, JsonParseError>)
    ensures
        match r {
            Ok(v) => sp_doc(s@) == Some(node_of(v)),
            Err(_) => sp_doc(s@) is None,
        },
{
    let n = s.unicode_len();
    let (v, m) = match parse_value(s, 0) {
        Ok(p) => p,
        Err(e) => {
            return Err(e);
        },
    };
    let w = skip_ws(s, m);
    if w < n {
        return Err(JsonParseError { pos: w });
    }
    Ok(v)
}

/// The first binding for `key` among the members of an object, if any.
pub open spec fn spec_lookup(members: Seq<(Seq<char>, JsonNode)>, key: Seq<char>) -> Option<
    JsonNode,
>
    decreases members.len(),
{
    if members.len() == 0 {
        None
    } else if members[0].0 == key {
        Some(members[0].1)
    } else {
        spec_lookup(members.drop_first(), key)
    }
}

/// The first binding for `key` in `doc`, which must be an object.
pub open spec fn spec_member(doc: JsonNode, key: Seq<char>) -> Option<JsonNode> {
    match doc {
        JsonNode::Obj(members) => spec_lookup(members, key),
        _ => None,
    }
}

/// Whether `doc` is an object with a binding for `key`.
pub open spec fn spec_has_member(doc: JsonNode, key: Seq<char>) -> bool {
    spec_member(doc, key) is Some
}

impl JsonValue {
    /// Look up the first member named `key`, when this value is an object.
    pub fn member<'a>(&'a self, key: &str) -> (r: Option<&'a JsonValue>)
        ensures
            match r {
                Some(v) => spec_member(self.deep_view(), key@) == Some(v.deep_view()),
                None => spec_member(self.deep_view(), key@) is None,
            },
    {
        match self {
            JsonValue::Obj(members) => {
                let ghost vm = self.deep_view()->Obj_0;
                let n = members.len();
                let mut i: usize = 0;
                proof {
                    lemma_members_from(members@, 0);
                    assert(vm =~= members_from(members@, 0));
                    assert(vm.skip(0) =~= vm);
                }
                while i < n
                    invariant
                        n == members@.len(),
                        i <= n,
                        vm.len() == n,
                        self.deep_view() == JsonNode::Obj(vm),
                        forall|j: int|
                            0 <= j < n ==> vm[j] == (members@[j].0@, members@[j].1.deep_view()),
                        spec_lookup(vm, key@) == spec_lookup(vm.skip(i as int), key@),
                    decreases n - i,
                {
                    proof {
                        assert(vm.skip(i as int)[0] == vm[i as int]);
                        assert(vm.skip(i as int).drop_first() =~= vm.skip(i + 1));
                    }
                    if crate::strutil::str_eq(members[i].0.as_str(), key) {
                        proof {
                            assert(members@[i as int].0@ == key@);
                            assert(vm[i as int].0 == key@);
                            assert(spec_lookup(vm.skip(i as int), key@) == Some(
                                vm[i as int].1,
                            ));
                            assert(spec_member(self.deep_view(), key@) == Some(
                                members@[i as int].1.deep_view(),
                            ));
                        }
                        return Some(&members[i].1);
                    }
                    i = i + 1;
                }
                proof {
                    assert(vm.skip(n as int) =~= Seq::<(Seq<char>, JsonNode)>::empty());
                }
                None
            },
            _ => None,
        }
    }

    /// Whether this value is an object with a member named `key`.
    pub fn has_member(&self, key: &str) -> (r: bool)
        ensures
            r == spec_has_member(self.deep_view(), key@),
    {
        self.member(key).is_some()
    }

    /// A copy of this value with the same shape.
    pub fn deep_copy(&self) -> (r: JsonValue)
        ensures
            node_of(r) == node_of(*self),
        decreases *self, 0int,
    {
        match self {
            JsonValue::Null => JsonValue::Null,
            JsonValue::Bool(b) => JsonValue::Bool(*b),
            JsonValue::Int(n) => JsonValue::Int(*n),
            JsonValue::Num(t) => JsonValue::Num(t.clone()),
            JsonValue::Str(s) => JsonValue::Str(s.clone()),
            JsonValue::Arr(items) => {
                proof {
                    assert(decreases_to!(*self => (*self)->Arr_0));
                }
                let out = copy_values(items);
                proof {
                    lemma_nodes_from(out@, 0);
                    lemma_nodes_from(items@, 0);
                    assert forall|j: int| 0 <= j < items@.len() implies nodes_from(out@, 0)[j]
                        == nodes_from(items@, 0)[j] by {
                        assert(nodes_from(out@, 0)[j - 0] == node_of(out@[j]));
                        assert(nodes_from(items@, 0)[j - 0] == node_of(items@[j]));
                    }
                    assert(nodes_from(out@, 0) =~= nodes_from(items@, 0));
                }
                JsonValue::Arr(out)
            },
            JsonValue::Obj(ms) => {
                proof {
                    assert(decreases_to!(*self => (*self)->Obj_0));
                }
                let out = copy_members(ms);
                proof {
                    lemma_members_from(out@, 0);
                    lemma_members_from(ms@, 0);
                    assert forall|j: int| 0 <= j < ms@.len() implies members_from(out@, 0)[j]
                        == members_from(ms@, 0)[j] by {
                        assert(members_from(out@, 0)[j - 0] == (out@[j].0@, node_of(out@[j].1)));
                        assert(members_from(ms@, 0)[j - 0] == (ms@[j].0@, node_of(ms@[j].1)));
                    }
                    assert(members_from(out@, 0) =~= members_from(ms@, 0));
                }
                JsonValue::Obj(out)
            },
        }
    }
}

/// A copy of each value in `items`, with the same shapes.
fn copy_values(items: &Vec<JsonValue>) -> (r: Vec<JsonValue>)
    ensures
        r@.len() == items@.len(),
        forall|k: int| 0 <= k < items@.len() ==> node_of(r@[k]) == node_of(items@[k]),
    decreases *items, 1int,
{
    let n = items.len();
    let mut out: Vec<JsonValue> = Vec::new();
    let mut i: usize = 0;
    while i < n
        invariant
            i <= n,
            n == items@.len(),
            out@.len() == i,
            forall|k: int| 0 <= k < i ==> node_of(out@[k]) == node_of(items@[k]),
        decreases n - i,
    {
        proof {
            assert(decreases_to!(*items => items@));
            assert(decreases_to!(items@ => items@[i as int]));
        }
        let c = items[i].deep_copy();
        out.push(c);
        i = i + 1;
    }
    out
}

/// A copy of each member of `ms`, with the same keys and shapes.
fn copy_members(ms: &Vec<(String, JsonValue)>) -> (r: Vec<(String, JsonValue)>)
    ensures
        r@.len() == ms@.len(),
        forall|k: int|
            0 <= k < ms@.len() ==> (r@[k].0@ == ms@[k].0@ && node_of(r@[k].1) == node_of(
                ms@[k].1,
            )),
    decreases *ms, 1int,
{
    let n = ms.len();
    let mut out: Vec<(String, JsonValue)> = Vec::new();
    let mut i: usize = 0;
    while i < n
        invariant
            i <= n,
            n == ms@.len(),
            out@.len() == i,
            forall|k: int|
                0 <= k < i ==> (out@[k].0@ == ms@[k].0@ && node_of(out@[k].1) == node_of(
                    ms@[k].1,
                )),
        decreases n - i,
    {
        proof {
            assert(decreases_to!(*ms => ms@));
            assert(decreases_to!(ms@ => ms@[i as int]));
            assert(decreases_to!(ms@[i as int] => ms@[i as int].1));
        }
        let key = ms[i].0.clone();
        let val = ms[i].1.deep_copy();
        out.push((key, val));
        i = i + 1;
    }
    out
}

// ---------------------------------------------------------------------------
// The printer: the canonical rendering of a node, and an executable writer
// proved to produce exactly that rendering.
// ---------------------------------------------------------------------------
/// How one character is rendered inside a string literal.
pub open spec fn spec_escape_char(c: char) -> Seq<char> {
    if c == '"' {
        seq!['\\', '"']
    } else if c == '\\' {
        seq!['\\', '\\']
    } else if c == '\n' {
        seq!['\\', 'n']
    } else if c == '\t' {
        seq!['\\', 't']
    } else if c == '\r' {
        seq!['\\', 'r']
    } else if c == '\u{8}' {
        seq!['\\', 'b']
    } else if c == '\u{c}' {
        seq!['\\', 'f']
    } else if (c as u32) < 32 {
        seq![
            '\\',
            'u',
            '0',
            '0',
            crate::crypto::hex_digit(((c as u32) / 16) as u8),
            crate::crypto::hex_digit(((c as u32) % 16) as u8),
        ]
    } else {
        seq![c]
    }
}

/// The rendering of a string's characters, escapes included.
pub open spec fn spec_escape(t: Seq<char>) -> Seq<char>
    decreases t.len(),
{
    if t.len() == 0 {
        Seq::empty()
    } else {
        spec_escape_char(t[0]) + spec_escape(t.drop_first())
    }
}

/// Escaping distributes over concatenation.
pub proof fn lemma_escape_concat(a: Seq<char>, b: Seq<char>)
    ensures
        spec_escape(a + b) =~= spec_escape(a) + spec_escape(b),
    decreases a.len(),
{
    if a.len() == 0 {
        assert(a + b =~= b);
    } else {
        assert((a + b).drop_first() =~= a.drop_first() + b);
        lemma_escape_concat(a.drop_first(), b);
    }
}

/// The rendering of a string: quoted and escaped.
pub open spec fn spec_print_str(t: Seq<char>) -> Seq<char> {
    seq!['"'] + spec_escape(t) + seq!['"']
}

/// A rendered hex digit reads back as its nibble.
proof fn lemma_hex_digit_val_of(n: u8)
    requires
        n < 16,
    ensures
        hex_digit_val(crate::crypto::hex_digit(n)) == n as int,
{
}

/// The printer's rendering of a string body parses back to exactly that
/// string: wherever the text from `i` on holds the escaped characters of
/// `t` and then a closing quote, the string parser at `i` yields `t`,
/// ending just past that quote.  This ties the printer to the parser for
/// the one part of the grammar where the two transform the text rather
/// than copy it.
pub proof fn lemma_escaped_string_parses(s: Seq<char>, i: int, t: Seq<char>)
    requires
        0 <= i,
        i + spec_escape(t).len() + 1 <= s.len(),
        s.subrange(i, i + spec_escape(t).len() + 1) == spec_escape(t) + seq!['"'],
    ensures
        sp_string(s, i) == Some((t, i + spec_escape(t).len() + 1)),
    decreases t.len(),
{
    let e = spec_escape(t);
    let sub = s.subrange(i, i + e.len() + 1);
    if t.len() == 0 {
        assert(e =~= Seq::<char>::empty());
        assert(s[i] == sub[0]);
        assert(s[i] == '"');
    } else {
        let c = t[0];
        let ec = spec_escape_char(c);
        let t2 = t.drop_first();
        let e2 = spec_escape(t2);
        assert(e == ec + e2);
        assert forall|k: int| 0 <= k < ec.len() implies s[i + k] == ec[k] by {
            assert(sub[k] == s[i + k]);
            assert((e + seq!['"'])[k] == e[k]);
            assert(e[k] == (ec + e2)[k]);
        }
        let i2 = i + ec.len();
        assert forall|k: int| 0 <= k < e2.len() + 1 implies s.subrange(
            i2,
            i2 + e2.len() + 1,
        )[k] == (e2 + seq!['"'])[k] by {
            assert(s.subrange(i2, i2 + e2.len() + 1)[k] == s[i2 + k]);
            assert(s[i2 + k] == sub[ec.len() + k]);
            assert(sub[ec.len() + k] == (e + seq!['"'])[ec.len() + k]);
            if k < e2.len() {
                assert((e + seq!['"'])[ec.len() + k] == e[ec.len() + k]);
                assert(e[ec.len() + k] == (ec + e2)[ec.len() + k]);
            }
        }
        assert(s.subrange(i2, i2 + e2.len() + 1) =~= e2 + seq!['"']);
        lemma_escaped_string_parses(s, i2, t2);
        if c == '"' || c == '\\' || c == '\n' || c == '\t' || c == '\r' || c == '\u{8}' || c
            == '\u{c}' {
            assert(s[i] == '\\');
            assert(spec_unescape(s[i + 1]) == Some(c));
            assert(s[i + 1] != 'u');
            assert(sp_string(s, i) == Some((seq![c] + t2, i + e.len() + 1)));
        } else if (c as u32) < 32 {
            let hi = ((c as u32) / 16) as u8;
            let lo = ((c as u32) % 16) as u8;
            assert(s[i] == '\\' && s[i + 1] == 'u' && s[i + 2] == '0' && s[i + 3] == '0');
            assert(s[i + 4] == crate::crypto::hex_digit(hi));
            assert(s[i + 5] == crate::crypto::hex_digit(lo));
            lemma_hex_digit_val_of(hi);
            lemma_hex_digit_val_of(lo);
            assert(hex_digit_val('0') == 0);
            assert(hex4_val(s, i + 2) == (hi as int) * 16 + lo as int);
            assert((c as u32) / 16 < 256 && (c as u32) % 16 < 256);
            assert(hi as int == ((c as u32) / 16) as int);
            assert(lo as int == ((c as u32) % 16) as int);
            assert((c as u32) == ((c as u32) / 16) * 16 + (c as u32) % 16);
            assert(hex4_val(s, i + 2) == char_code(c));
            let w = char_of(char_code(c));
            assert(char_code(w) == char_code(c));
            assert(w as u32 == c as u32);
            vstd::utf8::char_u32_cast(w, w as u32);
            vstd::utf8::char_u32_cast(c, c as u32);
            assert(w == c);
            assert(sp_string(s, i) == Some((seq![c] + t2, i + e.len() + 1)));
        } else {
            assert(ec == seq![c]);
            assert(s[i + 0] == ec[0]);
            assert(s[i] == c);
            assert(c != '"' && c != '\\' && !((c as u32) < 32));
            assert(sp_string(s, i) == Some((seq![c] + t2, i + e.len() + 1)));
        }
        assert(seq![c] + t2 =~= t);
    }
}

/// The rendering of an integer: an optional minus sign and decimal digits.
pub open spec fn spec_print_int(v: int) -> Seq<char> {
    if v < 0 {
        seq!['-'] + crate::strutil::dec_rep((-v) as nat)
    } else {
        crate::strutil::dec_rep(v as nat)
    }
}

/// The canonical rendering of a node: no whitespace, members and elements
/// in order, strings escaped as [`spec_escape_char`] says.
pub open spec fn spec_print(n: JsonNode) -> Seq<char>
    decreases n, 0int,
{
    match n {
        JsonNode::Null => "null"@,
        JsonNode::Bool(b) => if b {
            "true"@
        } else {
            "false"@
        },
        JsonNode::Int(v) => spec_print_int(v),
        JsonNode::Num(t) => t,
        JsonNode::Str(t) => spec_print_str(t),
        JsonNode::Arr(items) => {
            if items.len() == 0 {
                "[]"@
            } else {
                proof {
                    assert(decreases_to!(n => n->Arr_0));
                    assert(decreases_to!(n, 0int => n->Arr_0, items.len() as int));
                }
                seq!['['] + spec_print_elems(items, 0) + seq![']']
            }
        },
        JsonNode::Obj(ms) => {
            if ms.len() == 0 {
                "{}"@
            } else {
                proof {
                    assert(decreases_to!(n => n->Obj_0));
                    assert(decreases_to!(n, 0int => n->Obj_0, ms.len() as int));
                }
                seq!['{'] + spec_print_members(ms, 0) + seq!['}']
            }
        },
    }
}

/// The rendering of the elements from `i` on, separated by commas.
pub open spec fn spec_print_elems(items: Seq<JsonNode>, i: int) -> Seq<char>
    decreases items, items.len() - i,
{
    if i < 0 || i >= items.len() {
        Seq::empty()
    } else {
        proof {
            assert(decreases_to!(items, items.len() - i => items[i], 0int));
        }
        spec_print(items[i]) + (if i + 1 < items.len() {
            seq![','] + spec_print_elems(items, i + 1)
        } else {
            Seq::empty()
        })
    }
}

/// The rendering of the members from `i` on, separated by commas.
pub open spec fn spec_print_members(ms: Seq<(Seq<char>, JsonNode)>, i: int) -> Seq<char>
    decreases ms, ms.len() - i,
{
    if i < 0 || i >= ms.len() {
        Seq::empty()
    } else {
        proof {
            assert(decreases_to!(ms => ms[i]));
            assert(decreases_to!(ms[i] => ms[i].1));
            assert(decreases_to!(ms, ms.len() - i => ms[i].1, 0int));
        }
        spec_print_str(ms[i].0) + seq![':'] + spec_print(ms[i].1) + (if i + 1 < ms.len() {
            seq![','] + spec_print_members(ms, i + 1)
        } else {
            Seq::empty()
        })
    }
}

/// The lowercase hex character for a nibble.
fn hex_char(n: u8) -> (r: char)
    requires
        n < 16,
    ensures
        r == crate::crypto::hex_digit(n),
{
    if n < 10 {
        (n + 48) as char
    } else {
        (n + 87) as char
    }
}

/// Append the rendering of a string literal to `out`.
fn write_str(t: &str, out: &mut String)
    ensures
        final(out)@ == old(out)@ + spec_print_str(t@),
{
    let n = t.unicode_len();
    let ghost base = out@;
    push_char(out, '"');
    let mut i: usize = 0;
    proof {
        assert(t@.take(0) =~= Seq::<char>::empty());
        assert(base.push('"') =~= base + seq!['"'] + spec_escape(t@.take(0)));
    }
    while i < n
        invariant
            i <= n,
            n == t@.len(),
            out@ == base + seq!['"'] + spec_escape(t@.take(i as int)),
        decreases n - i,
    {
        let c = t.get_char(i);
        proof {
            assert(t@.take(i + 1) =~= t@.take(i as int) + seq![t@[i as int]]);
            lemma_escape_concat(t@.take(i as int), seq![t@[i as int]]);
            assert(seq![t@[i as int]].drop_first() =~= Seq::<char>::empty());
            assert(spec_escape(Seq::<char>::empty()) =~= Seq::<char>::empty());
            assert(spec_escape(seq![t@[i as int]]) =~= spec_escape_char(t@[i as int])
                + Seq::<char>::empty());
            assert(spec_escape(seq![t@[i as int]]) =~= spec_escape_char(t@[i as int]));
        }
        if c == '"' {
            push_char(out, '\\');
            push_char(out, '"');
        } else if c == '\\' {
            push_char(out, '\\');
            push_char(out, '\\');
        } else if c == '\n' {
            push_char(out, '\\');
            push_char(out, 'n');
        } else if c == '\t' {
            push_char(out, '\\');
            push_char(out, 't');
        } else if c == '\r' {
            push_char(out, '\\');
            push_char(out, 'r');
        } else if c == '\u{8}' {
            push_char(out, '\\');
            push_char(out, 'b');
        } else if c == '\u{c}' {
            push_char(out, '\\');
            push_char(out, 'f');
        } else if (c as u32) < 32 {
            push_char(out, '\\');
            push_char(out, 'u');
            push_char(out, '0');
            push_char(out, '0');
            push_char(out, hex_char(((c as u32) / 16) as u8));
            push_char(out, hex_char(((c as u32) % 16) as u8));
        } else {
            push_char(out, c);
        }
        proof {
            assert(out@ =~= base + seq!['"'] + spec_escape(t@.take(i + 1)));
        }
        i = i + 1;
    }
    push_char(out, '"');
    proof {
        assert(t@.take(n as int) =~= t@);
        assert(out@ =~= base + spec_print_str(t@));
    }
}

/// Append the rendering of an integer to `out`.
fn write_int(v: i64, out: &mut String)
    ensures
        final(out)@ == old(out)@ + spec_print_int(v as int),
{
    if v < 0 {
        push_char(out, '-');
        let m: u64 = if v == i64::MIN {
            9223372036854775808u64
        } else {
            (-v) as u64
        };
        crate::strutil::push_u64(out, m);
        proof {
            assert(old(out)@.push('-') =~= old(out)@ + seq!['-']);
            assert(out@ =~= old(out)@ + spec_print_int(v as int));
        }
    } else {
        crate::strutil::push_u64(out, v as u64);
    }
}

/// Append the rendering of a value to `out`.
fn write_value(v: &JsonValue, out: &mut String)
    ensures
        final(out)@ == old(out)@ + spec_print(node_of(*v)),
    decreases *v, 0int,
{
    match v {
        JsonValue::Null => out.append("null"),
        JsonValue::Bool(b) => {
            if *b {
                out.append("true")
            } else {
                out.append("false")
            }
        },
        JsonValue::Int(n) => write_int(*n, out),
        JsonValue::Num(t) => out.append(t.as_str()),
        JsonValue::Str(s) => write_str(s.as_str(), out),
        JsonValue::Arr(items) => {
            if items.len() == 0 {
                proof {
                    assert(nodes_from(items@, 0) =~= Seq::<JsonNode>::empty());
                }
                out.append("[]");
            } else {
                let ghost base = out@;
                push_char(out, '[');
                proof {
                    assert(decreases_to!(*v => v->Arr_0));
                    assert(decreases_to!(v->Arr_0 => items@));
                    lemma_nodes_from(items@, 0);
                }
                write_elems(items, 0, out);
                push_char(out, ']');
                proof {
                    assert(out@ =~= base + spec_print(node_of(*v)));
                }
            }
        },
        JsonValue::Obj(ms) => {
            if ms.len() == 0 {
                proof {
                    assert(members_from(ms@, 0) =~= Seq::<(Seq<char>, JsonNode)>::empty());
                }
                out.append("{}");
            } else {
                let ghost base = out@;
                push_char(out, '{');
                proof {
                    assert(decreases_to!(*v => v->Obj_0));
                    assert(decreases_to!(v->Obj_0 => ms@));
                    lemma_members_from(ms@, 0);
                }
                write_members(ms, 0, out);
                push_char(out, '}');
                proof {
                    assert(out@ =~= base + spec_print(node_of(*v)));
                }
            }
        },
    }
}

/// Append the rendering of the elements from `i` on to `out`.
fn write_elems(items: &Vec<JsonValue>, i: usize, out: &mut String)
    requires
        i < items@.len(),
    ensures
        final(out)@ == old(out)@ + spec_print_elems(nodes_from(items@, 0), i as int),
    decreases *items, items@.len() - i,
{
    proof {
        assert(decreases_to!(*items => items@));
        assert(decreases_to!(items@ => items@[i as int]));
        lemma_nodes_from(items@, 0);
    }
    write_value(&items[i], out);
    let last = items.len() - 1;
    if i < last {
        push_char(out, ',');
        write_elems(items, i + 1, out);
        proof {
            assert(out@ =~= old(out)@ + spec_print_elems(nodes_from(items@, 0), i as int));
        }
    } else {
        proof {
            assert(out@ =~= old(out)@ + spec_print_elems(nodes_from(items@, 0), i as int));
        }
    }
}

/// Append the rendering of the members from `i` on to `out`.
fn write_members(ms: &Vec<(String, JsonValue)>, i: usize, out: &mut String)
    requires
        i < ms@.len(),
    ensures
        final(out)@ == old(out)@ + spec_print_members(members_from(ms@, 0), i as int),
    decreases *ms, ms@.len() - i,
{
    proof {
        assert(decreases_to!(*ms => ms@));
        assert(decreases_to!(ms@ => ms@[i as int]));
        assert(decreases_to!(ms@[i as int] => ms@[i as int].1));
        lemma_members_from(ms@, 0);
    }
    write_str(ms[i].0.as_str(), out);
    push_char(out, ':');
    write_value(&ms[i].1, out);
    let last = ms.len() - 1;
    if i < last {
        push_char(out, ',');
        write_members(ms, i + 1, out);
        proof {
            assert(out@ =~= old(out)@ + spec_print_members(members_from(ms@, 0), i as int));
        }
    } else {
        proof {
            assert(out@ =~= old(out)@ + spec_print_members(members_from(ms@, 0), i as int));
        }
    }
}

/// Render a value as JSON text: the canonical form [`spec_print`] describes.
pub fn to_text(v: &JsonValue) -> (r: String)
    ensures
        r@ == spec_print(v.deep_view()),
{
    let mut out = String::new();
    write_value(v, &mut out);
    proof {
        assert(Seq::<char>::empty() + spec_print(node_of(*v)) =~= spec_print(node_of(*v)));
    }
    out
}

} // verus!
