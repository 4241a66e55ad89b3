use vstd::prelude::*;
use vstd::string::*;

verus! {

/// A lower-case hexadecimal digit.
pub open spec fn hex_digit(n: u32) -> char {
    "0123456789abcdef"@[n as int]
}

/// How serde_json writes one character inside a string literal: quote and
/// backslash escaped, the short escapes for backspace, tab, newline, form
/// feed and carriage return, `\u00xx` for the other control characters
/// below 0x20, and every other character as it is.
pub open spec fn json_escape(c: char) -> Seq<char> {
    if c == '"' {
        seq!['\\', '"']
    } else if c == '\\' {
        seq!['\\', '\\']
    } else if c == '\u{8}' {
        seq!['\\', 'b']
    } else if c == '\t' {
        seq!['\\', 't']
    } else if c == '\n' {
        seq!['\\', 'n']
    } else if c == '\u{c}' {
        seq!['\\', 'f']
    } else if c == '\r' {
        seq!['\\', 'r']
    } else if (c as u32) < 0x20 {
        seq!['\\', 'u', '0', '0', hex_digit((c as u32) / 16), hex_digit((c as u32) % 16)]
    } else {
        seq![c]
    }
}

/// The characters of a text, each escaped.
pub open spec fn json_escaped(s: Seq<char>) -> Seq<char>
    decreases s.len(),
{
    if s.len() == 0 {
        Seq::empty()
    } else {
        json_escaped(s.drop_last()) + json_escape(s.last())
    }
}

/// The JSON string literal that serde_json writes for a text.
pub open spec fn json_quoted(s: Seq<char>) -> Seq<char> {
    seq!['"'] + json_escaped(s) + seq!['"']
}

/// What serde_json decodes from `raw` read as an object whose members are all
/// strings, as (name, value) pairs in ascending name order; `None` where
/// `raw` is no such object.
pub uninterp spec fn json_text_object(raw: Seq<char>) -> Option<Seq<(Seq<char>, Seq<char>)>>;

/// What serde_json decodes from `raw` read as an object whose members are all
/// arrays of strings, as (name, values) pairs in ascending name order; `None`
/// where `raw` is no such object.
pub uninterp spec fn json_list_object(raw: Seq<char>) -> Option<
    Seq<(Seq<char>, Seq<Seq<char>>)>,
>;

/// Relies on serde_json's `Display` for `Value::String`: it prints the
/// text between quotes, escaped as `format_escaped_str` does.
#[verifier::external_body]
fn quote_json(s: &str) -> (r: String)
    ensures
        r@ == json_quoted(s@),
{
    serde_json::Value::from(s).to_string()
}

/// Relies on `serde_json::from_str` into a `BTreeMap<String, String>`,
/// whose entries are then listed in key order.
#[verifier::external_body]
fn decode_text_object(raw: &str) -> (r: Option<Vec<(String, String)>>)
    ensures
        match r {
            Some(v) => json_text_object(raw@) == Some(text_pairs_view(v@)),
            None => json_text_object(raw@) is None,
        },
{
    serde_json::from_str::<std::collections::BTreeMap<String, String>>(raw).ok().map(
        |m| m.into_iter().collect(),
    )
}

/// Relies on `serde_json::from_str` into a `BTreeMap<String, Vec<String>>`,
/// whose entries are then listed in key order.
#[verifier::external_body]
fn decode_list_object(raw: &str) -> (r: Option<Vec<(String, Vec<String>)>>)
    ensures
        match r {
            Some(v) => json_list_object(raw@) == Some(list_pairs_view(v@)),
            None => json_list_object(raw@) is None,
        },
{
    serde_json::from_str::<std::collections::BTreeMap<String, Vec<String>>>(raw).ok().map(
        |m| m.into_iter().collect(),
    )
}

/// The name of the one member of a structured response.
pub const RESPONSE_KEY: &'static str = "response";

/// The views of (name, text) pairs.
pub open spec fn text_pairs_view(v: Seq<(String, String)>) -> Seq<(Seq<char>, Seq<char>)> {
    v.map_values(|p: (String, String)| (p.0@, p.1@))
}

/// The views of a list of texts.
pub open spec fn texts_view(v: Seq<String>) -> Seq<Seq<char>> {
    v.map_values(|s: String| s@)
}

/// The views of (name, texts) pairs.
pub open spec fn list_pairs_view(v: Seq<(String, Vec<String>)>) -> Seq<(Seq<char>, Seq<Seq<char>>)> {
    v.map_values(|p: (String, Vec<String>)| (p.0@, texts_view(p.1@)))
}

/// The payload of a decoded object when its only member is `response`.
pub open spec fn sole_response<T>(members: Seq<(Seq<char>, T)>) -> Option<T> {
    if members.len() == 1 && members[0].0 == RESPONSE_KEY@ {
        Some(members[0].1)
    } else {
        None
    }
}

/// The texts joined by `,`, each as its JSON literal.
pub open spec fn quoted_list(v: Seq<Seq<char>>) -> Seq<char>
    decreases v.len(),
{
    if v.len() == 0 {
        Seq::empty()
    } else if v.len() == 1 {
        json_quoted(v[0])
    } else {
        quoted_list(v.drop_last()) + ","@ + json_quoted(v.last())
    }
}

/// The JSON text of a structured response carrying a text.
pub open spec fn text_response_json(s: Seq<char>) -> Seq<char> {
    "{\"response\":"@ + json_quoted(s) + "}"@
}

/// The JSON text of a structured response carrying a list of texts.
pub open spec fn list_response_json(v: Seq<Seq<char>>) -> Seq<char> {
    "{\"response\":["@ + quoted_list(v) + "]}"@
}

/// A structured response: an object with the one member `response`.
pub struct JSONResponse<T> {
    pub response: T,
}

impl JSONResponse<String> {
    /// Wraps a text.
    pub fn from_text(response: &str) -> (r: JSONResponse<String>)
        ensures
            r.response@ == response@,
    {
        JSONResponse { response: response.to_string() }
    }

    /// The compact JSON text of this response.
    pub fn to_json(&self) -> (r: String)
        ensures
            r@ == text_response_json(self.response@),
    {
        let q = quote_json(self.response.as_str());
        "{\"response\":".to_string().concat(q.as_str()).concat("}")
    }
}

impl JSONResponse<Vec<String>> {
    /// The compact JSON text of this response.
    pub fn to_json(&self) -> (r: String)
        ensures
            r@ == list_response_json(texts_view(self.response@)),
    {
        let v = &self.response;
        let mut body = String::new();
        let mut i: usize = 0;
        while i < v.len()
            invariant
                i <= v.len(),
                body@ == quoted_list(texts_view(v@).take(i as int)),
            decreases v.len() - i,
        {
            let q = quote_json(v[i].as_str());
            proof {
                let t = texts_view(v@).take(i + 1);
                assert(t.drop_last() =~= texts_view(v@).take(i as int));
                assert(t.last() == v@[i as int]@);
            }
            if i == 0 {
                body = q;
            } else {
                body = body.concat(",").concat(q.as_str());
            }
            i = i + 1;
        }
        assert(texts_view(v@).take(i as int) =~= texts_view(v@));
        "{\"response\":[".to_string().concat(body.as_str()).concat("]}")
    }
}

impl From<String> for JSONResponse<String> {
    fn from(response: String) -> JSONResponse<String> {
        JSONResponse { response }
    }
}

impl vstd::std_specs::convert::FromSpecImpl<String> for JSONResponse<String> {
    open spec fn obeys_from_spec() -> bool {
        true
    }

    open spec fn from_spec(response: String) -> JSONResponse<String> {
        JSONResponse { response }
    }
}

impl From<Vec<String>> for JSONResponse<Vec<String>> {
    fn from(response: Vec<String>) -> JSONResponse<Vec<String>> {
        JSONResponse { response }
    }
}

impl vstd::std_specs::convert::FromSpecImpl<Vec<String>> for JSONResponse<Vec<String>> {
    open spec fn obeys_from_spec() -> bool {
        true
    }

    open spec fn from_spec(response: Vec<String>) -> JSONResponse<Vec<String>> {
        JSONResponse { response }
    }
}

/// The text of decoded members when the only one is `response`.
pub fn text_response_of(members: Vec<(String, String)>) -> (r: Option<String>)
    ensures
        match r {
            Some(s) => sole_response(text_pairs_view(members@)) == Some(s@),
            None => sole_response(text_pairs_view(members@)) is None,
        },
{
    let mut members = members;
    if members.len() == 1 {
        let ghost m = members@;
        let (name, value) = members.pop().unwrap();
        assert(m[0] == (name, value));
        if spells_exactly(name.as_str(), RESPONSE_KEY) {
            return Some(value);
        }
    }
    None
}

/// The texts of decoded members when the only one is `response`.
pub fn list_response_of(members: Vec<(String, Vec<String>)>) -> (r: Option<Vec<String>>)
    ensures
        match r {
            Some(v) => sole_response(list_pairs_view(members@)) == Some(texts_view(v@)),
            None => sole_response(list_pairs_view(members@)) is None,
        },
{
    let mut members = members;
    if members.len() == 1 {
        let ghost m = members@;
        let (name, value) = members.pop().unwrap();
        assert(m[0] == (name, value));
        if spells_exactly(name.as_str(), RESPONSE_KEY) {
            return Some(value);
        }
    }
    None
}

/// Whether two texts are equal.
pub fn spells_exactly(a: &str, b: &str) -> (r: bool)
    ensures
        r == (a@ == b@),
{
    let n = a.unicode_len();
    if n != b.unicode_len() {
        return false;
    }
    let mut i: usize = 0;
    while i < n
        invariant
            n == a@.len(),
            n == b@.len(),
            i <= n,
            forall|j: int| 0 <= j < i ==> a@[j] == b@[j],
        decreases n - i,
    {
        if a.get_char(i) != b.get_char(i) {
            return false;
        }
        i = i + 1;
    }
    assert(a@ =~= b@);
    true
}

/// Decodes a structured response carrying a text; `None` where `raw` is not
/// an object whose only member is the string `response`.
pub fn parse_text_response(raw: &str) -> (r: Option<String>)
    ensures
        match r {
            Some(s) => json_text_object(raw@) matches Some(m) && sole_response(m) == Some(s@),
            None => !(json_text_object(raw@) matches Some(m) && sole_response(m) is Some),
        },
{
    match decode_text_object(raw) {
        Some(members) => text_response_of(members),
        None => None,
    }
}

/// Decodes a structured response carrying a list of texts; `None` where `raw`
/// is not an object whose only member is the string array `response`.
pub fn parse_list_response(raw: &str) -> (r: Option<Vec<String>>)
    ensures
        match r {
            Some(v) => json_list_object(raw@) matches Some(m) && sole_response(m) == Some(
                texts_view(v@),
            ),
            None => !(json_list_object(raw@) matches Some(m) && sole_response(m) is Some),
        },
{
    match decode_list_object(raw) {
        Some(members) => list_response_of(members),
        None => None,
    }
}

} // verus!
