//! Start of a JSON reader: whitespace, dispatch on the first byte of a
//! value, and the `null` literal.  The readers for the other kinds of value
//! are not written yet and report `"Unsupported value"`.
use vstd::prelude::*;
use vstd::string::StringSliceAdditionalSpecFns;

verus! {

/// A JSON value (numbers are not represented).
pub enum JsonValue {
    Null,
    Bool(bool),
    String(String),
    Array(Vec<JsonValue>),
    Object(Vec<(String, JsonValue)>),
}

/// Reader over the bytes of a document.
pub struct JsonParser<'a> {
    data: &'a [u8],
    pos: usize,
}

pub open spec fn is_ws(b: u8) -> bool {
    b == 32 || b == 9 || b == 10 || b == 13
}

/// The byte at `i`, or 0 past the end.
pub open spec fn byte_at(data: Seq<u8>, i: int) -> u8 {
    if 0 <= i < data.len() {
        data[i]
    } else {
        0
    }
}

/// The first position at or after `pos` that is not whitespace.
pub open spec fn skip_ws(data: Seq<u8>, pos: int) -> int
    decreases data.len() - pos,
{
    if 0 <= pos < data.len() && is_ws(data[pos]) {
        skip_ws(data, pos + 1)
    } else {
        pos
    }
}

/// How many bytes of `null` match at `p`, stopping at the first mismatch.
pub open spec fn null_match(data: Seq<u8>, p: int) -> int {
    if byte_at(data, p) != 110 {
        0
    } else if byte_at(data, p + 1) != 117 {
        1
    } else if byte_at(data, p + 2) != 108 {
        2
    } else if byte_at(data, p + 3) != 108 {
        3
    } else {
        4
    }
}

/// Whether a value starting with `c` is one this reader cannot read yet.
pub open spec fn unsupported_start(c: u8) -> bool {
    c == 116 || c == 102 || c == 34 || (48 <= c <= 57) || c == 45 || c == 91 || c == 123
}

/// What [`JsonParser::parse`] yields from `pos`: the outcome (`None` for
/// `null`, `Some(message)` for an error) and the position after it.
pub open spec fn parse_outcome(data: Seq<u8>, pos: int) -> (Option<&'static str>, int) {
    let p = skip_ws(data, pos);
    let c = byte_at(data, p);
    if c == 110 {
        if null_match(data, p) == 4 {
            (None, p + 4)
        } else {
            (Some("Invalid null"), p + null_match(data, p))
        }
    } else if unsupported_start(c) {
        (Some("Unsupported value"), p)
    } else {
        (Some("Unexpected token"), p)
    }
}

impl<'a> JsonParser<'a> {
    pub closed spec fn bytes(&self) -> Seq<u8> {
        self.data@
    }

    pub closed spec fn position(&self) -> int {
        self.pos as int
    }

    /// A reader at the start of `data`.
    pub fn new(data: &'a str) -> (p: Self)
        ensures
            p.bytes() == data.spec_bytes(),
            p.position() == 0,
    {
        JsonParser { data: data.as_bytes(), pos: 0 }
    }

    /// The current position.
    pub fn pos(&self) -> (p: usize)
        ensures
            p == self.position(),
    {
        self.pos
    }

    fn peek(&self) -> (c: u8)
        ensures
            c == byte_at(self.bytes(), self.position()),
    {
        if self.pos < self.data.len() {
            self.data[self.pos]
        } else {
            0
        }
    }

    fn consume(&mut self, c: u8) -> (hit: bool)
        requires
            old(self).position() <= old(self).bytes().len(),
        ensures
            final(self).bytes() == old(self).bytes(),
            hit == (byte_at(old(self).bytes(), old(self).position()) == c && c != 0),
            final(self).position() == old(self).position() + if hit { 1int } else { 0int },
            final(self).position() <= final(self).bytes().len(),
    {
        if c != 0 && self.pos < self.data.len() && self.data[self.pos] == c {
            self.pos = self.pos + 1;
            true
        } else {
            false
        }
    }

    fn skip_whitespace(&mut self)
        requires
            old(self).position() <= old(self).bytes().len(),
        ensures
            final(self).bytes() == old(self).bytes(),
            final(self).position() == skip_ws(old(self).bytes(), old(self).position()),
            final(self).position() <= final(self).bytes().len(),
    {
        while self.pos < self.data.len() && (self.data[self.pos] == 32 || self.data[self.pos] == 9
            || self.data[self.pos] == 10 || self.data[self.pos] == 13)
            invariant
                self.bytes() == old(self).bytes(),
                self.position() <= self.bytes().len(),
                skip_ws(self.bytes(), self.position()) == skip_ws(old(self).bytes(), old(self).position()),
            decreases self.bytes().len() - self.position(),
        {
            self.pos = self.pos + 1;
        }
    }

    fn parse_null(&mut self) -> (r: Result<JsonValue, &'static str>)
        requires
            old(self).position() <= old(self).bytes().len(),
        ensures
            final(self).bytes() == old(self).bytes(),
            final(self).position() == old(self).position() + null_match(old(self).bytes(), old(self).position()),
            r matches Ok(v) ==> v is Null,
            r is Ok <==> null_match(old(self).bytes(), old(self).position()) == 4,
            r matches Err(e) ==> e == "Invalid null",
    {
        if self.consume(110) && self.consume(117) && self.consume(108) && self.consume(108) {
            Ok(JsonValue::Null)
        } else {
            Err("Invalid null")
        }
    }

    /// Read one value after optional whitespace.
    pub fn parse(&mut self) -> (r: Result<JsonValue, &'static str>)
        requires
            old(self).position() <= old(self).bytes().len(),
        ensures
            final(self).bytes() == old(self).bytes(),
            final(self).position() == parse_outcome(old(self).bytes(), old(self).position()).1,
            r matches Ok(v) ==> v is Null,
            r is Ok <==> parse_outcome(old(self).bytes(), old(self).position()).0 is None,
            r matches Err(e) ==> Some(e) == parse_outcome(old(self).bytes(), old(self).position()).0,
    {
        self.skip_whitespace();
        let c = self.peek();
        if c == 110 {
            self.parse_null()
        } else if c == 116 || c == 102 || c == 34 || (48 <= c && c <= 57) || c == 45 || c == 91
            || c == 123 {
            Err("Unsupported value")
        } else {
            Err("Unexpected token")
        }
    }
}

/// Whitespace before a value does not change what is read.
pub proof fn lemma_leading_whitespace(ws: Seq<u8>, doc: Seq<u8>)
    requires
        forall|i: int| 0 <= i < ws.len() ==> is_ws(#[trigger] ws[i]),
    ensures
        parse_outcome(ws + doc, 0).0 == parse_outcome(doc, 0).0,
        parse_outcome(ws + doc, 0).1 == ws.len() + parse_outcome(doc, 0).1,
{
    lemma_skip_prefix(ws, doc, 0);
    let p = skip_ws(doc, 0);
    assert(p >= 0) by {
        lemma_skip_ws_ge(doc, 0);
    }
    let all = ws + doc;
    let q = ws.len() + p;
    lemma_byte_shift(ws, doc, p);
    lemma_byte_shift(ws, doc, p + 1);
    lemma_byte_shift(ws, doc, p + 2);
    lemma_byte_shift(ws, doc, p + 3);
}

proof fn lemma_byte_shift(ws: Seq<u8>, doc: Seq<u8>, j: int)
    requires
        j >= 0,
    ensures
        byte_at(ws + doc, ws.len() + j) == byte_at(doc, j),
{
    if j < doc.len() {
        assert((ws + doc)[ws.len() + j] == doc[j]);
    }
}

proof fn lemma_skip_ws_ge(data: Seq<u8>, pos: int)
    ensures
        skip_ws(data, pos) >= pos,
    decreases data.len() - pos,
{
    if 0 <= pos < data.len() && is_ws(data[pos]) {
        lemma_skip_ws_ge(data, pos + 1);
    }
}

proof fn lemma_skip_prefix(ws: Seq<u8>, doc: Seq<u8>, i: int)
    requires
        0 <= i <= ws.len(),
        forall|k: int| 0 <= k < ws.len() ==> is_ws(#[trigger] ws[k]),
    ensures
        skip_ws(ws + doc, i) == ws.len() + skip_ws(doc, 0),
    decreases ws.len() - i,
{
    let all = ws + doc;
    if i < ws.len() {
        assert(all[i] == ws[i]);
        lemma_skip_prefix(ws, doc, i + 1);
    } else {
        lemma_skip_shift(ws, doc, 0);
    }
}

proof fn lemma_skip_shift(ws: Seq<u8>, doc: Seq<u8>, j: int)
    requires
        0 <= j <= doc.len(),
    ensures
        skip_ws(ws + doc, ws.len() + j) == ws.len() + skip_ws(doc, j),
    decreases doc.len() - j,
{
    let all = ws + doc;
    if j < doc.len() {
        assert(all[ws.len() + j] == doc[j]);
        if is_ws(doc[j]) {
            lemma_skip_shift(ws, doc, j + 1);
        }
    }
}

} // verus!
