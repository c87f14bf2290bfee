//! Compact JSON text, put together from literals, strings, lists of strings and numbers.

use vstd::prelude::*;

use crate::bytes::text_views;
use crate::hex::hex_digit;
use crate::text::{decimal, is_digit, lemma_decimal_prefix, push_decimal};

verus! {

/// A character inside a JSON string.
pub open spec fn escaped_char(c: char) -> Seq<char> {
    if c == '"' {
        seq!['\\', '"']
    } else if c == '\\' {
        seq!['\\', '\\']
    } else if c == '\u{8}' {
        seq!['\\', 'b']
    } else if c == '\u{c}' {
        seq!['\\', 'f']
    } else if c == '\n' {
        seq!['\\', 'n']
    } else if c == '\r' {
        seq!['\\', 'r']
    } else if c == '\t' {
        seq!['\\', 't']
    } else if (c as int) < 32 {
        seq!['\\', 'u', '0', '0', hex_digit(c as int / 16), hex_digit(c as int % 16)]
    } else {
        seq![c]
    }
}

/// A text inside a JSON string.
pub open spec fn escaped(text: Seq<char>) -> Seq<char>
    decreases text.len(),
{
    if text.len() == 0 {
        Seq::empty()
    } else {
        escaped_char(text[0]) + escaped(text.skip(1))
    }
}

/// A text as a JSON string.
pub open spec fn json_string(text: Seq<char>) -> Seq<char> {
    seq!['"'] + escaped(text) + seq!['"']
}

/// The items of a list of JSON strings from the second on, and the end of the list.
pub open spec fn list_tail(items: Seq<Seq<char>>) -> Seq<char>
    decreases items.len(),
{
    if items.len() == 0 {
        seq![']']
    } else {
        seq![','] + (json_string(items[0]) + list_tail(items.skip(1)))
    }
}

/// A list of texts as JSON.
pub open spec fn json_list(items: Seq<Seq<char>>) -> Seq<char> {
    if items.len() == 0 {
        seq!['[', ']']
    } else {
        seq!['['] + (json_string(items[0]) + list_tail(items.skip(1)))
    }
}

/// A piece of JSON text.
pub enum Piece {
    /// Punctuation and names, as they are.
    Literal(Seq<char>),
    /// A string.
    Text(Seq<char>),
    /// A list of strings.
    Texts(Seq<Seq<char>>),
    /// A number.
    Number(nat),
}

/// The text of a piece.
pub open spec fn piece_text(piece: Piece) -> Seq<char> {
    match piece {
        Piece::Literal(text) => text,
        Piece::Text(text) => json_string(text),
        Piece::Texts(items) => json_list(items),
        Piece::Number(value) => decimal(value),
    }
}

/// The text of pieces.
pub open spec fn rendered(pieces: Seq<Piece>) -> Seq<char>
    decreases pieces.len(),
{
    if pieces.len() == 0 {
        Seq::empty()
    } else {
        rendered(pieces.drop_last()) + piece_text(pieces.last())
    }
}

/// Whether two pieces are of the same kind, and the same where they are literals.
pub open spec fn alike(a: Piece, b: Piece) -> bool {
    match (a, b) {
        (Piece::Literal(x), Piece::Literal(y)) => x == y,
        (Piece::Text(_), Piece::Text(_)) => true,
        (Piece::Texts(_), Piece::Texts(_)) => true,
        (Piece::Number(_), Piece::Number(_)) => true,
        _ => false,
    }
}

/// Whether a piece starts with something that is no digit.
pub open spec fn starts_off_digit(piece: Piece) -> bool {
    piece matches Piece::Literal(text) && text.len() > 0 && !is_digit(text[0])
}

/// Whether pieces can be read back one by one: after each number comes no digit.
pub open spec fn readable(pieces: Seq<Piece>) -> bool {
    forall|i: int|
        0 <= i < pieces.len() && (#[trigger] pieces[i]) is Number ==> i + 1 < pieces.len() && starts_off_digit(
            pieces[i + 1],
        )
}

/// Whether two lists of pieces differ in strings, lists and numbers at most.
pub open spec fn same_shape(a: Seq<Piece>, b: Seq<Piece>) -> bool {
    a.len() == b.len() && forall|i: int| 0 <= i < a.len() ==> alike(#[trigger] a[i], b[i])
}

/// `serde_json::to_string` of a text, which escapes quotes, backslashes and control characters.
#[verifier::external_body]
fn encode_json_string(text: &str) -> (json: String)
    ensures
        json@ == json_string(text@),
{
    serde_json::to_string(text).unwrap()
}

/// JSON text in the making.
pub struct JsonWriter {
    text: String,
    pieces: Ghost<Seq<Piece>>,
}

impl View for JsonWriter {
    type V = Seq<Piece>;

    closed spec fn view(&self) -> Seq<Piece> {
        self.pieces@
    }
}

impl JsonWriter {
    /// Whether the text is what the pieces render to.
    pub closed spec fn wf(&self) -> bool {
        self.text@ == rendered(self.pieces@)
    }

    /// No text.
    pub fn new() -> (writer: JsonWriter)
        ensures
            writer.wf(),
            writer@ == Seq::<Piece>::empty(),
    {
        JsonWriter { text: String::new(), pieces: Ghost(Seq::empty()) }
    }

    /// Appends punctuation and names.
    pub fn literal(&mut self, text: &str)
        requires
            old(self).wf(),
        ensures
            final(self).wf(),
            final(self)@ == old(self)@.push(Piece::Literal(text@)),
    {
        self.text.append(text);
        proof {
            lemma_rendered_push(self.pieces@, Piece::Literal(text@));
        }
        self.pieces = Ghost(self.pieces@.push(Piece::Literal(text@)));
    }

    /// Appends a string.
    pub fn text(&mut self, text: &str)
        requires
            old(self).wf(),
        ensures
            final(self).wf(),
            final(self)@ == old(self)@.push(Piece::Text(text@)),
    {
        let json = encode_json_string(text);
        self.text.append(json.as_str());
        proof {
            lemma_rendered_push(self.pieces@, Piece::Text(text@));
        }
        self.pieces = Ghost(self.pieces@.push(Piece::Text(text@)));
    }

    /// Appends a number.
    pub fn number(&mut self, value: u64)
        requires
            old(self).wf(),
        ensures
            final(self).wf(),
            final(self)@ == old(self)@.push(Piece::Number(value as nat)),
    {
        let mut text = String::new();
        push_decimal(&mut text, value);
        assert(text@ =~= decimal(value as nat));
        self.text.append(text.as_str());
        proof {
            lemma_rendered_push(self.pieces@, Piece::Number(value as nat));
        }
        self.pieces = Ghost(self.pieces@.push(Piece::Number(value as nat)));
    }

    /// Appends a list of strings.
    pub fn texts(&mut self, items: &Vec<String>)
        requires
            old(self).wf(),
        ensures
            final(self).wf(),
            final(self)@ == old(self)@.push(Piece::Texts(text_views(items@))),
    {
        let json = json_list_of(items);
        self.text.append(json.as_str());
        proof {
            lemma_rendered_push(self.pieces@, Piece::Texts(text_views(items@)));
        }
        self.pieces = Ghost(self.pieces@.push(Piece::Texts(text_views(items@))));
    }

    /// The finished text.
    pub fn finish(self) -> (text: String)
        requires
            self.wf(),
        ensures
            text@ == rendered(self@),
    {
        self.text
    }
}

/// A list of texts as JSON.
fn json_list_of(items: &Vec<String>) -> (json: String)
    ensures
        json@ == json_list(text_views(items@)),
{
    proof {
        reveal_strlit("[");
        reveal_strlit("]");
        reveal_strlit(",");
        reveal_strlit("[]");
        assert("["@ =~= seq!['[']);
        assert("]"@ =~= seq![']']);
        assert(","@ =~= seq![',']);
        assert("[]"@ =~= seq!['[', ']']);
    }
    let ghost views = text_views(items@);
    if items.len() == 0 {
        return "[]".to_owned();
    }
    let mut json = "[".to_owned();
    json.append(encode_json_string(items[0].as_str()).as_str());
    let mut i: usize = 1;
    assert(views[0] == items[0]@);
    assert(json@ + list_tail(views.skip(1)) =~= json_list(views));
    while i < items.len()
        invariant
            1 <= i <= items.len(),
            views == text_views(items@),
            json@ + list_tail(views.skip(i as int)) == json_list(views),
            "]"@ == seq![']'],
            ","@ == seq![','],
        decreases items.len() - i,
    {
        let ghost before = json@;
        json.append(",");
        json.append(encode_json_string(items[i].as_str()).as_str());
        assert(views.skip(i as int)[0] == items[i as int]@);
        assert(views.skip(i as int).skip(1) =~= views.skip(i + 1));
        assert(json@ + list_tail(views.skip(i + 1)) =~= before + list_tail(views.skip(i as int)));
        i += 1;
    }
    json.append("]");
    assert(views.skip(views.len() as int) =~= Seq::<Seq<char>>::empty());
    json
}

/// Appending a piece appends its text.
proof fn lemma_rendered_push(pieces: Seq<Piece>, piece: Piece)
    ensures
        rendered(pieces.push(piece)) == rendered(pieces) + piece_text(piece),
{
    assert(pieces.push(piece).drop_last() =~= pieces);
}

/// The text of pieces starts with that of the first.
pub proof fn lemma_rendered_front(pieces: Seq<Piece>)
    requires
        pieces.len() > 0,
    ensures
        rendered(pieces) == piece_text(pieces[0]) + rendered(pieces.skip(1)),
    decreases pieces.len(),
{
    if pieces.len() == 1 {
        assert(rendered(pieces.drop_last()) =~= Seq::<char>::empty());
        assert(rendered(pieces.skip(1)) =~= Seq::<char>::empty());
        assert(rendered(pieces) =~= piece_text(pieces[0]) + rendered(pieces.skip(1)));
    } else {
        lemma_rendered_front(pieces.drop_last());
        assert(pieces.drop_last().skip(1) =~= pieces.skip(1).drop_last());
        assert(rendered(pieces) =~= piece_text(pieces[0]) + rendered(pieces.skip(1)));
    }
}

/// What comes after the same beginning is the same.
proof fn lemma_cancel(p: Seq<char>, x: Seq<char>, y: Seq<char>)
    requires
        p + x == p + y,
    ensures
        x == y,
{
    assert(x =~= (p + x).skip(p.len() as int));
    assert(y =~= (p + y).skip(p.len() as int));
}

/// The two digits of a control character tell which it is.
proof fn lemma_control_digits(a: char, b: char)
    requires
        (a as int) < 32,
        (b as int) < 32,
        hex_digit(a as int / 16) == hex_digit(b as int / 16),
        hex_digit(a as int % 16) == hex_digit(b as int % 16),
    ensures
        a == b,
{
}

/// Escaped characters are told apart from what follows.
proof fn lemma_escaped_char_prefix(a: char, b: char, x: Seq<char>, y: Seq<char>)
    requires
        escaped_char(a) + x == escaped_char(b) + y,
    ensures
        a == b,
        x == y,
{
    let p = escaped_char(a) + x;
    let q = escaped_char(b) + y;
    assert(p[0] == escaped_char(a)[0]);
    assert(q[0] == escaped_char(b)[0]);
    if escaped_char(a).len() > 1 && escaped_char(b).len() > 1 {
        assert(p[1] == escaped_char(a)[1]);
        assert(q[1] == escaped_char(b)[1]);
        if escaped_char(a).len() == 6 && escaped_char(b).len() == 6 {
            assert(p[4] == escaped_char(a)[4] && p[5] == escaped_char(a)[5]);
            assert(q[4] == escaped_char(b)[4] && q[5] == escaped_char(b)[5]);
            lemma_control_digits(a, b);
        }
    }
    assert(a == b);
    lemma_cancel(escaped_char(a), x, y);
}

/// Escaped texts that end before a quote are told apart from what follows.
proof fn lemma_escaped_prefix(a: Seq<char>, b: Seq<char>, x: Seq<char>, y: Seq<char>)
    requires
        escaped(a) + (seq!['"'] + x) == escaped(b) + (seq!['"'] + y),
    ensures
        a == b,
        x == y,
    decreases a.len(),
{
    let p = escaped(a) + (seq!['"'] + x);
    let q = escaped(b) + (seq!['"'] + y);
    if a.len() == 0 && b.len() == 0 {
        assert(p =~= seq!['"'] + x);
        assert(q =~= seq!['"'] + y);
        lemma_cancel(seq!['"'], x, y);
        assert(a =~= b);
    } else if a.len() == 0 {
        assert(p[0] == '"');
        assert(q[0] == escaped_char(b[0])[0]);
    } else if b.len() == 0 {
        assert(q[0] == '"');
        assert(p[0] == escaped_char(a[0])[0]);
    } else {
        let (u, v) = (escaped(a.skip(1)) + (seq!['"'] + x), escaped(b.skip(1)) + (seq!['"'] + y));
        assert(p =~= escaped_char(a[0]) + u);
        assert(q =~= escaped_char(b[0]) + v);
        lemma_escaped_char_prefix(a[0], b[0], u, v);
        lemma_escaped_prefix(a.skip(1), b.skip(1), x, y);
        assert(a =~= seq![a[0]] + a.skip(1));
        assert(b =~= seq![b[0]] + b.skip(1));
    }
}

/// JSON strings are told apart from what follows.
proof fn lemma_json_string_prefix(a: Seq<char>, b: Seq<char>, x: Seq<char>, y: Seq<char>)
    requires
        json_string(a) + x == json_string(b) + y,
    ensures
        a == b,
        x == y,
{
    let (u, v) = (escaped(a) + (seq!['"'] + x), escaped(b) + (seq!['"'] + y));
    assert(json_string(a) + x =~= seq!['"'] + u);
    assert(json_string(b) + y =~= seq!['"'] + v);
    lemma_cancel(seq!['"'], u, v);
    lemma_escaped_prefix(a, b, x, y);
}

/// Ends of lists are told apart from what follows.
proof fn lemma_list_tail_prefix(a: Seq<Seq<char>>, b: Seq<Seq<char>>, x: Seq<char>, y: Seq<char>)
    requires
        list_tail(a) + x == list_tail(b) + y,
    ensures
        a == b,
        x == y,
    decreases a.len(),
{
    let p = list_tail(a) + x;
    let q = list_tail(b) + y;
    assert(p[0] == list_tail(a)[0]);
    assert(q[0] == list_tail(b)[0]);
    if a.len() == 0 && b.len() == 0 {
        lemma_cancel(seq![']'], x, y);
        assert(a =~= b);
    } else if a.len() > 0 && b.len() > 0 {
        let (u, v) = (list_tail(a.skip(1)) + x, list_tail(b.skip(1)) + y);
        assert(p =~= seq![','] + (json_string(a[0]) + u));
        assert(q =~= seq![','] + (json_string(b[0]) + v));
        lemma_cancel(seq![','], json_string(a[0]) + u, json_string(b[0]) + v);
        lemma_json_string_prefix(a[0], b[0], u, v);
        lemma_list_tail_prefix(a.skip(1), b.skip(1), x, y);
        assert(a =~= seq![a[0]] + a.skip(1));
        assert(b =~= seq![b[0]] + b.skip(1));
    }
}

/// Lists are told apart from what follows.
proof fn lemma_json_list_prefix(a: Seq<Seq<char>>, b: Seq<Seq<char>>, x: Seq<char>, y: Seq<char>)
    requires
        json_list(a) + x == json_list(b) + y,
    ensures
        a == b,
        x == y,
{
    let p = json_list(a) + x;
    let q = json_list(b) + y;
    assert(p[1] == json_list(a)[1]);
    assert(q[1] == json_list(b)[1]);
    if a.len() == 0 && b.len() == 0 {
        lemma_cancel(seq!['[', ']'], x, y);
        assert(a =~= b);
    } else if a.len() > 0 && b.len() > 0 {
        let (u, v) = (list_tail(a.skip(1)) + x, list_tail(b.skip(1)) + y);
        assert(p =~= seq!['['] + (json_string(a[0]) + u));
        assert(q =~= seq!['['] + (json_string(b[0]) + v));
        lemma_cancel(seq!['['], json_string(a[0]) + u, json_string(b[0]) + v);
        lemma_json_string_prefix(a[0], b[0], u, v);
        lemma_list_tail_prefix(a.skip(1), b.skip(1), x, y);
        assert(a =~= seq![a[0]] + a.skip(1));
        assert(b =~= seq![b[0]] + b.skip(1));
    } else if a.len() == 0 {
        assert(json_list(b)[1] == json_string(b[0])[0]);
    } else {
        assert(json_list(a)[1] == json_string(a[0])[0]);
    }
}

/// Pieces of the same shape that can be read back are told apart from what follows.
pub proof fn lemma_pieces_prefix(a: Seq<Piece>, b: Seq<Piece>, x: Seq<char>, y: Seq<char>)
    requires
        same_shape(a, b),
        readable(a),
        readable(b),
        rendered(a) + x == rendered(b) + y,
    ensures
        a == b,
        x == y,
    decreases a.len(),
{
    if a.len() == 0 {
        assert(rendered(a) + x =~= x);
        assert(rendered(b) + y =~= y);
        assert(a =~= b);
    } else {
        lemma_rendered_front(a);
        lemma_rendered_front(b);
        let (u, v) = (rendered(a.skip(1)) + x, rendered(b.skip(1)) + y);
        assert(rendered(a) + x =~= piece_text(a[0]) + u);
        assert(rendered(b) + y =~= piece_text(b[0]) + v);
        assert(alike(a[0], b[0]));
        match (a[0], b[0]) {
            (Piece::Literal(p), Piece::Literal(_)) => {
                lemma_cancel(p, u, v);
            },
            (Piece::Text(p), Piece::Text(q)) => {
                lemma_json_string_prefix(p, q, u, v);
            },
            (Piece::Texts(p), Piece::Texts(q)) => {
                lemma_json_list_prefix(p, q, u, v);
            },
            (Piece::Number(p), Piece::Number(q)) => {
                assert(starts_off_digit(a[1]) && starts_off_digit(b[1]));
                lemma_rendered_front(a.skip(1));
                lemma_rendered_front(b.skip(1));
                assert(a.skip(1)[0] == a[1] && b.skip(1)[0] == b[1]);
                assert(u[0] == piece_text(a[1])[0]);
                assert(v[0] == piece_text(b[1])[0]);
                lemma_decimal_prefix(p, q, u, v);
            },
            _ => {},
        }
        assert(a[0] == b[0] && u == v);
        assert(same_shape(a.skip(1), b.skip(1))) by {
            assert forall|i: int| 0 <= i < a.len() - 1 implies alike(#[trigger] a.skip(1)[i], b.skip(1)[i]) by {
                assert(alike(a[i + 1], b[i + 1]));
            }
        }
        lemma_readable_rest(a);
        lemma_readable_rest(b);
        lemma_pieces_prefix(a.skip(1), b.skip(1), x, y);
        assert(a =~= seq![a[0]] + a.skip(1));
        assert(b =~= seq![b[0]] + b.skip(1));
    }
}

/// Pieces of the same shape stay so when put together, and are then the same only if each is.
pub proof fn lemma_shape_concat(a: Seq<Piece>, b: Seq<Piece>, x: Seq<Piece>, y: Seq<Piece>)
    requires
        same_shape(a, b),
        same_shape(x, y),
        readable(a),
        readable(x),
    ensures
        same_shape(a + x, b + y),
        readable(a + x),
        a + x == b + y ==> a == b && x == y,
{
    let (p, q) = (a + x, b + y);
    assert forall|i: int| 0 <= i < p.len() implies alike(#[trigger] p[i], q[i]) by {
        if i < a.len() {
            assert(alike(a[i], b[i]));
        } else {
            assert(alike(x[i - a.len()], y[i - a.len()]));
        }
    }
    assert forall|i: int| 0 <= i < p.len() && (#[trigger] p[i]) is Number implies i + 1 < p.len() && starts_off_digit(
        p[i + 1],
    ) by {
        if i < a.len() {
            assert(a[i] == p[i]);
            assert(starts_off_digit(a[i + 1]));
        } else {
            assert(x[i - a.len()] == p[i]);
            assert(starts_off_digit(x[i - a.len() + 1]));
        }
    }
    if p == q {
        assert(a =~= p.take(a.len() as int));
        assert(b =~= q.take(b.len() as int));
        assert(x =~= p.skip(a.len() as int));
        assert(y =~= q.skip(b.len() as int));
    }
}

/// What follows the first piece can be read back too.
proof fn lemma_readable_rest(pieces: Seq<Piece>)
    requires
        pieces.len() > 0,
        readable(pieces),
    ensures
        readable(pieces.skip(1)),
{
    let rest = pieces.skip(1);
    assert forall|i: int| 0 <= i < rest.len() && (#[trigger] rest[i]) is Number implies i + 1 < rest.len()
        && starts_off_digit(rest[i + 1]) by {
        assert(pieces[i + 1] == rest[i]);
    }
}

} // verus!
