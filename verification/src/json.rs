//! The JSON bodies that the web front end sends to the service.
use vstd::prelude::*;
use vstd::string::*;
use crate::model::{TaskProp, TodoModel};
use crate::number::{
    all_digits, decimal_text, digit_char, format_i32, is_digit, lemma_decimal_shape,
    lemma_parse_decimal_roundtrip, parse_i32_spec,
};

verus! {

/// A hexadecimal digit as `serde_json` writes it (lower case).
pub open spec fn hex_digit(d: int) -> char {
    if d < 10 {
        digit_char(d)
    } else if d == 10 {
        'a'
    } else if d == 11 {
        'b'
    } else if d == 12 {
        'c'
    } else if d == 13 {
        'd'
    } else if d == 14 {
        'e'
    } else {
        'f'
    }
}

/// How `serde_json` writes one character inside a JSON string: quote and
/// backslash get a backslash, the five named control characters their short
/// escape, the other characters below U+0020 a `\u00xx` escape, and every
/// other character stands as it is.
pub open spec fn json_char_escape(c: char) -> Seq<char> {
    if c == '"' {
        seq!['\\', '"']
    } else if c == '\\' {
        seq!['\\', '\\']
    } else if c == '\u{08}' {
        seq!['\\', 'b']
    } else if c == '\t' {
        seq!['\\', 't']
    } else if c == '\n' {
        seq!['\\', 'n']
    } else if c == '\u{0C}' {
        seq!['\\', 'f']
    } else if c == '\r' {
        seq!['\\', 'r']
    } else if (c as int) < 0x20 {
        seq!['\\', 'u', '0', '0', hex_digit((c as int) / 16), hex_digit((c as int) % 16)]
    } else {
        seq![c]
    }
}

/// The escaped characters of a text, in order.
pub open spec fn json_escaped(s: Seq<char>) -> Seq<char>
    decreases s.len(),
{
    if s.len() == 0 {
        Seq::empty()
    } else {
        json_escaped(s.drop_last()) + json_char_escape(s.last())
    }
}

/// The JSON text that `serde_json::to_string` writes for a string: the
/// escaped text between two quotes.
pub open spec fn json_string_literal(s: Seq<char>) -> Seq<char> {
    seq!['"'] + json_escaped(s) + seq!['"']
}

/// A character that `serde_json` writes into a JSON string as it is.
pub open spec fn json_plain_char(c: char) -> bool {
    c != '"' && c != '\\' && (c as int) >= 0x20
}

/// Every character of `s` is written as it is.
pub open spec fn json_plain(s: Seq<char>) -> bool {
    forall|i: int| 0 <= i < s.len() ==> json_plain_char(#[trigger] s[i])
}

/// A text without quotes, backslashes and control characters is written
/// between two quotes unchanged.
pub proof fn lemma_json_plain(s: Seq<char>)
    requires
        json_plain(s),
    ensures
        json_escaped(s) == s,
        json_string_literal(s) == seq!['"'] + s + seq!['"'],
    decreases s.len(),
{
    if s.len() > 0 {
        let p = s.drop_last();
        assert(json_plain(p)) by {
            assert forall|i: int| 0 <= i < p.len() implies json_plain_char(#[trigger] p[i]) by {
                assert(p[i] == s[i]);
            }
        }
        lemma_json_plain(p);
        assert(json_plain_char(s[s.len() - 1]));
        assert(json_escaped(s) =~= s);
    }
}

/// Calls `serde_json::to_string` on a string slice. The contract states what
/// its source shows (`format_escaped_str` with the `ESCAPE` table and the
/// compact formatter's `write_char_escape` in `ser.rs`): the text between two
/// quotes, each character written as `json_char_escape` says. Serialising a
/// `str` into the in-memory buffer that `to_string` uses cannot fail, so the
/// `Err` arm is never taken.
#[verifier::external_body]
fn json_string(s: &str) -> (r: String)
    ensures
        r@ == json_string_literal(s@),
{
    match serde_json::to_string(s) {
        Ok(t) => t,
        Err(_) => String::new(),
    }
}

/// The body of a request that creates or updates a task: a JSON object whose
/// keys come in the order a `serde_json` map keeps them.
pub open spec fn task_body_spec(t: TodoModel) -> Seq<char> {
    "{\"date\":"@ + json_string_literal(t.date) + ",\"id\":"@ + decimal_text(t.id as int)
        + ",\"inhalt\":"@ + json_string_literal(t.inhalt) + ",\"percent\":"@ + decimal_text(
        t.percent as int,
    ) + "}"@
}

/// The body of a request that deletes the task with id `id`.
pub open spec fn delete_body_spec(id: i32) -> Seq<char> {
    "{\"id\":"@ + decimal_text(id as int) + "}"@
}

/// Writes the JSON body that carries all fields of `task`.
pub fn task_body(task: &TaskProp) -> (r: String)
    ensures
        r@ == task_body_spec(task@),
{
    let mut s = String::new();
    s.append("{\"date\":");
    let date = json_string(task.date.as_str());
    s.append(date.as_str());
    s.append(",\"id\":");
    let id = format_i32(task.id);
    s.append(id.as_str());
    s.append(",\"inhalt\":");
    let inhalt = json_string(task.inhalt.as_str());
    s.append(inhalt.as_str());
    s.append(",\"percent\":");
    let percent = format_i32(task.percent);
    s.append(percent.as_str());
    s.append("}");
    assert(s@ =~= task_body_spec(task@));
    s
}

/// Writes the JSON body that names the task to delete.
pub fn delete_body(id: i32) -> (r: String)
    ensures
        r@ == delete_body_spec(id),
{
    let mut s = String::new();
    s.append("{\"id\":");
    let text = format_i32(id);
    s.append(text.as_str());
    s.append("}");
    assert(s@ =~= delete_body_spec(id));
    s
}

proof fn lemma_json_escaped_front(s: Seq<char>)
    requires
        s.len() > 0,
    ensures
        json_escaped(s) == json_char_escape(s[0]) + json_escaped(s.drop_first()),
    decreases s.len(),
{
    if s.len() == 1 {
        assert(s.drop_last() =~= Seq::<char>::empty());
        assert(s.drop_first() =~= Seq::<char>::empty());
        assert(json_escaped(Seq::<char>::empty()) == Seq::<char>::empty());
        assert(json_escaped(s) =~= json_char_escape(s[0]) + json_escaped(s.drop_first()));
    } else {
        let p = s.drop_last();
        lemma_json_escaped_front(p);
        assert(p.drop_first() =~= s.drop_first().drop_last());
        assert(s.drop_first().last() == s.last());
        assert(p[0] == s[0]);
        assert(json_escaped(s) =~= json_char_escape(s[0]) + json_escaped(s.drop_first()));
    }
}

proof fn lemma_hex_digit(d: int, e: int)
    requires
        0 <= d < 16,
        0 <= e < 16,
        hex_digit(d) == hex_digit(e),
    ensures
        d == e,
{
}

proof fn lemma_char_escape_shape(c: char)
    ensures
        json_char_escape(c).len() >= 1,
        json_char_escape(c)[0] != '"',
        json_char_escape(c)[0] == '\\' <==> json_char_escape(c).len() >= 2,
        json_char_escape(c).len() == 1 ==> json_char_escape(c)[0] == c,
        json_char_escape(c).len() >= 2 ==> (json_char_escape(c)[1] == 'u' <==> json_char_escape(
            c,
        ).len() == 6),
        json_char_escape(c).len() == 2 || json_char_escape(c).len() == 6 || json_char_escape(
            c,
        ).len() == 1,
{
}

/// Two escaped characters at the start of equal texts are the same character.
proof fn lemma_char_escape_prefix(c: char, d: char, x: Seq<char>, y: Seq<char>)
    requires
        json_char_escape(c) + x == json_char_escape(d) + y,
    ensures
        c == d,
        x == y,
{
    let ec = json_char_escape(c);
    let ed = json_char_escape(d);
    lemma_char_escape_shape(c);
    lemma_char_escape_shape(d);
    let l = ec + x;
    assert(l[0] == ec[0]);
    assert((ed + y)[0] == ed[0]);
    if ec.len() == 1 {
        assert(ed.len() == 1);
    } else {
        assert(l[1] == ec[1]);
        assert((ed + y)[1] == ed[1]);
        if ec.len() == 6 {
            assert(ed.len() == 6);
            assert(l[4] == ec[4] && l[5] == ec[5]);
            assert((ed + y)[4] == ed[4] && (ed + y)[5] == ed[5]);
            lemma_hex_digit((c as int) / 16, (d as int) / 16);
            lemma_hex_digit((c as int) % 16, (d as int) % 16);
            assert((c as int) == (d as int));
        } else {
            assert(ed.len() == 2);
        }
    }
    assert(ec =~= l.subrange(0, ec.len() as int));
    assert(ed =~= (ed + y).subrange(0, ed.len() as int));
    assert(x =~= l.subrange(ec.len() as int, l.len() as int));
    assert(y =~= (ed + y).subrange(ed.len() as int, (ed + y).len() as int));
}

proof fn lemma_escaped_prefix(a: Seq<char>, b: Seq<char>, x: Seq<char>, y: Seq<char>)
    requires
        json_escaped(a) + seq!['"'] + x == json_escaped(b) + seq!['"'] + y,
    ensures
        a == b,
        x == y,
    decreases a.len() + b.len(),
{
    let l = json_escaped(a) + seq!['"'] + x;
    let r = json_escaped(b) + seq!['"'] + y;
    if a.len() == 0 {
        assert(json_escaped(a) == Seq::<char>::empty());
        assert(l[0] == '"');
        if b.len() > 0 {
            lemma_json_escaped_front(b);
            lemma_char_escape_shape(b[0]);
            assert(r[0] == json_char_escape(b[0])[0]);
        }
        assert(json_escaped(b) == Seq::<char>::empty());
        assert(x =~= l.subrange(1, l.len() as int));
        assert(y =~= r.subrange(1, r.len() as int));
        assert(a =~= b);
    } else if b.len() == 0 {
        assert(json_escaped(b) == Seq::<char>::empty());
        assert(r[0] == '"');
        lemma_json_escaped_front(a);
        lemma_char_escape_shape(a[0]);
        assert(l[0] == json_char_escape(a[0])[0]);
    } else {
        lemma_json_escaped_front(a);
        lemma_json_escaped_front(b);
        let xa = json_escaped(a.drop_first()) + seq!['"'] + x;
        let yb = json_escaped(b.drop_first()) + seq!['"'] + y;
        assert(l =~= json_char_escape(a[0]) + xa);
        assert(r =~= json_char_escape(b[0]) + yb);
        lemma_char_escape_prefix(a[0], b[0], xa, yb);
        lemma_escaped_prefix(a.drop_first(), b.drop_first(), x, y);
        assert(a =~= seq![a[0]] + a.drop_first());
        assert(b =~= seq![b[0]] + b.drop_first());
    }
}

/// A JSON string at the start of a text ends where the text shows it ends:
/// equal texts that start with the JSON strings of `a` and of `b` have
/// `a == b`, and the same rest.
pub proof fn lemma_json_string_prefix(a: Seq<char>, b: Seq<char>, x: Seq<char>, y: Seq<char>)
    requires
        json_string_literal(a) + x == json_string_literal(b) + y,
    ensures
        a == b,
        x == y,
{
    let l = json_string_literal(a) + x;
    let r = json_string_literal(b) + y;
    assert(l.drop_first() =~= json_escaped(a) + seq!['"'] + x);
    assert(r.drop_first() =~= json_escaped(b) + seq!['"'] + y);
    lemma_escaped_prefix(a, b, x, y);
}

proof fn lemma_decimal_prefix(n: i32, m: i32, x: Seq<char>, y: Seq<char>)
    requires
        decimal_text(n as int) + x == decimal_text(m as int) + y,
        x.len() > 0,
        y.len() > 0,
        !is_digit(x[0]),
        !is_digit(y[0]),
    ensures
        n == m,
        x == y,
{
    let dn = decimal_text(n as int);
    let dm = decimal_text(m as int);
    let l = dn + x;
    lemma_decimal_shape(n as int);
    lemma_decimal_shape(m as int);
    if dn.len() < dm.len() {
        assert(l[dn.len() as int] == x[0]);
        assert(l[dn.len() as int] == dm[dn.len() as int]);
        assert(is_digit(dm[dn.len() as int]));
    } else if dm.len() < dn.len() {
        assert(l[dm.len() as int] == dn[dm.len() as int]);
        assert((dm + y)[dm.len() as int] == y[0]);
        assert(is_digit(dn[dm.len() as int]));
    } else {
        assert(dn =~= l.subrange(0, dn.len() as int));
        assert(dm =~= (dm + y).subrange(0, dm.len() as int));
        lemma_parse_decimal_roundtrip(n);
        lemma_parse_decimal_roundtrip(m);
        assert(x =~= l.subrange(dn.len() as int, l.len() as int));
        assert(y =~= (dm + y).subrange(dm.len() as int, (dm + y).len() as int));
    }
}

proof fn lemma_strip_prefix(p: Seq<char>, x: Seq<char>, y: Seq<char>)
    requires
        p + x == p + y,
    ensures
        x == y,
{
    assert(x =~= (p + x).subrange(p.len() as int, (p + x).len() as int));
    assert(y =~= (p + y).subrange(p.len() as int, (p + y).len() as int));
}

/// What follows the description's JSON string in a task body.
spec fn body_tail(t: TodoModel) -> Seq<char> {
    ",\"percent\":"@ + (decimal_text(t.percent as int) + "}"@)
}

/// What follows the id in a task body.
spec fn body_after_id(t: TodoModel) -> Seq<char> {
    ",\"inhalt\":"@ + (json_string_literal(t.inhalt) + body_tail(t))
}

/// What follows the date's JSON string in a task body.
spec fn body_after_date(t: TodoModel) -> Seq<char> {
    ",\"id\":"@ + (decimal_text(t.id as int) + body_after_id(t))
}

proof fn lemma_body_shape(t: TodoModel)
    ensures
        task_body_spec(t) == "{\"date\":"@ + (json_string_literal(t.date) + body_after_date(t)),
{
    assert(task_body_spec(t) =~= "{\"date\":"@ + (json_string_literal(t.date) + body_after_date(
        t,
    )));
}

/// The body of a task request carries the whole task: two tasks with equal
/// bodies are equal in every field, so no field is cut, dropped or altered
/// on the way into the body.
pub proof fn lemma_task_body_determines_task(t: TodoModel, u: TodoModel)
    requires
        task_body_spec(t) == task_body_spec(u),
    ensures
        t == u,
{
    lemma_body_shape(t);
    lemma_body_shape(u);
    lemma_strip_prefix(
        "{\"date\":"@,
        json_string_literal(t.date) + body_after_date(t),
        json_string_literal(u.date) + body_after_date(u),
    );
    lemma_json_string_prefix(t.date, u.date, body_after_date(t), body_after_date(u));
    lemma_strip_prefix(
        ",\"id\":"@,
        decimal_text(t.id as int) + body_after_id(t),
        decimal_text(u.id as int) + body_after_id(u),
    );
    reveal_strlit(",\"inhalt\":");
    assert(body_after_id(t)[0] == ',');
    assert(body_after_id(u)[0] == ',');
    lemma_decimal_prefix(t.id, u.id, body_after_id(t), body_after_id(u));
    lemma_strip_prefix(
        ",\"inhalt\":"@,
        json_string_literal(t.inhalt) + body_tail(t),
        json_string_literal(u.inhalt) + body_tail(u),
    );
    lemma_json_string_prefix(t.inhalt, u.inhalt, body_tail(t), body_tail(u));
    lemma_strip_prefix(
        ",\"percent\":"@,
        decimal_text(t.percent as int) + "}"@,
        decimal_text(u.percent as int) + "}"@,
    );
    reveal_strlit("}");
    lemma_decimal_prefix(t.percent, u.percent, "}"@, "}"@);
}

/// The body of a delete request names exactly one id.
pub proof fn lemma_delete_body_determines_id(a: i32, b: i32)
    requires
        delete_body_spec(a) == delete_body_spec(b),
    ensures
        a == b,
{
    let p1 = "{\"id\":"@;
    let p5 = "}"@;
    reveal_strlit("}");
    let ba = delete_body_spec(a);
    let bb = delete_body_spec(b);
    assert(decimal_text(a as int) + p5 =~= ba.subrange(p1.len() as int, ba.len() as int));
    assert(decimal_text(b as int) + p5 =~= bb.subrange(p1.len() as int, bb.len() as int));
    lemma_decimal_prefix(a, b, p5, p5);
}

} // verus!
