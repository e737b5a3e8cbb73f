//! The canonical push payload and its serialization to the broadcast wire
//! format: a JSON object with the fields `pusher`, `msg`, `type`, `level`,
//! `date`, in that fixed order, absent optional fields rendered as `null`.

use vstd::prelude::*;

verus! {

/// An inbound publish request, already decoded to plain values: the required
/// message body and the optional descriptive fields. `kind` is serialized
/// under the wire name `type`.
pub struct PushRequest {
    pub msg: String,
    pub pusher: Option<String>,
    pub kind: Option<String>,
    pub level: Option<String>,
    pub date: Option<String>,
}

/// The mathematical model of a push payload: each field as a character
/// sequence.
pub struct Payload {
    pub msg: Seq<char>,
    pub pusher: Option<Seq<char>>,
    pub kind: Option<Seq<char>>,
    pub level: Option<Seq<char>>,
    pub date: Option<Seq<char>>,
}

pub open spec fn opt_view(o: Option<String>) -> Option<Seq<char>> {
    match o {
        Option::Some(s) => Option::Some(s@),
        Option::None => Option::None,
    }
}

impl View for PushRequest {
    type V = Payload;

    open spec fn view(&self) -> Payload {
        Payload {
            msg: self.msg@,
            pusher: opt_view(self.pusher),
            kind: opt_view(self.kind),
            level: opt_view(self.level),
            date: opt_view(self.date),
        }
    }
}

/// The hexadecimal digit for a value below sixteen.
pub open spec fn hex_digit(n: u32) -> char {
    if n == 0 {
        '0'
    } else if n == 1 {
        '1'
    } else if n == 2 {
        '2'
    } else if n == 3 {
        '3'
    } else if n == 4 {
        '4'
    } else if n == 5 {
        '5'
    } else if n == 6 {
        '6'
    } else if n == 7 {
        '7'
    } else if n == 8 {
        '8'
    } else if n == 9 {
        '9'
    } else if n == 10 {
        'a'
    } else if n == 11 {
        'b'
    } else if n == 12 {
        'c'
    } else if n == 13 {
        'd'
    } else if n == 14 {
        'e'
    } else {
        'f'
    }
}

fn hex_digit_char(n: u32) -> (c: char)
    requires
        n < 16,
    ensures
        c == hex_digit(n),
{
    if n == 0 {
        '0'
    } else if n == 1 {
        '1'
    } else if n == 2 {
        '2'
    } else if n == 3 {
        '3'
    } else if n == 4 {
        '4'
    } else if n == 5 {
        '5'
    } else if n == 6 {
        '6'
    } else if n == 7 {
        '7'
    } else if n == 8 {
        '8'
    } else if n == 9 {
        '9'
    } else if n == 10 {
        'a'
    } else if n == 11 {
        'b'
    } else if n == 12 {
        'c'
    } else if n == 13 {
        'd'
    } else if n == 14 {
        'e'
    } else {
        'f'
    }
}

/// How one character appears inside a JSON string: quote, backslash and
/// control characters are escaped, every other character stands as itself.
pub open spec fn esc_char(c: char) -> Seq<char> {
    if c == '"' {
        "\\\""@
    } else if c == '\\' {
        "\\\\"@
    } else if c == '\u{8}' {
        "\\b"@
    } else if c == '\t' {
        "\\t"@
    } else if c == '\n' {
        "\\n"@
    } else if c == '\u{c}' {
        "\\f"@
    } else if c == '\r' {
        "\\r"@
    } else if (c as u32) < 0x20 {
        "\\u00"@ + seq![hex_digit((c as u32) / 16), hex_digit((c as u32) % 16)]
    } else {
        seq![c]
    }
}

/// The body of the JSON string encoding `s`, without the surrounding quotes.
pub open spec fn json_escape(s: Seq<char>) -> Seq<char>
    decreases s.len(),
{
    if s.len() == 0 {
        Seq::empty()
    } else {
        esc_char(s[0]) + json_escape(s.drop_first())
    }
}

/// The JSON string encoding `s`, quotes included.
pub open spec fn json_string(s: Seq<char>) -> Seq<char> {
    "\""@ + json_escape(s) + "\""@
}

/// An optional field's rendering: a JSON string when present, `null` when
/// absent.
pub open spec fn json_opt(o: Option<Seq<char>>) -> Seq<char> {
    match o {
        Option::Some(s) => json_string(s),
        Option::None => "null"@,
    }
}

/// The broadcast wire text for a payload: one JSON object, fields in the
/// fixed order `pusher`, `msg`, `type`, `level`, `date`.
pub open spec fn payload_json(p: Payload) -> Seq<char> {
    "{\"pusher\":"@ + json_opt(p.pusher) + ",\"msg\":"@ + json_string(p.msg) + ",\"type\":"@
        + json_opt(p.kind) + ",\"level\":"@ + json_opt(p.level) + ",\"date\":"@ + json_opt(p.date)
        + "}"@
}

/// Escaping a concatenation escapes each part.
pub proof fn lemma_escape_concat(a: Seq<char>, b: Seq<char>)
    ensures
        json_escape(a + b) == json_escape(a) + json_escape(b),
    decreases a.len(),
{
    if a.len() == 0 {
        assert(a + b =~= b);
        assert(json_escape(a) + json_escape(b) =~= json_escape(b));
    } else {
        assert((a + b).drop_first() =~= a.drop_first() + b);
        lemma_escape_concat(a.drop_first(), b);
        assert(json_escape(a + b) =~= json_escape(a) + json_escape(b));
    }
}

proof fn lemma_escape_step(s: Seq<char>, i: int)
    requires
        0 <= i < s.len(),
    ensures
        json_escape(s.take(i + 1)) == json_escape(s.take(i)) + esc_char(s[i]),
{
    let one = seq![s[i]];
    assert(s.take(i + 1) =~= s.take(i) + one);
    lemma_escape_concat(s.take(i), one);
    assert(one[0] == s[i]);
    assert(one.drop_first() =~= Seq::<char>::empty());
    assert(json_escape(one) == esc_char(one[0]) + json_escape(one.drop_first()));
    assert(json_escape(one) =~= esc_char(s[i]));
}

/// Relies on `String::push`: appends exactly the one character.
#[verifier::external_body]
fn push_char(s: &mut String, c: char)
    ensures
        final(s)@ == old(s)@.push(c),
{
    s.push(c)
}

/// Appends to `out` the escaped body of the JSON string for `s`.
fn escape_into(out: &mut String, s: &str)
    ensures
        final(out)@ == old(out)@ + json_escape(s@),
{
    let cs = crate::text::str_chars(s);
    let mut i: usize = 0;
    while i < cs.len()
        invariant
            cs@ == s@,
            0 <= i <= cs.len(),
            out@ == old(out)@ + json_escape(s@.take(i as int)),
        decreases cs.len() - i,
    {
        let c = cs[i];
        proof {
            lemma_escape_step(s@, i as int);
        }
        if c == '"' {
            out.append("\\\"");
        } else if c == '\\' {
            out.append("\\\\");
        } else if c == '\u{8}' {
            out.append("\\b");
        } else if c == '\t' {
            out.append("\\t");
        } else if c == '\n' {
            out.append("\\n");
        } else if c == '\u{c}' {
            out.append("\\f");
        } else if c == '\r' {
            out.append("\\r");
        } else {
            let n: u32 = c as u32;
            if n < 0x20 {
                out.append("\\u00");
                let hi = hex_digit_char(n / 16);
                let lo = hex_digit_char(n % 16);
                push_char(out, hi);
                push_char(out, lo);
            } else {
                push_char(out, c);
            }
        }
        proof {
            assert(out@ =~= old(out)@ + json_escape(s@.take(i as int + 1)));
        }
        i += 1;
    }
    proof {
        assert(s@.take(cs@.len() as int) =~= s@);
    }
}

/// Appends to `out` the JSON string for `s`, quotes included.
fn quote_into(out: &mut String, s: &str)
    ensures
        final(out)@ == old(out)@ + json_string(s@),
{
    out.append("\"");
    escape_into(out, s);
    out.append("\"");
    proof {
        assert(out@ =~= old(out)@ + json_string(s@));
    }
}

/// Appends to `out` the rendering of an optional field.
fn opt_into(out: &mut String, o: &Option<String>)
    ensures
        final(out)@ == old(out)@ + json_opt(opt_view(*o)),
{
    match o {
        Option::Some(s) => quote_into(out, s.as_str()),
        Option::None => out.append("null"),
    }
}

/// Serializes a push request to the canonical broadcast wire text.
pub fn to_json(p: &PushRequest) -> (r: String)
    ensures
        r@ == payload_json(p@),
{
    let mut out = String::new();
    out.append("{\"pusher\":");
    opt_into(&mut out, &p.pusher);
    out.append(",\"msg\":");
    quote_into(&mut out, p.msg.as_str());
    out.append(",\"type\":");
    opt_into(&mut out, &p.kind);
    out.append(",\"level\":");
    opt_into(&mut out, &p.level);
    out.append(",\"date\":");
    opt_into(&mut out, &p.date);
    out.append("}");
    proof {
        assert(out@ =~= payload_json(p@));
    }
    out
}

} // verus!
