//! The outbound wire format: responses as JSON text.
//!
//! The frame payload shapes are a wire contract, so they are produced
//! here by verified code, character by character, rather than through a
//! serializer the verifier cannot see into. String content is escaped
//! as JSON requires: quote and backslash by their two-character
//! escapes, the common control characters by their short forms, the
//! remaining control characters as `\u00XX` with lowercase hex digits,
//! and everything else stands as itself.

use vstd::prelude::*;
use vstd::string::StringExecFns;
use vstd::string::StrSliceExecFns;

use crate::action::ActionMessage;
use crate::error::Error;
use crate::response::{Response, ResponseE};

verus! {

/// The lowercase hexadecimal digit of `d`.
pub open spec fn hex_digit(d: int) -> char {
    if d == 0 {
        '0'
    } else if d == 1 {
        '1'
    } else if d == 2 {
        '2'
    } else if d == 3 {
        '3'
    } else if d == 4 {
        '4'
    } else if d == 5 {
        '5'
    } else if d == 6 {
        '6'
    } else if d == 7 {
        '7'
    } else if d == 8 {
        '8'
    } else if d == 9 {
        '9'
    } else if d == 10 {
        'a'
    } else if d == 11 {
        'b'
    } else if d == 12 {
        'c'
    } else if d == 13 {
        'd'
    } else if d == 14 {
        'e'
    } else {
        'f'
    }
}

/// How one character appears inside a JSON string literal.
pub open spec fn esc_char(c: char) -> Seq<char> {
    if c == '"' {
        seq!['\\', '"']
    } else if c == '\\' {
        seq!['\\', '\\']
    } else if c == '\u{8}' {
        seq!['\\', 'b']
    } else if c == '\t' {
        seq!['\\', 't']
    } else if c == '\n' {
        seq!['\\', 'n']
    } else if c == '\u{c}' {
        seq!['\\', 'f']
    } else if c == '\r' {
        seq!['\\', 'r']
    } else if (c as u32) < 32 {
        seq!['\\', 'u', '0', '0', hex_digit((c as u32) as int / 16), hex_digit((c as u32) as int % 16)]
    } else {
        seq![c]
    }
}

/// How a whole string appears inside a JSON string literal.
pub open spec fn esc_seq(s: Seq<char>) -> Seq<char>
    decreases s.len(),
{
    if s.len() == 0 {
        Seq::empty()
    } else {
        esc_seq(s.drop_last()) + esc_char(s.last())
    }
}

/// Appends the lowercase hexadecimal digit of `d` to `out`.
fn push_hex(out: &mut String, d: u32)
    requires
        d < 16,
    ensures
        final(out)@ == old(out)@.push(hex_digit(d as int)),
{
    if d == 0 {
        out.append("0");
        proof {
            reveal_strlit("0");
            assert(out@ =~= old(out)@.push('0'));
        }
    } else if d == 1 {
        out.append("1");
        proof {
            reveal_strlit("1");
            assert(out@ =~= old(out)@.push('1'));
        }
    } else if d == 2 {
        out.append("2");
        proof {
            reveal_strlit("2");
            assert(out@ =~= old(out)@.push('2'));
        }
    } else if d == 3 {
        out.append("3");
        proof {
            reveal_strlit("3");
            assert(out@ =~= old(out)@.push('3'));
        }
    } else if d == 4 {
        out.append("4");
        proof {
            reveal_strlit("4");
            assert(out@ =~= old(out)@.push('4'));
        }
    } else if d == 5 {
        out.append("5");
        proof {
            reveal_strlit("5");
            assert(out@ =~= old(out)@.push('5'));
        }
    } else if d == 6 {
        out.append("6");
        proof {
            reveal_strlit("6");
            assert(out@ =~= old(out)@.push('6'));
        }
    } else if d == 7 {
        out.append("7");
        proof {
            reveal_strlit("7");
            assert(out@ =~= old(out)@.push('7'));
        }
    } else if d == 8 {
        out.append("8");
        proof {
            reveal_strlit("8");
            assert(out@ =~= old(out)@.push('8'));
        }
    } else if d == 9 {
        out.append("9");
        proof {
            reveal_strlit("9");
            assert(out@ =~= old(out)@.push('9'));
        }
    } else if d == 10 {
        out.append("a");
        proof {
            reveal_strlit("a");
            assert(out@ =~= old(out)@.push('a'));
        }
    } else if d == 11 {
        out.append("b");
        proof {
            reveal_strlit("b");
            assert(out@ =~= old(out)@.push('b'));
        }
    } else if d == 12 {
        out.append("c");
        proof {
            reveal_strlit("c");
            assert(out@ =~= old(out)@.push('c'));
        }
    } else if d == 13 {
        out.append("d");
        proof {
            reveal_strlit("d");
            assert(out@ =~= old(out)@.push('d'));
        }
    } else if d == 14 {
        out.append("e");
        proof {
            reveal_strlit("e");
            assert(out@ =~= old(out)@.push('e'));
        }
    } else {
        out.append("f");
        proof {
            reveal_strlit("f");
            assert(out@ =~= old(out)@.push('f'));
        }
    }
}

/// Appends `s`, escaped as a JSON string literal's content, to `out`.
pub fn escape_into(out: &mut String, s: &str)
    ensures
        final(out)@ == old(out)@ + esc_seq(s@),
{
    let n = s.unicode_len();
    proof {
        assert(out@ =~= old(out)@ + esc_seq(s@.take(0)));
    }
    let mut i: usize = 0;
    while i < n
        invariant
            n == s@.len(),
            0 <= i <= n,
            out@ == old(out)@ + esc_seq(s@.take(i as int)),
        decreases n - i,
    {
        let ghost pre = out@;
        let c = s.get_char(i);
        if c == '"' {
            out.append("\\\"");
            proof {
                reveal_strlit("\\\"");
                assert(out@ =~= pre + esc_char(c));
            }
        } else if c == '\\' {
            out.append("\\\\");
            proof {
                reveal_strlit("\\\\");
                assert(out@ =~= pre + esc_char(c));
            }
        } else if c == '\u{8}' {
            out.append("\\b");
            proof {
                reveal_strlit("\\b");
                assert(out@ =~= pre + esc_char(c));
            }
        } else if c == '\t' {
            out.append("\\t");
            proof {
                reveal_strlit("\\t");
                assert(out@ =~= pre + esc_char(c));
            }
        } else if c == '\n' {
            out.append("\\n");
            proof {
                reveal_strlit("\\n");
                assert(out@ =~= pre + esc_char(c));
            }
        } else if c == '\u{c}' {
            out.append("\\f");
            proof {
                reveal_strlit("\\f");
                assert(out@ =~= pre + esc_char(c));
            }
        } else if c == '\r' {
            out.append("\\r");
            proof {
                reveal_strlit("\\r");
                assert(out@ =~= pre + esc_char(c));
            }
        } else if (c as u32) < 32 {
            let cu = c as u32;
            out.append("\\u00");
            push_hex(out, cu / 16);
            push_hex(out, cu % 16);
            proof {
                reveal_strlit("\\u00");
                assert(out@ =~= pre + esc_char(c));
            }
        } else {
            let piece = s.substring_char(i, i + 1);
            out.append(piece);
            proof {
                assert(piece@ =~= seq![s@[i as int]]);
                assert(out@ =~= pre + esc_char(c));
            }
        }
        proof {
            assert(s@.take(i + 1).drop_last() =~= s@.take(i as int));
            assert(s@.take(i + 1).last() == s@[i as int]);
            assert(esc_seq(s@.take(i + 1)) == esc_seq(s@.take(i as int)) + esc_char(s@[i as int]));
            assert(out@ =~= old(out)@ + esc_seq(s@.take(i + 1)));
        }
        i += 1;
    }
    proof {
        assert(s@.take(n as int) =~= s@);
    }
}

/// The JSON text of a response, shape by shape: a message names its
/// sender (or `null` for none) and carries its text; an error names
/// its kind and, where one is attached, the player name.
pub open spec fn response_json_spec(r: Response) -> Seq<char> {
    match r.resp {
        ResponseE::Message { from, text } => match from {
            Some(n) => "{\"type\":\"Message\",\"from\":\""@ + esc_seq(n@)
                + "\",\"text\":\""@ + esc_seq(text@) + "\"}"@,
            None => "{\"type\":\"Message\",\"from\":null,\"text\":\""@ + esc_seq(text@) + "\"}"@,
        },
        ResponseE::Error(e) => match e {
            Error::InvalidPlayerName(n) => "{\"type\":\"Error\",\"error\":\"InvalidPlayerName\",\"name\":\""@
                + esc_seq(n@) + "\"}"@,
            Error::InvalidSession => "{\"type\":\"Error\",\"error\":\"InvalidSession\"}"@,
            Error::InvalidSecret => "{\"type\":\"Error\",\"error\":\"InvalidSecret\"}"@,
            Error::PlayerNameTaken(n) => "{\"type\":\"Error\",\"error\":\"PlayerNameTaken\",\"name\":\""@
                + esc_seq(n@) + "\"}"@,
            Error::InternalError => "{\"type\":\"Error\",\"error\":\"InternalError\"}"@,
            Error::WrongStateForAction => "{\"type\":\"Error\",\"error\":\"WrongStateForAction\"}"@,
        },
    }
}

impl Response {
    /// The response as its exact JSON wire text; see
    /// [`response_json_spec`].
    pub fn to_json(&self) -> (r: String)
        ensures
            r@ == response_json_spec(*self),
    {
        let mut out = String::new();
        match &self.resp {
            ResponseE::Message { from, text } => {
                match from {
                    Some(n) => {
                        out.append("{\"type\":\"Message\",\"from\":\"");
                        escape_into(&mut out, n.as_str());
                        out.append("\",\"text\":\"");
                        escape_into(&mut out, text.as_str());
                        out.append("\"}");
                    },
                    None => {
                        out.append("{\"type\":\"Message\",\"from\":null,\"text\":\"");
                        escape_into(&mut out, text.as_str());
                        out.append("\"}");
                    },
                }
            },
            ResponseE::Error(e) => {
                match e {
                    Error::InvalidPlayerName(n) => {
                        out.append("{\"type\":\"Error\",\"error\":\"InvalidPlayerName\",\"name\":\"");
                        escape_into(&mut out, n.as_str());
                        out.append("\"}");
                    },
                    Error::InvalidSession => {
                        out.append("{\"type\":\"Error\",\"error\":\"InvalidSession\"}");
                    },
                    Error::InvalidSecret => {
                        out.append("{\"type\":\"Error\",\"error\":\"InvalidSecret\"}");
                    },
                    Error::PlayerNameTaken(n) => {
                        out.append("{\"type\":\"Error\",\"error\":\"PlayerNameTaken\",\"name\":\"");
                        escape_into(&mut out, n.as_str());
                        out.append("\"}");
                    },
                    Error::InternalError => {
                        out.append("{\"type\":\"Error\",\"error\":\"InternalError\"}");
                    },
                    Error::WrongStateForAction => {
                        out.append("{\"type\":\"Error\",\"error\":\"WrongStateForAction\"}");
                    },
                }
            },
        }
        proof {
            assert(out@ =~= response_json_spec(*self));
        }
        out
    }
}

/// The inverse of the short escapes: what character a backslash
/// followed by `c` stands for, if anything. (The solidus may be
/// escaped in JSON, though the encoder never does so.)
pub open spec fn unescape(c: char) -> Option<char> {
    if c == '"' {
        Some('"')
    } else if c == '\\' {
        Some('\\')
    } else if c == '/' {
        Some('/')
    } else if c == 'b' {
        Some('\u{8}')
    } else if c == 'f' {
        Some('\u{c}')
    } else if c == 'n' {
        Some('\n')
    } else if c == 'r' {
        Some('\r')
    } else if c == 't' {
        Some('\t')
    } else {
        None
    }
}

/// Scans the body of a JSON string literal in `s` from position `i` up
/// to and including its closing quote: the decoded text and the
/// position after the quote, or `None` where the body is malformed.
/// Accepted content: any character but quote, backslash and controls
/// as itself, and the short backslash escapes. `\uXXXX` escapes are
/// outside this accepted subset and make the scan fail — so a text
/// whose rare control characters the escaper rendered as `\u00XX`
/// does not scan back, which is the premise of the round-trip law.
pub open spec fn scan_string(s: Seq<char>, i: int) -> Option<(Seq<char>, int)>
    decreases s.len() - i,
{
    if i < 0 || i >= s.len() {
        None
    } else if s[i] == '"' {
        Some((Seq::empty(), i + 1))
    } else if s[i] == '\\' {
        if i + 1 >= s.len() {
            None
        } else {
            match unescape(s[i + 1]) {
                Some(c) => match scan_string(s, i + 2) {
                    Some(p) => Some((seq![c] + p.0, p.1)),
                    None => None,
                },
                None => None,
            }
        }
    } else if (s[i] as u32) < 32 {
        None
    } else {
        match scan_string(s, i + 1) {
            Some(p) => Some((seq![s[i]] + p.0, p.1)),
            None => None,
        }
    }
}

/// The canonical JSON text of an inbound message frame carrying
/// `text`.
pub open spec fn action_json_spec(text: Seq<char>) -> Seq<char> {
    "{\"type\":\"Message\",\"text\":\""@ + esc_seq(text) + "\"}"@
}

/// What the frame parser accepts: exactly the canonical message frame
/// shape — the fixed `type`/`text` prefix, a string body in the
/// accepted content of [`scan_string`], and nothing after the closing
/// brace. The decoded text is the action's payload.
pub open spec fn parse_action_spec(s: Seq<char>) -> Option<Seq<char>> {
    let p = "{\"type\":\"Message\",\"text\":\""@;
    if s.len() < p.len() {
        None
    } else if s.subrange(0, p.len() as int) != p {
        None
    } else {
        match scan_string(s, p.len() as int) {
            Some(q) => if q.1 + 1 == s.len() && s[q.1] == '}' {
                Some(q.0)
            } else {
                None
            },
            None => None,
        }
    }
}

/// The canonical frame text for a message action; what a well-behaved
/// peer sends.
pub fn action_to_json(m: &ActionMessage) -> (r: String)
    ensures
        r@ == action_json_spec(m.text@),
{
    let mut out = String::new();
    out.append("{\"type\":\"Message\",\"text\":\"");
    escape_into(&mut out, m.text.as_str());
    out.append("\"}");
    proof {
        assert(out@ =~= action_json_spec(m.text@));
    }
    out
}

/// Parses an inbound frame as a message action: exactly the frames
/// that [`parse_action_spec`] admits are accepted — the canonical
/// shape, with the short escapes but not `\uXXXX` — and the decoded
/// text is handed back. A malformed frame yields `None` and is for the
/// caller to answer or drop.
pub fn parse_action(s: &str) -> (r: Option<ActionMessage>)
    ensures
        match parse_action_spec(s@) {
            Some(t) => r matches Some(m) && m.text@ == t,
            None => r is None,
        },
{
    let n = s.unicode_len();
    let prefix = "{\"type\":\"Message\",\"text\":\"";
    let plen = prefix.unicode_len();
    if n < plen {
        return None;
    }
    let head = s.substring_char(0, plen);
    if !(head.to_owned() == prefix.to_owned()) {
        return None;
    }
    let mut out = String::new();
    let mut i: usize = plen;
    proof {
        if scan_string(s@, plen as int) is Some {
            let q = scan_string(s@, plen as int).unwrap();
            assert(Seq::<char>::empty() + q.0 =~= q.0);
        }
    }
    while i < n
        invariant
            n == s@.len(),
            plen <= i <= n,
            plen == "{\"type\":\"Message\",\"text\":\""@.len(),
            s@.subrange(0, plen as int) == "{\"type\":\"Message\",\"text\":\""@,
            match scan_string(s@, i as int) {
                Some(q) => scan_string(s@, plen as int) matches Some(q0) && q0.0 == out@ + q.0
                    && q0.1 == q.1,
                None => scan_string(s@, plen as int) is None,
            },
        decreases n - i,
    {
        let ghost pre = out@;
        let c = s.get_char(i);
        if c == '"' {
            proof {
                assert(scan_string(s@, i as int).unwrap().0 =~= Seq::<char>::empty());
                assert(pre + Seq::<char>::empty() =~= pre);
            }
            if n >= 2 && i == n - 2 {
                let brace = s.get_char(i + 1);
                if brace == '}' {
                    return Some(ActionMessage { text: out });
                } else {
                    return None;
                }
            } else {
                return None;
            }
        } else if c == '\\' {
            if i + 1 >= n {
                return None;
            }
            let e = s.get_char(i + 1);
            if e == '"' {
                out.append("\"");
                proof {
                    reveal_strlit("\"");
                }
            } else if e == '\\' {
                out.append("\\");
                proof {
                    reveal_strlit("\\");
                }
            } else if e == '/' {
                out.append("/");
                proof {
                    reveal_strlit("/");
                }
            } else if e == 'b' {
                out.append("\u{8}");
                proof {
                    reveal_strlit("\u{8}");
                }
            } else if e == 'f' {
                out.append("\u{c}");
                proof {
                    reveal_strlit("\u{c}");
                }
            } else if e == 'n' {
                out.append("\n");
                proof {
                    reveal_strlit("\n");
                }
            } else if e == 'r' {
                out.append("\r");
                proof {
                    reveal_strlit("\r");
                }
            } else if e == 't' {
                out.append("\t");
                proof {
                    reveal_strlit("\t");
                }
            } else {
                return None;
            }
            proof {
                let u = unescape(s@[i as int + 1]).unwrap();
                assert(out@ =~= pre + seq![u]);
                if scan_string(s@, i as int + 2) is Some {
                    let q = scan_string(s@, i as int + 2).unwrap();
                    assert(scan_string(s@, i as int).unwrap().0 == seq![u] + q.0);
                    assert(pre + (seq![u] + q.0) =~= out@ + q.0);
                }
            }
            i += 2;
        } else if (c as u32) < 32 {
            return None;
        } else {
            let piece = s.substring_char(i, i + 1);
            out.append(piece);
            proof {
                assert(piece@ =~= seq![s@[i as int]]);
                if scan_string(s@, i as int + 1) is Some {
                    let q = scan_string(s@, i as int + 1).unwrap();
                    assert(scan_string(s@, i as int).unwrap().0 == seq![s@[i as int]] + q.0);
                    assert(pre + (seq![s@[i as int]] + q.0) =~= out@ + q.0);
                }
            }
            i += 1;
        }
    }
    None
}

/// Texts every character of which either prints or has a short
/// escape: everything but the control characters outside the
/// backspace, tab, newline, form-feed, carriage-return set.
pub open spec fn shorthand_escapable(t: Seq<char>) -> bool {
    forall|i: int|
        0 <= i < t.len() ==> ((#[trigger] t[i] as u32) >= 32 || t[i] == '\u{8}' || t[i] == '\t'
            || t[i] == '\n' || t[i] == '\u{c}' || t[i] == '\r')
}

/// `esc_seq` decomposed from the front: the first character's escape,
/// then the rest's.
pub proof fn lemma_esc_seq_first(t: Seq<char>)
    requires
        t.len() > 0,
    ensures
        esc_seq(t) == esc_char(t[0]) + esc_seq(t.drop_first()),
    decreases t.len(),
{
    if t.len() == 1 {
        assert(t.drop_last() =~= Seq::<char>::empty());
        assert(t.drop_first() =~= Seq::<char>::empty());
        assert(esc_seq(t) =~= esc_char(t[0]) + esc_seq(t.drop_first()));
    } else {
        let tl = t.drop_last();
        lemma_esc_seq_first(tl);
        assert(t.drop_first().drop_last() =~= tl.drop_first());
        assert(t.drop_first().last() == t.last());
        assert(esc_seq(t.drop_first()) == esc_seq(t.drop_first().drop_last()) + esc_char(
            t.drop_first().last(),
        ));
        assert(esc_seq(t) =~= esc_char(t[0]) + esc_seq(t.drop_first()));
    }
}

/// Scanning a rendered string body: where positions `i` to `j` of `s`
/// hold the escaped text followed by its closing quote, the scan
/// recovers exactly the text and stops just past the quote.
proof fn lemma_scan_of_escaped(s: Seq<char>, i: int, t: Seq<char>, j: int)
    requires
        0 <= i <= j <= s.len(),
        shorthand_escapable(t),
        s.subrange(i, j) == esc_seq(t) + seq!['"'],
    ensures
        scan_string(s, i) matches Some(q) && q.0 == t && q.1 == j,
    decreases t.len(),
{
    let body = esc_seq(t) + seq!['"'];
    assert(j - i == body.len());
    assert forall|k: int| 0 <= k < j - i implies s[i + k] == body[k] by {
        assert(s.subrange(i, j)[k] == s[i + k]);
    }
    if t.len() == 0 {
        assert(s[i + 0] == body[0]);
        assert(s[i] == '"');
        assert(scan_string(s, i).unwrap().0 =~= t);
    } else {
        let c = t[0];
        let rest = t.drop_first();
        lemma_esc_seq_first(t);
        let ec = esc_char(c);
        assert(shorthand_escapable(rest));
        if c == '"' || c == '\\' || c == '\u{8}' || c == '\t' || c == '\n' || c == '\u{c}' || c
            == '\r' {
            assert(ec.len() == 2);
            assert(s[i + 0] == body[0]);
            assert(s[i + 1] == body[1]);
            assert(s[i] == '\\');
            assert(unescape(s[i + 1]) == Some(c));
            assert forall|k: int| 0 <= k < j - (i + 2) implies s.subrange(i + 2, j)[k] == (
            esc_seq(rest) + seq!['"'])[k] by {
                assert(s.subrange(i, j)[k + 2] == s[i + k + 2]);
                assert(s.subrange(i + 2, j)[k] == s[i + k + 2]);
                assert(body[k + 2] == (esc_seq(rest) + seq!['"'])[k]);
            }
            assert(s.subrange(i + 2, j) =~= esc_seq(rest) + seq!['"']);
            lemma_scan_of_escaped(s, i + 2, rest, j);
            assert(seq![c] + rest =~= t);
        } else {
            assert((c as u32) >= 32);
            assert(ec =~= seq![c]);
            assert(s[i + 0] == body[0]);
            assert(s[i] == c);
            assert forall|k: int| 0 <= k < j - (i + 1) implies s.subrange(i + 1, j)[k] == (
            esc_seq(rest) + seq!['"'])[k] by {
                assert(s.subrange(i, j)[k + 1] == s[i + k + 1]);
                assert(s.subrange(i + 1, j)[k] == s[i + k + 1]);
                assert(body[k + 1] == (esc_seq(rest) + seq!['"'])[k]);
            }
            assert(s.subrange(i + 1, j) =~= esc_seq(rest) + seq!['"']);
            lemma_scan_of_escaped(s, i + 1, rest, j);
            assert(seq![c] + rest =~= t);
        }
    }
}

/// Round-trip law: a frame produced for any text of printable or
/// short-escapable characters parses back to exactly that text.
pub proof fn lemma_action_round_trip(t: Seq<char>)
    requires
        shorthand_escapable(t),
    ensures
        parse_action_spec(action_json_spec(t)) == Some(t),
{
    let p = "{\"type\":\"Message\",\"text\":\""@;
    let tail = "\"}"@;
    reveal_strlit("\"}");
    let s = action_json_spec(t);
    assert(tail =~= seq!['"', '}']);
    assert(s.len() == p.len() + esc_seq(t).len() + 2);
    assert(s.subrange(0, p.len() as int) =~= p);
    let j = p.len() + esc_seq(t).len() + 1;
    assert(s.subrange(p.len() as int, j as int) =~= esc_seq(t) + seq!['"']);
    lemma_scan_of_escaped(s, p.len() as int, t, j as int);
    assert(s[j as int] == '}');
}

} // verus!
