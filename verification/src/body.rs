//! Verified framing of generation request bodies: JSON string escaping and
//! the two request shapes (with and without the role field).

use vstd::prelude::*;
use vstd::string::{StrSliceExecFns, StringExecFns};

use crate::text::{has_substring, match_at};

verus! {

/// The lowercase hexadecimal digit of a value below sixteen.
pub open spec fn hex_digit_char(n: int) -> char {
    if n == 0 {
        '0'
    } else if n == 1 {
        '1'
    } else if n == 2 {
        '2'
    } else if n == 3 {
        '3'
    } else if n == 4 {
        '4'
    } else if n == 5 {
        '5'
    } else if n == 6 {
        '6'
    } else if n == 7 {
        '7'
    } else if n == 8 {
        '8'
    } else if n == 9 {
        '9'
    } else if n == 10 {
        'a'
    } else if n == 11 {
        'b'
    } else if n == 12 {
        'c'
    } else if n == 13 {
        'd'
    } else if n == 14 {
        'e'
    } else {
        'f'
    }
}

/// JSON string escaping of one character: quote and backslash take a
/// backslash escape, the named control characters their short escape, the
/// remaining control characters a `\u00..` escape with lowercase digits,
/// and every other character stands for itself.
pub open spec fn json_escaped_char(c: char) -> Seq<char> {
    let n = c as u32;
    if c == '"' {
        seq!['\\', '"']
    } else if c == '\\' {
        seq!['\\', '\\']
    } else if n == 0x08 {
        seq!['\\', 'b']
    } else if n == 0x09 {
        seq!['\\', 't']
    } else if n == 0x0A {
        seq!['\\', 'n']
    } else if n == 0x0C {
        seq!['\\', 'f']
    } else if n == 0x0D {
        seq!['\\', 'r']
    } else if n < 0x20 {
        seq!['\\', 'u', '0', '0', hex_digit_char((n / 16) as int), hex_digit_char((n % 16) as int)]
    } else {
        seq![c]
    }
}

/// JSON string escaping of a whole string.
pub open spec fn json_escaped(s: Seq<char>) -> Seq<char>
    decreases s.len(),
{
    if s.len() == 0 {
        Seq::empty()
    } else {
        json_escaped_char(s[0]) + json_escaped(s.subrange(1, s.len() as int))
    }
}

/// A character that stands for itself inside a JSON string.
pub open spec fn json_plain_char(c: char) -> bool {
    c != '"' && c != '\\' && (c as u32) >= 0x20
}

proof fn lemma_json_escaped_snoc(s: Seq<char>, c: char)
    ensures
        json_escaped(s.push(c)) == json_escaped(s) + json_escaped_char(c),
    decreases s.len(),
{
    if s.len() == 0 {
        reveal_with_fuel(json_escaped, 2);
        assert(s.push(c)[0] == c);
        assert(s.push(c).subrange(1, 1) =~= Seq::<char>::empty());
        assert(json_escaped(s.push(c)) =~= json_escaped_char(c));
        assert(json_escaped(s) + json_escaped_char(c) =~= json_escaped_char(c));
    } else {
        let t = s.subrange(1, s.len() as int);
        lemma_json_escaped_snoc(t, c);
        assert(s.push(c).subrange(1, s.len() as int + 1) =~= t.push(c));
        assert(s.push(c)[0] == s[0]);
        assert(json_escaped_char(s[0]) + (json_escaped(t) + json_escaped_char(c)) =~= (
        json_escaped_char(s[0]) + json_escaped(t)) + json_escaped_char(c));
    }
}

fn append_escaped_char(out: &mut String, c: char)
    requires
        !json_plain_char(c),
    ensures
        final(out)@ == old(out)@ + json_escaped_char(c),
{
    let n = c as u32;
    if c == '"' {
        out.append("\\\"");
        proof {
            reveal_strlit("\\\"");
            assert(json_escaped_char(c) =~= "\\\""@);
        }
    } else if c == '\\' {
        out.append("\\\\");
        proof {
            reveal_strlit("\\\\");
            assert(json_escaped_char(c) =~= "\\\\"@);
        }
    } else if n == 0x08 {
        out.append("\\b");
        proof {
            reveal_strlit("\\b");
            assert(json_escaped_char(c) =~= "\\b"@);
        }
    } else if n == 0x09 {
        out.append("\\t");
        proof {
            reveal_strlit("\\t");
            assert(json_escaped_char(c) =~= "\\t"@);
        }
    } else if n == 0x0A {
        out.append("\\n");
        proof {
            reveal_strlit("\\n");
            assert(json_escaped_char(c) =~= "\\n"@);
        }
    } else if n == 0x0C {
        out.append("\\f");
        proof {
            reveal_strlit("\\f");
            assert(json_escaped_char(c) =~= "\\f"@);
        }
    } else if n == 0x0D {
        out.append("\\r");
        proof {
            reveal_strlit("\\r");
            assert(json_escaped_char(c) =~= "\\r"@);
        }
    } else {
        match n {
            0x00 => {
                out.append("\\u0000");
                proof {
                    reveal_strlit("\\u0000");
                    assert(json_escaped_char(c) =~= "\\u0000"@);
                }
            },
            0x01 => {
                out.append("\\u0001");
                proof {
                    reveal_strlit("\\u0001");
                    assert(json_escaped_char(c) =~= "\\u0001"@);
                }
            },
            0x02 => {
                out.append("\\u0002");
                proof {
                    reveal_strlit("\\u0002");
                    assert(json_escaped_char(c) =~= "\\u0002"@);
                }
            },
            0x03 => {
                out.append("\\u0003");
                proof {
                    reveal_strlit("\\u0003");
                    assert(json_escaped_char(c) =~= "\\u0003"@);
                }
            },
            0x04 => {
                out.append("\\u0004");
                proof {
                    reveal_strlit("\\u0004");
                    assert(json_escaped_char(c) =~= "\\u0004"@);
                }
            },
            0x05 => {
                out.append("\\u0005");
                proof {
                    reveal_strlit("\\u0005");
                    assert(json_escaped_char(c) =~= "\\u0005"@);
                }
            },
            0x06 => {
                out.append("\\u0006");
                proof {
                    reveal_strlit("\\u0006");
                    assert(json_escaped_char(c) =~= "\\u0006"@);
                }
            },
            0x07 => {
                out.append("\\u0007");
                proof {
                    reveal_strlit("\\u0007");
                    assert(json_escaped_char(c) =~= "\\u0007"@);
                }
            },
            0x0b => {
                out.append("\\u000b");
                proof {
                    reveal_strlit("\\u000b");
                    assert(json_escaped_char(c) =~= "\\u000b"@);
                }
            },
            0x0e => {
                out.append("\\u000e");
                proof {
                    reveal_strlit("\\u000e");
                    assert(json_escaped_char(c) =~= "\\u000e"@);
                }
            },
            0x0f => {
                out.append("\\u000f");
                proof {
                    reveal_strlit("\\u000f");
                    assert(json_escaped_char(c) =~= "\\u000f"@);
                }
            },
            0x10 => {
                out.append("\\u0010");
                proof {
                    reveal_strlit("\\u0010");
                    assert(json_escaped_char(c) =~= "\\u0010"@);
                }
            },
            0x11 => {
                out.append("\\u0011");
                proof {
                    reveal_strlit("\\u0011");
                    assert(json_escaped_char(c) =~= "\\u0011"@);
                }
            },
            0x12 => {
                out.append("\\u0012");
                proof {
                    reveal_strlit("\\u0012");
                    assert(json_escaped_char(c) =~= "\\u0012"@);
                }
            },
            0x13 => {
                out.append("\\u0013");
                proof {
                    reveal_strlit("\\u0013");
                    assert(json_escaped_char(c) =~= "\\u0013"@);
                }
            },
            0x14 => {
                out.append("\\u0014");
                proof {
                    reveal_strlit("\\u0014");
                    assert(json_escaped_char(c) =~= "\\u0014"@);
                }
            },
            0x15 => {
                out.append("\\u0015");
                proof {
                    reveal_strlit("\\u0015");
                    assert(json_escaped_char(c) =~= "\\u0015"@);
                }
            },
            0x16 => {
                out.append("\\u0016");
                proof {
                    reveal_strlit("\\u0016");
                    assert(json_escaped_char(c) =~= "\\u0016"@);
                }
            },
            0x17 => {
                out.append("\\u0017");
                proof {
                    reveal_strlit("\\u0017");
                    assert(json_escaped_char(c) =~= "\\u0017"@);
                }
            },
            0x18 => {
                out.append("\\u0018");
                proof {
                    reveal_strlit("\\u0018");
                    assert(json_escaped_char(c) =~= "\\u0018"@);
                }
            },
            0x19 => {
                out.append("\\u0019");
                proof {
                    reveal_strlit("\\u0019");
                    assert(json_escaped_char(c) =~= "\\u0019"@);
                }
            },
            0x1a => {
                out.append("\\u001a");
                proof {
                    reveal_strlit("\\u001a");
                    assert(json_escaped_char(c) =~= "\\u001a"@);
                }
            },
            0x1b => {
                out.append("\\u001b");
                proof {
                    reveal_strlit("\\u001b");
                    assert(json_escaped_char(c) =~= "\\u001b"@);
                }
            },
            0x1c => {
                out.append("\\u001c");
                proof {
                    reveal_strlit("\\u001c");
                    assert(json_escaped_char(c) =~= "\\u001c"@);
                }
            },
            0x1d => {
                out.append("\\u001d");
                proof {
                    reveal_strlit("\\u001d");
                    assert(json_escaped_char(c) =~= "\\u001d"@);
                }
            },
            0x1e => {
                out.append("\\u001e");
                proof {
                    reveal_strlit("\\u001e");
                    assert(json_escaped_char(c) =~= "\\u001e"@);
                }
            },
            0x1f => {
                out.append("\\u001f");
                proof {
                    reveal_strlit("\\u001f");
                    assert(json_escaped_char(c) =~= "\\u001f"@);
                }
            },
            _ => {
                proof {
                    assert(false);
                }
            },
        }
    }
}

/// Escape a string for inclusion inside a JSON string literal.
pub fn json_escape(s: &str) -> (r: String)
    ensures
        r@ == json_escaped(s@),
{
    let n = s.unicode_len();
    let mut out = String::new();
    let mut i: usize = 0;
    while i < n
        invariant
            n == s@.len(),
            i <= n,
            out@ == json_escaped(s@.subrange(0, i as int)),
        decreases n - i,
    {
        let c = s.get_char(i);
        if c != '"' && c != '\\' && (c as u32) >= 0x20 {
            let piece = s.substring_char(i, i + 1);
            out.append(piece);
            proof {
                assert(piece@ =~= seq![c]);
                assert(json_escaped_char(c) =~= seq![c]);
            }
        } else {
            append_escaped_char(&mut out, c);
        }
        proof {
            let pre = s@.subrange(0, i as int);
            assert(pre.push(c) =~= s@.subrange(0, i + 1));
            lemma_json_escaped_snoc(pre, c);
        }
        i += 1;
    }
    proof {
        assert(s@.subrange(0, n as int) =~= s@);
    }
    out
}

/// Body of a generation request on the AI Studio endpoint: a single content
/// block with one text part and no role field.
pub open spec fn generate_body_spec(prompt: Seq<char>) -> Seq<char> {
    "{\"contents\":[{\"parts\":[{\"text\":\""@ + json_escaped(prompt) + "\"}]}]}"@
}

/// Body of a generation request on the Vertex AI endpoint: the same shape
/// with the role field set to `user`.
pub open spec fn generate_vertex_body_spec(prompt: Seq<char>) -> Seq<char> {
    "{\"contents\":[{\"role\":\"user\",\"parts\":[{\"text\":\""@ + json_escaped(prompt)
        + "\"}]}]}"@
}

/// Build the AI Studio generation request body.
pub fn generate_request_body(prompt: &str) -> (r: String)
    ensures
        r@ == generate_body_spec(prompt@),
{
    let mut body = String::from_str("{\"contents\":[{\"parts\":[{\"text\":\"");
    let esc = json_escape(prompt);
    body.append(esc.as_str());
    body.append("\"}]}]}");
    body
}

/// Build the Vertex AI generation request body.
pub fn generate_vertex_request_body(prompt: &str) -> (r: String)
    ensures
        r@ == generate_vertex_body_spec(prompt@),
{
    let mut body = String::from_str("{\"contents\":[{\"role\":\"user\",\"parts\":[{\"text\":\"");
    let esc = json_escape(prompt);
    body.append(esc.as_str());
    body.append("\"}]}]}");
    body
}

/// The Vertex AI request body names the user role, whatever the prompt.
pub proof fn lemma_vertex_body_names_role(prompt: Seq<char>)
    ensures
        has_substring(generate_vertex_body_spec(prompt), "\"role\":\"user\""@),
{
    reveal_strlit("{\"contents\":[{\"role\":\"user\",\"parts\":[{\"text\":\"");
    reveal_strlit("\"role\":\"user\"");
    let pat = "\"role\":\"user\""@;
    let whole = generate_vertex_body_spec(prompt);
    assert(whole.subrange(14, 14 + pat.len() as int) =~= pat);
    assert(match_at(whole, pat, 14));
}


proof fn lemma_escaped_char_quotes(c: char)
    ensures
        json_escaped_char(c).len() > 0,
        json_escaped_char(c)[0] != '"',
        forall|j: int|
            0 < j < json_escaped_char(c).len() && #[trigger] json_escaped_char(c)[j] == '"'
                ==> json_escaped_char(c)[j - 1] == '\\',
{
    assert(forall|x: int| hex_digit_char(x) != '"');
}

/// In an escaped string a quote never stands first and is always preceded
/// by a backslash.
proof fn lemma_escaped_quotes_guarded(s: Seq<char>)
    ensures
        json_escaped(s).len() > 0 ==> json_escaped(s)[0] != '"',
        forall|j: int|
            0 < j < json_escaped(s).len() && #[trigger] json_escaped(s)[j] == '"'
                ==> json_escaped(s)[j - 1] == '\\',
    decreases s.len(),
{
    if s.len() > 0 {
        let chunk = json_escaped_char(s[0]);
        let rest = json_escaped(s.subrange(1, s.len() as int));
        lemma_escaped_char_quotes(s[0]);
        lemma_escaped_quotes_guarded(s.subrange(1, s.len() as int));
        assert(json_escaped(s) == chunk + rest);
        assert((chunk + rest)[0] == chunk[0]);
        assert forall|j: int|
            0 < j < (chunk + rest).len() && #[trigger] (chunk + rest)[j] == '"' implies (chunk
            + rest)[j - 1] == '\\' by {
            if j < chunk.len() {
                assert((chunk + rest)[j] == chunk[j]);
                assert((chunk + rest)[j - 1] == chunk[j - 1]);
            } else if j == chunk.len() {
                assert((chunk + rest)[j] == rest[0]);
                assert(rest.len() > 0);
            } else {
                assert((chunk + rest)[j] == rest[j - chunk.len()]);
                assert(rest[j - chunk.len() - 1] == '\\');
                assert((chunk + rest)[j - 1] == rest[j - chunk.len() - 1]);
            }
        }
    }
}

/// The AI Studio request body never carries a role member, whatever the
/// prompt: escaping guards every quote, so the member key cannot arise.
pub proof fn lemma_studio_body_omits_role(prompt: Seq<char>)
    ensures
        !has_substring(generate_body_spec(prompt), "\"role\":"@),
{
    reveal_strlit("{\"contents\":[{\"parts\":[{\"text\":\"");
    reveal_strlit("\"}]}]}");
    reveal_strlit("\"role\":");
    let h = "{\"contents\":[{\"parts\":[{\"text\":\""@;
    let t = "\"}]}]}"@;
    let e = json_escaped(prompt);
    let body = generate_body_spec(prompt);
    let pat = "\"role\":"@;
    lemma_escaped_quotes_guarded(prompt);
    assert(h.len() == 32);
    assert(t.len() == 6);
    assert(pat.len() == 7);
    assert(body == (h + e) + t);
    assert forall|p: int| !match_at(body, pat, p) by {
        if match_at(body, pat, p) {
            assert(pat =~= body.subrange(p, p + 7));
            assert(body[p + 4] == pat[4]);
            assert(body[p + 5] == pat[5]);
            assert(body[p + 6] == pat[6]);
            let q = p + 5;
            if q < 32 {
                assert(body[q] == h[q]);
                assert(body[q - 1] == h[q - 1]);
                assert(h[q] == '"' && h[q - 1] == 'e');
                assert(false);
            } else if q == 32 {
                if e.len() > 0 {
                    assert(body[q] == e[0]);
                } else {
                    assert(body[q] == t[0]);
                    assert(body[q + 1] == t[1]);
                }
                assert(false);
            } else if q < 32 + e.len() {
                assert(body[q] == e[q - 32]);
                assert(e[q - 32] == '"');
                assert(e[q - 33] == '\\');
                assert(body[q - 1] == e[q - 33]);
                assert(false);
            } else {
                assert(body[q] == t[q - 32 - e.len()]);
                assert(t[q - 32 - e.len()] == '"');
                assert(q == 32 + e.len());
                assert(body[q + 1] == t[1]);
                assert(false);
            }
        }
    }
    if has_substring(body, pat) {
        let k = choose|k: int| match_at(body, pat, k);
    }
}

} // verus!
