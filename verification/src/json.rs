//! Construction of the two outbound JSON request bodies.
//!
//! Bodies are built as compact JSON text: object members in lexicographic
//! key order, no added whitespace, and strings escaped as JSON asks: `"` and
//! `\` with a backslash, the five control characters with short escapes, and
//! every other control character as `\u00` plus two lowercase hex digits.

use vstd::prelude::*;

verus! {

/// The lowercase hexadecimal digit for `d` (meaningful for `d < 16`).
pub open spec fn hex_digit(d: u32) -> char {
    if d == 0 {
        '0'
    } else if d == 1 {
        '1'
    } else if d == 2 {
        '2'
    } else if d == 3 {
        '3'
    } else if d == 4 {
        '4'
    } else if d == 5 {
        '5'
    } else if d == 6 {
        '6'
    } else if d == 7 {
        '7'
    } else if d == 8 {
        '8'
    } else if d == 9 {
        '9'
    } else if d == 10 {
        'a'
    } else if d == 11 {
        'b'
    } else if d == 12 {
        'c'
    } else if d == 13 {
        'd'
    } else if d == 14 {
        'e'
    } else {
        'f'
    }
}

/// How one character appears inside a JSON string literal.
pub open spec fn escape_char(c: char) -> Seq<char> {
    let u: u32 = c as u32;
    if c == '"' {
        seq!['\\', '"']
    } else if c == '\\' {
        seq!['\\', '\\']
    } else if u == 8 {
        seq!['\\', 'b']
    } else if u == 9 {
        seq!['\\', 't']
    } else if u == 10 {
        seq!['\\', 'n']
    } else if u == 12 {
        seq!['\\', 'f']
    } else if u == 13 {
        seq!['\\', 'r']
    } else if u < 32 {
        seq!['\\', 'u', '0', '0', hex_digit(u / 16), hex_digit(u % 16)]
    } else {
        seq![c]
    }
}

/// The body of a JSON string literal holding the text `s`.
pub open spec fn escape_string(s: Seq<char>) -> Seq<char>
    decreases s.len(),
{
    if s.len() == 0 {
        Seq::empty()
    } else {
        escape_char(s[0]) + escape_string(s.drop_first())
    }
}

/// A complete JSON string literal holding the text `s`.
pub open spec fn json_string(s: Seq<char>) -> Seq<char> {
    seq!['"'] + escape_string(s) + seq!['"']
}

proof fn lemma_escape_push(s: Seq<char>, c: char)
    ensures
        escape_string(s.push(c)) == escape_string(s) + escape_char(c),
    decreases s.len(),
{
    if s.len() == 0 {
        assert(s.push(c)[0] == c);
        assert(s.push(c).drop_first() =~= Seq::<char>::empty());
        assert(escape_string(Seq::<char>::empty()) =~= Seq::<char>::empty());
        assert(escape_string(s.push(c)) == escape_char(c) + escape_string(
            s.push(c).drop_first(),
        ));
        assert(escape_string(s.push(c)) =~= escape_string(s) + escape_char(c));
    } else {
        assert(s.push(c)[0] == s[0]);
        assert(s.push(c).drop_first() =~= s.drop_first().push(c));
        lemma_escape_push(s.drop_first(), c);
        assert(escape_string(s.push(c)) == escape_char(s[0]) + escape_string(
            s.drop_first().push(c),
        ));
        assert(escape_string(s) == escape_char(s[0]) + escape_string(s.drop_first()));
        assert(escape_string(s.push(c)) =~= escape_string(s) + escape_char(c));
    }
}

fn push_hex_digit(out: &mut String, d: u32)
    requires
        d < 16,
    ensures
        final(out)@ == old(out)@ + seq![hex_digit(d)],
{
    if d == 0 {
        out.append("0");
        proof {
            reveal_strlit("0");
            assert("0"@ =~= seq![hex_digit(d)]);
        }
    } else if d == 1 {
        out.append("1");
        proof {
            reveal_strlit("1");
            assert("1"@ =~= seq![hex_digit(d)]);
        }
    } else if d == 2 {
        out.append("2");
        proof {
            reveal_strlit("2");
            assert("2"@ =~= seq![hex_digit(d)]);
        }
    } else if d == 3 {
        out.append("3");
        proof {
            reveal_strlit("3");
            assert("3"@ =~= seq![hex_digit(d)]);
        }
    } else if d == 4 {
        out.append("4");
        proof {
            reveal_strlit("4");
            assert("4"@ =~= seq![hex_digit(d)]);
        }
    } else if d == 5 {
        out.append("5");
        proof {
            reveal_strlit("5");
            assert("5"@ =~= seq![hex_digit(d)]);
        }
    } else if d == 6 {
        out.append("6");
        proof {
            reveal_strlit("6");
            assert("6"@ =~= seq![hex_digit(d)]);
        }
    } else if d == 7 {
        out.append("7");
        proof {
            reveal_strlit("7");
            assert("7"@ =~= seq![hex_digit(d)]);
        }
    } else if d == 8 {
        out.append("8");
        proof {
            reveal_strlit("8");
            assert("8"@ =~= seq![hex_digit(d)]);
        }
    } else if d == 9 {
        out.append("9");
        proof {
            reveal_strlit("9");
            assert("9"@ =~= seq![hex_digit(d)]);
        }
    } else if d == 10 {
        out.append("a");
        proof {
            reveal_strlit("a");
            assert("a"@ =~= seq![hex_digit(d)]);
        }
    } else if d == 11 {
        out.append("b");
        proof {
            reveal_strlit("b");
            assert("b"@ =~= seq![hex_digit(d)]);
        }
    } else if d == 12 {
        out.append("c");
        proof {
            reveal_strlit("c");
            assert("c"@ =~= seq![hex_digit(d)]);
        }
    } else if d == 13 {
        out.append("d");
        proof {
            reveal_strlit("d");
            assert("d"@ =~= seq![hex_digit(d)]);
        }
    } else if d == 14 {
        out.append("e");
        proof {
            reveal_strlit("e");
            assert("e"@ =~= seq![hex_digit(d)]);
        }
    } else {
        out.append("f");
        proof {
            reveal_strlit("f");
            assert("f"@ =~= seq![hex_digit(d)]);
        }
    }
}

fn push_escaped(out: &mut String, s: &str)
    ensures
        final(out)@ == old(out)@ + escape_string(s@),
{
    let ghost base: Seq<char> = out@;
    let n: usize = s.unicode_len();
    let mut i: usize = 0;
    proof {
        assert(s@.subrange(0, 0) =~= Seq::<char>::empty());
        assert(out@ =~= base + escape_string(s@.subrange(0, 0)));
    }
    while i < n
        invariant
            i <= n,
            n == s@.len(),
            out@ == base + escape_string(s@.subrange(0, i as int)),
        decreases n - i,
    {
        let c: char = s.get_char(i);
        let ghost pre: Seq<char> = s@.subrange(0, i as int);
        let u: u32 = c as u32;
        if c == '"' {
            out.append("\\\"");
            proof {
                reveal_strlit("\\\"");
                assert("\\\""@ =~= escape_char(c));
            }
        } else if c == '\\' {
            out.append("\\\\");
            proof {
                reveal_strlit("\\\\");
                assert("\\\\"@ =~= escape_char(c));
            }
        } else if u == 8 {
            out.append("\\b");
            proof {
                reveal_strlit("\\b");
                assert("\\b"@ =~= escape_char(c));
            }
        } else if u == 9 {
            out.append("\\t");
            proof {
                reveal_strlit("\\t");
                assert("\\t"@ =~= escape_char(c));
            }
        } else if u == 10 {
            out.append("\\n");
            proof {
                reveal_strlit("\\n");
                assert("\\n"@ =~= escape_char(c));
            }
        } else if u == 12 {
            out.append("\\f");
            proof {
                reveal_strlit("\\f");
                assert("\\f"@ =~= escape_char(c));
            }
        } else if u == 13 {
            out.append("\\r");
            proof {
                reveal_strlit("\\r");
                assert("\\r"@ =~= escape_char(c));
            }
        } else if u < 32 {
            out.append("\\u00");
            push_hex_digit(out, u / 16);
            push_hex_digit(out, u % 16);
            proof {
                reveal_strlit("\\u00");
                assert("\\u00"@ + seq![hex_digit(u / 16)] + seq![hex_digit(u % 16)] =~= escape_char(
                    c,
                ));
            }
        } else {
            let piece: &str = s.substring_char(i, i + 1);
            out.append(piece);
            proof {
                assert(piece@ =~= escape_char(c));
            }
        }
        proof {
            lemma_escape_push(pre, c);
            assert(s@.subrange(0, (i + 1) as int) =~= pre.push(c));
            assert(out@ =~= base + escape_string(s@.subrange(0, (i + 1) as int)));
        }
        i = i + 1;
    }
    proof {
        assert(s@.subrange(0, n as int) =~= s@);
    }
}

fn push_json_string(out: &mut String, s: &str)
    ensures
        final(out)@ == old(out)@ + json_string(s@),
{
    out.append("\"");
    push_escaped(out, s);
    out.append("\"");
    proof {
        reveal_strlit("\"");
        assert(final(out)@ =~= old(out)@ + json_string(s@));
    }
}

/// The body POSTed for one chat question: a single-member object holding
/// the question's text.
pub open spec fn chat_body_spec(question: Seq<char>) -> Seq<char> {
    "{\"message\":"@ + json_string(question) + "}"@
}

/// Builds the chat request body for an (already trimmed) question.
pub fn chat_body(question: &str) -> (r: String)
    ensures
        r@ == chat_body_spec(question@),
{
    let mut out: String = String::new();
    out.append("{\"message\":");
    push_json_string(&mut out, question);
    out.append("}");
    proof {
        assert(out@ =~= chat_body_spec(question@));
    }
    out
}

/// The body POSTed after a document is copied: the fixed success message,
/// the selected file's own name, the canonical name it was stored under,
/// and the full destination path.
pub open spec fn load_body_spec(original_name: Seq<char>, destination: Seq<char>) -> Seq<char> {
    "{\"destination_path\":"@ + json_string(destination)
        + ",\"message\":\"File copied successfully\",\"new_name\":\"doc.pdf\",\"original_name\":"@
        + json_string(original_name) + "}"@
}

/// Builds the load-notification body for a finished copy.
pub fn load_body(original_name: &str, destination: &str) -> (r: String)
    ensures
        r@ == load_body_spec(original_name@, destination@),
{
    let mut out: String = String::new();
    out.append("{\"destination_path\":");
    push_json_string(&mut out, destination);
    out.append(",\"message\":\"File copied successfully\",\"new_name\":\"doc.pdf\",\"original_name\":");
    push_json_string(&mut out, original_name);
    out.append("}");
    proof {
        assert(out@ =~= load_body_spec(original_name@, destination@));
    }
    out
}

} // verus!
