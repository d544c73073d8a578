//! Decimal rendering and JSON string escaping.
//!
//! The service's wire bodies are built here character by character, so that
//! every byte a client sees is pinned down by a specification: `dec_rep`
//! gives the decimal form of a number, and `json_escape` gives the exact
//! form a string takes inside a JSON string literal.

use vstd::prelude::*;

verus! {

/// The character for a single decimal digit.
pub open spec fn digit_char(d: nat) -> char {
    if d == 0 {
        '0'
    } else if d == 1 {
        '1'
    } else if d == 2 {
        '2'
    } else if d == 3 {
        '3'
    } else if d == 4 {
        '4'
    } else if d == 5 {
        '5'
    } else if d == 6 {
        '6'
    } else if d == 7 {
        '7'
    } else if d == 8 {
        '8'
    } else {
        '9'
    }
}

/// The character for a single hexadecimal digit, lower case.
pub open spec fn hex_digit_char(d: nat) -> char {
    if d < 10 {
        digit_char(d)
    } else if d == 10 {
        'a'
    } else if d == 11 {
        'b'
    } else if d == 12 {
        'c'
    } else if d == 13 {
        'd'
    } else if d == 14 {
        'e'
    } else {
        'f'
    }
}

/// The decimal representation of a natural number, most significant digit
/// first, without leading zeros (zero itself is "0").
pub open spec fn dec_rep(n: nat) -> Seq<char>
    decreases n,
{
    if n < 10 {
        seq![digit_char(n)]
    } else {
        dec_rep(n / 10).push(digit_char(n % 10))
    }
}

/// A single decimal digit as a string slice.
fn digit_str(d: u64) -> (s: &'static str)
    requires
        d < 10,
    ensures
        s@ == seq![digit_char(d as nat)],
{
    if d == 0 {
        proof {
            reveal_strlit("0");
            assert("0"@ =~= seq![digit_char(d as nat)]);
        }
        "0"
    } else if d == 1 {
        proof {
            reveal_strlit("1");
            assert("1"@ =~= seq![digit_char(d as nat)]);
        }
        "1"
    } else if d == 2 {
        proof {
            reveal_strlit("2");
            assert("2"@ =~= seq![digit_char(d as nat)]);
        }
        "2"
    } else if d == 3 {
        proof {
            reveal_strlit("3");
            assert("3"@ =~= seq![digit_char(d as nat)]);
        }
        "3"
    } else if d == 4 {
        proof {
            reveal_strlit("4");
            assert("4"@ =~= seq![digit_char(d as nat)]);
        }
        "4"
    } else if d == 5 {
        proof {
            reveal_strlit("5");
            assert("5"@ =~= seq![digit_char(d as nat)]);
        }
        "5"
    } else if d == 6 {
        proof {
            reveal_strlit("6");
            assert("6"@ =~= seq![digit_char(d as nat)]);
        }
        "6"
    } else if d == 7 {
        proof {
            reveal_strlit("7");
            assert("7"@ =~= seq![digit_char(d as nat)]);
        }
        "7"
    } else if d == 8 {
        proof {
            reveal_strlit("8");
            assert("8"@ =~= seq![digit_char(d as nat)]);
        }
        "8"
    } else {
        proof {
            reveal_strlit("9");
            assert("9"@ =~= seq![digit_char(d as nat)]);
        }
        "9"
    }
}

/// A single hexadecimal digit as a string slice.
fn hex_digit_str(d: u64) -> (s: &'static str)
    requires
        d < 16,
    ensures
        s@ == seq![hex_digit_char(d as nat)],
{
    if d < 10 {
        digit_str(d)
    } else if d == 10 {
        proof {
            reveal_strlit("a");
            assert("a"@ =~= seq![hex_digit_char(d as nat)]);
        }
        "a"
    } else if d == 11 {
        proof {
            reveal_strlit("b");
            assert("b"@ =~= seq![hex_digit_char(d as nat)]);
        }
        "b"
    } else if d == 12 {
        proof {
            reveal_strlit("c");
            assert("c"@ =~= seq![hex_digit_char(d as nat)]);
        }
        "c"
    } else if d == 13 {
        proof {
            reveal_strlit("d");
            assert("d"@ =~= seq![hex_digit_char(d as nat)]);
        }
        "d"
    } else if d == 14 {
        proof {
            reveal_strlit("e");
            assert("e"@ =~= seq![hex_digit_char(d as nat)]);
        }
        "e"
    } else {
        proof {
            reveal_strlit("f");
            assert("f"@ =~= seq![hex_digit_char(d as nat)]);
        }
        "f"
    }
}

/// Renders a number in decimal.
pub fn u64_to_dec(n: u64) -> (s: String)
    ensures
        s@ == dec_rep(n as nat),
    decreases n,
{
    if n < 10 {
        String::from_str(digit_str(n))
    } else {
        let q = u64_to_dec(n / 10);
        let s = q.concat(digit_str(n % 10));
        proof {
            assert(s@ =~= dec_rep((n / 10) as nat).push(digit_char((n % 10) as nat)));
        }
        s
    }
}

/// How one character appears inside a JSON string literal: the two JSON
/// metacharacters and all control characters are escaped, every other
/// character passes through unchanged.
pub open spec fn json_escape_char(c: char) -> Seq<char> {
    if c == '"' {
        seq!['\\', '"']
    } else if c == '\\' {
        seq!['\\', '\\']
    } else if c == '\u{8}' {
        seq!['\\', 'b']
    } else if c == '\u{c}' {
        seq!['\\', 'f']
    } else if c == '\n' {
        seq!['\\', 'n']
    } else if c == '\r' {
        seq!['\\', 'r']
    } else if c == '\t' {
        seq!['\\', 't']
    } else if (c as u32) < 32 {
        seq!['\\', 'u', '0', '0', hex_digit_char(((c as u32) / 16) as nat), hex_digit_char(
            ((c as u32) % 16) as nat,
        )]
    } else {
        seq![c]
    }
}

/// A character that appears inside a JSON string literal as itself.
pub open spec fn is_plain_char(c: char) -> bool {
    c != '"' && c != '\\' && c != '\u{8}' && c != '\u{c}' && c != '\n' && c != '\r' && c != '\t'
        && (c as u32) >= 32
}

/// A whole string escaped for inclusion in a JSON string literal.
pub open spec fn json_escape(s: Seq<char>) -> Seq<char>
    decreases s.len(),
{
    if s.len() == 0 {
        Seq::empty()
    } else {
        json_escape(s.drop_last()) + json_escape_char(s.last())
    }
}

/// A string of plain characters passes through JSON escaping unchanged.
pub proof fn lemma_json_escape_plain(s: Seq<char>)
    requires
        forall|i: int| 0 <= i < s.len() ==> is_plain_char(#[trigger] s[i]),
    ensures
        json_escape(s) == s,
    decreases s.len(),
{
    if s.len() > 0 {
        lemma_json_escape_plain(s.drop_last());
        assert(is_plain_char(s.last()));
        assert(json_escape_char(s.last()) =~= seq![s.last()]);
        assert(json_escape(s) =~= s.drop_last() + seq![s.last()]);
        assert(s.drop_last() + seq![s.last()] =~= s);
    }
}

/// Escapes a string for inclusion in a JSON string literal.
pub fn json_escape_str(s: &str) -> (r: String)
    ensures
        r@ == json_escape(s@),
{
    let n = s.unicode_len();
    let mut out = String::new();
    let mut i: usize = 0;
    while i < n
        invariant
            i <= n,
            n == s@.len(),
            out@ == json_escape(s@.take(i as int)),
        decreases n - i,
    {
        let c = s.get_char(i);
        proof {
            assert(s@.take(i + 1).drop_last() =~= s@.take(i as int));
            assert(s@.take(i + 1).last() == c);
        }
        if c == '"' {
            out.append("\\\"");
            proof {
                reveal_strlit("\\\"");
                assert("\\\""@ =~= json_escape_char(c));
            }
        } else if c == '\\' {
            out.append("\\\\");
            proof {
                reveal_strlit("\\\\");
                assert("\\\\"@ =~= json_escape_char(c));
            }
        } else if c == '\u{8}' {
            out.append("\\b");
            proof {
                reveal_strlit("\\b");
                assert("\\b"@ =~= json_escape_char(c));
            }
        } else if c == '\u{c}' {
            out.append("\\f");
            proof {
                reveal_strlit("\\f");
                assert("\\f"@ =~= json_escape_char(c));
            }
        } else if c == '\n' {
            out.append("\\n");
            proof {
                reveal_strlit("\\n");
                assert("\\n"@ =~= json_escape_char(c));
            }
        } else if c == '\r' {
            out.append("\\r");
            proof {
                reveal_strlit("\\r");
                assert("\\r"@ =~= json_escape_char(c));
            }
        } else if c == '\t' {
            out.append("\\t");
            proof {
                reveal_strlit("\\t");
                assert("\\t"@ =~= json_escape_char(c));
            }
        } else {
            let cu: u32 = c as u32;
            if cu < 32 {
                out.append("\\u00");
                let h = hex_digit_str((cu / 16) as u64);
                out.append(h);
                let l = hex_digit_str((cu % 16) as u64);
                out.append(l);
                proof {
                    reveal_strlit("\\u00");
                    assert((("\\u00"@ + h@) + l@) =~= json_escape_char(c));
                }
            } else {
                let piece = s.substring_char(i, i + 1);
                out.append(piece);
                proof {
                    assert(piece@ =~= seq![c]);
                    assert(seq![c] =~= json_escape_char(c));
                }
            }
        }
        i = i + 1;
    }
    proof {
        assert(s@.take(n as int) =~= s@);
    }
    out
}

} // verus!
