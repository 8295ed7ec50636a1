//! Rendering the structured error payload as a JSON document. The
//! message text passes through verbatim at the value level; only the
//! JSON string escapes required by the format are applied: quote,
//! backslash, and control characters (the short escapes where JSON has
//! them, four-digit lowercase hex escapes otherwise).
use vstd::prelude::*;
use vstd::string::StrSliceExecFns;
use vstd::string::StringExecFns;
use crate::errors::SqliteError;
use crate::text::{dec_int, push_dec_i64};

verus! {

/// The escape of one character inside a JSON string.
pub open spec fn esc_char(c: char) -> Seq<char> {
    if c == '"' {
        "\\\""@
    } else if c == '\\' {
        "\\\\"@
    } else if c == '\u{8}' {
        "\\b"@
    } else if c == '\u{c}' {
        "\\f"@
    } else if c == '\n' {
        "\\n"@
    } else if c == '\r' {
        "\\r"@
    } else if c == '\t' {
        "\\t"@
    } else if (c as u32) < 0x20 {
        "\\u00"@ + seq![
            "0123456789abcdef"@[((c as u32) / 16) as int],
            "0123456789abcdef"@[((c as u32) % 16) as int],
        ]
    } else {
        seq![c]
    }
}

/// The escape of a whole string body.
pub open spec fn esc(s: Seq<char>) -> Seq<char>
    decreases s.len(),
{
    if s.len() == 0 {
        Seq::empty()
    } else {
        esc(s.drop_last()) + esc_char(s.last())
    }
}

/// Appends the escaped body of `s` to `out`.
fn push_escaped(out: &mut String, s: &str)
    ensures
        final(out)@ == old(out)@ + esc(s@),
{
    let n = s.unicode_len();
    let mut i: usize = 0;
    proof {
        assert(s@.take(0) =~= Seq::<char>::empty());
    }
    while i < n
        invariant
            n == s@.len(),
            i <= n,
            out@ == old(out)@ + esc(s@.take(i as int)),
        decreases n - i,
    {
        let c = s.get_char(i);
        proof {
            assert(s@.take(i + 1).drop_last() =~= s@.take(i as int));
            assert(s@.take(i + 1).last() == s@[i as int]);
        }
        if c == '"' {
            out.append("\\\"");
        } else if c == '\\' {
            out.append("\\\\");
        } else if c == '\u{8}' {
            out.append("\\b");
        } else if c == '\u{c}' {
            out.append("\\f");
        } else if c == '\n' {
            out.append("\\n");
        } else if c == '\r' {
            out.append("\\r");
        } else if c == '\t' {
            out.append("\\t");
        } else if (c as u32) < 0x20 {
            let hex = "0123456789abcdef";
            proof {
                reveal_strlit("0123456789abcdef");
            }
            out.append("\\u00");
            let hi = ((c as u32) / 16) as usize;
            let lo = ((c as u32) % 16) as usize;
            let hs = hex.substring_ascii(hi, hi + 1);
            proof {
                assert(hs@ =~= seq!["0123456789abcdef"@[hi as int]]);
            }
            out.append(hs);
            let ls = hex.substring_ascii(lo, lo + 1);
            proof {
                assert(ls@ =~= seq!["0123456789abcdef"@[lo as int]]);
            }
            out.append(ls);
            proof {
                assert(out@ =~= old(out)@ + esc(s@.take(i as int)) + esc_char(c));
            }
        } else {
            let one = s.substring_char(i, i + 1);
            proof {
                assert(one@ =~= seq![s@[i as int]]);
            }
            out.append(one);
        }
        i = i + 1;
        proof {
            assert(out@ =~= old(out)@ + esc(s@.take(i as int)));
        }
    }
    proof {
        assert(s@.take(n as int) =~= s@);
    }
}

/// The JSON document in which every engine failure reaches the caller:
/// the symbolic code, the `libsqlError` marker, the engine's message
/// verbatim (up to JSON string escaping), and the raw numeric code, with
/// the keys in lexicographic order.
pub open spec fn error_payload_spec(message: Seq<char>, code: Seq<char>, raw_code: int) -> Seq<
    char,
> {
    "{\"code\":\""@ + esc(code) + "\",\"libsqlError\":true,\"message\":\""@ + esc(message)
        + "\",\"rawCode\":"@ + dec_int(raw_code) + "}"@
}

/// Renders the structured payload of an engine failure as JSON.
pub fn error_payload_json(e: &SqliteError) -> (r: String)
    ensures
        r@ == error_payload_spec(e.message@, e.code@, e.raw_code as int),
{
    let mut out = String::new();
    out.append("{\"code\":\"");
    push_escaped(&mut out, e.code.as_str());
    out.append("\",\"libsqlError\":true,\"message\":\"");
    push_escaped(&mut out, e.message.as_str());
    out.append("\",\"rawCode\":");
    push_dec_i64(&mut out, e.raw_code as i64);
    out.append("}");
    proof {
        assert(out@ =~= error_payload_spec(e.message@, e.code@, e.raw_code as int));
    }
    out
}

} // verus!
