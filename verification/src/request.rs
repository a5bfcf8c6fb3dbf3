//! Outgoing verification request payloads and their wire encoding.
//!
//! A `FactorVerificationRequest` is a closed tagged union, independent from
//! `Factor`'s tag space, of the legal outgoing payload shapes. The encoder
//! renders the JSON object with lower-camel-case member names, and omits an
//! absent optional field entirely rather than emitting a null placeholder.

use vstd::prelude::*;

use crate::text::push_char;

verus! {

/// A legal outgoing verification payload, one shape per supported factor
/// kind, carrying the caller-supplied secret material.
#[derive(Debug, Clone, PartialEq, Eq)]
pub enum FactorVerificationRequest {
    Question { answer: String },
    Sms { state_token: String, pass_code: Option<String> },
    Call { pass_code: Option<String> },
    Totp { pass_code: String },
    Token { pass_code: String },
}

/// The lower-case hex digit of a nibble.
pub open spec fn hex_nibble(n: int) -> char {
    if n == 0 {
        '0'
    } else if n == 1 {
        '1'
    } else if n == 2 {
        '2'
    } else if n == 3 {
        '3'
    } else if n == 4 {
        '4'
    } else if n == 5 {
        '5'
    } else if n == 6 {
        '6'
    } else if n == 7 {
        '7'
    } else if n == 8 {
        '8'
    } else if n == 9 {
        '9'
    } else if n == 10 {
        'a'
    } else if n == 11 {
        'b'
    } else if n == 12 {
        'c'
    } else if n == 13 {
        'd'
    } else if n == 14 {
        'e'
    } else {
        'f'
    }
}

/// The JSON escape of one character inside a string literal: quote and
/// backslash get a backslash escape, the named control characters their
/// short form, any other control character a `\u00XX` escape, and every
/// other character stands as itself.
pub open spec fn esc_char(c: char) -> Seq<char> {
    if c == '"' {
        seq!['\\', '"']
    } else if c == '\\' {
        seq!['\\', '\\']
    } else if c == '\u{08}' {
        seq!['\\', 'b']
    } else if c == '\t' {
        seq!['\\', 't']
    } else if c == '\n' {
        seq!['\\', 'n']
    } else if c == '\u{0C}' {
        seq!['\\', 'f']
    } else if c == '\r' {
        seq!['\\', 'r']
    } else if (c as u32) < 0x20 {
        seq!['\\', 'u', '0', '0', hex_nibble((c as u32) as int / 16), hex_nibble(
            (c as u32) as int % 16,
        )]
    } else {
        seq![c]
    }
}

/// The JSON escape of a whole character sequence.
pub open spec fn esc_seq(s: Seq<char>) -> Seq<char>
    decreases s.len(),
{
    if s.len() == 0 {
        Seq::<char>::empty()
    } else {
        esc_seq(s.drop_last()) + esc_char(s.last())
    }
}

/// A JSON string literal: the escaped contents between double quotes.
pub open spec fn json_string(s: Seq<char>) -> Seq<char> {
    seq!['"'] + esc_seq(s) + seq!['"']
}

proof fn lemma_esc_seq_snoc(s: Seq<char>, i: int)
    requires
        0 <= i < s.len(),
    ensures
        esc_seq(s.take(i + 1)) == esc_seq(s.take(i)) + esc_char(s[i]),
{
    assert(s.take(i + 1).drop_last() =~= s.take(i));
    assert(s.take(i + 1).last() == s[i]);
}

fn hex_char(n: u32) -> (c: char)
    requires
        n < 16,
    ensures
        c == hex_nibble(n as int),
{
    if n == 0 {
        '0'
    } else if n == 1 {
        '1'
    } else if n == 2 {
        '2'
    } else if n == 3 {
        '3'
    } else if n == 4 {
        '4'
    } else if n == 5 {
        '5'
    } else if n == 6 {
        '6'
    } else if n == 7 {
        '7'
    } else if n == 8 {
        '8'
    } else if n == 9 {
        '9'
    } else if n == 10 {
        'a'
    } else if n == 11 {
        'b'
    } else if n == 12 {
        'c'
    } else if n == 13 {
        'd'
    } else if n == 14 {
        'e'
    } else {
        'f'
    }
}

fn append_escaped(out: &mut String, s: &str)
    ensures
        final(out)@ == old(out)@ + esc_seq(s@),
{
    let n = s.unicode_len();
    let mut i: usize = 0;
    while i < n
        invariant
            n == s@.len(),
            0 <= i <= n,
            out@ == old(out)@ + esc_seq(s@.take(i as int)),
        decreases n - i,
    {
        let c = s.get_char(i);
        if c == '"' {
            out.append("\\\"");
            proof {
                reveal_strlit("\\\"");
                assert("\\\""@ =~= esc_char(c));
            }
        } else if c == '\\' {
            out.append("\\\\");
            proof {
                reveal_strlit("\\\\");
                assert("\\\\"@ =~= esc_char(c));
            }
        } else if c == '\u{08}' {
            out.append("\\b");
            proof {
                reveal_strlit("\\b");
                assert("\\b"@ =~= esc_char(c));
            }
        } else if c == '\t' {
            out.append("\\t");
            proof {
                reveal_strlit("\\t");
                assert("\\t"@ =~= esc_char(c));
            }
        } else if c == '\n' {
            out.append("\\n");
            proof {
                reveal_strlit("\\n");
                assert("\\n"@ =~= esc_char(c));
            }
        } else if c == '\u{0C}' {
            out.append("\\f");
            proof {
                reveal_strlit("\\f");
                assert("\\f"@ =~= esc_char(c));
            }
        } else if c == '\r' {
            out.append("\\r");
            proof {
                reveal_strlit("\\r");
                assert("\\r"@ =~= esc_char(c));
            }
        } else if (c as u32) < 0x20 {
            let code = c as u32;
            let ghost before = out@;
            out.append("\\u00");
            push_char(out, hex_char(code / 16));
            push_char(out, hex_char(code % 16));
            proof {
                reveal_strlit("\\u00");
                assert(out@ =~= before + esc_char(c));
            }
        } else {
            let ghost before = out@;
            push_char(out, c);
            proof {
                assert(out@ =~= before + esc_char(c));
            }
        }
        proof {
            lemma_esc_seq_snoc(s@, i as int);
            assert(out@ =~= old(out)@ + esc_seq(s@.take(i as int + 1)));
        }
        i = i + 1;
    }
    proof {
        assert(s@.take(n as int) =~= s@);
    }
}

fn append_json_string(out: &mut String, s: &str)
    ensures
        final(out)@ == old(out)@ + json_string(s@),
{
    let ghost before = out@;
    push_char(out, '"');
    append_escaped(out, s);
    push_char(out, '"');
    proof {
        assert(out@ =~= before + json_string(s@));
    }
}

/// The wire form of a verification request: a JSON object with
/// lower-camel-case member names in which an absent optional field is
/// omitted entirely, never emitted as null.
pub open spec fn spec_encode(r: FactorVerificationRequest) -> Seq<char> {
    match r {
        FactorVerificationRequest::Question { answer } => "{\"answer\":"@ + json_string(answer@)
            + "}"@,
        FactorVerificationRequest::Sms { state_token, pass_code } => "{\"stateToken\":"@
            + json_string(state_token@) + (match pass_code {
            Option::None => Seq::<char>::empty(),
            Option::Some(p) => ",\"passCode\":"@ + json_string(p@),
        }) + "}"@,
        FactorVerificationRequest::Call { pass_code } => match pass_code {
            Option::None => "{}"@,
            Option::Some(p) => "{\"passCode\":"@ + json_string(p@) + "}"@,
        },
        FactorVerificationRequest::Totp { pass_code } => "{\"passCode\":"@ + json_string(
            pass_code@,
        ) + "}"@,
        FactorVerificationRequest::Token { pass_code } => "{\"passCode\":"@ + json_string(
            pass_code@,
        ) + "}"@,
    }
}

/// Encoding an SMS request whose pass code is absent omits the `passCode`
/// member entirely: the payload carries the `stateToken` member and nothing
/// else.
pub proof fn lemma_sms_encode_omits_pass_code(state_token: String)
    ensures
        spec_encode(FactorVerificationRequest::Sms { state_token, pass_code: None })
            == "{\"stateToken\":"@ + json_string(state_token@) + "}"@,
{
    assert(spec_encode(FactorVerificationRequest::Sms { state_token, pass_code: None })
        =~= "{\"stateToken\":"@ + json_string(state_token@) + "}"@);
}

impl FactorVerificationRequest {
    /// Render this request as its JSON wire form.
    pub fn to_json(&self) -> (r: String)
        ensures
            r@ == spec_encode(*self),
    {
        match self {
            FactorVerificationRequest::Question { answer } => {
                let mut out = String::from_str("{\"answer\":");
                append_json_string(&mut out, answer.as_str());
                out.append("}");
                proof {
                    assert(out@ =~= spec_encode(*self));
                }
                out
            },
            FactorVerificationRequest::Sms { state_token, pass_code } => {
                let mut out = String::from_str("{\"stateToken\":");
                append_json_string(&mut out, state_token.as_str());
                match pass_code {
                    Option::Some(p) => {
                        out.append(",\"passCode\":");
                        append_json_string(&mut out, p.as_str());
                    },
                    Option::None => {},
                }
                out.append("}");
                proof {
                    assert(out@ =~= spec_encode(*self));
                }
                out
            },
            FactorVerificationRequest::Call { pass_code } => {
                match pass_code {
                    Option::Some(p) => {
                        let mut out = String::from_str("{\"passCode\":");
                        append_json_string(&mut out, p.as_str());
                        out.append("}");
                        proof {
                            assert(out@ =~= spec_encode(*self));
                        }
                        out
                    },
                    Option::None => String::from_str("{}"),
                }
            },
            FactorVerificationRequest::Totp { pass_code } => {
                let mut out = String::from_str("{\"passCode\":");
                append_json_string(&mut out, pass_code.as_str());
                out.append("}");
                proof {
                    assert(out@ =~= spec_encode(*self));
                }
                out
            },
            FactorVerificationRequest::Token { pass_code } => {
                let mut out = String::from_str("{\"passCode\":");
                append_json_string(&mut out, pass_code.as_str());
                out.append("}");
                proof {
                    assert(out@ =~= spec_encode(*self));
                }
                out
            },
        }
    }
}

} // verus!
