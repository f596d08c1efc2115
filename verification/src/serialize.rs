//! Rendering of the two target structures as pretty-printed JSON text.
//!
//! Every field element is emitted as a JSON string, never as a number,
//! to preserve arbitrary precision.  Field order is the declaration
//! order of the target structures, the same on every run.  String
//! contents are escaped as JSON requires: quote, backslash, and control
//! characters; everything else passes through unchanged.

use vstd::prelude::*;
use crate::assemble::{O1jsProof, O1jsVK};
use crate::points::{Fp12Element, G1Point, G2Point, Fp12View, G1View, G2View};

verus! {

/// The lower-case hexadecimal digit for a value below sixteen.
pub open spec fn hex_char(d: nat) -> char {
    if d == 0 { '0' }
    else if d == 1 { '1' }
    else if d == 2 { '2' }
    else if d == 3 { '3' }
    else if d == 4 { '4' }
    else if d == 5 { '5' }
    else if d == 6 { '6' }
    else if d == 7 { '7' }
    else if d == 8 { '8' }
    else if d == 9 { '9' }
    else if d == 10 { 'a' }
    else if d == 11 { 'b' }
    else if d == 12 { 'c' }
    else if d == 13 { 'd' }
    else if d == 14 { 'e' }
    else { 'f' }
}

/// The escape of one character inside a JSON string literal.
pub open spec fn json_escape_char(c: char) -> Seq<char> {
    if c == '"' {
        seq!['\\', '"']
    } else if c == '\\' {
        seq!['\\', '\\']
    } else if c as u32 == 8 {
        seq!['\\', 'b']
    } else if c as u32 == 9 {
        seq!['\\', 't']
    } else if c as u32 == 10 {
        seq!['\\', 'n']
    } else if c as u32 == 12 {
        seq!['\\', 'f']
    } else if c as u32 == 13 {
        seq!['\\', 'r']
    } else if (c as u32) < 32 {
        seq!['\\', 'u', '0', '0', hex_char((c as u32 / 16) as nat), hex_char((c as u32 % 16) as nat)]
    } else {
        seq![c]
    }
}

/// The escaped body of a JSON string literal.
pub open spec fn json_escape(s: Seq<char>) -> Seq<char>
    decreases s.len(),
{
    if s.len() == 0 {
        Seq::empty()
    } else {
        json_escape(s.drop_last()) + json_escape_char(s.last())
    }
}

/// A complete JSON string literal: quotes around the escaped body.
pub open spec fn json_quoted(s: Seq<char>) -> Seq<char> {
    seq!['"'] + json_escape(s) + seq!['"']
}

proof fn lemma_json_escape_step(s: Seq<char>, i: int)
    requires
        0 <= i < s.len(),
    ensures
        json_escape(s.take(i + 1)) == json_escape(s.take(i)) + json_escape_char(s[i]),
{
    assert(s.take(i + 1).drop_last() =~= s.take(i));
    assert(s.take(i + 1).last() == s[i]);
}

fn hex_char_str(d: u8) -> (s: &'static str)
    requires
        d < 16,
    ensures
        s@ == seq![hex_char(d as nat)],
{
    proof {
        reveal_strlit("0");
        reveal_strlit("1");
        reveal_strlit("2");
        reveal_strlit("3");
        reveal_strlit("4");
        reveal_strlit("5");
        reveal_strlit("6");
        reveal_strlit("7");
        reveal_strlit("8");
        reveal_strlit("9");
        reveal_strlit("a");
        reveal_strlit("b");
        reveal_strlit("c");
        reveal_strlit("d");
        reveal_strlit("e");
        reveal_strlit("f");
        assert("0"@ =~= seq!['0']);
        assert("1"@ =~= seq!['1']);
        assert("2"@ =~= seq!['2']);
        assert("3"@ =~= seq!['3']);
        assert("4"@ =~= seq!['4']);
        assert("5"@ =~= seq!['5']);
        assert("6"@ =~= seq!['6']);
        assert("7"@ =~= seq!['7']);
        assert("8"@ =~= seq!['8']);
        assert("9"@ =~= seq!['9']);
        assert("a"@ =~= seq!['a']);
        assert("b"@ =~= seq!['b']);
        assert("c"@ =~= seq!['c']);
        assert("d"@ =~= seq!['d']);
        assert("e"@ =~= seq!['e']);
        assert("f"@ =~= seq!['f']);
    }
    match d {
        0 => "0",
        1 => "1",
        2 => "2",
        3 => "3",
        4 => "4",
        5 => "5",
        6 => "6",
        7 => "7",
        8 => "8",
        9 => "9",
        10 => "a",
        11 => "b",
        12 => "c",
        13 => "d",
        14 => "e",
        _ => "f",
    }
}

fn append_escaped(out: &mut String, s: &str)
    ensures
        final(out)@ == old(out)@ + json_escape(s@),
{
    let ghost base = out@;
    let n = s.unicode_len();
    let mut i: usize = 0;
    while i < n
        invariant
            i <= n,
            n == s@.len(),
            out@ == base + json_escape(s@.take(i as int)),
        decreases n - i,
    {
        let c = s.get_char(i);
        let u = c as u32;
        if c == '"' {
            out.append("\\\"");
            proof {
                reveal_strlit("\\\"");
                assert("\\\""@ =~= json_escape_char(c));
            }
        } else if c == '\\' {
            out.append("\\\\");
            proof {
                reveal_strlit("\\\\");
                assert("\\\\"@ =~= json_escape_char(c));
            }
        } else if u == 8 {
            out.append("\\b");
            proof {
                reveal_strlit("\\b");
                assert("\\b"@ =~= json_escape_char(c));
            }
        } else if u == 9 {
            out.append("\\t");
            proof {
                reveal_strlit("\\t");
                assert("\\t"@ =~= json_escape_char(c));
            }
        } else if u == 10 {
            out.append("\\n");
            proof {
                reveal_strlit("\\n");
                assert("\\n"@ =~= json_escape_char(c));
            }
        } else if u == 12 {
            out.append("\\f");
            proof {
                reveal_strlit("\\f");
                assert("\\f"@ =~= json_escape_char(c));
            }
        } else if u == 13 {
            out.append("\\r");
            proof {
                reveal_strlit("\\r");
                assert("\\r"@ =~= json_escape_char(c));
            }
        } else if u < 32 {
            out.append("\\u00");
            out.append(hex_char_str((u / 16) as u8));
            out.append(hex_char_str((u % 16) as u8));
            proof {
                reveal_strlit("\\u00");
                assert("\\u00"@ + seq![hex_char((u / 16) as nat)] + seq![hex_char((u % 16) as nat)]
                    =~= json_escape_char(c));
            }
        } else {
            out.append(s.substring_char(i, i + 1));
            proof {
                assert(s@.subrange(i as int, i as int + 1) =~= seq![c]);
                assert(seq![c] =~= json_escape_char(c));
            }
        }
        proof {
            lemma_json_escape_step(s@, i as int);
            assert(out@ =~= base + json_escape(s@.take(i as int + 1)));
        }
        i += 1;
    }
    proof {
        assert(s@.take(n as int) =~= s@);
    }
}

fn append_quoted(out: &mut String, s: &str)
    ensures
        final(out)@ == old(out)@ + json_quoted(s@),
{
    let ghost base = out@;
    out.append("\"");
    append_escaped(out, s);
    out.append("\"");
    proof {
        reveal_strlit("\"");
        assert("\""@ =~= seq!['"']);
        assert(out@ =~= base + json_quoted(s@));
    }
}

/// A G1 point as a nested JSON object, indented for a top-level field.
pub open spec fn g1_json(g: G1View) -> Seq<char> {
    "{\n    \"x\": "@ + json_quoted(g.x) + ",\n    \"y\": "@ + json_quoted(g.y) + "\n  }"@
}

/// A G2 point as a nested JSON object, indented for a top-level field.
pub open spec fn g2_json(g: G2View) -> Seq<char> {
    "{\n    \"x_c0\": "@ + json_quoted(g.x_c0) + ",\n    \"x_c1\": "@ + json_quoted(g.x_c1)
        + ",\n    \"y_c0\": "@ + json_quoted(g.y_c0) + ",\n    \"y_c1\": "@ + json_quoted(g.y_c1)
        + "\n  }"@
}

/// A flattened extension-field element as a nested JSON object.
pub open spec fn fp12_json(f: Fp12View) -> Seq<char> {
    "{\n    \"g00\": "@ + json_quoted(f.g00) + ",\n    \"g01\": "@ + json_quoted(f.g01)
        + ",\n    \"g10\": "@ + json_quoted(f.g10) + ",\n    \"g11\": "@ + json_quoted(f.g11)
        + ",\n    \"g20\": "@ + json_quoted(f.g20) + ",\n    \"g21\": "@ + json_quoted(f.g21)
        + ",\n    \"h00\": "@ + json_quoted(f.h00) + ",\n    \"h01\": "@ + json_quoted(f.h01)
        + ",\n    \"h10\": "@ + json_quoted(f.h10) + ",\n    \"h11\": "@ + json_quoted(f.h11)
        + ",\n    \"h20\": "@ + json_quoted(f.h20) + ",\n    \"h21\": "@ + json_quoted(f.h21)
        + "\n  }"@
}

fn g1_json_string(p: &G1Point) -> (out: String)
    ensures
        out@ == g1_json(p@),
{
    let mut out = String::new();
    out.append("{\n    \"x\": ");
    proof {
        assert(out@ =~= "{\n    \"x\": "@);
    }
    append_quoted(&mut out, p.x.as_str());
    out.append(",\n    \"y\": ");
    append_quoted(&mut out, p.y.as_str());
    out.append("\n  }");
    out
}

fn g2_json_string(p: &G2Point) -> (out: String)
    ensures
        out@ == g2_json(p@),
{
    let mut out = String::new();
    out.append("{\n    \"x_c0\": ");
    proof {
        assert(out@ =~= "{\n    \"x_c0\": "@);
    }
    append_quoted(&mut out, p.x_c0.as_str());
    out.append(",\n    \"x_c1\": ");
    append_quoted(&mut out, p.x_c1.as_str());
    out.append(",\n    \"y_c0\": ");
    append_quoted(&mut out, p.y_c0.as_str());
    out.append(",\n    \"y_c1\": ");
    append_quoted(&mut out, p.y_c1.as_str());
    out.append("\n  }");
    out
}

fn fp12_json_string(f: &Fp12Element) -> (out: String)
    ensures
        out@ == fp12_json(f@),
{
    let mut out = String::new();
    out.append("{\n    \"g00\": ");
    proof {
        assert(out@ =~= "{\n    \"g00\": "@);
    }
    append_quoted(&mut out, f.g00.as_str());
    out.append(",\n    \"g01\": ");
    append_quoted(&mut out, f.g01.as_str());
    out.append(",\n    \"g10\": ");
    append_quoted(&mut out, f.g10.as_str());
    out.append(",\n    \"g11\": ");
    append_quoted(&mut out, f.g11.as_str());
    out.append(",\n    \"g20\": ");
    append_quoted(&mut out, f.g20.as_str());
    out.append(",\n    \"g21\": ");
    append_quoted(&mut out, f.g21.as_str());
    out.append(",\n    \"h00\": ");
    append_quoted(&mut out, f.h00.as_str());
    out.append(",\n    \"h01\": ");
    append_quoted(&mut out, f.h01.as_str());
    out.append(",\n    \"h10\": ");
    append_quoted(&mut out, f.h10.as_str());
    out.append(",\n    \"h11\": ");
    append_quoted(&mut out, f.h11.as_str());
    out.append(",\n    \"h20\": ");
    append_quoted(&mut out, f.h20.as_str());
    out.append(",\n    \"h21\": ");
    append_quoted(&mut out, f.h21.as_str());
    out.append("\n  }");
    out
}

/// The target proof document as pretty-printed JSON text.
pub open spec fn proof_json(t: O1jsProof) -> Seq<char> {
    "{\n  \"negA\": "@ + g1_json(t.neg_a@) + ",\n  \"B\": "@ + g2_json(t.b@) + ",\n  \"C\": "@
        + g1_json(t.c@) + ",\n  \"pi1\": "@ + json_quoted(t.pi1@) + ",\n  \"pi2\": "@
        + json_quoted(t.pi2@) + ",\n  \"pi3\": "@ + json_quoted(t.pi3@) + ",\n  \"pi4\": "@
        + json_quoted(t.pi4@) + ",\n  \"pi5\": "@ + json_quoted(t.pi5@) + "\n}"@
}

/// The target verification-key document as pretty-printed JSON text.
pub open spec fn vk_json(t: O1jsVK) -> Seq<char> {
    "{\n  \"alpha\": "@ + g1_json(t.alpha@) + ",\n  \"beta\": "@ + g2_json(t.beta@)
        + ",\n  \"gamma\": "@ + g2_json(t.gamma@) + ",\n  \"delta\": "@ + g2_json(t.delta@)
        + ",\n  \"alpha_beta\": "@ + fp12_json(t.alpha_beta@) + ",\n  \"w27\": "@
        + fp12_json(t.w27@) + ",\n  \"ic0\": "@ + g1_json(t.ic0@) + ",\n  \"ic1\": "@
        + g1_json(t.ic1@) + ",\n  \"ic2\": "@ + g1_json(t.ic2@) + ",\n  \"ic3\": "@
        + g1_json(t.ic3@) + ",\n  \"ic4\": "@ + g1_json(t.ic4@) + ",\n  \"ic5\": "@
        + g1_json(t.ic5@) + "\n}"@
}

/// Renders the target proof to its JSON text.
pub fn render_proof_json(t: &O1jsProof) -> (out: String)
    ensures
        out@ == proof_json(*t),
{
    let mut out = String::new();
    out.append("{\n  \"negA\": ");
    proof {
        assert(out@ =~= "{\n  \"negA\": "@);
    }
    let part = g1_json_string(&t.neg_a);
    out.append(part.as_str());
    out.append(",\n  \"B\": ");
    let part = g2_json_string(&t.b);
    out.append(part.as_str());
    out.append(",\n  \"C\": ");
    let part = g1_json_string(&t.c);
    out.append(part.as_str());
    out.append(",\n  \"pi1\": ");
    append_quoted(&mut out, t.pi1.as_str());
    out.append(",\n  \"pi2\": ");
    append_quoted(&mut out, t.pi2.as_str());
    out.append(",\n  \"pi3\": ");
    append_quoted(&mut out, t.pi3.as_str());
    out.append(",\n  \"pi4\": ");
    append_quoted(&mut out, t.pi4.as_str());
    out.append(",\n  \"pi5\": ");
    append_quoted(&mut out, t.pi5.as_str());
    out.append("\n}");
    out
}

/// Renders the target verification key to its JSON text.
pub fn render_vk_json(t: &O1jsVK) -> (out: String)
    ensures
        out@ == vk_json(*t),
{
    let mut out = String::new();
    out.append("{\n  \"alpha\": ");
    proof {
        assert(out@ =~= "{\n  \"alpha\": "@);
    }
    let part = g1_json_string(&t.alpha);
    out.append(part.as_str());
    out.append(",\n  \"beta\": ");
    let part = g2_json_string(&t.beta);
    out.append(part.as_str());
    out.append(",\n  \"gamma\": ");
    let part = g2_json_string(&t.gamma);
    out.append(part.as_str());
    out.append(",\n  \"delta\": ");
    let part = g2_json_string(&t.delta);
    out.append(part.as_str());
    out.append(",\n  \"alpha_beta\": ");
    let part = fp12_json_string(&t.alpha_beta);
    out.append(part.as_str());
    out.append(",\n  \"w27\": ");
    let part = fp12_json_string(&t.w27);
    out.append(part.as_str());
    out.append(",\n  \"ic0\": ");
    let part = g1_json_string(&t.ic0);
    out.append(part.as_str());
    out.append(",\n  \"ic1\": ");
    let part = g1_json_string(&t.ic1);
    out.append(part.as_str());
    out.append(",\n  \"ic2\": ");
    let part = g1_json_string(&t.ic2);
    out.append(part.as_str());
    out.append(",\n  \"ic3\": ");
    let part = g1_json_string(&t.ic3);
    out.append(part.as_str());
    out.append(",\n  \"ic4\": ");
    let part = g1_json_string(&t.ic4);
    out.append(part.as_str());
    out.append(",\n  \"ic5\": ");
    let part = g1_json_string(&t.ic5);
    out.append(part.as_str());
    out.append("\n}");
    out
}

} // verus!
