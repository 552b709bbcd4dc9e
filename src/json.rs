use vstd::prelude::*;

use crate::decimal::digit_char;

verus! {

/// The character of hexadecimal digit `d`, lower case.
pub open spec fn hex_char(d: nat) -> char {
    if d < 10 {
        digit_char(d)
    } else if d == 10 {
        'a'
    } else if d == 11 {
        'b'
    } else if d == 12 {
        'c'
    } else if d == 13 {
        'd'
    } else if d == 14 {
        'e'
    } else {
        'f'
    }
}

/// How one character stands inside a JSON string literal: quote and
/// backslash escaped, control characters as `\u00XX`, the rest as is.
pub open spec fn escape_char(c: char) -> Seq<char> {
    if c == '"' {
        seq!['\\', '"']
    } else if c == '\\' {
        seq!['\\', '\\']
    } else if (c as u32) < 0x20 {
        seq!['\\', 'u', '0', '0', hex_char((c as u32 / 16) as nat), hex_char((c as u32 % 16) as nat)]
    } else {
        seq![c]
    }
}

pub open spec fn escaped(s: Seq<char>) -> Seq<char>
    decreases s.len(),
{
    if s.len() == 0 {
        Seq::empty()
    } else {
        escaped(s.drop_last()) + escape_char(s.last())
    }
}

/// The JSON string literal of a text.
pub open spec fn json_string(s: Seq<char>) -> Seq<char> {
    seq!['"'] + escaped(s) + seq!['"']
}

/// The JSON value of an optional text: its string literal, or `null`.
pub open spec fn json_opt_string(o: Option<Seq<char>>) -> Seq<char> {
    match o {
        Some(s) => json_string(s),
        None => seq!['n', 'u', 'l', 'l'],
    }
}

pub open spec fn json_items(ss: Seq<Seq<char>>) -> Seq<char>
    decreases ss.len(),
{
    if ss.len() == 0 {
        Seq::empty()
    } else if ss.len() == 1 {
        json_string(ss[0])
    } else {
        json_items(ss.drop_last()) + seq![','] + json_string(ss.last())
    }
}

/// The JSON array of string literals of a sequence of texts.
pub open spec fn json_string_array(ss: Seq<Seq<char>>) -> Seq<char> {
    seq!['['] + json_items(ss) + seq![']']
}

fn hex_str(d: u32) -> (r: &'static str)
    requires
        d < 16,
    ensures
        r@ == seq![hex_char(d as nat)],
{
    proof {
        reveal_strlit("0");
        reveal_strlit("1");
        reveal_strlit("2");
        reveal_strlit("3");
        reveal_strlit("4");
        reveal_strlit("5");
        reveal_strlit("6");
        reveal_strlit("7");
        reveal_strlit("8");
        reveal_strlit("9");
        reveal_strlit("a");
        reveal_strlit("b");
        reveal_strlit("c");
        reveal_strlit("d");
        reveal_strlit("e");
        reveal_strlit("f");
    }
    if d == 0 {
        "0"
    } else if d == 1 {
        "1"
    } else if d == 2 {
        "2"
    } else if d == 3 {
        "3"
    } else if d == 4 {
        "4"
    } else if d == 5 {
        "5"
    } else if d == 6 {
        "6"
    } else if d == 7 {
        "7"
    } else if d == 8 {
        "8"
    } else if d == 9 {
        "9"
    } else if d == 10 {
        "a"
    } else if d == 11 {
        "b"
    } else if d == 12 {
        "c"
    } else if d == 13 {
        "d"
    } else if d == 14 {
        "e"
    } else {
        "f"
    }
}

/// Appends the JSON string literal of `s` to `out`.
pub fn push_json_string(out: &mut String, s: &str)
    ensures
        final(out)@ == old(out)@ + json_string(s@),
{
    proof {
        reveal_strlit("\"");
    }
    let ghost start = out@;
    out.append("\"");
    let len = s.unicode_len();
    let mut i: usize = 0;
    while i < len
        invariant
            i <= len,
            len == s@.len(),
            out@ == start + seq!['"'] + escaped(s@.take(i as int)),
        decreases len - i,
    {
        let c = s.get_char(i);
        let ghost before = out@;
        proof {
            reveal_strlit("\\\"");
            reveal_strlit("\\\\");
            reveal_strlit("\\u00");
        }
        if c == '"' {
            out.append("\\\"");
        } else if c == '\\' {
            out.append("\\\\");
        } else if (c as u32) < 0x20 {
            out.append("\\u00");
            out.append(hex_str(c as u32 / 16));
            out.append(hex_str(c as u32 % 16));
        } else {
            out.append(s.substring_char(i, i + 1));
            assert(s@.subrange(i as int, i + 1) =~= seq![c]);
        }
        assert(out@ =~= before + escape_char(c));
        assert(s@.take(i + 1).drop_last() =~= s@.take(i as int));
        assert(s@.take(i + 1).last() == c);
        assert(escaped(s@.take(i + 1)) == escaped(s@.take(i as int)) + escape_char(c));
        assert(out@ =~= start + seq!['"'] + escaped(s@.take(i + 1)));
        i += 1;
    }
    assert(s@.take(len as int) =~= s@);
    out.append("\"");
    assert(out@ =~= start + json_string(s@));
}

/// Appends the JSON value of an optional text to `out`.
pub fn push_json_opt_string(out: &mut String, o: &Option<String>)
    ensures
        final(out)@ == old(out)@ + json_opt_string(crate::descriptor::opt_view(*o)),
{
    match o {
        Some(s) => push_json_string(out, s.as_str()),
        None => {
            proof {
                reveal_strlit("null");
            }
            out.append("null");
        },
    }
}

/// Appends the JSON array of string literals of `ss` to `out`.
pub fn push_json_string_array(out: &mut String, ss: &Vec<String>)
    ensures
        final(out)@ == old(out)@ + json_string_array(ss@.map_values(|s: String| s@)),
{
    proof {
        reveal_strlit("[");
        reveal_strlit("]");
    }
    let ghost start = out@;
    let ghost sv = ss@.map_values(|s: String| s@);
    out.append("[");
    let mut i: usize = 0;
    while i < ss.len()
        invariant
            i <= ss.len(),
            sv == ss@.map_values(|s: String| s@),
            out@ == start + seq!['['] + json_items(sv.take(i as int)),
        decreases ss.len() - i,
    {
        let ghost before = out@;
        proof {
            reveal_strlit(",");
        }
        if i > 0 {
            out.append(",");
        }
        push_json_string(out, ss[i].as_str());
        assert(sv.take(i + 1).drop_last() =~= sv.take(i as int));
        assert(sv.take(i + 1).last() == ss@[i as int]@);
        if i == 0 {
            assert(sv.take(1) =~= seq![sv[0]]);
            assert(out@ =~= before + json_string(sv[0]));
        } else {
            assert(out@ =~= before + seq![','] + json_string(sv[i as int]));
        }
        assert(out@ =~= start + seq!['['] + json_items(sv.take(i + 1)));
        i += 1;
    }
    assert(sv.take(ss.len() as int) =~= sv);
    out.append("]");
    assert(out@ =~= start + json_string_array(sv));
}

} // verus!
