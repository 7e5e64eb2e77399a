//! The identifier resolver: turning the raw bytes of the reserved
//! extended attribute into the canonical hyphenated textual form of a
//! 128-bit identifier.

use vstd::prelude::*;

verus! {

/// The lowercase hexadecimal digit standing for a value below sixteen.
pub open spec fn hex_digit(n: u8) -> char
    recommends
        n < 16,
{
    if n == 0 {
        '0'
    } else if n == 1 {
        '1'
    } else if n == 2 {
        '2'
    } else if n == 3 {
        '3'
    } else if n == 4 {
        '4'
    } else if n == 5 {
        '5'
    } else if n == 6 {
        '6'
    } else if n == 7 {
        '7'
    } else if n == 8 {
        '8'
    } else if n == 9 {
        '9'
    } else if n == 10 {
        'a'
    } else if n == 11 {
        'b'
    } else if n == 12 {
        'c'
    } else if n == 13 {
        'd'
    } else if n == 14 {
        'e'
    } else {
        'f'
    }
}

/// The two lowercase hexadecimal digits of one byte, high nibble first.
pub open spec fn hex_pair(b: u8) -> Seq<char> {
    seq![hex_digit(b / 16), hex_digit(b % 16)]
}

/// The lowercase hexadecimal rendering of a byte sequence.
pub open spec fn hex_seq(bs: Seq<u8>) -> Seq<char>
    decreases bs.len(),
{
    if bs.len() == 0 {
        Seq::<char>::empty()
    } else {
        hex_seq(bs.drop_last()) + hex_pair(bs.last())
    }
}

/// The canonical form of a 16-byte identifier: lowercase hexadecimal in
/// groups of 8-4-4-4-12 digits, separated by hyphens.
pub open spec fn hyphenated_form(bs: Seq<u8>) -> Seq<char>
    recommends
        bs.len() == 16,
{
    hex_seq(bs.subrange(0, 4)) + seq!['-'] + hex_seq(bs.subrange(4, 6)) + seq!['-'] + hex_seq(
        bs.subrange(6, 8),
    ) + seq!['-'] + hex_seq(bs.subrange(8, 10)) + seq!['-'] + hex_seq(bs.subrange(10, 16))
}

/// A lowercase hexadecimal digit.
pub open spec fn is_hex_char(c: char) -> bool {
    ('0' <= c && c <= '9') || ('a' <= c && c <= 'f')
}

/// A well-formed identifier string: 36 characters, hyphens at positions
/// 8, 13, 18 and 23, lowercase hexadecimal digits everywhere else.
pub open spec fn is_identifier(s: Seq<char>) -> bool {
    &&& s.len() == 36
    &&& s[8] == '-'
    &&& s[13] == '-'
    &&& s[18] == '-'
    &&& s[23] == '-'
    &&& forall|i: int|
        0 <= i < 36 && i != 8 && i != 13 && i != 18 && i != 23 ==> is_hex_char(#[trigger] s[i])
}

/// The hexadecimal rendering of a byte sequence has two digits per byte.
pub proof fn lemma_hex_seq_len(bs: Seq<u8>)
    ensures
        hex_seq(bs).len() == 2 * bs.len(),
    decreases bs.len(),
{
    if bs.len() > 0 {
        lemma_hex_seq_len(bs.drop_last());
    }
}

/// Every character of a hexadecimal rendering is a lowercase digit.
pub proof fn lemma_hex_seq_chars(bs: Seq<u8>)
    ensures
        forall|i: int| 0 <= i < hex_seq(bs).len() ==> is_hex_char(#[trigger] hex_seq(bs)[i]),
    decreases bs.len(),
{
    if bs.len() > 0 {
        lemma_hex_seq_chars(bs.drop_last());
        lemma_hex_seq_len(bs.drop_last());
        assert(bs.last() / 16 < 16);
        assert(bs.last() % 16 < 16);
    }
}

/// The canonical form of 16 bytes is a well-formed identifier string.
pub proof fn lemma_hyphenated_is_identifier(bs: Seq<u8>)
    requires
        bs.len() == 16,
    ensures
        hyphenated_form(bs).len() == 36,
        is_identifier(hyphenated_form(bs)),
{
    lemma_hex_seq_len(bs.subrange(0, 4));
    lemma_hex_seq_len(bs.subrange(4, 6));
    lemma_hex_seq_len(bs.subrange(6, 8));
    lemma_hex_seq_len(bs.subrange(8, 10));
    lemma_hex_seq_len(bs.subrange(10, 16));
    lemma_hex_seq_chars(bs.subrange(0, 4));
    lemma_hex_seq_chars(bs.subrange(4, 6));
    lemma_hex_seq_chars(bs.subrange(6, 8));
    lemma_hex_seq_chars(bs.subrange(8, 10));
    lemma_hex_seq_chars(bs.subrange(10, 16));
}

/// A borrowed one-character string holding the lowercase hexadecimal
/// digit for a value below sixteen.
fn hex_digit_str(n: u8) -> (r: &'static str)
    requires
        n < 16,
    ensures
        r@ =~= seq![hex_digit(n)],
{
    proof {
        reveal_strlit("0");
        reveal_strlit("1");
        reveal_strlit("2");
        reveal_strlit("3");
        reveal_strlit("4");
        reveal_strlit("5");
        reveal_strlit("6");
        reveal_strlit("7");
        reveal_strlit("8");
        reveal_strlit("9");
        reveal_strlit("a");
        reveal_strlit("b");
        reveal_strlit("c");
        reveal_strlit("d");
        reveal_strlit("e");
        reveal_strlit("f");
    }
    match n {
        0 => "0",
        1 => "1",
        2 => "2",
        3 => "3",
        4 => "4",
        5 => "5",
        6 => "6",
        7 => "7",
        8 => "8",
        9 => "9",
        10 => "a",
        11 => "b",
        12 => "c",
        13 => "d",
        14 => "e",
        _ => "f",
    }
}

/// Appends the lowercase hexadecimal digits of `bytes[from..to]` to `out`.
fn append_hex(out: &mut String, bytes: &Vec<u8>, from: usize, to: usize)
    requires
        from <= to,
        to <= bytes@.len(),
    ensures
        final(out)@ == old(out)@ + hex_seq(bytes@.subrange(from as int, to as int)),
{
    let ghost base = out@;
    let mut i: usize = from;
    proof {
        assert(bytes@.subrange(from as int, from as int) =~= Seq::<u8>::empty());
        assert(out@ =~= base + hex_seq(bytes@.subrange(from as int, from as int)));
    }
    while i < to
        invariant
            from <= i <= to,
            to <= bytes@.len(),
            out@ == base + hex_seq(bytes@.subrange(from as int, i as int)),
        decreases to - i,
    {
        let b = bytes[i];
        out.append(hex_digit_str(b / 16));
        out.append(hex_digit_str(b % 16));
        proof {
            let prefix = bytes@.subrange(from as int, i as int);
            let extended = bytes@.subrange(from as int, i as int + 1);
            assert(extended.drop_last() =~= prefix);
            assert(extended.last() == bytes@[i as int]);
            assert(out@ =~= base + hex_seq(extended));
        }
        i = i + 1;
    }
}

/// Renders 16 raw identifier bytes in the canonical hyphenated form.
pub fn format_identifier(bytes: &Vec<u8>) -> (r: String)
    requires
        bytes@.len() == 16,
    ensures
        r@ == hyphenated_form(bytes@),
        is_identifier(r@),
{
    let mut out = String::new();
    append_hex(&mut out, bytes, 0, 4);
    out.append("-");
    append_hex(&mut out, bytes, 4, 6);
    out.append("-");
    append_hex(&mut out, bytes, 6, 8);
    out.append("-");
    append_hex(&mut out, bytes, 8, 10);
    out.append("-");
    append_hex(&mut out, bytes, 10, 16);
    proof {
        reveal_strlit("-");
        assert("-"@ =~= seq!['-']);
        assert(out@ =~= hyphenated_form(bytes@));
        lemma_hyphenated_is_identifier(bytes@);
    }
    out
}

/// How the reserved attribute of one directory resolved.
///
/// `Missing` covers both an absent attribute and one that could not be
/// read; `Malformed` keeps the offending raw bytes for diagnosis.
pub enum IdResolution {
    Missing,
    Malformed { raw: Vec<u8> },
    Resolved { id: String },
}

/// Resolves the raw attribute value read from a directory, if any, into
/// its canonical identifier form.  An absent attribute signals "no
/// identifier"; a present value of any length other than 16 bytes
/// signals "invalid identifier" and is kept verbatim.
pub fn resolve_identifier(attr: Option<Vec<u8>>) -> (r: IdResolution)
    ensures
        match attr {
            Option::None => r matches IdResolution::Missing,
            Option::Some(v) => if v@.len() == 16 {
                r matches IdResolution::Resolved { id } && id@ == hyphenated_form(v@)
            } else {
                r matches IdResolution::Malformed { raw } && raw@ == v@
            },
        },
{
    match attr {
        Option::None => IdResolution::Missing,
        Option::Some(v) => {
            if v.len() == 16 {
                let id = format_identifier(&v);
                IdResolution::Resolved { id }
            } else {
                IdResolution::Malformed { raw: v }
            }
        },
    }
}

} // verus!
