use vstd::prelude::*;
use vstd::utf8::*;

verus! {

/// The views of a list of strings.
pub open spec fn texts_of(v: Seq<String>) -> Seq<Seq<char>> {
    v.map_values(|s: String| s@)
}

/// The pieces of `t` between newline characters: `k` newlines give `k + 1`
/// pieces, the last of them empty when `t` ends with a newline.
pub open spec fn newline_pieces(t: Seq<char>) -> Seq<Seq<char>>
    decreases t.len(),
{
    if t.len() == 0 {
        seq![Seq::<char>::empty()]
    } else {
        let p = newline_pieces(t.drop_last());
        if t.last() == '\n' {
            p.push(Seq::<char>::empty())
        } else {
            p.update(p.len() - 1, p.last().push(t.last()))
        }
    }
}

/// A line without the one carriage return that may end it.
pub open spec fn without_cr(l: Seq<char>) -> Seq<char> {
    if l.len() > 0 && l.last() == '\r' {
        l.drop_last()
    } else {
        l
    }
}

/// The lines of a text: it is split at each `\n` or `\r\n`, the line endings
/// are left out, and a final line ending adds no empty line. A carriage
/// return that no newline follows stays in the last line.
pub open spec fn lines_of(t: Seq<char>) -> Seq<Seq<char>> {
    let p = newline_pieces(t);
    let ended = p.drop_last().map_values(|l: Seq<char>| without_cr(l));
    if p.last().len() == 0 {
        ended
    } else {
        ended.push(p.last())
    }
}

/// The text that captured output bytes stand for: their UTF-8 decoding, or
/// the empty text when they are not well-formed UTF-8.
pub open spec fn decoded_text(b: Seq<u8>) -> Seq<char> {
    if valid_utf8(b) {
        decode_utf8(b)
    } else {
        Seq::<char>::empty()
    }
}

proof fn lemma_pieces_not_empty(t: Seq<char>)
    ensures
        newline_pieces(t).len() >= 1,
    decreases t.len(),
{
    if t.len() > 0 {
        lemma_pieces_not_empty(t.drop_last());
    }
}

/// Relies on `String::push`: the character is appended at the end.
#[verifier::external_body]
fn push_char(s: &mut String, c: char)
    ensures
        final(s)@ == old(s)@.push(c),
{
    s.push(c)
}

/// Relies on `String::from_utf8`: it accepts exactly the well-formed UTF-8
/// byte strings, and the text holds the characters that they encode.
#[verifier::external_body]
fn utf8_text(bytes: Vec<u8>) -> (r: Option<String>)
    ensures
        r is Some <==> valid_utf8(bytes@),
        r matches Some(s) ==> s@ == decode_utf8(bytes@),
{
    String::from_utf8(bytes).ok()
}

/// A string that holds the given characters, in order.
pub fn string_of_chars(chars: &Vec<char>) -> (r: String)
    ensures
        r@ == chars@,
{
    let mut r = String::new();
    let mut i: usize = 0;
    while i < chars.len()
        invariant
            i <= chars.len(),
            r@ == chars@.subrange(0, i as int),
        decreases chars.len() - i,
    {
        push_char(&mut r, chars[i]);
        i += 1;
        assert(r@ =~= chars@.subrange(0, i as int));
    }
    assert(chars@.subrange(0, chars.len() as int) =~= chars@);
    r
}

/// The text that captured output bytes stand for: their UTF-8 decoding, or
/// the empty text when they are not well-formed UTF-8.
pub fn decode_output(bytes: Vec<u8>) -> (r: String)
    ensures
        r@ == decoded_text(bytes@),
{
    match utf8_text(bytes) {
        Some(s) => s,
        None => String::new(),
    }
}

/// Splits a text into its lines, as `lines_of` describes them.
pub fn split_lines(text: &str) -> (r: Vec<String>)
    ensures
        texts_of(r@) == lines_of(text@),
{
    let mut lines: Vec<String> = Vec::new();
    let mut current: Vec<char> = Vec::new();
    let ghost mut seen: Seq<char> = Seq::empty();
    for c in it: text.chars()
        invariant
            it.seq() == text@,
            seen == text@.subrange(0, it.index() as int),
            newline_pieces(seen).len() >= 1,
            texts_of(lines@) == newline_pieces(seen).drop_last().map_values(
                |l: Seq<char>| without_cr(l),
            ),
            current@ == newline_pieces(seen).last(),
    {
        let ghost before = seen;
        proof {
            seen = seen.push(c);
            assert(seen.drop_last() =~= before);
            lemma_pieces_not_empty(seen);
        }
        if c == '\n' {
            if current.len() > 0 && current[current.len() - 1] == '\r' {
                current.pop();
            }
            assert(current@ == without_cr(newline_pieces(before).last()));
            let line = string_of_chars(&current);
            let ghost old_lines = lines@;
            lines.push(line);
            current = Vec::new();
            proof {
                let p = newline_pieces(before);
                assert(newline_pieces(seen).drop_last() =~= p);
                assert(texts_of(lines@) =~= texts_of(old_lines).push(line@));
                assert(p.map_values(|l: Seq<char>| without_cr(l)) =~= p.drop_last().map_values(
                    |l: Seq<char>| without_cr(l),
                ).push(without_cr(p.last())));
            }
            assert(texts_of(lines@) =~= newline_pieces(seen).drop_last().map_values(
                |l: Seq<char>| without_cr(l),
            ));
        } else {
            current.push(c);
            assert(texts_of(lines@) =~= newline_pieces(seen).drop_last().map_values(
                |l: Seq<char>| without_cr(l),
            ));
        }
    }
    assert(seen =~= text@);
    if current.len() > 0 {
        let line = string_of_chars(&current);
        lines.push(line);
        assert(texts_of(lines@) =~= lines_of(text@));
    } else {
        assert(texts_of(lines@) =~= lines_of(text@));
    }
    lines
}

} // verus!
