use crate::types::{ContentBlock, ContentValue};
use vstd::prelude::*;

verus! {

/// The Unicode `White_Space` property, the set that `str::trim` strips.
pub open spec fn white_space(c: char) -> bool {
    let u = c as u32;
    (0x09 <= u && u <= 0x0D) || u == 0x20 || u == 0x85 || u == 0xA0 || u == 0x1680 || (0x2000
        <= u && u <= 0x200A) || u == 0x2028 || u == 0x2029 || u == 0x202F || u == 0x205F || u
        == 0x3000
}

/// A line holds no record when every one of its characters is white space.
pub open spec fn blank(s: Seq<char>) -> bool {
    forall|i: int| 0 <= i < s.len() ==> white_space(#[trigger] s[i])
}

pub fn is_whitespace_char(c: char) -> (r: bool)
    ensures
        r == white_space(c),
{
    let u = c as u32;
    (0x09 <= u && u <= 0x0D) || u == 0x20 || u == 0x85 || u == 0xA0 || u == 0x1680 || (0x2000
        <= u && u <= 0x200A) || u == 0x2028 || u == 0x2029 || u == 0x202F || u == 0x205F || u
        == 0x3000
}

/// Whether a line is empty or holds only white space.
pub fn is_blank_line(line: &str) -> (r: bool)
    ensures
        r == blank(line@),
{
    let mut all_white = true;
    for c in it: line.chars()
        invariant
            it.seq() == line@,
            all_white == (forall|i: int| 0 <= i < it.index() ==> white_space(#[trigger] line@[i])),
    {
        if !is_whitespace_char(c) {
            all_white = false;
        }
    }
    all_white
}


/// The pieces joined with a newline between each two.
pub open spec fn join_lines(parts: Seq<Seq<char>>) -> Seq<char>
    decreases parts.len(),
{
    if parts.len() == 0 {
        Seq::empty()
    } else if parts.len() == 1 {
        parts[0]
    } else {
        join_lines(parts.drop_last()) + seq!['\n'] + parts.last()
    }
}

/// The texts that the text-bearing parts carry, in order.
pub open spec fn present_texts(parts: Seq<Option<String>>) -> Seq<Seq<char>>
    decreases parts.len(),
{
    if parts.len() == 0 {
        Seq::empty()
    } else {
        let rest = present_texts(parts.drop_last());
        match parts.last() {
            Some(t) => rest.push(t@),
            None => rest,
        }
    }
}

/// The texts of the `Text` blocks, in order.
pub open spec fn block_texts(blocks: Seq<ContentBlock>) -> Seq<Seq<char>>
    decreases blocks.len(),
{
    if blocks.len() == 0 {
        Seq::empty()
    } else {
        let rest = block_texts(blocks.drop_last());
        match blocks.last() {
            ContentBlock::Text { text } => rest.push(text@),
            _ => rest,
        }
    }
}

/// The display text of free-form content: a plain string verbatim, the texts of
/// the text-bearing blocks joined by newlines, any other value as serialized.
pub open spec fn content_text(c: ContentValue) -> Seq<char> {
    match c {
        ContentValue::Text(s) => s@,
        ContentValue::Blocks(parts) => join_lines(present_texts(parts@)),
        ContentValue::Other(s) => s@,
    }
}

proof fn lemma_join_push(parts: Seq<Seq<char>>, t: Seq<char>)
    ensures
        join_lines(parts.push(t)) == if parts.len() == 0 {
            t
        } else {
            join_lines(parts) + seq!['\n'] + t
        },
{
    assert(parts.push(t).drop_last() =~= parts);
}

/// Appends `t` to `out` as the next piece of a newline-joined text.
fn push_piece(out: &mut String, any: bool, t: &str)
    ensures
        final(out)@ == if any {
            old(out)@ + seq!['\n'] + t@
        } else {
            old(out)@ + t@
        },
{
    if any {
        proof {
            reveal_strlit("\n");
        }
        out.append("\n");
    }
    out.append(t);
}

/// The display text of free-form content.
pub fn extract_text_content(c: &ContentValue) -> (r: String)
    ensures
        r@ == content_text(*c),
{
    match c {
        ContentValue::Text(s) => s.clone(),
        ContentValue::Other(s) => s.clone(),
        ContentValue::Blocks(parts) => {
            let mut out = String::new();
            let mut any = false;
            let mut i: usize = 0;
            while i < parts.len()
                invariant
                    i <= parts@.len(),
                    any == (present_texts(parts@.take(i as int)).len() > 0),
                    out@ == join_lines(present_texts(parts@.take(i as int))),
                decreases parts@.len() - i,
            {
                let ghost before = present_texts(parts@.take(i as int));
                assert(parts@.take(i as int + 1).drop_last() =~= parts@.take(i as int));
                if let Some(t) = &parts[i] {
                    proof {
                        lemma_join_push(before, t@);
                    }
                    push_piece(&mut out, any, t.as_str());
                    any = true;
                }
                i = i + 1;
            }
            assert(parts@.take(parts@.len() as int) =~= parts@);
            out
        },
    }
}

/// The texts of the `Text` blocks joined by newlines.
pub fn join_text_blocks(blocks: &Vec<ContentBlock>) -> (r: String)
    ensures
        r@ == join_lines(block_texts(blocks@)),
{
    let mut out = String::new();
    let mut any = false;
    let mut i: usize = 0;
    while i < blocks.len()
        invariant
            i <= blocks@.len(),
            any == (block_texts(blocks@.take(i as int)).len() > 0),
            out@ == join_lines(block_texts(blocks@.take(i as int))),
        decreases blocks@.len() - i,
    {
        let ghost before = block_texts(blocks@.take(i as int));
        assert(blocks@.take(i as int + 1).drop_last() =~= blocks@.take(i as int));
        if let ContentBlock::Text { text } = &blocks[i] {
            proof {
                lemma_join_push(before, text@);
            }
            push_piece(&mut out, any, text.as_str());
            any = true;
        }
        i = i + 1;
    }
    assert(blocks@.take(blocks@.len() as int) =~= blocks@);
    out
}

} // verus!
