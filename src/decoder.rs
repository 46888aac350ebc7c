use vstd::prelude::*;

use crate::error::LLMError;
use crate::event::{line_chars_fragment, line_fragment, text_view};
use crate::text::{chars_of, decode_lossy, push_text, split_lines, text_lines, utf8_lossy};

verus! {

/// A fragment, or nothing where a line yields none.
pub open spec fn or_empty(f: Option<Seq<char>>) -> Seq<char> {
    match f {
        Some(s) => s,
        None => Seq::empty(),
    }
}

/// The fragments of `lines`, in line order, joined.
pub open spec fn lines_output(lines: Seq<Seq<char>>) -> Seq<char>
    decreases lines.len(),
{
    if lines.len() == 0 {
        Seq::empty()
    } else {
        lines_output(lines.drop_last()) + or_empty(line_fragment(lines.last()))
    }
}

/// The text that one chunk of the response body decodes to.
pub open spec fn chunk_output(chunk: Seq<u8>) -> Seq<char> {
    lines_output(text_lines(utf8_lossy(chunk)))
}

/// The items that a sequence of chunks yields: the text of each chunk, in
/// order, leaving out the chunks whose text is empty.
pub open spec fn stream_output(chunks: Seq<Seq<u8>>) -> Seq<Seq<char>>
    decreases chunks.len(),
{
    if chunks.len() == 0 {
        Seq::empty()
    } else {
        let out = chunk_output(chunks.last());
        if out.len() == 0 {
            stream_output(chunks.drop_last())
        } else {
            stream_output(chunks.drop_last()).push(out)
        }
    }
}

/// The content that one line of the event stream yields: nothing for an
/// empty line, a comment, a line other than `data: `, a payload that is no
/// JSON or no event, or an event of another kind.
pub fn parse_sse_line(line: &str) -> (r: Option<String>)
    ensures
        text_view(r) == line_fragment(line@),
{
    let cs = chars_of(line);
    line_chars_fragment(cs.as_slice())
}

/// Joins the fragments of `lines`, in order.
pub fn decode_lines(lines: &Vec<Vec<char>>) -> (r: String)
    ensures
        r@ == lines_output(lines@.map_values(|l: Vec<char>| l@)),
{
    let ghost ls = lines@.map_values(|l: Vec<char>| l@);
    let mut out = String::new();
    let mut i: usize = 0;
    while i < lines.len()
        invariant
            0 <= i <= lines@.len(),
            ls == lines@.map_values(|l: Vec<char>| l@),
            out@ == lines_output(ls.take(i as int)),
        decreases lines@.len() - i,
    {
        assert(ls.take(i + 1).drop_last() == ls.take(i as int));
        assert(ls.take(i + 1).last() == lines@[i as int]@);
        match line_chars_fragment(lines[i].as_slice()) {
            Some(f) => push_text(&mut out, f.as_str()),
            None => {
                assert(out@ + Seq::<char>::empty() == out@);
            },
        }
        i = i + 1;
    }
    assert(ls.take(i as int) == ls);
    out
}

/// Decodes one chunk of the response body: its bytes are read as text, with
/// replacement characters for invalid sequences, and the fragments of its
/// lines are joined in order.
pub fn decode_chunk(chunk: &[u8]) -> (r: String)
    ensures
        r@ == chunk_output(chunk@),
{
    let text = decode_lossy(chunk);
    let cs = chars_of(text.as_str());
    let lines = split_lines(cs.as_slice());
    assert(lines@.map_values(|l: Vec<char>| l@) == text_lines(utf8_lossy(chunk@)));
    decode_lines(&lines)
}

/// What the caller sees of one item of the response body: the decoded text
/// of a chunk, nothing where that text is empty, and every transport failure
/// as a network error.
pub fn stream_item(item: Result<Vec<u8>, String>) -> (r: Option<Result<String, LLMError>>)
    ensures
        match item {
            Ok(chunk) => match r {
                Some(Ok(s)) => s@ == chunk_output(chunk@) && s@.len() > 0,
                Some(Err(_)) => false,
                None => chunk_output(chunk@).len() == 0,
            },
            Err(m) => r == Some(Err::<String, LLMError>(LLMError::NetworkError(m))),
        },
{
    match item {
        Ok(chunk) => {
            let s = decode_chunk(chunk.as_slice());
            if s.as_str().is_empty() {
                None
            } else {
                Some(Ok(s))
            }
        },
        Err(m) => Some(Err(LLMError::NetworkError(m))),
    }
}

/// Decodes each chunk in turn and keeps the non-empty texts, in order.
pub fn decode_chunks(chunks: &Vec<Vec<u8>>) -> (r: Vec<String>)
    ensures
        r@.map_values(|s: String| s@) == stream_output(chunks@.map_values(|c: Vec<u8>| c@)),
{
    let ghost cs = chunks@.map_values(|c: Vec<u8>| c@);
    let mut out: Vec<String> = Vec::new();
    let mut i: usize = 0;
    while i < chunks.len()
        invariant
            0 <= i <= chunks@.len(),
            cs == chunks@.map_values(|c: Vec<u8>| c@),
            out@.map_values(|s: String| s@) == stream_output(cs.take(i as int)),
        decreases chunks@.len() - i,
    {
        assert(cs.take(i + 1).drop_last() == cs.take(i as int));
        assert(cs.take(i + 1).last() == chunks@[i as int]@);
        let s = decode_chunk(chunks[i].as_slice());
        if !s.as_str().is_empty() {
            let ghost before = out@;
            out.push(s);
            assert(out@.map_values(|s: String| s@) == before.map_values(|s: String| s@).push(
                s@,
            ));
        }
        i = i + 1;
    }
    assert(cs.take(i as int) == cs);
    out
}

/// Decoding lines is order-preserving: the lines `a` followed by the lines `b`
/// yield what `a` yields followed by what `b` yields.
pub proof fn lemma_lines_output_concat(a: Seq<Seq<char>>, b: Seq<Seq<char>>)
    ensures
        lines_output(a + b) == lines_output(a) + lines_output(b),
    decreases b.len(),
{
    if b.len() == 0 {
        assert(a + b == a);
        assert(lines_output(a) + Seq::<char>::empty() == lines_output(a));
    } else {
        assert((a + b).drop_last() == a + b.drop_last());
        assert((a + b).last() == b.last());
        lemma_lines_output_concat(a, b.drop_last());
        assert(lines_output(a) + lines_output(b.drop_last()) + or_empty(line_fragment(b.last()))
            == lines_output(a) + (lines_output(b.drop_last()) + or_empty(
            line_fragment(b.last()),
        )));
    }
}

/// Decoding a stream is stateless and order-preserving: each chunk is decoded
/// on its own, so the chunks `a` followed by the chunks `b` yield the items of
/// `a` followed by the items of `b`.
pub proof fn lemma_stream_output_concat(a: Seq<Seq<u8>>, b: Seq<Seq<u8>>)
    ensures
        stream_output(a + b) == stream_output(a) + stream_output(b),
    decreases b.len(),
{
    if b.len() == 0 {
        assert(a + b == a);
        assert(stream_output(a) + Seq::<Seq<char>>::empty() == stream_output(a));
    } else {
        assert((a + b).drop_last() == a + b.drop_last());
        assert((a + b).last() == b.last());
        lemma_stream_output_concat(a, b.drop_last());
        if chunk_output(b.last()).len() > 0 {
            assert(stream_output(a) + stream_output(b.drop_last()).push(chunk_output(b.last()))
                == (stream_output(a) + stream_output(b.drop_last())).push(
                chunk_output(b.last()),
            ));
        }
    }
}

} // verus!
