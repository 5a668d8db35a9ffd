//! The stream the bar host reads: a header, then one line of JSON per frame.

use vstd::prelude::*;
use crate::block::{block_views, color_code, color_code_text, Block, BlockView};
use crate::text::digit_char;

verus! {

/// The character for a single hexadecimal digit, in lower case.
pub open spec fn hex_digit_char(d: nat) -> char {
    if d < 10 {
        digit_char(d)
    } else if d == 10 {
        'a'
    } else if d == 11 {
        'b'
    } else if d == 12 {
        'c'
    } else if d == 13 {
        'd'
    } else if d == 14 {
        'e'
    } else {
        'f'
    }
}

/// What stands for one character inside a JSON string literal: a backslash
/// before a quote or a backslash, the short escape for backspace, form feed,
/// line feed, carriage return and tab, `\u00` and two hexadecimal digits for
/// every other character below the space, and the character itself otherwise.
pub open spec fn escaped_char(c: char) -> Seq<char> {
    if c == '"' {
        seq!['\\', '"']
    } else if c == '\\' {
        seq!['\\', '\\']
    } else if c == '\u{8}' {
        seq!['\\', 'b']
    } else if c == '\u{c}' {
        seq!['\\', 'f']
    } else if c == '\n' {
        seq!['\\', 'n']
    } else if c == '\r' {
        seq!['\\', 'r']
    } else if c == '\t' {
        seq!['\\', 't']
    } else if (c as u32) < 0x20 {
        seq![
            '\\',
            'u',
            '0',
            '0',
            hex_digit_char((c as u32 / 16) as nat),
            hex_digit_char((c as u32 % 16) as nat),
        ]
    } else {
        seq![c]
    }
}

/// The characters of `s`, each as it stands inside a JSON string literal.
pub open spec fn escaped(s: Seq<char>) -> Seq<char>
    decreases s.len(),
{
    if s.len() == 0 {
        Seq::empty()
    } else {
        escaped(s.drop_last()) + escaped_char(s.last())
    }
}

/// The JSON string literal for `s`.
pub open spec fn json_string(s: Seq<char>) -> Seq<char> {
    seq!['"'] + escaped(s) + seq!['"']
}

/// The JSON object for one block.
pub open spec fn block_json(block: BlockView) -> Seq<char> {
    "{\"full_text\":"@ + json_string(block.full_text) + ",\"color\":"@ + (match block.color {
        Some(tier) => json_string(color_code_text(tier)),
        None => "null"@,
    }) + ",\"separator\":"@ + (if block.separator {
        "true"@
    } else {
        "false"@
    }) + "}"@
}

/// The JSON objects of the blocks, in order, with a comma between neighbours.
pub open spec fn blocks_json(blocks: Seq<BlockView>) -> Seq<char>
    decreases blocks.len(),
{
    if blocks.len() == 0 {
        Seq::empty()
    } else if blocks.len() == 1 {
        block_json(blocks[0])
    } else {
        blocks_json(blocks.drop_last()) + ","@ + block_json(blocks.last())
    }
}

/// The line for one frame: the JSON array of its blocks, a comma that leaves
/// the enclosing array open, and the end of the line.
pub open spec fn frame_line(blocks: Seq<BlockView>) -> Seq<char> {
    "["@ + blocks_json(blocks) + "],\n"@
}

/// What opens the stream: the version declaration on a line of its own, then
/// the line that opens the array of frames.
pub open spec fn header_text() -> Seq<char> {
    "{\"version\": 1}\n[\n"@
}

/// What is written for a frame: the header first if nothing was written
/// before, then the line of the frame.
pub open spec fn chunk_text(started: bool, blocks: Seq<BlockView>) -> Seq<char> {
    if started {
        frame_line(blocks)
    } else {
        header_text() + frame_line(blocks)
    }
}

/// `serde_json::to_string` on a string slice: the JSON string literal for the
/// text. For a string slice the call cannot fail: it writes into memory, and
/// the text is neither a map nor a type that refuses to be serialised.
#[verifier::external_body]
fn quote(text: &str) -> (r: String)
    ensures
        r@ == json_string(text@),
{
    serde_json::to_string(text).unwrap_or_default()
}

/// Encodes one block as a JSON object.
pub fn encode_block(block: &Block) -> (r: String)
    ensures
        r@ == block_json(block@),
{
    let mut out = String::from_str("{\"full_text\":");
    out.append(quote(block.full_text.as_str()).as_str());
    out.append(",\"color\":");
    match block.color {
        Some(tier) => out.append(quote(color_code(tier)).as_str()),
        None => out.append("null"),
    }
    out.append(",\"separator\":");
    if block.separator {
        out.append("true");
    } else {
        out.append("false");
    }
    out.append("}");
    assert(out@ =~= block_json(block@));
    out
}

/// Encodes one frame as the line that is written for it.
pub fn display_bar(blocks: &Vec<Block>) -> (r: String)
    ensures
        r@ == frame_line(block_views(blocks@)),
{
    let ghost views = block_views(blocks@);
    let mut out = String::from_str("[");
    let mut i: usize = 0;
    while i < blocks.len()
        invariant
            0 <= i <= blocks.len(),
            views == block_views(blocks@),
            out@ == "["@ + blocks_json(views.take(i as int)),
        decreases blocks.len() - i,
    {
        proof {
            assert(views.take(i + 1).drop_last() =~= views.take(i as int));
            assert(views.take(i + 1).last() == blocks@[i as int]@);
        }
        if i > 0 {
            out.append(",");
        }
        out.append(encode_block(&blocks[i]).as_str());
        assert(out@ =~= "["@ + blocks_json(views.take(i + 1)));
        i = i + 1;
    }
    assert(views.take(blocks.len() as int) =~= views);
    out.append("],\n");
    assert(out@ =~= frame_line(views));
    out
}

/// Returns what opens the stream.
pub fn protocol_header() -> (r: String)
    ensures
        r@ == header_text(),
{
    String::from_str("{\"version\": 1}\n[\n")
}

/// Writes frames to the stream in order, opening the stream before the first.
#[derive(Debug)]
pub struct OutputWriter {
    started: bool,
}

impl OutputWriter {
    /// Whether anything was written yet.
    pub closed spec fn started(&self) -> bool {
        self.started
    }

    /// A writer that has written nothing.
    pub fn new() -> (r: Self)
        ensures
            !r.started(),
    {
        OutputWriter { started: false }
    }

    /// Returns what to append to the stream for the next frame, and records
    /// that the stream is open.
    pub fn write(&mut self, blocks: &Vec<Block>) -> (chunk: String)
        ensures
            final(self).started(),
            chunk@ == chunk_text(old(self).started(), block_views(blocks@)),
    {
        let line = display_bar(blocks);
        if self.started {
            line
        } else {
            self.started = true;
            let mut chunk = protocol_header();
            chunk.append(line.as_str());
            chunk
        }
    }
}

/// What a new writer writes first begins with the header, whatever the frame;
/// what it writes later is the line of the frame and nothing else.
pub proof fn lemma_stream_opens_with_header(blocks: Seq<BlockView>)
    ensures
        chunk_text(false, blocks).subrange(0, header_text().len() as int) == header_text(),
        chunk_text(false, blocks).skip(header_text().len() as int) == frame_line(blocks),
        chunk_text(true, blocks) == frame_line(blocks),
{
    assert(chunk_text(false, blocks).subrange(0, header_text().len() as int) =~= header_text());
    assert(chunk_text(false, blocks).skip(header_text().len() as int) =~= frame_line(blocks));
}

/// Whether `s` holds no line feed.
pub open spec fn is_single_line(s: Seq<char>) -> bool {
    forall|i: int| 0 <= i < s.len() ==> #[trigger] s[i] != '\n'
}

proof fn lemma_escaped_is_single_line(s: Seq<char>)
    ensures
        is_single_line(escaped(s)),
        is_single_line(json_string(s)),
    decreases s.len(),
{
    if s.len() > 0 {
        lemma_escaped_is_single_line(s.drop_last());
        assert(is_single_line(escaped_char(s.last())));
    }
}

proof fn lemma_block_json_is_single_line(block: BlockView)
    ensures
        is_single_line(block_json(block)),
{
    reveal_strlit("{\"full_text\":");
    reveal_strlit(",\"color\":");
    reveal_strlit("null");
    reveal_strlit(",\"separator\":");
    reveal_strlit("true");
    reveal_strlit("false");
    reveal_strlit("}");
    reveal_strlit("#8fc029");
    reveal_strlit("#dc2566");
    reveal_strlit("#9358fe");
    reveal_strlit("#e7db75");
    lemma_escaped_is_single_line(block.full_text);
    match block.color {
        Some(tier) => {
            lemma_escaped_is_single_line(color_code_text(tier));
        },
        None => {},
    }
}

proof fn lemma_blocks_json_is_single_line(blocks: Seq<BlockView>)
    ensures
        is_single_line(blocks_json(blocks)),
    decreases blocks.len(),
{
    reveal_strlit(",");
    if blocks.len() == 1 {
        lemma_block_json_is_single_line(blocks[0]);
    } else if blocks.len() > 1 {
        lemma_blocks_json_is_single_line(blocks.drop_last());
        lemma_block_json_is_single_line(blocks.last());
    }
}

/// The line of a frame is one line: it ends with a line feed and holds no
/// other, whatever the texts of its blocks.
pub proof fn lemma_frame_is_one_line(blocks: Seq<BlockView>)
    ensures
        frame_line(blocks).len() >= 4,
        frame_line(blocks).last() == '\n',
        is_single_line(frame_line(blocks).drop_last()),
{
    reveal_strlit("[");
    reveal_strlit("],\n");
    lemma_blocks_json_is_single_line(blocks);
    let line = frame_line(blocks);
    let inner = blocks_json(blocks);
    assert(line.len() == 1 + inner.len() + 3);
    let body = line.drop_last();
    assert forall|i: int| 0 <= i < body.len() implies #[trigger] body[i] != '\n' by {
        if i == 0 {
        } else if i <= inner.len() {
            assert(line[i] == inner[i - 1]);
        } else {
            assert(line[i] == "],\n"@[i - 1 - inner.len()]);
        }
    }
}

} // verus!
