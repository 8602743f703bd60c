//! Data exchanged with AI assistants, the context given to them, and the
//! text handling around their replies.
use vstd::prelude::*;
use crate::text::owned;

verus! {

/// Who wrote a message of a conversation.
#[derive(Clone, Copy, Debug, PartialEq, Eq, Structural)]
pub enum Role {
    User,
    Assistant,
}

/// One message of a conversation.
#[derive(Clone, Debug)]
pub struct Message {
    pub role: Role,
    pub content: String,
}

/// A request to an assistant.
#[derive(Clone, Debug)]
pub struct Prompt {
    pub system: Option<String>,
    pub messages: Vec<Message>,
    pub max_tokens: Option<u32>,
}

/// An assistant's complete reply.
#[derive(Clone, Debug)]
pub struct AIResponse {
    pub content: String,
    pub model: String,
    pub input_tokens: Option<u32>,
    pub output_tokens: Option<u32>,
}

/// The assistant used when none is configured: never available.
#[derive(Clone, Copy, Debug)]
pub struct NullProvider;

impl NullProvider {
    pub fn is_available(&self) -> (r: bool)
        ensures
            !r,
    {
        false
    }

    pub fn name(&self) -> (r: &'static str)
        ensures
            r@ == "none"@,
    {
        "none"
    }

    /// Why no request can be served.
    pub fn unavailable_reason(&self) -> (r: String)
        ensures
            r@ == "no AI provider configured"@,
    {
        owned("no AI provider configured")
    }
}

/// What an assistant's suggestion is about.
#[derive(Clone, Copy, Debug, PartialEq, Eq, Structural)]
pub enum SuggestionKind {
    Node,
    Edge,
    Text,
    Analysis,
}

/// How pressing an assistant's suggestion is.
#[derive(Clone, Copy, Debug, PartialEq, Eq, Structural)]
pub enum Severity {
    Info,
    Warning,
    Error,
}

/// Builds the prompts given to an assistant, grounded in the model.
pub struct ContextBuilder {
    system_preamble: String,
}

impl View for ContextBuilder {
    type V = Seq<char>;

    closed spec fn view(&self) -> Seq<char> {
        self.system_preamble@
    }
}

impl ContextBuilder {
    /// A builder whose system prompt is `system_preamble`.
    pub fn new(system_preamble: String) -> (r: ContextBuilder)
        ensures
            r@ == system_preamble@,
    {
        ContextBuilder { system_preamble }
    }

    /// The system prompt that opens every conversation.
    pub fn system_prompt(&self) -> (r: &str)
        ensures
            r@ == self@,
    {
        self.system_preamble.as_str()
    }
}

/// Settings for enriching extraction prompts with a knowledge graph.
#[derive(Clone, Debug)]
pub struct GraphRagExtractorConfig {
    pub ollama_base_url: String,
    pub ollama_chat_model: String,
    pub ollama_embed_model: String,
    pub chunk_size: usize,
    pub chunk_overlap: usize,
}

impl Default for GraphRagExtractorConfig {
    fn default() -> (r: GraphRagExtractorConfig)
        ensures
            r.ollama_base_url@ == "http://localhost:11434"@,
            r.ollama_chat_model@ == "qwen2.5:7b"@,
            r.ollama_embed_model@ == "nomic-embed-text"@,
            r.chunk_size == 800,
            r.chunk_overlap == 150,
    {
        GraphRagExtractorConfig {
            ollama_base_url: owned("http://localhost:11434"),
            ollama_chat_model: owned("qwen2.5:7b"),
            ollama_embed_model: owned("nomic-embed-text"),
            chunk_size: 800,
            chunk_overlap: 150,
        }
    }
}

/// A block of text handed to the requirement parser.
#[derive(Clone, Debug)]
pub struct RequirementParseBlock {
    pub text: String,
    pub section_title: String,
    pub section_ref: String,
    pub section_type: String,
    pub line_index: i32,
}

/// A candidate requirement after an assistant's quality pass.
#[derive(Clone, Debug)]
pub struct RequirementQualityOutput {
    pub id: String,
    pub sentence: String,
    pub name: String,
    pub confidence: String,
    pub classification: String,
    pub flags: Vec<String>,
    pub review_priority: String,
}

/// A candidate requirement to allocate to a subsystem.
#[derive(Clone, Debug)]
pub struct RequirementAllocationInput {
    pub id: String,
    pub sentence: String,
    pub name: String,
    pub confidence: String,
    pub flags: Vec<String>,
    pub classification: String,
}

/// A subsystem a requirement may be allocated to.
#[derive(Clone, Debug)]
pub struct AllocationSubsystemInput {
    pub name: String,
    pub description: String,
}

/// An assistant's allocation of a requirement.
#[derive(Clone, Debug)]
pub struct RequirementAllocationOutput {
    pub id: String,
    pub sentence: String,
    pub allocation: String,
    pub confidence: String,
    pub rationale: String,
    pub new_subsystem_name: String,
}

/// A node offered to an assistant that lays out a diagram.
#[derive(Clone, Debug)]
pub struct DiagramNodeInput {
    pub id: String,
    pub kind: String,
    pub name: String,
    pub description: Option<String>,
}

/// An edge offered to an assistant that lays out a diagram.
#[derive(Clone, Debug)]
pub struct DiagramEdgeInput {
    pub source_id: String,
    pub target_id: String,
    pub kind: String,
}

// ── The first JSON array of a reply ─────────────────────────────────────────

/// The position of the first `[` at or after `i`.
pub open spec fn first_open_bracket(s: Seq<char>, i: int) -> Option<int>
    decreases s.len() - i,
{
    if i < 0 || i >= s.len() {
        None
    } else if s[i] == '[' {
        Some(i)
    } else {
        first_open_bracket(s, i + 1)
    }
}

/// Scanning from `i` inside an array nested `depth` deep, the position of
/// the `]` that closes the outermost array. Brackets inside strings, with
/// their backslash escapes, do not count.
pub open spec fn closing_bracket(s: Seq<char>, i: int, depth: int, in_string: bool, escape: bool) -> Option<int>
    decreases s.len() - i,
{
    if i < 0 || i >= s.len() {
        None
    } else {
        let c = s[i];
        if in_string {
            if escape {
                closing_bracket(s, i + 1, depth, true, false)
            } else if c == '\\' {
                closing_bracket(s, i + 1, depth, true, true)
            } else if c == '"' {
                closing_bracket(s, i + 1, depth, false, false)
            } else {
                closing_bracket(s, i + 1, depth, true, false)
            }
        } else if c == '"' {
            closing_bracket(s, i + 1, depth, true, escape)
        } else if c == '[' {
            closing_bracket(s, i + 1, depth + 1, false, escape)
        } else if c == ']' {
            if depth - 1 == 0 {
                Some(i)
            } else {
                closing_bracket(s, i + 1, depth - 1, false, escape)
            }
        } else {
            closing_bracket(s, i + 1, depth, false, escape)
        }
    }
}

/// The first balanced JSON array in a text, from its `[` to its `]`.
pub open spec fn json_array_in(s: Seq<char>) -> Option<Seq<char>> {
    match first_open_bracket(s, 0) {
        Some(start) => match closing_bracket(s, start + 1, 1, false, false) {
            Some(end) => Some(s.subrange(start, end + 1)),
            None => None,
        },
        None => None,
    }
}

/// Cuts the first balanced JSON array out of an assistant's reply, which may
/// wrap it in prose or code fences.
pub fn extract_json_array(raw: &str) -> (r: Option<String>)
    ensures
        match r {
            Some(a) => json_array_in(raw@) == Some(a@),
            None => json_array_in(raw@) is None,
        },
{
    let n = raw.unicode_len();
    let mut start: usize = 0;
    while start < n && raw.get_char(start) != '['
        invariant
            n == raw@.len(),
            0 <= start <= n,
            first_open_bracket(raw@, 0) == first_open_bracket(raw@, start as int),
        decreases n - start,
    {
        start = start + 1;
    }
    if start >= n {
        return None;
    }
    let mut i: usize = start + 1;
    let mut depth: usize = 1;
    let mut in_string = false;
    let mut escape = false;
    while i < n
        invariant
            n == raw@.len(),
            start < i <= n,
            1 <= depth <= i,
            first_open_bracket(raw@, 0) == Some(start as int),
            closing_bracket(raw@, start + 1, 1, false, false) == closing_bracket(raw@, i as int, depth as int, in_string, escape),
        decreases n - i,
    {
        let ch = raw.get_char(i);
        if in_string {
            if escape {
                escape = false;
            } else if ch == '\\' {
                escape = true;
            } else if ch == '"' {
                in_string = false;
            }
        } else if ch == '"' {
            in_string = true;
        } else if ch == '[' {
            depth = depth + 1;
        } else if ch == ']' {
            if depth == 1 {
                return Some(owned(raw.substring_char(start, i + 1)));
            }
            depth = depth - 1;
        }
        i = i + 1;
    }
    None
}

// ── Sentence-aligned chunks ─────────────────────────────────────────────────

/// Characters that end a sentence for chunking purposes.
pub open spec fn is_sentence_break(c: char) -> bool {
    c == '.' || c == '\n'
}

/// The first sentence break in `s[lo..hi]`.
pub open spec fn first_break(s: Seq<char>, lo: int, hi: int) -> Option<int>
    decreases hi - lo,
{
    if lo >= hi {
        None
    } else if is_sentence_break(s[lo]) {
        Some(lo)
    } else {
        first_break(s, lo + 1, hi)
    }
}

/// The last sentence break in `s[lo..hi]`.
pub open spec fn last_break(s: Seq<char>, lo: int, hi: int) -> Option<int>
    decreases hi - lo,
{
    if lo >= hi {
        None
    } else if is_sentence_break(s[hi - 1]) {
        Some(hi - 1)
    } else {
        last_break(s, lo, hi - 1)
    }
}

pub open spec fn min_int(a: int, b: int) -> int {
    if a < b {
        a
    } else {
        b
    }
}

/// Where the chunk that begins at `start` ends: `size` characters on, moved
/// forward past the next sentence break within 300 characters, if any.
pub open spec fn chunk_end(s: Seq<char>, start: int, size: int) -> int {
    let raw_end = min_int(start + size, s.len() as int);
    if raw_end < s.len() {
        match first_break(s, raw_end, min_int(raw_end + 300, s.len() as int)) {
            Some(p) => p + 1,
            None => raw_end,
        }
    } else {
        raw_end
    }
}

/// Where the chunk after `[start, end)` begins: `overlap` characters back
/// from `end`, moved forward to just after the last sentence break before
/// `end`; or at `end` when that would not move past `start`.
pub open spec fn next_chunk_start(s: Seq<char>, start: int, end: int, overlap: int) -> int {
    let raw_next = if end >= overlap {
        end - overlap
    } else {
        0
    };
    let candidate = match last_break(s, raw_next, end) {
        Some(p) => p + 1,
        None => raw_next,
    };
    if candidate > start {
        candidate
    } else {
        end
    }
}

/// The chunks of `s` from `start` on.
pub open spec fn chunks_from(s: Seq<char>, start: int, size: int, overlap: int) -> Seq<Seq<char>>
    decreases s.len() - start,
{
    if start < 0 || start >= s.len() || size <= 0 {
        Seq::empty()
    } else {
        let end = chunk_end(s, start, size);
        let piece = s.subrange(start, end);
        let next = next_chunk_start(s, start, end, overlap);
        if end >= s.len() || !(start < next && next < s.len()) {
            seq![piece]
        } else {
            seq![piece] + chunks_from(s, next, size, overlap)
        }
    }
}

/// The chunks of a text: the whole text when it fits in `size` characters,
/// else overlapping pieces cut at sentence breaks.
pub open spec fn sentence_chunks(s: Seq<char>, size: int, overlap: int) -> Seq<Seq<char>> {
    if s.len() <= size {
        seq![s]
    } else {
        chunks_from(s, 0, size, overlap)
    }
}

proof fn lemma_last_break_range(s: Seq<char>, lo: int, hi: int)
    ensures
        last_break(s, lo, hi) matches Some(p) ==> lo <= p < hi,
    decreases hi - lo,
{
    if lo < hi {
        lemma_last_break_range(s, lo, hi - 1);
    }
}

/// Splits a long text into chunks of about `chunk_chars` characters that end
/// at sentence breaks and overlap by about `overlap_chars` characters.
pub fn chunk_text_by_sentences(text: &str, chunk_chars: usize, overlap_chars: usize) -> (r: Vec<String>)
    requires
        chunk_chars > 0 || text@.len() == 0,
    ensures
        r@.map_values(|c: String| c@) == sentence_chunks(text@, chunk_chars as int, overlap_chars as int),
{
    let total = text.unicode_len();
    if total <= chunk_chars {
        let r = vec![owned(text)];
        assert(r@.map_values(|c: String| c@) =~= seq![text@]);
        return r;
    }
    let ghost s = text@;
    let ghost size = chunk_chars as int;
    let ghost overlap = overlap_chars as int;
    let mut chunks: Vec<String> = Vec::new();
    let mut start: usize = 0;
    while start < total
        invariant
            total == s.len(),
            s == text@,
            size == chunk_chars,
            overlap == overlap_chars,
            0 < chunk_chars < total,
            0 <= start < total,
            chunks@.map_values(|c: String| c@) + chunks_from(s, start as int, size, overlap)
                == chunks_from(s, 0, size, overlap),
        decreases total - start,
    {
        let raw_end: usize = if chunk_chars >= total - start {
            total
        } else {
            start + chunk_chars
        };
        let end: usize = if raw_end < total {
            let lookahead: usize = if total - raw_end <= 300 {
                total
            } else {
                raw_end + 300
            };
            let mut p: usize = raw_end;
            while p < lookahead && !(text.get_char(p) == '.' || text.get_char(p) == '\n')
                invariant
                    raw_end <= p <= lookahead <= total,
                    total == s.len(),
                    s == text@,
                    first_break(s, raw_end as int, lookahead as int) == first_break(s, p as int, lookahead as int),
                decreases lookahead - p,
            {
                p = p + 1;
            }
            if p < lookahead {
                p + 1
            } else {
                raw_end
            }
        } else {
            raw_end
        };
        assert(end as int == chunk_end(s, start as int, size));
        let ghost piece = s.subrange(start as int, end as int);
        let ghost prev = chunks@.map_values(|c: String| c@);
        chunks.push(owned(text.substring_char(start, end)));
        assert(chunks@.map_values(|c: String| c@) =~= prev.push(piece));
        if end >= total {
            assert(chunks_from(s, start as int, size, overlap) == seq![piece]);
            assert(prev.push(piece) =~= prev + seq![piece]);
            return chunks;
        }
        let raw_next: usize = if end >= overlap_chars {
            end - overlap_chars
        } else {
            0
        };
        let mut q: usize = end;
        while q > raw_next && !(text.get_char(q - 1) == '.' || text.get_char(q - 1) == '\n')
            invariant
                raw_next <= q <= end <= total,
                total == s.len(),
                s == text@,
                last_break(s, raw_next as int, end as int) == last_break(s, raw_next as int, q as int),
            decreases q - raw_next,
        {
            q = q - 1;
        }
        let candidate: usize = if q > raw_next {
            q
        } else {
            raw_next
        };
        proof {
            lemma_last_break_range(s, raw_next as int, end as int);
        }
        let next: usize = if candidate > start {
            candidate
        } else {
            end
        };
        assert(next as int == next_chunk_start(s, start as int, end as int, overlap));
        assert(chunks_from(s, start as int, size, overlap) == seq![piece] + chunks_from(s, next as int, size, overlap));
        assert(prev.push(piece) + chunks_from(s, next as int, size, overlap) =~= prev + (seq![piece] + chunks_from(s, next as int, size, overlap)));
        start = next;
    }
    assert(chunks_from(s, start as int, size, overlap) =~= Seq::<Seq<char>>::empty());
    assert(chunks@.map_values(|c: String| c@) =~= chunks@.map_values(|c: String| c@) + Seq::<Seq<char>>::empty());
    chunks
}

} // verus!
