use vstd::prelude::*;

use crate::protocol::chat::ChatRequest;
use crate::protocol::message::{ChatMessage, Role};
use crate::protocol::response::{finished_with, ChatResponse, ChatStreamChunk, Usage};

verus! {

/// Whether a character has the Unicode `White_Space` property: U+0009 to U+000D,
/// U+0020, U+0085, U+00A0, U+1680, U+2000 to U+200A, U+2028, U+2029, U+202F, U+205F
/// and U+3000.
pub open spec fn is_white_space(c: char) -> bool {
    let n = c as u32;
    ||| 0x09 <= n <= 0x0D
    ||| n == 0x20
    ||| n == 0x85
    ||| n == 0xA0
    ||| n == 0x1680
    ||| 0x2000 <= n <= 0x200A
    ||| n == 0x2028
    ||| n == 0x2029
    ||| n == 0x202F
    ||| n == 0x205F
    ||| n == 0x3000
}

/// Among ASCII characters, exactly tab, line feed, vertical tab, form feed,
/// carriage return and space are white space; letters, digits and punctuation
/// never are.
pub proof fn lemma_ascii_white_space(c: char)
    requires
        (c as u32) < 0x80,
    ensures
        is_white_space(c) == (c == '\t' || c == '\n' || c == '\x0B' || c == '\x0C' || c == '\r' || c
            == ' '),
{
}

/// Whether `c` has the Unicode `White_Space` property (what `char::is_whitespace` answers).
pub fn char_is_whitespace(c: char) -> (answer: bool)
    ensures
        answer == is_white_space(c),
{
    let n = c as u32;
    (0x09 <= n && n <= 0x0D) || n == 0x20 || n == 0x85 || n == 0xA0 || n == 0x1680 || (0x2000
        <= n && n <= 0x200A) || n == 0x2028 || n == 0x2029 || n == 0x202F || n == 0x205F || n
        == 0x3000
}

/// Reading `text` from the left: the words already closed by a white-space
/// character, and the word still open at the end.
pub open spec fn scan_words(text: Seq<char>) -> (Seq<Seq<char>>, Seq<char>)
    decreases text.len(),
{
    if text.len() == 0 {
        (Seq::empty(), Seq::empty())
    } else {
        let (done, open) = scan_words(text.drop_last());
        let c = text.last();
        if is_white_space(c) {
            if open.len() > 0 {
                (done.push(open), Seq::empty())
            } else {
                (done, Seq::empty())
            }
        } else {
            (done, open.push(c))
        }
    }
}

/// The words of `text`: its maximal runs of characters that are not white space,
/// in order.
pub open spec fn whitespace_words(text: Seq<char>) -> Seq<Seq<char>> {
    let (done, open) = scan_words(text);
    if open.len() > 0 {
        done.push(open)
    } else {
        done
    }
}

proof fn lemma_scan_unbroken(text: Seq<char>)
    requires
        forall|k: int| 0 <= k < text.len() ==> !is_white_space(#[trigger] text[k]),
    ensures
        scan_words(text) == (Seq::<Seq<char>>::empty(), text),
    decreases text.len(),
{
    if text.len() > 0 {
        let shorter = text.drop_last();
        assert forall|k: int| 0 <= k < shorter.len() implies !is_white_space(#[trigger] shorter[k]) by {
            assert(shorter[k] == text[k]);
        }
        lemma_scan_unbroken(shorter);
        assert(!is_white_space(text[text.len() - 1]));
        assert(shorter.push(text.last()) =~= text);
    }
}

proof fn lemma_scan_after_break(a: Seq<char>, c: char, b: Seq<char>)
    requires
        is_white_space(c),
    ensures
        scan_words(a + seq![c] + b) == (whitespace_words(a) + scan_words(b).0, scan_words(b).1),
    decreases b.len(),
{
    if b.len() == 0 {
        assert(a + seq![c] + b =~= a.push(c));
        assert((a + seq![c] + b).drop_last() =~= a);
        assert(whitespace_words(a) + Seq::<Seq<char>>::empty() =~= whitespace_words(a));
    } else {
        let shorter = b.drop_last();
        lemma_scan_after_break(a, c, shorter);
        assert((a + seq![c] + b).drop_last() =~= a + seq![c] + shorter);
        assert((a + seq![c] + b).last() == b.last());
        let (done, open) = scan_words(shorter);
        assert((whitespace_words(a) + done).push(open) =~= whitespace_words(a) + done.push(open));
    }
}

/// Text without white space is one word, or none when it is empty.
pub proof fn lemma_words_of_unbroken_text(text: Seq<char>)
    requires
        forall|k: int| 0 <= k < text.len() ==> !is_white_space(#[trigger] text[k]),
    ensures
        text.len() == 0 ==> whitespace_words(text) == Seq::<Seq<char>>::empty(),
        text.len() > 0 ==> whitespace_words(text) == seq![text],
{
    lemma_scan_unbroken(text);
    if text.len() > 0 {
        assert(Seq::<Seq<char>>::empty().push(text) =~= seq![text]);
    }
}

/// Words break only at white space, and every white-space character breaks them:
/// the words of `a`, a white-space character, then `b` are the words of `a`
/// followed by the words of `b`.
pub proof fn lemma_words_split_at_white_space(a: Seq<char>, c: char, b: Seq<char>)
    requires
        is_white_space(c),
    ensures
        whitespace_words(a + seq![c] + b) == whitespace_words(a) + whitespace_words(b),
{
    lemma_scan_after_break(a, c, b);
    let (done, open) = scan_words(b);
    if open.len() > 0 {
        assert((whitespace_words(a) + done).push(open) =~= whitespace_words(a) + done.push(open));
    }
}

/// The words of `text`, as `str::split_whitespace` gives them.
pub fn split_words(text: &str) -> (words: Vec<String>)
    ensures
        words@.map_values(|w: String| w@) == whitespace_words(text@),
{
    let n = text.unicode_len();
    let mut words: Vec<String> = Vec::new();
    let mut start: usize = 0;
    let mut in_word = false;
    let mut i: usize = 0;
    assert(text@.take(0) =~= Seq::<char>::empty());
    while i < n
        invariant
            n == text@.len(),
            i <= n,
            in_word ==> start < i,
            scan_words(text@.take(i as int)).0 == words@.map_values(|w: String| w@),
            scan_words(text@.take(i as int)).1 == (if in_word {
                text@.subrange(start as int, i as int)
            } else {
                Seq::empty()
            }),
        decreases n - i,
    {
        let c = text.get_char(i);
        let ghost before = text@.take(i as int);
        assert(text@.take(i + 1).drop_last() =~= before);
        assert(text@.take(i + 1).last() == c);
        if char_is_whitespace(c) {
            if in_word {
                let word = text.substring_char(start, i).to_string();
                let ghost old_words = words@;
                words.push(word);
                assert(words@.map_values(|w: String| w@) =~= old_words.map_values(|w: String| w@).push(
                    text@.subrange(start as int, i as int),
                ));
            }
            in_word = false;
        } else {
            if in_word {
                assert(text@.subrange(start as int, i + 1) =~= text@.subrange(start as int, i as int).push(c));
            } else {
                start = i;
                assert(text@.subrange(i as int, i + 1) =~= Seq::<char>::empty().push(c));
            }
            in_word = true;
        }
        i = i + 1;
    }
    assert(text@.take(n as int) =~= text@);
    if in_word {
        let word = text.substring_char(start, n).to_string();
        let ghost old_words = words@;
        words.push(word);
        assert(words@.map_values(|w: String| w@) =~= old_words.map_values(|w: String| w@).push(
            text@.subrange(start as int, n as int),
        ));
    }
    words
}

/// The reply of a mock: `content` from the assistant, finished with `stop`.
pub open spec fn mock_reply(response: ChatResponse, content: Seq<char>) -> bool {
    &&& response.message.spec_plain(Role::Assistant, content)
    &&& finished_with(response.finish_reason, "stop"@)
    &&& response.tool_calls@.len() == 0
}

/// A provider that always answers with the same text and reports fixed usage.
pub struct MockProvider {
    response: String,
}

impl MockProvider {
    /// The text that the mock answers with.
    pub closed spec fn reply(&self) -> Seq<char> {
        self.response@
    }

    pub fn new(response: &str) -> (provider: Self)
        ensures
            provider.reply() == response@,
    {
        MockProvider { response: response.to_string() }
    }

    /// The answer to any request: the fixed text, finished with `stop`, with
    /// 10 prompt and 5 completion tokens (15 in all).
    pub fn respond(&self, request: &ChatRequest) -> (response: ChatResponse)
        ensures
            mock_reply(response, self.reply()),
            response.usage == Some(Usage { prompt_tokens: 10, completion_tokens: 5, total_tokens: 15 }),
            response.usage matches Some(u) && u.total_tokens == u.prompt_tokens + u.completion_tokens,
    {
        ChatResponse {
            message: ChatMessage::assistant(self.response.as_str()),
            finish_reason: Some(String::from_str("stop")),
            usage: Some(Usage { prompt_tokens: 10, completion_tokens: 5, total_tokens: 15 }),
            tool_calls: Vec::new(),
        }
    }
}

/// The pieces in which a streaming mock sends `text`: one per word, the word
/// followed by a space, none final.
pub open spec fn word_chunks(chunks: Seq<ChatStreamChunk>, text: Seq<char>) -> bool {
    &&& chunks.len() == whitespace_words(text).len()
    &&& forall|i: int|
        0 <= i < chunks.len() ==> (#[trigger] chunks[i]).delta@ == whitespace_words(text)[i] + " "@
            && chunks[i].finish_reason is None
}

/// The text that a sequence of chunks spells out.
pub open spec fn spelled(chunks: Seq<ChatStreamChunk>) -> Seq<char>
    decreases chunks.len(),
{
    if chunks.len() == 0 {
        Seq::empty()
    } else {
        spelled(chunks.drop_last()) + chunks.last().delta@
    }
}

/// Words joined by single spaces.
pub open spec fn joined_by_spaces(words: Seq<Seq<char>>) -> Seq<char>
    decreases words.len(),
{
    if words.len() == 0 {
        Seq::empty()
    } else if words.len() == 1 {
        words[0]
    } else {
        joined_by_spaces(words.drop_last()) + " "@ + words.last()
    }
}

proof fn lemma_spelled_words(chunks: Seq<ChatStreamChunk>, words: Seq<Seq<char>>)
    requires
        chunks.len() == words.len(),
        words.len() > 0,
        forall|i: int| 0 <= i < chunks.len() ==> (#[trigger] chunks[i]).delta@ == words[i] + " "@,
    ensures
        spelled(chunks) == joined_by_spaces(words) + " "@,
    decreases chunks.len(),
{
    if chunks.len() == 1 {
        assert(chunks.drop_last().len() == 0);
        assert(spelled(chunks.drop_last()) == Seq::<char>::empty());
        assert(chunks.last() == chunks[0]);
        assert(spelled(chunks) =~= chunks[0].delta@);
        assert(joined_by_spaces(words) == words[0]);
    } else {
        let shorter = chunks.drop_last();
        lemma_spelled_words(shorter, words.drop_last());
        assert(spelled(chunks) =~= joined_by_spaces(words) + " "@);
    }
}

/// A streamed answer spells out the words of the text, each followed by one space:
/// with the last space trimmed, the words joined by single spaces.
pub proof fn lemma_stream_spells_words(chunks: Seq<ChatStreamChunk>, text: Seq<char>)
    requires
        word_chunks(chunks, text),
    ensures
        whitespace_words(text).len() == 0 ==> spelled(chunks) == Seq::<char>::empty(),
        whitespace_words(text).len() > 0 ==> spelled(chunks) == joined_by_spaces(
            whitespace_words(text),
        ) + " "@,
{
    if whitespace_words(text).len() > 0 {
        lemma_spelled_words(chunks, whitespace_words(text));
    }
}

/// A provider that answers with a fixed text, whole or word by word.
pub struct MockStreamProvider {
    response: String,
}

impl MockStreamProvider {
    /// The text that the mock answers with.
    pub closed spec fn reply(&self) -> Seq<char> {
        self.response@
    }

    pub fn new(response: &str) -> (provider: Self)
        ensures
            provider.reply() == response@,
    {
        MockStreamProvider { response: response.to_string() }
    }

    /// The whole answer to any request: the fixed text, finished with `stop`,
    /// without usage.
    pub fn respond(&self, request: &ChatRequest) -> (response: ChatResponse)
        ensures
            mock_reply(response, self.reply()),
            response.usage is None,
    {
        ChatResponse {
            message: ChatMessage::assistant(self.response.as_str()),
            finish_reason: Some(String::from_str("stop")),
            usage: None,
            tool_calls: Vec::new(),
        }
    }

    /// The answer to any request as a stream: each word of the text followed by a
    /// space.
    pub fn stream_chunks(&self, request: &ChatRequest) -> (chunks: Vec<ChatStreamChunk>)
        ensures
            word_chunks(chunks@, self.reply()),
    {
        let words = split_words(self.response.as_str());
        let ghost text = self.response@;
        let mut chunks: Vec<ChatStreamChunk> = Vec::new();
        let mut i: usize = 0;
        while i < words.len()
            invariant
                i <= words@.len(),
                words@.map_values(|w: String| w@) == whitespace_words(text),
                chunks@.len() == i,
                forall|j: int|
                    0 <= j < i ==> (#[trigger] chunks@[j]).delta@ == whitespace_words(text)[j] + " "@
                        && chunks@[j].finish_reason is None,
            decreases words@.len() - i,
        {
            let mut delta = words[i].clone();
            delta.append(" ");
            assert(words@.map_values(|w: String| w@)[i as int] == words@[i as int]@);
            chunks.push(ChatStreamChunk { delta, finish_reason: None });
            i = i + 1;
        }
        chunks
    }
}

} // verus!
