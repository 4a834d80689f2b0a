use vstd::prelude::*;

verus! {

/// The characters that separate the words of a command: space, tab, line feed, form
/// feed and carriage return.
pub open spec fn is_ascii_whitespace(c: char) -> bool {
    c == ' ' || c == '\t' || c == '\n' || c == '\u{c}' || c == '\r'
}

/// A line without its line terminator, if it has one.
pub open spec fn strip_line_end(line: Seq<char>) -> Seq<char> {
    if line.len() > 0 && line.last() == '\n' {
        line.drop_last()
    } else {
        line
    }
}

/// The words that `text` holds in full so far, and the word that its end is in (empty
/// where it ends in whitespace).
pub open spec fn scan_words(text: Seq<char>) -> (Seq<Seq<char>>, Seq<char>)
    decreases text.len(),
{
    if text.len() == 0 {
        (seq![], seq![])
    } else {
        let (words, partial) = scan_words(text.drop_last());
        if is_ascii_whitespace(text.last()) {
            if partial.len() > 0 {
                (words.push(partial), seq![])
            } else {
                (words, partial)
            }
        } else {
            (words, partial.push(text.last()))
        }
    }
}

/// The maximal runs of non-whitespace characters in `text`, in order.
pub open spec fn split_words(text: Seq<char>) -> Seq<Seq<char>> {
    let (words, partial) = scan_words(text);
    if partial.len() > 0 {
        words.push(partial)
    } else {
        words
    }
}

fn is_separator(c: char) -> (r: bool)
    ensures
        r == is_ascii_whitespace(c),
{
    c == ' ' || c == '\t' || c == '\n' || c == '\u{c}' || c == '\r'
}

/// The words of a line read from the command channel: a trailing line feed is
/// dropped, and the rest is split on ASCII whitespace. An empty line has no words.
pub fn command_words(line: &str) -> (r: Vec<String>)
    ensures
        r@.len() == split_words(strip_line_end(line@)).len(),
        forall|k: int|
            0 <= k < r@.len() ==> #[trigger] r@[k]@ == split_words(strip_line_end(line@))[k],
{
    let len = line.unicode_len();
    let end: usize = if len > 0 && line.get_char(len - 1) == '\n' {
        len - 1
    } else {
        len
    };
    let ghost text = strip_line_end(line@);
    assert(text =~= line@.subrange(0, end as int));
    let mut words: Vec<String> = Vec::new();
    let mut start: usize = 0;
    let mut i: usize = 0;
    while i < end
        invariant
            i <= end <= len,
            len == line@.len(),
            text == line@.subrange(0, end as int),
            start <= i,
            scan_words(text.take(i as int)).1 == text.subrange(start as int, i as int),
            words@.len() == scan_words(text.take(i as int)).0.len(),
            forall|k: int|
                0 <= k < words@.len() ==> #[trigger] words@[k]@ == scan_words(
                    text.take(i as int),
                ).0[k],
        decreases end - i,
    {
        let ghost before = scan_words(text.take(i as int));
        let c = line.get_char(i);
        assert(text.take(i + 1).drop_last() =~= text.take(i as int));
        assert(text.take(i + 1).last() == c);
        if is_separator(c) {
            if start < i {
                let word = line.substring_char(start, i).to_owned();
                words.push(word);
            }
            start = i + 1;
        }
        i = i + 1;
        assert(scan_words(text.take(i as int)).1 =~= text.subrange(start as int, i as int));
    }
    assert(text.take(end as int) =~= text);
    if start < end {
        let word = line.substring_char(start, end).to_owned();
        words.push(word);
    }
    words
}

/// What woke the wait on the command channel and the protocol socket.
#[derive(Clone, Copy, Debug, PartialEq, Eq, Structural)]
pub enum Wake {
    /// The wait itself failed.
    PollError,
    /// A line can be read from the command channel.
    CommandReadable,
    /// The protocol socket has data, which is left for its own reader.
    SocketReadable,
}

/// Decide what woke the wait, from the count of ready descriptors that it returned and
/// whether the command channel is among them. The command channel goes first.
pub fn wake_source(ready: i32, command_readable: bool) -> (r: Wake)
    ensures
        ready <= 0 ==> r == Wake::PollError,
        ready > 0 && command_readable ==> r == Wake::CommandReadable,
        ready > 0 && !command_readable ==> r == Wake::SocketReadable,
{
    if ready <= 0 {
        Wake::PollError
    } else if command_readable {
        Wake::CommandReadable
    } else {
        Wake::SocketReadable
    }
}

/// The possible input events we get from a command input handler.
#[derive(Debug)]
pub enum InputResult {
    /// The words of a line read from the command channel.
    InputRead(Vec<String>),
    /// The X connection's socket has some data.
    XFdReadable,
    /// Poll returned an error.
    PollError,
}

} // verus!
