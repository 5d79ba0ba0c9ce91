//! Framing of the byte streams between the harness and the child: lines for
//! the child's input, records for the tee and the session file.

use vstd::prelude::*;
use vstd::string::StringSliceAdditionalSpecFns;

verus! {

/// The text that bytes decode to when every malformed UTF-8 sequence is
/// replaced by U+FFFD.
pub uninterp spec fn utf8_lossy(bytes: Seq<u8>) -> Seq<char>;

/// `String::from_utf8_lossy` of the standard library, as an owned string:
/// the bytes decoded as UTF-8, with U+FFFD in place of each malformed
/// sequence, which is what [`utf8_lossy`] names.
#[verifier::external_body]
pub(crate) fn decode_lossy(bytes: &[u8]) -> (r: String)
    ensures
        r@ == utf8_lossy(bytes@),
{
    String::from_utf8_lossy(bytes).into_owned()
}

/// What ends a line that is written to the child.
pub open spec fn line_ending(windows: bool) -> Seq<char> {
    if windows {
        "\r\n"@
    } else {
        "\n"@
    }
}

/// A line as it is written to the child's input: with a carriage return and
/// a line feed on a Windows host, with a line feed elsewhere.
pub fn frame_line(line: String, windows: bool) -> (r: String)
    ensures
        r@ == line@ + line_ending(windows),
{
    let mut framed = line;
    if windows {
        framed.append("\r\n");
    } else {
        framed.append("\n");
    }
    framed
}

/// A log line as the tee and the session file hold it: its UTF-8 bytes and
/// a line feed.
pub fn log_record(line: &str) -> (r: Vec<u8>)
    ensures
        r@ == line.spec_bytes().push(10u8),
{
    let mut data = line.as_bytes_vec();
    data.push(10u8);
    data
}

/// Text is fed to a framer that holds the unfinished line `pending`: the
/// lines that this completes, in order and without their line feeds, and
/// the unfinished line afterwards.
pub open spec fn feed(pending: Seq<char>, chunk: Seq<char>) -> (Seq<Seq<char>>, Seq<char>)
    decreases chunk.len(),
{
    if chunk.len() == 0 {
        (Seq::empty(), pending)
    } else {
        let (lines, rest) = feed(pending, chunk.drop_last());
        if chunk.last() == '\n' {
            (lines.push(rest), Seq::empty())
        } else {
            (lines, rest.push(chunk.last()))
        }
    }
}

/// The given lines, each followed by a line feed.
pub open spec fn rejoin(lines: Seq<Seq<char>>) -> Seq<char>
    decreases lines.len(),
{
    if lines.len() == 0 {
        Seq::empty()
    } else {
        rejoin(lines.drop_last()) + lines.last().push('\n')
    }
}

/// Characters of a list of lines.
pub open spec fn line_views(s: Seq<String>) -> Seq<Seq<char>> {
    s.map_values(|l: String| l@)
}

/// Framing does not depend on how the text is cut into chunks: feeding two
/// chunks one after the other completes the same lines, and leaves the same
/// unfinished line, as feeding them as one.
pub proof fn law_framing_ignores_chunking(pending: Seq<char>, a: Seq<char>, b: Seq<char>)
    ensures
        ({
            let (first, middle) = feed(pending, a);
            let (second, rest) = feed(middle, b);
            feed(pending, a + b) == (first + second, rest)
        }),
    decreases b.len(),
{
    let (first, middle) = feed(pending, a);
    if b.len() == 0 {
        assert(a + b =~= a);
        assert(first + Seq::<Seq<char>>::empty() =~= first);
    } else {
        law_framing_ignores_chunking(pending, a, b.drop_last());
        assert((a + b).drop_last() =~= a + b.drop_last());
        assert((a + b).last() == b.last());
        let (second, rest) = feed(middle, b.drop_last());
        assert(first + second.push(rest) =~= (first + second).push(rest));
    }
}

/// Framing loses nothing and adds nothing: the completed lines, each with
/// its line feed, followed by the unfinished line, are the unfinished line
/// from before followed by the chunk. No completed line holds a line feed
/// unless the unfinished line from before held one.
pub proof fn law_framing_preserves_text(pending: Seq<char>, chunk: Seq<char>)
    ensures
        rejoin(feed(pending, chunk).0) + feed(pending, chunk).1 == pending + chunk,
        !pending.contains('\n') ==> !feed(pending, chunk).1.contains('\n') && forall|i: int|
            0 <= i < feed(pending, chunk).0.len() ==> !(#[trigger] feed(pending, chunk).0[i]).contains(
                '\n',
            ),
    decreases chunk.len(),
{
    if chunk.len() == 0 {
        assert(pending + chunk =~= pending);
        assert(rejoin(Seq::empty()) + pending =~= pending);
    } else {
        law_framing_preserves_text(pending, chunk.drop_last());
        let (lines, rest) = feed(pending, chunk.drop_last());
        assert(pending + chunk =~= (pending + chunk.drop_last()).push(chunk.last()));
        if chunk.last() == '\n' {
            assert(lines.push(rest).drop_last() =~= lines);
            assert(rejoin(lines.push(rest)) + Seq::<char>::empty() =~= (rejoin(lines) + rest).push(
                '\n',
            ));
        } else {
            assert(rejoin(lines) + rest.push(chunk.last()) =~= (rejoin(lines) + rest).push(
                chunk.last(),
            ));
            if !pending.contains('\n') {
                let next = rest.push(chunk.last());
                assert forall|i: int| 0 <= i < next.len() implies next[i] != '\n' by {
                    if i < rest.len() {
                        assert(rest.contains(rest[i]));
                    }
                }
            }
        }
    }
}

/// Cuts a stream of text into lines at each line feed.
pub struct LineFramer {
    pending: String,
}

impl View for LineFramer {
    type V = Seq<char>;

    /// The unfinished line.
    closed spec fn view(&self) -> Seq<char> {
        self.pending@
    }
}

impl LineFramer {
    /// A framer that has seen no text.
    pub fn new() -> (r: LineFramer)
        ensures
            r@ == Seq::<char>::empty(),
    {
        LineFramer { pending: String::new() }
    }

    /// Feeds a chunk of text; returns the lines that it completes.
    pub fn push(&mut self, chunk: &str) -> (r: Vec<String>)
        ensures
            (line_views(r@), final(self)@) == feed(old(self)@, chunk@),
    {
        let ghost start = self@;
        let mut lines: Vec<String> = Vec::new();
        assert(line_views(lines@) =~= Seq::empty());
        for c in it: chunk.chars()
            invariant
                it.seq() == chunk@,
                (line_views(lines@), self@) == feed(start, it.seq().take(it.index() as int)),
        {
            proof {
                let seen = it.seq().take(it.index() + 1);
                assert(seen.drop_last() =~= it.seq().take(it.index() as int));
                assert(seen.last() == c);
            }
            if c == '\n' {
                let mut line = String::new();
                std::mem::swap(&mut self.pending, &mut line);
                proof {
                    assert(line_views(lines@.push(line)) =~= line_views(lines@).push(line@));
                }
                lines.push(line);
            } else {
                self.pending.push(c);
            }
        }
        assert(chunk@.take(chunk@.len() as int) =~= chunk@);
        lines
    }

    /// Feeds a chunk of bytes, read as UTF-8 with U+FFFD in place of each
    /// malformed sequence; returns the lines that it completes.
    pub fn push_bytes(&mut self, chunk: &[u8]) -> (r: Vec<String>)
        ensures
            (line_views(r@), final(self)@) == feed(old(self)@, utf8_lossy(chunk@)),
    {
        let text = decode_lossy(chunk);
        self.push(text.as_str())
    }

    /// The unfinished line at the end of the stream, if it holds anything.
    pub fn finish(&mut self) -> (r: Option<String>)
        ensures
            final(self)@ == Seq::<char>::empty(),
            match r {
                Some(line) => line@ == old(self)@ && line@.len() > 0,
                None => old(self)@.len() == 0,
            },
    {
        let mut line = String::new();
        std::mem::swap(&mut self.pending, &mut line);
        if line.as_str().is_empty() {
            None
        } else {
            Some(line)
        }
    }
}

} // verus!
