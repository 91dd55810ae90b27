use vstd::prelude::*;

verus! {

/// Width of one character when encoded as UTF-8.
pub open spec fn char_utf8_len(c: char) -> nat {
    if (c as nat) < 0x80 {
        1
    } else if (c as nat) < 0x800 {
        2
    } else if (c as nat) < 0x10000 {
        3
    } else {
        4
    }
}

/// Total width of a string of characters when encoded as UTF-8.
pub open spec fn utf8_len(s: Seq<char>) -> nat
    decreases s.len(),
{
    if s.len() == 0 {
        0
    } else {
        utf8_len(s.drop_last()) + char_utf8_len(s.last())
    }
}

#[verifier::external_type_specification]
#[verifier::external_body]
pub struct ExHeaplessString<const N: usize>(heapless::String<N>);

/// The characters stored in a fixed-capacity heapless string.
pub uninterp spec fn hstring_chars(s: heapless::String<32>) -> Seq<char>;

/// Relies on heapless::String::new: a freshly made string is empty.
#[verifier::external_body]
fn hstring_new() -> (r: heapless::String<32>)
    ensures
        hstring_chars(r) == Seq::<char>::empty(),
{
    heapless::String::new()
}

/// Relies on heapless::String::push: the character is appended when its
/// UTF-8 encoding fits the remaining byte capacity, and otherwise the
/// contents are left unchanged and an error comes back.
#[verifier::external_body]
fn hstring_push(s: &mut heapless::String<32>, c: char) -> (r: Result<(), ()>)
    ensures
        utf8_len(hstring_chars(*old(s))) + char_utf8_len(c) <= 32 ==> r is Ok
            && hstring_chars(*final(s)) == hstring_chars(*old(s)).push(c),
        utf8_len(hstring_chars(*old(s))) + char_utf8_len(c) > 32 ==> r is Err
            && hstring_chars(*final(s)) == hstring_chars(*old(s)),
{
    s.push(c)
}

/// Relies on heapless::String::as_str: a view of the stored characters.
#[verifier::external_body]
fn hstring_as_str(s: &heapless::String<32>) -> (r: &str)
    ensures
        r@ == hstring_chars(*s),
{
    s.as_str()
}

/// Relies on heapless::String::clear: all characters are removed.
#[verifier::external_body]
fn hstring_clear(s: &mut heapless::String<32>)
    ensures
        hstring_chars(*final(s)) == Seq::<char>::empty(),
{
    s.clear()
}

/// What one more byte did to the line being read.
#[derive(Clone, Copy, Debug, PartialEq, Eq, Structural)]
pub enum FeedResult {
    /// The line is not finished yet; feed the next byte.
    Pending,
    /// A newline arrived: a whole line is ready in [`LineReader::line`].
    Line,
    /// The line ran past the buffer capacity: its content so far is
    /// dropped, and the rest of it will be swallowed silently.
    Overflow,
}

/// Accumulates bytes into a bounded line buffer of 32 bytes.
///
/// Bytes are fed in one at a time; a newline completes the line (and is
/// not stored). A line that would run past the capacity is discarded
/// whole: the reader reports [`FeedResult::Overflow`] once, then
/// swallows everything up to and including the next newline.
pub struct LineReader {
    buf: heapless::String<32>,
    skipping: bool,
}

impl LineReader {
    /// The characters accumulated so far.
    pub closed spec fn chars(self) -> Seq<char> {
        hstring_chars(self.buf)
    }

    /// Whether the reader is swallowing the tail of an overlong line.
    pub closed spec fn is_skipping(self) -> bool {
        self.skipping
    }

    /// A reader with an empty buffer, ready for a fresh line.
    pub fn new() -> (r: Self)
        ensures
            r.chars() == Seq::<char>::empty(),
            !r.is_skipping(),
    {
        LineReader { buf: hstring_new(), skipping: false }
    }

    /// The line accumulated so far.
    pub fn line(&self) -> (r: &str)
        ensures
            r@ == self.chars(),
    {
        hstring_as_str(&self.buf)
    }

    /// Drop whatever is in the buffer and wait for a fresh line.
    pub fn reset(&mut self)
        ensures
            final(self).chars() == Seq::<char>::empty(),
            !final(self).is_skipping(),
    {
        hstring_clear(&mut self.buf);
        self.skipping = false;
    }

    /// Feed one byte from the wire.
    ///
    /// A newline completes the line without being stored; any other byte
    /// is appended as a character if it fits the remaining capacity.
    /// When it does not fit, the partial line is dropped and the reader
    /// swallows bytes, reporting nothing further, until the newline that
    /// ends the overlong line.
    pub fn push_byte(&mut self, b: u8) -> (r: FeedResult)
        ensures
            old(self).is_skipping() && b == 10 ==> r == FeedResult::Pending
                && final(self).chars() == Seq::<char>::empty() && !final(self).is_skipping(),
            old(self).is_skipping() && b != 10 ==> r == FeedResult::Pending
                && *final(self) == *old(self),
            !old(self).is_skipping() && b == 10 ==> r == FeedResult::Line
                && *final(self) == *old(self),
            !old(self).is_skipping() && b != 10
                && utf8_len(old(self).chars()) + char_utf8_len(b as char) <= 32 ==> r
                == FeedResult::Pending && final(self).chars() == old(self).chars().push(b as char)
                && !final(self).is_skipping(),
            !old(self).is_skipping() && b != 10
                && utf8_len(old(self).chars()) + char_utf8_len(b as char) > 32 ==> r
                == FeedResult::Overflow && final(self).chars() == Seq::<char>::empty()
                && final(self).is_skipping(),
    {
        if self.skipping {
            if b == 10 {
                hstring_clear(&mut self.buf);
                self.skipping = false;
            }
            FeedResult::Pending
        } else if b == 10 {
            FeedResult::Line
        } else {
            match hstring_push(&mut self.buf, b as char) {
                Ok(_) => FeedResult::Pending,
                Err(_) => {
                    hstring_clear(&mut self.buf);
                    self.skipping = true;
                    FeedResult::Overflow
                }
            }
        }
    }
}

} // verus!
