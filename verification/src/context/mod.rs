//! Packaging of typed text and screen context for the language model.

pub mod debounce;
pub mod screenshot;

pub use debounce::TypingDebouncer;
pub use screenshot::ScreenCapture;

use vstd::prelude::*;
use crate::privacy::SecureBuffer;
use crate::text::decoded_or_empty;
use crate::privacy::secure_buffer::keep_last;

verus! {

/// The context package sent to the language model.
pub struct ContextPackage {
    pub text: String,
    pub screenshot: Option<Vec<u8>>,
    pub app_name: String,
    pub window_title: String,
}

/// The text a context package is built with from the buffered bytes:
/// nothing when the buffer is empty.
pub open spec fn built_text(buffered: Seq<u8>) -> Option<Seq<char>> {
    if buffered.len() == 0 {
        None
    } else {
        Some(decoded_or_empty(buffered))
    }
}

/// The buffered bytes after building a context: emptied, when there was
/// anything to build from.
pub open spec fn buffer_after_build(buffered: Seq<u8>) -> Seq<u8> {
    if buffered.len() == 0 {
        buffered
    } else {
        Seq::empty()
    }
}

/// Holds the rolling buffer of typed text and builds context packages from it.
pub struct ContextEngine {
    buffer: SecureBuffer,
    suggestion_delay_ms: u64,
}

impl ContextEngine {
    /// The buffered bytes.
    pub closed spec fn buffered(&self) -> Seq<u8> {
        self.buffer.bytes()
    }

    /// The most bytes the buffer keeps.
    pub closed spec fn capacity(&self) -> nat {
        self.buffer.max_bytes()
    }

    /// The configured suggestion delay.
    pub closed spec fn delay(&self) -> u64 {
        self.suggestion_delay_ms
    }

    pub fn new(max_buffer_chars: usize, suggestion_delay_ms: u64) -> (e: Self)
        ensures
            e.buffered() == Seq::<u8>::empty(),
            e.capacity() == max_buffer_chars,
            e.delay() == suggestion_delay_ms,
    {
        ContextEngine { buffer: SecureBuffer::new(max_buffer_chars), suggestion_delay_ms }
    }

    /// Appends typed text to the rolling buffer.
    pub fn append_text(&mut self, text: &str)
        ensures
            final(self).buffered() == keep_last(
                old(self).buffered() + vstd::utf8::encode_utf8(text@),
                old(self).capacity(),
            ),
            final(self).capacity() == old(self).capacity(),
            final(self).delay() == old(self).delay(),
    {
        self.buffer.push_str(text);
    }

    /// Builds a context package from the buffered text, then empties the
    /// buffer. Nothing is built, and no screenshot taken, when the buffer is
    /// empty; otherwise `capture` supplies the screenshot, if any.
    pub fn build_context<F: FnOnce() -> Option<Vec<u8>>>(&mut self, capture: F) -> (r: Option<ContextPackage>)
        requires
            call_requires(capture, ()),
        ensures
            final(self).buffered() == buffer_after_build(old(self).buffered()),
            built_text(old(self).buffered()) is None ==> r is None,
            built_text(old(self).buffered()) is Some ==> {
                &&& r matches Some(p)
                &&& Some(p.text@) == built_text(old(self).buffered())
                &&& call_ensures(capture, (), p.screenshot)
                &&& p.app_name@ == Seq::<char>::empty()
                &&& p.window_title@ == Seq::<char>::empty()
            },
            final(self).capacity() == old(self).capacity(),
            final(self).delay() == old(self).delay(),
    {
        if self.buffer.is_empty() {
            return None;
        }
        let text = self.buffer.as_str().to_owned();
        self.buffer.clear();
        let screenshot = capture();
        Some(ContextPackage { text, screenshot, app_name: String::new(), window_title: String::new() })
    }

    pub fn suggestion_delay_ms(&self) -> (r: u64)
        ensures
            r == self.delay(),
    {
        self.suggestion_delay_ms
    }
}

/// Text typed into an empty engine, when it fits the buffer, is exactly the
/// text of the next context package.
pub proof fn lemma_context_holds_typed_text(text: Seq<char>, capacity: nat)
    requires
        text.len() > 0,
        vstd::utf8::encode_utf8(text).len() <= capacity,
    ensures
        built_text(keep_last(Seq::<u8>::empty() + vstd::utf8::encode_utf8(text), capacity)) == Some(text),
{
    crate::privacy::secure_buffer::lemma_fresh_push_reads_back(text, capacity);
    assert(Seq::<u8>::empty() + vstd::utf8::encode_utf8(text) =~= vstd::utf8::encode_utf8(text));
    vstd::utf8::encode_utf8_decode_utf8(text);
    assert(vstd::utf8::encode_utf8(text).len() > 0);
}

/// Building a context empties the buffer, so building again right away
/// yields nothing.
pub proof fn lemma_second_build_is_empty(buffered: Seq<u8>)
    ensures
        built_text(buffer_after_build(buffered)) is None,
{
}

} // verus!
