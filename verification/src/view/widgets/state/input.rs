//! The state of a one-line text input: the text, and where in it the cursor
//! stands, counted in bytes.

use vstd::prelude::*;
use vstd::string::*;
use vstd::utf8::*;

verus! {

/// `String::insert_str` of std puts a string slice into the string at a
/// byte position. The position has to lie within the string and on the
/// boundary of a character.
pub assume_specification[ String::insert_str ](s: &mut String, idx: usize, string: &str)
    requires
        idx <= encode_utf8(old(s)@).len(),
        is_char_boundary(encode_utf8(old(s)@), idx as int),
    ensures
        encode_utf8(final(s)@) == encode_utf8(old(s)@).subrange(0, idx as int) + encode_utf8(
            string@,
        ) + encode_utf8(old(s)@).subrange(idx as int, encode_utf8(old(s)@).len() as int),
;

/// `String::remove` of std takes the character that starts at a byte
/// position out of the string and returns it. The position has to lie
/// before the end of the string and on the boundary of a character.
pub assume_specification[ String::remove ](s: &mut String, idx: usize) -> (ch: char)
    requires
        idx < encode_utf8(old(s)@).len(),
        is_char_boundary(encode_utf8(old(s)@), idx as int),
    ensures
        encode_utf8(final(s)@) == without_char_at(encode_utf8(old(s)@), idx as int),
        ch as u32 == decode_first_scalar(
            encode_utf8(old(s)@).subrange(idx as int, encode_utf8(old(s)@).len() as int),
        ),
;

/// The bytes of a text without the character that starts at byte `at`.
pub open spec fn without_char_at(bytes: Seq<u8>, at: int) -> Seq<u8> {
    let tail = bytes.subrange(at, bytes.len() as int);
    bytes.subrange(0, at) + tail.subrange(length_of_first_scalar(tail), tail.len() as int)
}

/// The bytes of a text with the bytes of another put in at byte `at`.
pub open spec fn with_bytes_at(bytes: Seq<u8>, at: int, added: Seq<u8>) -> Seq<u8> {
    bytes.subrange(0, at) + added + bytes.subrange(at, bytes.len() as int)
}

/// The text after the text `added` was put in at byte `at`.
pub open spec fn text_with(content: Seq<char>, at: int, added: Seq<char>) -> Seq<char> {
    decode_utf8(with_bytes_at(encode_utf8(content), at, encode_utf8(added)))
}

/// The text after the character that starts at byte `at` was taken out.
pub open spec fn text_without(content: Seq<char>, at: int) -> Seq<char> {
    decode_utf8(without_char_at(encode_utf8(content), at))
}

/// Whether byte `at` lies within the text and on the boundary of a character.
pub open spec fn on_boundary(content: Seq<char>, at: int) -> bool {
    0 <= at <= encode_utf8(content).len() && is_char_boundary(encode_utf8(content), at)
}

/// Whether a character of the text starts one byte in front of byte `at`.
pub open spec fn starts_char_before(content: Seq<char>, at: int) -> bool {
    &&& 0 < at <= encode_utf8(content).len()
    &&& is_char_boundary(encode_utf8(content), at - 1)
}

/// A text and the byte position of the cursor in it.
#[derive(Debug)]
pub struct InputState {
    text: String,
    index: usize,
}

impl Default for InputState {
    fn default() -> (state: InputState)
        ensures
            state.content() == Seq::<char>::empty(),
            state.cursor() == 0,
    {
        InputState { text: String::new(), index: 0 }
    }
}

impl InputState {
    /// The text.
    pub closed spec fn content(&self) -> Seq<char> {
        self.text@
    }

    /// The text as bytes.
    pub open spec fn bytes(&self) -> Seq<u8> {
        encode_utf8(self.content())
    }

    /// The byte position of the cursor.
    pub closed spec fn cursor(&self) -> usize {
        self.index
    }

    /// The cursor stands within the text, on the boundary of a character.
    pub open spec fn cursor_on_boundary(&self) -> bool {
        on_boundary(self.content(), self.cursor() as int)
    }

    /// The state with the given text and cursor.
    pub fn new(text: String, index: usize) -> (state: InputState)
        ensures
            state.content() == text@,
            state.cursor() == index,
    {
        InputState { text, index }
    }

    /// The text.
    pub fn text(&self) -> (text: &str)
        ensures
            text@ == self.content(),
    {
        self.text.as_str()
    }

    /// The byte position of the cursor.
    pub fn index(&self) -> (index: usize)
        ensures
            index == self.cursor(),
    {
        self.index
    }

    /// The number of bytes of the text.
    pub fn byte_len(&self) -> (len: usize)
        ensures
            len == self.bytes().len(),
    {
        self.text.as_str().as_bytes().len()
    }

    /// Moves the cursor one byte to the right, unless it stands at the end
    /// of the text or behind it.
    pub fn next_index(&mut self)
        ensures
            final(self).content() == old(self).content(),
            final(self).cursor() == if old(self).cursor() < old(self).bytes().len() {
                (old(self).cursor() + 1) as usize
            } else {
                old(self).cursor()
            },
    {
        if self.index < self.byte_len() {
            self.index += 1;
        }
    }

    /// Moves the cursor one byte to the left, unless it stands at the start
    /// of the text.
    pub fn back_index(&mut self)
        ensures
            final(self).content() == old(self).content(),
            final(self).cursor() == if old(self).cursor() > 0 {
                (old(self).cursor() - 1) as usize
            } else {
                0usize
            },
    {
        if self.index > 0 {
            self.index -= 1;
        }
    }

    /// Decides whether the cursor stands within the text and on the boundary
    /// of a character, which is where text can be put in.
    pub fn can_insert(&self) -> (ok: bool)
        ensures
            ok == self.cursor_on_boundary(),
    {
        self.index <= self.byte_len() && self.text.as_str().is_char_boundary(self.index)
    }

    /// Puts `slice` into the text at the cursor. The cursor stays where it
    /// is, in front of what was put in.
    pub fn insert(&mut self, slice: &str)
        requires
            old(self).cursor_on_boundary(),
        ensures
            final(self).bytes() == with_bytes_at(
                old(self).bytes(),
                old(self).cursor() as int,
                encode_utf8(slice@),
            ),
            final(self).content() == text_with(
                old(self).content(),
                old(self).cursor() as int,
                slice@,
            ),
            final(self).cursor() == old(self).cursor(),
    {
        self.text.insert_str(self.index, slice);
        proof {
            encode_utf8_decode_utf8(self.text@);
        }
    }

    /// Puts `slice` into the text at the cursor where the cursor stands on
    /// the boundary of a character, and says whether it did.
    pub fn try_insert(&mut self, slice: &str) -> (done: bool)
        ensures
            done == old(self).cursor_on_boundary(),
            done ==> final(self).content() == text_with(
                old(self).content(),
                old(self).cursor() as int,
                slice@,
            ),
            !done ==> final(self).content() == old(self).content(),
            final(self).cursor() == old(self).cursor(),
    {
        if self.can_insert() {
            self.insert(slice);
            true
        } else {
            false
        }
    }

    /// The byte in front of the cursor starts a character of the text.
    pub open spec fn char_before_cursor(&self) -> bool {
        starts_char_before(self.content(), self.cursor() as int)
    }

    /// Decides whether the byte in front of the cursor starts a character.
    pub fn can_remove(&self) -> (ok: bool)
        ensures
            ok == self.char_before_cursor(),
    {
        self.index > 0 && self.index <= self.byte_len() && self.text.as_str().is_char_boundary(
            self.index - 1,
        )
    }

    /// Takes the character that starts one byte in front of the cursor out
    /// of the text. With the cursor at the start nothing changes. The cursor
    /// stays where it is.
    pub fn remove_ch(&mut self)
        requires
            old(self).cursor() > 0 ==> old(self).char_before_cursor(),
        ensures
            final(self).cursor() == old(self).cursor(),
            old(self).cursor() == 0 ==> final(self).content() == old(self).content(),
            old(self).cursor() > 0 ==> final(self).bytes() == without_char_at(
                old(self).bytes(),
                old(self).cursor() - 1,
            ),
            old(self).cursor() > 0 ==> final(self).content() == text_without(
                old(self).content(),
                old(self).cursor() - 1,
            ),
    {
        if self.index > 0 {
            self.text.remove(self.index - 1);
            proof {
                encode_utf8_decode_utf8(self.text@);
            }
        }
    }

    /// Takes the character in front of the cursor out of the text where a
    /// character starts one byte in front of it, and says whether it did.
    pub fn try_remove_ch(&mut self) -> (done: bool)
        ensures
            done == old(self).char_before_cursor(),
            done ==> final(self).content() == text_without(
                old(self).content(),
                old(self).cursor() - 1,
            ),
            !done ==> final(self).content() == old(self).content(),
            final(self).cursor() == old(self).cursor(),
    {
        if self.can_remove() {
            self.remove_ch();
            true
        } else {
            false
        }
    }
}

} // verus!
