//! A text buffer: the characters typed into it, in order.

use vstd::prelude::*;

verus! {

/// The text of one buffer. Its view is the sequence of its characters.
pub struct Buffer {
    text: Vec<char>,
}

impl View for Buffer {
    type V = Seq<char>;

    closed spec fn view(&self) -> Seq<char> {
        self.text@
    }
}

impl Buffer {
    /// An empty buffer.
    pub fn new() -> (buffer: Buffer)
        ensures
            buffer@ == Seq::<char>::empty(),
    {
        Buffer { text: Vec::new() }
    }

    /// Takes a typed character: it goes to the end of the text.
    pub fn handle_char_input(&mut self, input: char)
        ensures
            final(self)@ == old(self)@.push(input),
    {
        self.text.push(input);
    }

    /// The characters of the buffer.
    pub fn text(&self) -> (text: &Vec<char>)
        ensures
            text@ == self@,
    {
        &self.text
    }
}

} // verus!
