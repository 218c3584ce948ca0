//! The editor: a list of buffers, one of which takes the input.

use vstd::prelude::*;
use crate::buffer::Buffer;

verus! {

/// The state of an editor as mathematics: the text of each buffer and the
/// index of the buffer that takes the input.
pub struct EditorModel {
    pub buffers: Seq<Seq<char>>,
    pub active_buffer: int,
}

impl EditorModel {
    /// What holds of every editor: the active buffer is one of its buffers.
    pub open spec fn valid(self) -> bool {
        0 <= self.active_buffer < self.buffers.len()
    }

    /// The text of the active buffer.
    pub open spec fn active_text(self) -> Seq<char> {
        self.buffers[self.active_buffer]
    }

    /// The editor after `input` was typed: the character goes to the end of
    /// the active buffer and nothing else changes.
    pub open spec fn handle_char_input(self, input: char) -> EditorModel {
        EditorModel {
            buffers: self.buffers.update(self.active_buffer, self.active_text().push(input)),
            active_buffer: self.active_buffer,
        }
    }
}

/// An editor: its buffers and the index of the active one.
pub struct Editor {
    buffers: Vec<Buffer>,
    active_buffer: usize,
}

impl View for Editor {
    type V = EditorModel;

    closed spec fn view(&self) -> EditorModel {
        EditorModel {
            buffers: Seq::new(self.buffers@.len(), |i: int| self.buffers@[i]@),
            active_buffer: self.active_buffer as int,
        }
    }
}

impl Editor {
    #[verifier::type_invariant]
    spec fn well_formed(self) -> bool {
        self.active_buffer < self.buffers@.len()
    }

    /// An editor with one empty buffer, which is active.
    pub fn new() -> (editor: Editor)
        ensures
            editor@.buffers == seq![Seq::<char>::empty()],
            editor@.active_buffer == 0,
            editor@.valid(),
    {
        let mut buffers: Vec<Buffer> = Vec::new();
        buffers.push(Buffer::new());
        let editor = Editor { buffers, active_buffer: 0 };
        assert(editor@.buffers =~= seq![Seq::<char>::empty()]);
        editor
    }

    /// Takes a typed character: it goes to the active buffer.
    pub fn handle_char_input(&mut self, input: char)
        ensures
            final(self)@ == old(self)@.handle_char_input(input),
            final(self)@.valid(),
    {
        proof {
            use_type_invariant(&*self);
        }
        self.buffers[self.active_buffer].handle_char_input(input);
        assert(self@.buffers =~= old(self)@.handle_char_input(input).buffers);
    }

    /// The characters of the active buffer.
    pub fn active_text(&self) -> (text: &Vec<char>)
        ensures
            text@ == self@.active_text(),
            self@.valid(),
    {
        proof {
            use_type_invariant(self);
        }
        self.buffers[self.active_buffer].text()
    }
}

} // verus!
