//! The message panel under the editor.

use crate::graphemes::texts_of;
use crate::lines::{split_into_lines, split_lines};
use vstd::prelude::*;

verus! {

/// A panel that shows one message.
#[derive(Debug)]
pub struct OutputLog {
    pub msg: String,
}

impl OutputLog {
    /// The lines of the message, from top to bottom: one line at least.
    pub fn text(&self) -> (lines: Vec<String>)
        ensures
            texts_of(lines@) == split_lines(self.msg@),
    {
        split_into_lines(self.msg.as_str())
    }
}

} // verus!
