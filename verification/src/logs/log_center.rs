//! The last line written to the log.
use vstd::prelude::*;

verus! {

/// Keeps the last line written, until it is taken.
pub struct FileHandler {
    pub last_message: Option<String>,
}

impl Default for FileHandler {
    fn default() -> (h: Self)
        ensures
            h.last_message is None,
    {
        Self::new()
    }
}

impl FileHandler {
    pub fn new() -> (h: FileHandler)
        ensures
            h.last_message is None,
    {
        FileHandler { last_message: None }
    }

    /// Keeps `line` as the last line written.
    pub fn _write_line(&mut self, line: String)
        ensures
            final(self).last_message == Some(line),
    {
        self.last_message = Some(line);
    }

    /// Takes the last line written, if any.
    pub fn get(&mut self) -> (r: Option<String>)
        ensures
            r == old(self).last_message,
            final(self).last_message is None,
    {
        self.last_message.take()
    }
}

} // verus!
