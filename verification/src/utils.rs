use vstd::prelude::*;
use vstd::string::StringExecFns;

verus! {

/// Collects the pieces of a message until the host writes it out as one
/// line of its console.
pub struct ConsoleWriter {
    buffer: String,
}

impl View for ConsoleWriter {
    type V = Seq<char>;

    /// The text collected so far.
    closed spec fn view(&self) -> Seq<char> {
        self.buffer@
    }
}

impl ConsoleWriter {
    /// A writer that has collected nothing yet.
    pub fn new() -> (writer: Self)
        ensures
            writer@ == Seq::<char>::empty(),
    {
        ConsoleWriter { buffer: String::new() }
    }

    /// Appends `st` to the collected text.
    pub fn write_str(&mut self, st: &str)
        ensures
            final(self)@ == old(self)@ + st@,
    {
        self.buffer.append(st);
    }

    /// Hands out the collected text, for the host to write to its console,
    /// and starts over with nothing collected.
    pub fn flush_out(&mut self) -> (line: String)
        ensures
            line@ == old(self)@,
            final(self)@ == Seq::<char>::empty(),
    {
        let mut line = String::new();
        core::mem::swap(&mut self.buffer, &mut line);
        line
    }
}

} // verus!
