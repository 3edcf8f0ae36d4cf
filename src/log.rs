use vstd::prelude::*;
use vstd::string::*;

verus! {

/// An append-only text log. Each entry is one line: a level tag, then the
/// message.
#[derive(Debug)]
pub struct IslandLogger {
    log: String,
}

impl IslandLogger {
    /// The text logged so far.
    pub closed spec fn text(&self) -> Seq<char> {
        self.log@
    }

    /// Construct an empty logger.
    pub fn new() -> (r: Self)
        ensures
            r.text() == Seq::<char>::empty(),
    {
        IslandLogger { log: String::new() }
    }

    /// A copy of the log.
    pub fn log(&self) -> (r: String)
        ensures
            r@ == self.text(),
    {
        self.log.clone()
    }

    /// Append one line made of `tag` and `line`.
    fn push_line(&mut self, tag: &str, line: &str)
        ensures
            final(self).text() == old(self).text() + tag@ + line@ + "\n"@,
    {
        self.log.append(tag);
        self.log.append(line);
        self.log.append("\n");
    }

    /// Log an info entry.
    pub fn info(&mut self, line: &str)
        ensures
            final(self).text() == old(self).text() + "[INFO]: "@ + line@ + "\n"@,
    {
        self.push_line("[INFO]: ", line);
    }

    /// Log a warning entry.
    pub fn warn(&mut self, line: &str)
        ensures
            final(self).text() == old(self).text() + "[WARNING]: "@ + line@ + "\n"@,
    {
        self.push_line("[WARNING]: ", line);
    }

    /// Log an error entry.
    pub fn error(&mut self, line: &str)
        ensures
            final(self).text() == old(self).text() + "[ERROR]: "@ + line@ + "\n"@,
    {
        self.push_line("[ERROR]: ", line);
    }

    /// Append everything another logger holds, in order.
    pub fn absorb(&mut self, other: &IslandLogger)
        ensures
            final(self).text() == old(self).text() + other.text(),
    {
        self.log.append(other.log.as_str());
    }
}

} // verus!
