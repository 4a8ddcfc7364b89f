use crate::config::MAX_TEXT_LEN;
use vstd::prelude::*;

verus! {

/// The most recently committed text. Overwritten whenever a new entry is
/// accepted; read by the layout path and by the status display.
pub struct EnteredText {
    pub text: String,
}

/// A "text committed" message carrying the final string of one entry.
pub struct NewTextEntry(pub String);

/// A bounded, single-slot inbox for "text committed" messages. Posting
/// overwrites any message still waiting; the pipeline consumes the slot
/// exactly once per tick, which keeps text replacement deterministic.
pub struct TextInbox {
    pub slot: Option<NewTextEntry>,
}

impl TextInbox {
    /// An empty inbox.
    pub fn new() -> (r: TextInbox)
        ensures
            r.slot is None,
    {
        TextInbox { slot: None }
    }

    /// Posts a message; a message still waiting is superseded.
    pub fn post(&mut self, entry: NewTextEntry)
        ensures
            final(self).slot == Some(entry),
    {
        self.slot = Some(entry);
    }

    /// Takes the waiting message, if any, leaving the inbox empty.
    pub fn take(&mut self) -> (r: Option<NewTextEntry>)
        ensures
            r == old(self).slot,
            final(self).slot is None,
    {
        let mut out: Option<NewTextEntry> = None;
        core::mem::swap(&mut self.slot, &mut out);
        out
    }
}

/// Relies on String::push: appends the given character to the end of the
/// string.
#[verifier::external_body]
fn string_push(s: &mut String, c: char)
    ensures
        final(s)@ == old(s)@.push(c),
{
    s.push(c);
}

/// Relies on String::pop: removes and returns the last character, or
/// returns None and leaves the string unchanged when it is empty.
#[verifier::external_body]
fn string_pop(s: &mut String) -> (r: Option<char>)
    ensures
        old(s)@.len() == 0 ==> r is None && final(s)@ == old(s)@,
        old(s)@.len() > 0 ==> r == Some(old(s)@.last()) && final(s)@ == old(s)@.drop_last(),
{
    s.pop()
}

/// The line being typed. Characters arrive one at a time from the input
/// collaborator; an end-of-line key commits the line as one entry.
pub struct EditBuffer {
    pub text: String,
}

impl EditBuffer {
    /// An empty line.
    pub fn new() -> (r: EditBuffer)
        ensures
            r.text@ == Seq::<char>::empty(),
    {
        EditBuffer { text: String::new() }
    }

    /// Appends one typed character to the line. Carriage returns are never
    /// buffered: the end-of-line key is handled by [`EditBuffer::commit`].
    pub fn push_char(&mut self, c: char)
        requires
            old(self).text@.len() < MAX_TEXT_LEN,
        ensures
            c == '\r' ==> final(self).text@ == old(self).text@,
            c != '\r' ==> final(self).text@ == old(self).text@.push(c),
    {
        if c != '\r' {
            string_push(&mut self.text, c);
        }
    }

    /// Removes the last character of the line, if there is one.
    pub fn backspace(&mut self)
        ensures
            old(self).text@.len() == 0 ==> final(self).text@ == old(self).text@,
            old(self).text@.len() > 0 ==> final(self).text@ == old(self).text@.drop_last(),
    {
        let _ = string_pop(&mut self.text);
    }

    /// Commits the line: a non-empty line is handed out as a message and
    /// the line is cleared; an empty line is ignored. The line is empty
    /// afterwards either way.
    pub fn commit(&mut self) -> (r: Option<NewTextEntry>)
        ensures
            old(self).text@.len() == 0 ==> r is None,
            old(self).text@.len() > 0 ==> (r matches Some(e) && e.0@ == old(self).text@),
            final(self).text@.len() == 0,
    {
        if self.text.as_str().is_empty() {
            None
        } else {
            let t = self.text.clone();
            self.text = String::new();
            Some(NewTextEntry(t))
        }
    }
}

} // verus!
