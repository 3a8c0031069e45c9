use vstd::prelude::*;

verus! {

/// Text buffer of the debug log.
#[derive(Debug, Clone)]
pub struct DebugLog {
    /// Whether the log is active.
    pub active: bool,
    /// Current contents of the log.
    pub contents: String,
    /// Size of the contents in bytes, plus one for the terminating null that
    /// the display adds.
    pub size: usize,
}

/// Relies on `String::push_str`: appends the characters of `tail`.
#[verifier::external_body]
fn push_str(s: &mut String, tail: &str)
    ensures
        final(s)@ == old(s)@ + tail@,
{
    s.push_str(tail);
}

/// Relies on `String::clear`: leaves the string empty.
#[verifier::external_body]
fn clear_string(s: &mut String)
    ensures
        final(s)@ == Seq::<char>::empty(),
{
    s.clear();
}

impl DebugLog {
    /// Whether a line of `bytes` bytes still fits the size counter.
    pub open spec fn fits(self, bytes: usize) -> bool {
        self.size + bytes <= usize::MAX
    }

    /// Creates a new, active and empty debug log.
    pub fn new() -> (r: Self)
        ensures
            r.active,
            r.contents@ == Seq::<char>::empty(),
            r.size == 1,
    {
        DebugLog { active: true, contents: String::new(), size: 1 }
    }

    /// Appends a line to the log if it is active. When the size counter would
    /// overflow, the log is cleared first.
    pub fn log(&mut self, line: &str)
        ensures
            !old(self).active ==> *final(self) == *old(self),
            old(self).active ==> final(self).active,
            old(self).active && old(self).fits(line.len()) ==> (final(self).contents@
                == old(self).contents@ + line@ && final(self).size == old(self).size
                + line.len()),
            old(self).active && !old(self).fits(line.len()) ==> (final(self).contents@
                == line@ && final(self).size == 1),
    {
        if self.active {
            match self.size.checked_add(line.len()) {
                Some(new) => {
                    self.size = new;
                    push_str(&mut self.contents, line);
                },
                None => {
                    self.clear();
                    push_str(&mut self.contents, line);
                    assert(self.contents@ =~= line@);
                },
            }
        }
    }

    /// Clears the debug log.
    pub fn clear(&mut self)
        ensures
            final(self).active == old(self).active,
            final(self).contents@ == Seq::<char>::empty(),
            final(self).size == 1,
    {
        self.size = 1;
        clear_string(&mut self.contents);
    }
}

} // verus!
