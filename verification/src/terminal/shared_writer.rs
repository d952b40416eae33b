//! The one writer that everything on the display writes through.

use vstd::prelude::*;

verus! {

/// Why the writer could not be used.
#[derive(Clone, Copy, Debug, PartialEq, Eq, Structural)]
pub enum SharedWriterErr {
    FailedToLock,
}

/// The text shown for a writer error.
pub open spec fn writer_error_label(error: SharedWriterErr) -> Seq<char> {
    match error {
        SharedWriterErr::FailedToLock => "failed to lock writer"@,
    }
}

impl SharedWriterErr {
    /// The human-readable form of the error.
    pub fn label(&self) -> (text: &'static str)
        ensures
            text@ == writer_error_label(*self),
    {
        match self {
            SharedWriterErr::FailedToLock => "failed to lock writer",
        }
    }
}

/// A writer that gathers, in order, every byte written to it, until its
/// owner takes them to the screen.
pub struct SharedWriter {
    writer: Vec<u8>,
}

impl View for SharedWriter {
    type V = Seq<u8>;

    /// The bytes gathered so far.
    closed spec fn view(&self) -> Seq<u8> {
        self.writer@
    }
}

impl SharedWriter {
    /// A writer that starts out with the bytes already in `writer`.
    pub fn init(writer: Vec<u8>) -> (shared: Self)
        ensures
            shared@ == writer@,
    {
        SharedWriter { writer }
    }

    /// Appends `buf`. Gathering in memory cannot fail.
    pub fn write(&mut self, buf: &[u8]) -> (done: Result<(), SharedWriterErr>)
        ensures
            done is Ok,
            final(self)@ == old(self)@ + buf@,
    {
        let mut at: usize = 0;
        while at < buf.len()
            invariant
                at <= buf@.len(),
                self@ == old(self)@ + buf@.subrange(0, at as int),
            decreases buf@.len() - at,
        {
            self.writer.push(buf[at]);
            at = at + 1;
            assert(self@ =~= old(self)@ + buf@.subrange(0, at as int));
        }
        assert(buf@.subrange(0, at as int) =~= buf@);
        Ok(())
    }

    /// Appends the decimal digits of `number`.
    pub fn write_number(&mut self, number: u64) -> (done: Result<(), SharedWriterErr>)
        ensures
            done is Ok,
            final(self)@ == old(self)@ + crate::terminal::decimal::decimal(number as nat),
    {
        crate::terminal::decimal::push_decimal(&mut self.writer, number);
        Ok(())
    }

    /// Nothing is held back from the gathered bytes, so there is nothing to
    /// push out: the writer stays as it is.
    pub fn flush(&mut self) -> (done: Result<(), SharedWriterErr>)
        ensures
            done is Ok,
            *final(self) == *old(self),
    {
        Ok(())
    }

    /// The bytes gathered so far.
    pub fn written(&self) -> (bytes: &Vec<u8>)
        ensures
            bytes@ == self@,
    {
        &self.writer
    }

    /// Hands out the bytes gathered so far and starts anew.
    pub fn take(&mut self) -> (bytes: Vec<u8>)
        ensures
            bytes@ == old(self)@,
            final(self)@ == Seq::<u8>::empty(),
    {
        let mut bytes: Vec<u8> = Vec::new();
        core::mem::swap(&mut bytes, &mut self.writer);
        bytes
    }
}

} // verus!
