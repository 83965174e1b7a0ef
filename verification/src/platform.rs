//! What the platform reports: keys as the terminal adapter decodes them,
//! resizes, and the life of the processes it runs.

use vstd::prelude::*;

verus! {

/// One decoded key press.
#[derive(Debug, Clone, Copy, PartialEq, Eq, Structural)]
pub enum Key {
    Null,
    Backspace,
    Enter,
    Left,
    Right,
    Up,
    Down,
    Home,
    End,
    PageUp,
    PageDown,
    Tab,
    Delete,
    F(u8),
    Char(char),
    Ctrl(char),
    Alt(char),
    Esc,
}

impl Key {
    /// The key that confirms an input: `Enter`.
    pub open spec fn spec_is_submit(self) -> bool {
        self == Key::Enter
    }

    /// The key that abandons an input: `Esc`.
    pub open spec fn spec_is_cancel(self) -> bool {
        self == Key::Esc
    }

    /// The key that ends the program when no screen is absorbing text: `Esc`.
    pub open spec fn spec_is_exit(self) -> bool {
        self == Key::Esc
    }

    /// Whether the key confirms an input.
    #[verifier::when_used_as_spec(spec_is_submit)]
    pub fn is_submit(self) -> (r: bool)
        ensures
            r == self.spec_is_submit(),
    {
        matches!(self, Key::Enter)
    }

    /// Whether the key abandons an input.
    #[verifier::when_used_as_spec(spec_is_cancel)]
    pub fn is_cancel(self) -> (r: bool)
        ensures
            r == self.spec_is_cancel(),
    {
        matches!(self, Key::Esc)
    }

    /// Whether the key ends the program when no screen takes it as text.
    #[verifier::when_used_as_spec(spec_is_exit)]
    pub fn is_exit(self) -> (r: bool)
        ensures
            r == self.spec_is_exit(),
    {
        matches!(self, Key::Esc)
    }
}

/// The purpose that a process was started for.
#[derive(Debug, Clone, Copy, PartialEq, Eq, Structural)]
pub enum ProcessTag {
    Null,
}

/// The name by which the platform knows a running process.
#[derive(Debug, Clone, Copy, PartialEq, Eq, Structural)]
pub struct ProcessHandle(pub usize);

/// What the platform reports.
#[derive(Debug, Clone, PartialEq, Eq)]
pub enum PlatformEvent {
    Resize(u16, u16),
    Key(Key),
    /// The process asked for under `tag` runs and is known as `handle`.
    ProcessSpawned { tag: ProcessTag, handle: ProcessHandle },
    /// The process wrote `buf`.
    ProcessOutput { tag: ProcessTag, buf: Vec<u8> },
    /// The process has ended.
    ProcessExit { tag: ProcessTag },
}

/// A process as the program follows it: its handle once it runs, and what
/// it has written so far.
#[derive(Debug, Clone, PartialEq, Eq)]
pub struct ProcessTask {
    pub handle: Option<ProcessHandle>,
    pub buf: Vec<u8>,
}

impl ProcessTask {
    /// A task whose process does not run yet and has written nothing.
    pub fn new() -> (r: Self)
        ensures
            r.handle is None,
            r.buf@ == Seq::<u8>::empty(),
    {
        ProcessTask { handle: None, buf: Vec::new() }
    }

    /// Forgets the process and what it has written.
    pub fn dispose(&mut self)
        ensures
            final(self).handle is None,
            final(self).buf@ == Seq::<u8>::empty(),
    {
        self.handle = None;
        self.buf.clear();
    }
}

} // verus!
