//! The open configuration: the access-mode flags a file is opened with.
//!
//! The flags are held as plain booleans so that the rest of the crate can
//! state exactly which bytes stand for a configuration on the wire and what
//! reopening with it does to the target file. A build of this record is the
//! portable counterpart of an opaque, platform-specific options value; the
//! unverified shell converts it to the operating system's own options type
//! at the moment a file is actually opened.

use vstd::prelude::*;

verus! {

/// The access-mode flags used to open a file.
///
/// Each flag mirrors the usual open semantics: `read` and `write` grant
/// access, `append` moves every write to the end, `truncate` empties an
/// existing file on open, `create` makes the file when it is missing, and
/// `create_new` insists on making it — failing when it already exists.
#[derive(Clone, Copy, Debug, PartialEq, Eq, Structural)]
pub struct OpenConfig {
    pub read: bool,
    pub write: bool,
    pub append: bool,
    pub truncate: bool,
    pub create: bool,
    pub create_new: bool,
}

impl OpenConfig {
    /// Whether reopening with this configuration erases the content an
    /// existing file had before the open.
    pub open spec fn is_destructive(self) -> bool {
        self.truncate
    }

    /// A configuration with every flag cleared.
    pub fn new() -> (r: OpenConfig)
        ensures
            r == (OpenConfig {
                read: false,
                write: false,
                append: false,
                truncate: false,
                create: false,
                create_new: false,
            }),
    {
        OpenConfig {
            read: false,
            write: false,
            append: false,
            truncate: false,
            create: false,
            create_new: false,
        }
    }

    /// The same configuration with the `read` flag set as given.
    pub fn read(self, read: bool) -> (r: OpenConfig)
        ensures
            r == (OpenConfig { read, ..self }),
    {
        OpenConfig { read, ..self }
    }

    /// The same configuration with the `write` flag set as given.
    pub fn write(self, write: bool) -> (r: OpenConfig)
        ensures
            r == (OpenConfig { write, ..self }),
    {
        OpenConfig { write, ..self }
    }

    /// The same configuration with the `append` flag set as given.
    pub fn append(self, append: bool) -> (r: OpenConfig)
        ensures
            r == (OpenConfig { append, ..self }),
    {
        OpenConfig { append, ..self }
    }

    /// The same configuration with the `truncate` flag set as given.
    pub fn truncate(self, truncate: bool) -> (r: OpenConfig)
        ensures
            r == (OpenConfig { truncate, ..self }),
    {
        OpenConfig { truncate, ..self }
    }

    /// The same configuration with the `create` flag set as given.
    pub fn create(self, create: bool) -> (r: OpenConfig)
        ensures
            r == (OpenConfig { create, ..self }),
    {
        OpenConfig { create, ..self }
    }

    /// The same configuration with the `create_new` flag set as given.
    pub fn create_new(self, create_new: bool) -> (r: OpenConfig)
        ensures
            r == (OpenConfig { create_new, ..self }),
    {
        OpenConfig { create_new, ..self }
    }
}

} // verus!
