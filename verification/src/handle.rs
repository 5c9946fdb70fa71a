//! The serializable file-handle recipe and the rehydration semantics.
//!
//! A live handle is never serialized: the wire carries only the recipe that
//! produced it — the open configuration and the canonicalized path. The
//! unverified shell owns the live handle, hands the recipe in when one is
//! built, and reopens the file from a decoded recipe. This module states
//! what decoding yields, how a failed reopen is reported, and what content
//! the fresh handle observes — including the documented destructive case: a
//! configuration that requests truncation empties the file again on every
//! rehydration.

use vstd::prelude::*;

use crate::codec::DecodeError;
use crate::codec::decode_payload;
use crate::codec::encode_payload;
use crate::codec::lemma_payload_round_trip;
use crate::codec::payload_of;
use crate::codec::push_all;
use crate::codec::spec_decode_payload;
use crate::config::OpenConfig;

verus! {

/// The serializable recipe for an open file: the configuration the file was
/// opened with and the canonicalized path it lives at. The path is fixed at
/// construction; the shell canonicalizes before handing it in, so that a
/// payload decoded under another working directory still names the same
/// file.
#[derive(Debug)]
pub struct SerdeFile {
    options: OpenConfig,
    path: Vec<u8>,
}

/// The message attached when reopening fails during rehydration: the path
/// verbatim, a separator, then the underlying cause.
pub open spec fn rehydration_message(path: Seq<u8>, cause: Seq<u8>) -> Seq<u8> {
    path + seq![58u8, 32u8] + cause
}

/// What the target file holds right after an open attempt with
/// configuration `c`, given what it held before (`None` when the file did
/// not exist). A result of `None` means the open itself fails: the file was
/// missing and nothing asked for its creation, or `create_new` found it
/// already present.
pub open spec fn spec_reopen_content(c: OpenConfig, prior: Option<Seq<u8>>) -> Option<Seq<u8>> {
    match prior {
        None => if c.create || c.create_new {
            Some(Seq::<u8>::empty())
        } else {
            None
        },
        Some(content) => if c.create_new {
            None
        } else if c.is_destructive() {
            Some(Seq::<u8>::empty())
        } else {
            Some(content)
        },
    }
}

impl SerdeFile {
    /// The stored open configuration.
    pub closed spec fn spec_options(self) -> OpenConfig {
        self.options
    }

    /// The stored path bytes.
    pub closed spec fn spec_path(self) -> Seq<u8> {
        self.path@
    }

    /// Wraps a configuration and an already-canonicalized path into a
    /// recipe.
    pub fn new(options: OpenConfig, path: Vec<u8>) -> (r: SerdeFile)
        ensures
            r.spec_options() == options,
            r.spec_path() == path@,
    {
        SerdeFile { options, path }
    }

    /// The canonicalized path the recipe names.
    pub fn path(&self) -> (r: &Vec<u8>)
        ensures
            r@ == self.spec_path(),
    {
        &self.path
    }

    /// The configuration the file was — and will again be — opened with.
    pub fn options(&self) -> (r: &OpenConfig)
        ensures
            *r == self.spec_options(),
    {
        &self.options
    }

    /// Consumes the recipe, yielding its parts.
    pub fn into_inner(self) -> (r: (OpenConfig, Vec<u8>))
        ensures
            r.0 == self.spec_options(),
            r.1@ == self.spec_path(),
    {
        (self.options, self.path)
    }

    /// Serializes the recipe as the wire payload.
    pub fn to_payload(&self) -> (r: Vec<u8>)
        ensures
            r@ == payload_of(self.spec_options(), self.spec_path()),
    {
        encode_payload(&self.options, &self.path)
    }

    /// Decodes a wire payload back into a recipe; the shell then reopens
    /// the named file with the decoded configuration.
    pub fn from_payload(bytes: &Vec<u8>) -> (r: Result<SerdeFile, DecodeError>)
        ensures
            match r {
                Ok(f) => spec_decode_payload(bytes@) == Ok::<(OpenConfig, Seq<u8>), DecodeError>(
                    (f.spec_options(), f.spec_path()),
                ),
                Err(e) => spec_decode_payload(bytes@) == Err::<
                    (OpenConfig, Seq<u8>),
                    DecodeError,
                >(e),
            },
    {
        match decode_payload(bytes) {
            Ok(p) => Ok(SerdeFile { options: p.0, path: p.1 }),
            Err(e) => Err(e),
        }
    }

    /// Builds the decode-time error message for a reopen that failed with
    /// the given cause: the path is carried verbatim at the front, so a
    /// caller can tell a well-formed payload whose file is gone from a
    /// malformed payload.
    pub fn open_failure_message(&self, cause: &Vec<u8>) -> (r: Vec<u8>)
        ensures
            r@ == rehydration_message(self.spec_path(), cause@),
    {
        let mut m: Vec<u8> = Vec::new();
        push_all(&mut m, &self.path);
        m.push(58);
        m.push(32);
        push_all(&mut m, cause);
        proof {
            assert(m@ =~= rehydration_message(self.spec_path(), cause@));
        }
        m
    }
}

/// Decides what content a handle reopened with configuration `c` observes,
/// from what the file held before the attempt (`None`: it did not exist).
/// Returns `None` when the open itself fails. This is the content rule the
/// operating system applies; stating it executably documents the round
/// trip's destructive edge to callers.
pub fn reopen_content(c: &OpenConfig, prior: Option<Vec<u8>>) -> (r: Option<Vec<u8>>)
    ensures
        (match r {
            Some(v) => Some(v@),
            None => None::<Seq<u8>>,
        }) == spec_reopen_content(
            *c,
            match prior {
                Some(v) => Some(v@),
                None => None::<Seq<u8>>,
            },
        ),
{
    match prior {
        None => if c.create || c.create_new {
            Some(Vec::new())
        } else {
            None
        },
        Some(content) => {
            if c.create_new {
                None
            } else if c.truncate {
                Some(Vec::new())
            } else {
                Some(content)
            }
        },
    }
}

/// Law: a round trip with a configuration that requests no truncation and
/// does not insist on creating the file anew decodes to the original pair,
/// and the reopened handle observes the content the file already had.
pub proof fn lemma_round_trip_preserves_content(c: OpenConfig, path: Seq<u8>, content: Seq<u8>)
    requires
        !c.truncate,
        !c.create_new,
    ensures
        spec_decode_payload(payload_of(c, path)) == Ok::<(OpenConfig, Seq<u8>), DecodeError>(
            (c, path),
        ),
        spec_reopen_content(c, Some(content)) == Some(content),
{
    lemma_payload_round_trip(c, path);
}

/// Law: a round trip with a configuration that creates and truncates still
/// decodes to the original pair, but the reopened handle observes an empty
/// file — rehydration is open-equivalent, not content-preserving, and this
/// is the documented behavior, not a defect.
pub proof fn lemma_round_trip_truncates(c: OpenConfig, path: Seq<u8>, content: Seq<u8>)
    requires
        c.create,
        c.truncate,
        !c.create_new,
    ensures
        spec_decode_payload(payload_of(c, path)) == Ok::<(OpenConfig, Seq<u8>), DecodeError>(
            (c, path),
        ),
        spec_reopen_content(c, Some(content)) == Some(Seq::<u8>::empty()),
{
    lemma_payload_round_trip(c, path);
}

/// Law: when the decoded path names no file and the configuration does not
/// create one, the payload still decodes to the original pair, the reopen
/// fails, and the failure message carries the path verbatim at its front.
pub proof fn lemma_missing_file_reports_path(c: OpenConfig, path: Seq<u8>, cause: Seq<u8>)
    requires
        !c.create,
        !c.create_new,
    ensures
        spec_decode_payload(payload_of(c, path)) == Ok::<(OpenConfig, Seq<u8>), DecodeError>(
            (c, path),
        ),
        spec_reopen_content(c, None::<Seq<u8>>) == None::<Seq<u8>>,
        rehydration_message(path, cause).subrange(0, path.len() as int) == path,
{
    lemma_payload_round_trip(c, path);
    assert(rehydration_message(path, cause).subrange(0, path.len() as int) =~= path);
}

} // verus!

