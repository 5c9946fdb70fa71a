//! The byte-level codec: configuration blob and wire payload.
//!
//! A configuration crosses the wire as a fixed-size byte blob, one byte per
//! flag, so that the receiving side can rebuild it without reading any
//! platform-specific layout. The full payload frames that blob together with
//! the path bytes: a leading format tag, the announced blob length, the blob
//! itself, and the path to the end of the payload. The announced length is
//! validated before the blob is read back, so a payload framed for another
//! build of the record is reported as a decode error rather than
//! misinterpreted.

use vstd::prelude::*;

use crate::config::OpenConfig;

verus! {

/// Number of bytes in the encoded configuration blob, one per flag.
pub const CONFIG_BLOB_LEN: usize = 6;

/// Leading byte of every payload; names this wire format.
pub const PAYLOAD_TAG: u8 = 1;

/// Why a byte string was rejected by a decoder.
#[derive(Clone, Copy, Debug, PartialEq, Eq, Structural)]
pub enum DecodeError {
    /// The byte string ends before the fields the format announces.
    Truncated,
    /// The leading byte does not name this wire format.
    UnsupportedTag,
    /// The announced blob length is not the one this build encodes.
    BlobLengthMismatch,
}

/// The byte that stands for one flag in the blob.
pub open spec fn flag_byte(b: bool) -> u8 {
    if b {
        1u8
    } else {
        0u8
    }
}

/// The fixed-size blob that stands for a configuration on the wire.
pub open spec fn blob_of_config(c: OpenConfig) -> Seq<u8> {
    seq![
        flag_byte(c.read),
        flag_byte(c.write),
        flag_byte(c.append),
        flag_byte(c.truncate),
        flag_byte(c.create),
        flag_byte(c.create_new),
    ]
}

/// The configuration read back from a full-size blob: any nonzero byte sets
/// its flag.
pub open spec fn config_of_blob(s: Seq<u8>) -> OpenConfig
    recommends
        s.len() == CONFIG_BLOB_LEN,
{
    OpenConfig {
        read: s[0] != 0,
        write: s[1] != 0,
        append: s[2] != 0,
        truncate: s[3] != 0,
        create: s[4] != 0,
        create_new: s[5] != 0,
    }
}

/// The full wire payload for a (configuration, path) pair: the format tag,
/// the announced blob length, the blob, then the path bytes to the end.
pub open spec fn payload_of(c: OpenConfig, path: Seq<u8>) -> Seq<u8> {
    seq![PAYLOAD_TAG, CONFIG_BLOB_LEN as u8] + blob_of_config(c) + path
}

/// What decoding yields on an arbitrary byte string: the framed pair, or the
/// first framing fault found.
pub open spec fn spec_decode_payload(b: Seq<u8>) -> Result<(OpenConfig, Seq<u8>), DecodeError> {
    if b.len() < 2 {
        Err(DecodeError::Truncated)
    } else if b[0] != PAYLOAD_TAG {
        Err(DecodeError::UnsupportedTag)
    } else if b[1] != CONFIG_BLOB_LEN as u8 {
        Err(DecodeError::BlobLengthMismatch)
    } else if b.len() < 2 + CONFIG_BLOB_LEN {
        Err(DecodeError::Truncated)
    } else {
        Ok((config_of_blob(b.subrange(2, 8)), b.skip(8)))
    }
}

/// Encodes a configuration as its fixed-size blob.
pub fn encode_config(c: &OpenConfig) -> (r: Vec<u8>)
    ensures
        r@ == blob_of_config(*c),
{
    let mut v: Vec<u8> = Vec::new();
    v.push(if c.read { 1 } else { 0 });
    v.push(if c.write { 1 } else { 0 });
    v.push(if c.append { 1 } else { 0 });
    v.push(if c.truncate { 1 } else { 0 });
    v.push(if c.create { 1 } else { 0 });
    v.push(if c.create_new { 1 } else { 0 });
    proof {
        assert(v@ =~= blob_of_config(*c));
    }
    v
}

/// Decodes a blob back into a configuration. Succeeds exactly on blobs of
/// the fixed size; any other length is a shape mismatch.
pub fn decode_config(blob: &Vec<u8>) -> (r: Result<OpenConfig, DecodeError>)
    ensures
        blob@.len() == CONFIG_BLOB_LEN ==> r == Ok::<OpenConfig, DecodeError>(
            config_of_blob(blob@),
        ),
        blob@.len() != CONFIG_BLOB_LEN ==> r == Err::<OpenConfig, DecodeError>(
            DecodeError::BlobLengthMismatch,
        ),
{
    if blob.len() != CONFIG_BLOB_LEN {
        return Err(DecodeError::BlobLengthMismatch);
    }
    Ok(
        OpenConfig {
            read: blob[0] != 0,
            write: blob[1] != 0,
            append: blob[2] != 0,
            truncate: blob[3] != 0,
            create: blob[4] != 0,
            create_new: blob[5] != 0,
        },
    )
}

/// Appends every byte of `src` to `dst`.
pub(crate) fn push_all(dst: &mut Vec<u8>, src: &Vec<u8>)
    ensures
        final(dst)@ == old(dst)@ + src@,
{
    let mut i: usize = 0;
    while i < src.len()
        invariant
            i <= src@.len(),
            dst@ == old(dst)@ + src@.subrange(0, i as int),
        decreases src@.len() - i,
    {
        dst.push(src[i]);
        i = i + 1;
        proof {
            assert(src@.subrange(0, i as int) =~= src@.subrange(0, i - 1).push(
                src@[i - 1],
            ));
            assert(dst@ =~= old(dst)@ + src@.subrange(0, i as int));
        }
    }
    proof {
        assert(src@.subrange(0, src@.len() as int) =~= src@);
    }
}

/// Encodes a (configuration, path) pair as the full wire payload.
pub fn encode_payload(c: &OpenConfig, path: &Vec<u8>) -> (r: Vec<u8>)
    ensures
        r@ == payload_of(*c, path@),
{
    let mut v = encode_header(c);
    push_all(&mut v, path);
    v
}

/// Encodes the fixed leading part of the payload: tag, announced blob
/// length, and the configuration blob.
fn encode_header(c: &OpenConfig) -> (r: Vec<u8>)
    ensures
        r@ == payload_of(*c, Seq::<u8>::empty()),
{
    let mut v: Vec<u8> = Vec::new();
    v.push(PAYLOAD_TAG);
    v.push(6);
    v.push(if c.read { 1 } else { 0 });
    v.push(if c.write { 1 } else { 0 });
    v.push(if c.append { 1 } else { 0 });
    v.push(if c.truncate { 1 } else { 0 });
    v.push(if c.create { 1 } else { 0 });
    v.push(if c.create_new { 1 } else { 0 });
    proof {
        assert(v@ =~= payload_of(*c, Seq::<u8>::empty()));
    }
    v
}

/// Decodes a payload back into its (configuration, path) pair, validating
/// the tag and the announced blob length before the blob is read.
pub fn decode_payload(bytes: &Vec<u8>) -> (r: Result<(OpenConfig, Vec<u8>), DecodeError>)
    ensures
        match r {
            Ok(p) => spec_decode_payload(bytes@) == Ok::<(OpenConfig, Seq<u8>), DecodeError>(
                (p.0, p.1@),
            ),
            Err(e) => spec_decode_payload(bytes@) == Err::<(OpenConfig, Seq<u8>), DecodeError>(e),
        },
{
    if bytes.len() < 2 {
        return Err(DecodeError::Truncated);
    }
    if bytes[0] != PAYLOAD_TAG {
        return Err(DecodeError::UnsupportedTag);
    }
    if bytes[1] != 6 {
        return Err(DecodeError::BlobLengthMismatch);
    }
    if bytes.len() < 8 {
        return Err(DecodeError::Truncated);
    }
    let c = OpenConfig {
        read: bytes[2] != 0,
        write: bytes[3] != 0,
        append: bytes[4] != 0,
        truncate: bytes[5] != 0,
        create: bytes[6] != 0,
        create_new: bytes[7] != 0,
    };
    let mut path: Vec<u8> = Vec::new();
    let mut i: usize = 8;
    while i < bytes.len()
        invariant
            8 <= i <= bytes@.len(),
            path@ == bytes@.subrange(8, i as int),
        decreases bytes@.len() - i,
    {
        path.push(bytes[i]);
        i = i + 1;
        proof {
            assert(bytes@.subrange(8, i as int) =~= bytes@.subrange(8, i - 1).push(
                bytes@[i - 1],
            ));
            assert(path@ =~= bytes@.subrange(8, i as int));
        }
    }
    proof {
        assert(c == config_of_blob(bytes@.subrange(2, 8)));
        assert(path@ =~= bytes@.skip(8));
    }
    Ok((c, path))
}

/// Law: decoding an encoded configuration blob gives back that
/// configuration, byte for byte, for every value of the flags.
pub proof fn lemma_config_blob_round_trip(c: OpenConfig)
    ensures
        config_of_blob(blob_of_config(c)) == c,
{
    assert(config_of_blob(blob_of_config(c)) == c);
}

/// Law: a payload built from a (configuration, path) pair decodes to exactly
/// that pair, whatever the configuration and the path.
pub proof fn lemma_payload_round_trip(c: OpenConfig, path: Seq<u8>)
    ensures
        spec_decode_payload(payload_of(c, path)) == Ok::<(OpenConfig, Seq<u8>), DecodeError>(
            (c, path),
        ),
{
    let p = payload_of(c, path);
    assert(p.len() == 8 + path.len());
    assert(p.subrange(2, 8) =~= blob_of_config(c));
    assert(p.skip(8) =~= path);
    lemma_config_blob_round_trip(c);
}

} // verus!
