//! The host's line framing: whole lines are taken off the front of the
//! receive buffer, and a partial line stays there until its delimiter
//! arrives.
use crate::protocol::DELIMITER;
use bytes::BytesMut;
use vstd::prelude::*;
use vstd::utf8::{encode_utf8, valid_utf8};
use vstd::string::StringSliceAdditionalSpecFns;

verus! {

#[verifier::external_type_specification]
#[verifier::external_body]
pub struct ExBytesMut(BytesMut);

/// The bytes that a `BytesMut` holds.
pub uninterp spec fn buffered(b: BytesMut) -> Seq<u8>;

/// Relies on `BytesMut::as_ref`: the buffered bytes, in order.
#[verifier::external_body]
fn buffered_slice(b: &BytesMut) -> (r: &[u8])
    ensures
        r@ == buffered(*b),
{
    b.as_ref()
}

/// Relies on `BytesMut::split_to`: the first `at` bytes leave `b` and are
/// returned; `b` keeps the rest. It panics past the end.
#[verifier::external_body]
fn split_front(b: &mut BytesMut, at: usize) -> (r: BytesMut)
    requires
        at <= buffered(*old(b)).len(),
    ensures
        buffered(r) == buffered(*old(b)).subrange(0, at as int),
        buffered(*final(b)) == buffered(*old(b)).subrange(at as int, buffered(*old(b)).len() as int),
{
    b.split_to(at)
}

/// Relies on `std::str::from_utf8`: the same bytes read as text when they
/// are valid UTF-8, and nothing when they are not.
#[verifier::external_body]
fn utf8_text(v: &[u8]) -> (r: Option<&str>)
    ensures
        match r {
            Some(s) => valid_utf8(v@) && s.spec_bytes() == v@,
            None => !valid_utf8(v@),
        },
{
    std::str::from_utf8(v).ok()
}

/// A line that was framed but is not text.
#[derive(Debug, Clone, Copy, PartialEq, Eq, Structural)]
pub enum FrameError {
    InvalidString,
}

/// Position of the first delimiter, if there is one.
pub open spec fn first_delimiter(s: Seq<u8>) -> Option<int> {
    if exists|i: int| 0 <= i < s.len() && s[i] == DELIMITER {
        Some(choose|i: int| 0 <= i < s.len() && s[i] == DELIMITER && forall|j: int| 0 <= j < i ==> s[j] != DELIMITER)
    } else {
        None
    }
}

/// Splits a byte stream into `\n`-terminated lines.
pub struct LineCodec;

impl LineCodec {
    /// Takes the first complete line, delimiter included, off the front of
    /// `src`. Without a delimiter `src` is left as it is and there is no
    /// line yet. A line that is not UTF-8 is consumed all the same and
    /// reported as an error.
    pub fn decode(&mut self, src: &mut BytesMut) -> (r: Result<Option<String>, FrameError>)
        ensures
            ({
                let s = buffered(*old(src));
                match first_delimiter(s) {
                    None => r == Ok::<Option<String>, FrameError>(None) && buffered(*final(src)) == s,
                    Some(n) => {
                        let line = s.subrange(0, n + 1);
                        &&& buffered(*final(src)) == s.subrange(n + 1, s.len() as int)
                        &&& match r {
                            Ok(Some(text)) => valid_utf8(line) && encode_utf8(text@) == line,
                            Ok(None) => false,
                            Err(e) => e == FrameError::InvalidString && !valid_utf8(line),
                        }
                    },
                }
            }),
    {
        let bytes = buffered_slice(src);
        let ghost s = bytes@;
        let mut i: usize = 0;
        while i < bytes.len()
            invariant
                bytes@ == s,
                0 <= i <= s.len(),
                forall|j: int| 0 <= j < i ==> s[j] != DELIMITER,
            ensures
                0 <= i <= s.len(),
                forall|j: int| 0 <= j < i ==> s[j] != DELIMITER,
                i < s.len() ==> s[i as int] == DELIMITER,
            decreases s.len() - i,
        {
            if bytes[i] == DELIMITER {
                break;
            }
            i = i + 1;
        }
        if i == bytes.len() {
            assert(first_delimiter(s) is None);
            return Ok(None);
        }
        proof {
            lemma_first_delimiter(s, i as int);
        }
        let line = split_front(src, i + 1);
        let line_bytes = buffered_slice(&line);
        match utf8_text(line_bytes) {
            Some(text) => Ok(Some(text.to_owned())),
            None => Err(FrameError::InvalidString),
        }
    }
}

proof fn lemma_first_delimiter(s: Seq<u8>, i: int)
    requires
        0 <= i < s.len(),
        s[i] == DELIMITER,
        forall|j: int| 0 <= j < i ==> s[j] != DELIMITER,
    ensures
        first_delimiter(s) == Some(i),
{
    let k = choose|k: int| 0 <= k < s.len() && s[k] == DELIMITER && forall|j: int| 0 <= j < k ==> s[j] != DELIMITER;
    assert(0 <= k < s.len() && s[k] == DELIMITER && forall|j: int| 0 <= j < k ==> s[j] != DELIMITER);
    if k < i {
        assert(s[k] != DELIMITER);
    }
    if i < k {
        assert(s[i] != DELIMITER);
    }
}

} // verus!
