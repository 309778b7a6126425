//! The failures that the driver reports.
use vstd::prelude::*;
use vstd::utf8::{decode_utf8, valid_utf8};

verus! {

/// Longest diagnostic excerpt carried by an error, in bytes.
pub const EXCERPT_MAX: usize = 256;

/// Every failure of a driver operation.
#[derive(Debug, Clone, PartialEq, Eq)]
pub enum Error {
    WriteError,
    ReadError,
    /// The response could not be decoded; carries an excerpt of it.
    DeserError(String),
    SerError,
    /// Request does not end with '\n'.
    InvalidRequest,
    RemainingData,
    TimeOut,
    BufOverflow,
    /// Method called when the driver is in an invalid state.
    WrongState,
    /// Device firmware is being updated.
    DFUInProgress,
    /// Device file storage is full.
    FileStorageFull(String),
    /// Error adding a note.
    ErrorAddingNote(String),
    NotecardErr(String),
}

/// A UTF-8 continuation byte (`10xxxxxx`) never starts a character.
pub open spec fn is_continuation(b: u8) -> bool {
    0x80 <= b && b < 0xC0
}

/// Whether cutting `b` before index `k` keeps every encoded character whole.
pub open spec fn is_cut_point(b: Seq<u8>, k: nat) -> bool {
    k == 0 || k == b.len() || (k < b.len() && !is_continuation(b[k as int]))
}

/// The largest cut point of `b` that is not above `k`.
pub open spec fn cut_below(b: Seq<u8>, k: nat) -> nat
    decreases k,
{
    if is_cut_point(b, k) {
        k
    } else {
        cut_below(b, (k - 1) as nat)
    }
}

/// Length of the excerpt of `b` kept in a decode error: at most
/// `EXCERPT_MAX` bytes, cut where no character is split.
pub open spec fn excerpt_len(b: Seq<u8>) -> nat {
    if b.len() <= EXCERPT_MAX {
        b.len()
    } else {
        cut_below(b, EXCERPT_MAX as nat)
    }
}

/// The text carried by the decode error for the bytes `b`.
pub open spec fn excerpt_text(b: Seq<u8>) -> Seq<char> {
    let e = b.subrange(0, excerpt_len(b) as int);
    if valid_utf8(e) {
        decode_utf8(e)
    } else {
        "[invalid utf8]"@
    }
}

proof fn lemma_cut_below(b: Seq<u8>, k: nat)
    requires
        k <= b.len(),
    ensures
        cut_below(b, k) <= k,
        is_cut_point(b, cut_below(b, k)),
        forall|j: nat| cut_below(b, k) < j <= k ==> !is_cut_point(b, j),
    decreases k,
{
    if !is_cut_point(b, k) {
        lemma_cut_below(b, (k - 1) as nat);
    }
}

/// The excerpt that a decode error carries is a prefix of the input of at most
/// `EXCERPT_MAX` bytes that ends where a character ends; it is the longest
/// such prefix, and the whole input when that is short enough.
pub proof fn lemma_excerpt_bounded(b: Seq<u8>)
    ensures
        excerpt_len(b) <= b.len(),
        excerpt_len(b) <= EXCERPT_MAX,
        is_cut_point(b, excerpt_len(b)),
        b.len() <= EXCERPT_MAX ==> excerpt_len(b) == b.len(),
        forall|j: nat|
            excerpt_len(b) < j <= EXCERPT_MAX && j <= b.len() ==> !is_cut_point(b, j),
{
    if b.len() > EXCERPT_MAX {
        lemma_cut_below(b, EXCERPT_MAX as nat);
    }
}

/// Relies on `core::str::from_utf8`: it accepts exactly the valid UTF-8
/// byte sequences, and the text it returns is their decoding.
#[verifier::external_body]
fn text_from_utf8(b: &[u8]) -> (r: Option<String>)
    ensures
        r is Some <==> valid_utf8(b@),
        r matches Some(s) ==> s@ == decode_utf8(b@),
{
    core::str::from_utf8(b).ok().map(String::from)
}

impl Error {
    /// A decode error for the response `msg`, carrying its first bytes as text
    /// when they are valid UTF-8.
    pub fn new_desererror(msg: &[u8]) -> (r: Error)
        ensures
            r matches Error::DeserError(s) && s@ == excerpt_text(msg@),
    {
        let len = msg.len();
        let mut cut: usize = if len <= EXCERPT_MAX { len } else { EXCERPT_MAX };
        if len > EXCERPT_MAX {
            while cut > 0 && 0x80 <= msg[cut] && msg[cut] < 0xC0
                invariant
                    len > EXCERPT_MAX,
                    len == msg@.len(),
                    cut <= EXCERPT_MAX,
                    cut_below(msg@, cut as nat) == cut_below(msg@, EXCERPT_MAX as nat),
                decreases cut,
            {
                cut = cut - 1;
            }
        }
        let mut excerpt: Vec<u8> = Vec::new();
        let mut i: usize = 0;
        while i < cut
            invariant
                cut <= msg@.len(),
                i <= cut,
                excerpt@ == msg@.subrange(0, i as int),
            decreases cut - i,
        {
            excerpt.push(msg[i]);
            i = i + 1;
            proof {
                assert(excerpt@ =~= msg@.subrange(0, i as int));
            }
        }
        proof {
            assert(cut == excerpt_len(msg@));
        }
        match text_from_utf8(excerpt.as_slice()) {
            Some(s) => Error::DeserError(s),
            None => Error::DeserError("[invalid utf8]".to_owned()),
        }
    }
}

} // verus!
