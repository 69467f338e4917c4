//! The label-sequence domain name codec.
//!
//! A name on the wire is a run of length-prefixed labels ended by a
//! zero-length label. No byte pattern is special-cased: a length byte that
//! full DNS semantics would treat as a compression pointer is read as a
//! literal length here, a documented limitation of this codec. Decoding
//! never validates the label bytes as text; only assembling them into a
//! dotted lowercase string does.
use vstd::prelude::*;
use vstd::utf8::{decode_utf8, valid_utf8};

use crate::errors::DnsError;

verus! {

/// The byte sequences held by a list of owned labels.
pub open spec fn parts_view(parts: Seq<Vec<u8>>) -> Seq<Seq<u8>> {
    parts.map_values(|p: Vec<u8>| p@)
}

/// Parses labels out of `s` from position `i`: one length byte, then that
/// many label bytes, repeated until a zero length byte. Yields the position
/// just past the terminator and the labels, or nothing when a read would
/// run past the end of the buffer.
pub open spec fn spec_parse_labels(s: Seq<u8>, i: nat) -> Option<(nat, Seq<Seq<u8>>)>
    decreases s.len() - i,
{
    if i >= s.len() {
        None
    } else {
        let part_length = s[i as int] as nat;
        if part_length == 0 {
            Some(((i + 1) as nat, Seq::empty()))
        } else if i + 1 + part_length > s.len() {
            None
        } else {
            match spec_parse_labels(s, (i + 1 + part_length) as nat) {
                None => None,
                Some(p) => Some(
                    (p.0, seq![s.subrange(i + 1 as int, i + 1 + part_length as int)] + p.1),
                ),
            }
        }
    }
}

/// A successful label parse always moves the position forward and never
/// past the end of the buffer.
pub proof fn lemma_parse_labels_bounds(s: Seq<u8>, i: nat)
    requires
        spec_parse_labels(s, i) is Some,
    ensures
        i < spec_parse_labels(s, i)->Some_0.0 <= s.len(),
    decreases s.len() - i,
{
    if i < s.len() {
        let part_length = s[i as int] as nat;
        if part_length != 0 && i + 1 + part_length <= s.len() {
            if spec_parse_labels(s, (i + 1 + part_length) as nat) is Some {
                lemma_parse_labels_bounds(s, (i + 1 + part_length) as nat);
            }
        }
    }
}

/// Reads one label run starting at `start`, returning the position just
/// past the terminator and the labels in order.
pub(crate) fn parse_labels(bytes: &[u8], start: usize) -> (r: Result<
    (usize, Vec<Vec<u8>>),
    DnsError,
>)
    requires
        start <= bytes@.len(),
    ensures
        match spec_parse_labels(bytes@, start as nat) {
            Some(p) => r is Ok && r->Ok_0.0 == p.0 && parts_view(r->Ok_0.1@) == p.1,
            None => r is Err && r->Err_0 == DnsError::FormatError,
        },
    decreases bytes@.len() - start,
{
    if start >= bytes.len() {
        return Err(DnsError::FormatError);
    }
    let part_length = *vstd::slice::slice_index_get(bytes, start) as usize;
    let next = start + 1;
    if part_length == 0 {
        let parts: Vec<Vec<u8>> = Vec::new();
        proof {
            assert(parts_view(parts@) =~= Seq::<Seq<u8>>::empty());
        }
        return Ok((next, parts));
    }
    if part_length > bytes.len() - next {
        return Err(DnsError::FormatError);
    }
    let label_end = next + part_length;
    let label = vstd::slice::slice_to_vec(vstd::slice::slice_subrange(bytes, next, label_end));
    match parse_labels(bytes, label_end) {
        Ok((end, mut parts)) => {
            parts.insert(0, label);
            proof {
                let p = spec_parse_labels(bytes@, label_end as nat)->Some_0;
                assert(parts_view(parts@) =~= seq![bytes@.subrange(
                    start + 1,
                    start + 1 + part_length,
                )] + p.1);
            }
            Ok((end, parts))
        },
        Err(e) => Err(e),
    }
}

/// The labels joined with a dot between each pair, before any text
/// validation.
pub open spec fn spec_joined(parts: Seq<Seq<u8>>) -> Seq<u8>
    decreases parts.len(),
{
    if parts.len() == 0 {
        Seq::empty()
    } else if parts.len() == 1 {
        parts[0]
    } else {
        parts[0] + seq![46u8] + spec_joined(parts.drop_first())
    }
}

/// Joining one more label appends a dot (unless nothing was joined yet)
/// and then the label.
proof fn lemma_joined_push(parts: Seq<Seq<u8>>, x: Seq<u8>)
    ensures
        spec_joined(parts.push(x)) == if parts.len() == 0 {
            x
        } else {
            spec_joined(parts) + seq![46u8] + x
        },
    decreases parts.len(),
{
    if parts.len() == 0 {
        assert(parts.push(x)[0] == x);
        assert(spec_joined(parts.push(x)) == x);
    } else if parts.len() == 1 {
        assert(parts.push(x).drop_first() =~= seq![x]);
        assert(spec_joined(seq![x]) == x);
    } else {
        lemma_joined_push(parts.drop_first(), x);
        assert(parts.push(x).drop_first() =~= parts.drop_first().push(x));
        assert(parts[0] + seq![46u8] + (spec_joined(parts.drop_first()) + seq![46u8] + x) =~= (
        parts[0] + seq![46u8] + spec_joined(parts.drop_first())) + seq![46u8] + x);
    }
}

/// What `str::to_lowercase` returns: a function of the characters alone.
pub uninterp spec fn lower_of(s: Seq<char>) -> Seq<char>;

/// Relies on `String::from_utf8`: succeeds exactly when the bytes are
/// valid UTF-8, and then returns the string those bytes spell.
#[verifier::external_body]
fn utf8_to_string(v: Vec<u8>) -> (r: Option<String>)
    ensures
        r is Some <==> valid_utf8(v@),
        r is Some ==> r->Some_0@ == decode_utf8(v@),
{
    String::from_utf8(v).ok()
}

/// Relies on `str::to_lowercase`: the result depends on the characters
/// alone.
#[verifier::external_body]
fn to_lowercase_str(s: &str) -> (r: String)
    ensures
        r@ == lower_of(s@),
{
    s.to_lowercase()
}

/// An ordered list of domain name labels, owned by the value.
pub struct DomainName {
    pub parts: Vec<Vec<u8>>,
}

impl DomainName {
    /// Decodes a label run from the front of `bytes`, returning how many
    /// wire bytes it occupied (terminator included) alongside the name.
    pub fn try_from(bytes: &[u8]) -> (r: Result<(usize, DomainName), DnsError>)
        ensures
            match spec_parse_labels(bytes@, 0) {
                Some(p) => r is Ok && r->Ok_0.0 == p.0 && parts_view(r->Ok_0.1.parts@) == p.1,
                None => r is Err && r->Err_0 == DnsError::FormatError,
            },
    {
        match parse_labels(bytes, 0) {
            Ok((consumed, parts)) => Ok((consumed, DomainName { parts })),
            Err(e) => Err(e),
        }
    }

    /// Joins the labels with dots and lowercases the result; fails with
    /// `EncodingError` when the joined bytes are not valid text. A name
    /// with no labels — a lone terminator on the wire — joins to the empty
    /// string.
    pub fn to_string(&self) -> (r: Result<String, DnsError>)
        ensures
            r is Ok <==> valid_utf8(spec_joined(parts_view(self.parts@))),
            r is Ok ==> r->Ok_0@ == lower_of(decode_utf8(spec_joined(parts_view(self.parts@)))),
            r is Err ==> r->Err_0 == DnsError::EncodingError,
    {
        let ghost all = parts_view(self.parts@);
        let mut joined: Vec<u8> = Vec::new();
        let mut idx: usize = 0;
        while idx < self.parts.len()
            invariant
                idx <= self.parts.len(),
                joined@ == spec_joined(all.take(idx as int)),
                all == parts_view(self.parts@),
            decreases self.parts.len() - idx,
        {
            proof {
                assert(all.take(idx as int).push(all[idx as int]) =~= all.take(idx as int + 1));
                lemma_joined_push(all.take(idx as int), all[idx as int]);
            }
            if idx > 0 {
                joined.push(46);
            }
            let part = &self.parts[idx];
            joined.extend_from_slice(part.as_slice());
            proof {
                assert(all[idx as int] == self.parts@[idx as int]@);
                if idx > 0 {
                    assert(joined@ =~= spec_joined(all.take(idx as int)) + seq![46u8] + all[idx
                        as int]);
                }
            }
            idx += 1;
        }
        proof {
            assert(all.take(self.parts@.len() as int) =~= all);
        }
        match utf8_to_string(joined) {
            Some(s) => Ok(to_lowercase_str(s.as_str())),
            None => Err(DnsError::EncodingError),
        }
    }
}

} // verus!
