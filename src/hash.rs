//! Stable 64-bit hashes for item paths and instance functions.
//!
//! An item path hashes with FNV-1a over the bytes of its components, each
//! component followed by the byte `0xff`, which never occurs in UTF-8 text
//! and so separates components unambiguously. An instance function hash
//! mixes the receiver's type hash with the hash of the function's name.
use vstd::prelude::*;
use vstd::string::StringSliceAdditionalSpecFns;
use crate::token::Span;

verus! {

/// FNV-1a offset basis.
pub const FNV_OFFSET: u64 = 0xcbf2_9ce4_8422_2325;

/// FNV-1a prime.
pub const FNV_PRIME: u64 = 0x0000_0100_0000_01b3;

/// Byte that closes every path component.
pub const COMPONENT_SEP: u8 = 0xff;

/// Seed for the hash of an instance function's name, distinct from the one
/// used for item paths.
pub const INST_SEED: u64 = 0x84ca_2ee4_36e4_e2f7;

/// A stable hash of a named entity.
#[derive(Debug, Clone, Copy, PartialEq, Eq, Structural, Hash)]
pub struct Hash {
    pub value: u64,
}

/// One FNV-1a round.
pub open spec fn fnv_step(h: u64, b: u8) -> u64 {
    (h ^ (b as u64)).wrapping_mul(FNV_PRIME)
}

/// FNV-1a over `bytes`, starting from state `h`.
pub open spec fn fnv_bytes(h: u64, bytes: Seq<u8>) -> u64
    decreases bytes.len(),
{
    if bytes.len() == 0 {
        h
    } else {
        fnv_step(fnv_bytes(h, bytes.drop_last()), bytes.last())
    }
}

/// The hash state after the given components, from state `h`.
pub open spec fn path_state(h: u64, parts: Seq<Seq<u8>>) -> u64
    decreases parts.len(),
{
    if parts.len() == 0 {
        h
    } else {
        fnv_step(fnv_bytes(path_state(h, parts.drop_last()), parts.last()), COMPONENT_SEP)
    }
}

/// The bytes of each component of a path.
pub open spec fn path_parts(path: Seq<&str>) -> Seq<Seq<u8>> {
    path.map_values(|s: &str| s.spec_bytes())
}

/// The type hash of an item path.
pub open spec fn type_hash(parts: Seq<Seq<u8>>) -> u64 {
    path_state(FNV_OFFSET, parts)
}

/// The instance function hash of `name` on the type hashed `ty`.
pub open spec fn inst_hash(ty: u64, name: Seq<u8>) -> u64 {
    ty ^ fnv_bytes(INST_SEED, name)
}

/// FNV-1a over a byte slice, continuing from `h`.
pub fn fnv_extend(h: u64, bytes: &[u8]) -> (r: u64)
    ensures
        r == fnv_bytes(h, bytes@),
{
    let mut acc: u64 = h;
    let mut j: usize = 0;
    while j < bytes.len()
        invariant
            j <= bytes@.len(),
            acc == fnv_bytes(h, bytes@.take(j as int)),
        decreases bytes@.len() - j,
    {
        assert(bytes@.take(j as int + 1).drop_last() =~= bytes@.take(j as int));
        acc = (acc ^ (bytes[j] as u64)).wrapping_mul(FNV_PRIME);
        j = j + 1;
    }
    assert(bytes@.take(j as int) =~= bytes@);
    acc
}

/// The bytes of each span of `src`.
pub open spec fn span_parts(src: Seq<u8>, parts: Seq<Span>) -> Seq<Seq<u8>> {
    parts.map_values(|s: Span| src.subrange(s.start as int, s.end as int))
}

/// Every span lies within `src`.
pub open spec fn spans_within(src: Seq<u8>, parts: Seq<Span>) -> bool {
    forall|i: int| 0 <= i < parts.len() ==> #[trigger] parts[i].start <= parts[i].end <= src.len()
}

/// FNV-1a over `src[start..end]`, continuing from `h`.
pub fn fnv_extend_range(h: u64, src: &[u8], start: usize, end: usize) -> (r: u64)
    requires
        start <= end <= src@.len(),
    ensures
        r == fnv_bytes(h, src@.subrange(start as int, end as int)),
{
    let ghost bytes = src@.subrange(start as int, end as int);
    let mut acc: u64 = h;
    let mut j: usize = start;
    while j < end
        invariant
            start <= j <= end <= src@.len(),
            bytes == src@.subrange(start as int, end as int),
            acc == fnv_bytes(h, bytes.take(j - start)),
        decreases end - j,
    {
        assert(bytes.take(j - start + 1).drop_last() =~= bytes.take(j - start));
        acc = (acc ^ (src[j] as u64)).wrapping_mul(FNV_PRIME);
        j = j + 1;
    }
    assert(bytes.take(j - start) =~= bytes);
    acc
}

impl Hash {
    /// The type hash of the path whose components are the given spans of
    /// `src`.
    pub fn of_spans(src: &[u8], parts: &Vec<Span>) -> (r: Hash)
        requires
            spans_within(src@, parts@),
        ensures
            r.value == type_hash(span_parts(src@, parts@)),
    {
        let ghost all = span_parts(src@, parts@);
        let mut h: u64 = FNV_OFFSET;
        let mut i: usize = 0;
        while i < parts.len()
            invariant
                i <= parts@.len(),
                spans_within(src@, parts@),
                all == span_parts(src@, parts@),
                h == path_state(FNV_OFFSET, all.take(i as int)),
            decreases parts@.len() - i,
        {
            assert(all.take(i as int + 1).drop_last() =~= all.take(i as int));
            let s = parts[i];
            assert(s.start <= s.end <= src@.len());
            h = fnv_extend_range(h, src, s.start, s.end);
            h = (h ^ (COMPONENT_SEP as u64)).wrapping_mul(FNV_PRIME);
            i = i + 1;
        }
        assert(all.take(i as int) =~= all);
        Hash { value: h }
    }

    /// The hash of an instance function's name, written in `src[start..end]`,
    /// before it is mixed with a receiver type.
    pub fn of_name_span(src: &[u8], s: Span) -> (r: u64)
        requires
            s.start <= s.end <= src@.len(),
        ensures
            r == fnv_bytes(INST_SEED, src@.subrange(s.start as int, s.end as int)),
    {
        fnv_extend_range(INST_SEED, src, s.start, s.end)
    }

    /// The type hash of the item with the given path components.
    pub fn of_path(path: &[&str]) -> (r: Hash)
        ensures
            r.value == type_hash(path_parts(path@)),
    {
        let ghost parts = path_parts(path@);
        let mut h: u64 = FNV_OFFSET;
        let mut i: usize = 0;
        while i < path.len()
            invariant
                i <= path@.len(),
                parts == path_parts(path@),
                h == path_state(FNV_OFFSET, parts.take(i as int)),
            decreases path@.len() - i,
        {
            assert(parts.take(i as int + 1).drop_last() =~= parts.take(i as int));
            let bytes = path[i].as_bytes();
            h = fnv_extend(h, bytes);
            h = (h ^ (COMPONENT_SEP as u64)).wrapping_mul(FNV_PRIME);
            i = i + 1;
        }
        assert(parts.take(i as int) =~= parts);
        Hash { value: h }
    }

    /// The hash of the instance function `name` on the type hashed `ty`.
    pub fn instance_fn(ty: Hash, name: &str) -> (r: Hash)
        ensures
            r.value == inst_hash(ty.value, name.spec_bytes()),
    {
        let n = fnv_extend(INST_SEED, name.as_bytes());
        Hash { value: ty.value ^ n }
    }
}

/// Hashes are functions of their input text alone: equal paths, and equal
/// receiver hashes with equal names, hash alike on every run.
pub proof fn lemma_hash_stable(p: Seq<&str>, q: Seq<&str>, ty: u64, a: &str, b: &str)
    requires
        path_parts(p) == path_parts(q),
        a.spec_bytes() == b.spec_bytes(),
    ensures
        type_hash(path_parts(p)) == type_hash(path_parts(q)),
        inst_hash(ty, a.spec_bytes()) == inst_hash(ty, b.spec_bytes()),
{
}

/// For one method name, different receiver types never share an instance
/// function hash.
pub proof fn lemma_inst_hash_separates_types(t1: u64, t2: u64, name: Seq<u8>)
    requires
        t1 != t2,
    ensures
        inst_hash(t1, name) != inst_hash(t2, name),
{
    let n = fnv_bytes(INST_SEED, name);
    assert((t1 ^ n) != (t2 ^ n)) by (bit_vector)
        requires
            t1 != t2,
    ;
}

} // verus!
