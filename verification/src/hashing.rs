//! Hashes of texts, for names and numbers that only have to be spread.

use std::collections::hash_map::DefaultHasher;
use std::hash::Hasher;
use vstd::prelude::*;
use vstd::std_specs::hash::DefaultHasherAdditionalSpecFns;

verus! {

/// The byte that is written after a text to end it.
pub const TEXT_END: u8 = 0xff;

/// What is written to the hasher for a text: its bytes, then the end mark.
pub open spec fn text_writes(t: Seq<char>) -> Seq<Seq<u8>> {
    seq![vstd::utf8::encode_utf8(t), seq![TEXT_END]]
}

/// The hash of a text.
pub open spec fn text_hash(t: Seq<char>) -> u64 {
    DefaultHasher::spec_finish(text_writes(t))
}

/// The `k` low bytes of a number, lowest first.
pub open spec fn low_bytes(n: nat, k: nat) -> Seq<u8>
    decreases k,
{
    if k == 0 {
        Seq::empty()
    } else {
        seq![(n % 256) as u8] + low_bytes(n / 256, (k - 1) as nat)
    }
}

/// The hash of a text followed by a number.
pub open spec fn seeded_hash(t: Seq<char>, n: u64) -> u64 {
    DefaultHasher::spec_finish(text_writes(t).push(low_bytes(n as nat, 8)))
}

fn number_bytes(n: u64) -> (r: Vec<u8>)
    ensures
        r@ == low_bytes(n as nat, 8),
{
    let mut out: Vec<u8> = Vec::new();
    let mut rest: u64 = n;
    let mut i: usize = 0;
    while i < 8
        invariant
            i <= 8,
            out@ + low_bytes(rest as nat, (8 - i) as nat) == low_bytes(n as nat, 8),
        decreases 8 - i,
    {
        let ghost before = out@;
        out.push((rest % 256) as u8);
        assert(out@ + low_bytes((rest / 256) as nat, (8 - i - 1) as nat) =~= before + low_bytes(
            rest as nat,
            (8 - i) as nat,
        ));
        rest = rest / 256;
        i += 1;
    }
    assert(out@ + low_bytes(rest as nat, 0) =~= out@);
    out
}

fn write_text(hasher: &mut DefaultHasher, t: &str)
    ensures
        final(hasher)@ == old(hasher)@ + text_writes(t@),
{
    hasher.write(t.as_bytes());
    let mut end: Vec<u8> = Vec::new();
    end.push(TEXT_END);
    hasher.write(end.as_slice());
    assert(hasher@ =~= old(hasher)@ + text_writes(t@));
}

/// Hashes a text.
pub fn hash_text(t: &str) -> (r: u64)
    ensures
        r == text_hash(t@),
{
    let mut hasher = DefaultHasher::new();
    write_text(&mut hasher, t);
    assert(hasher@ =~= text_writes(t@));
    hasher.finish()
}

/// Hashes a text followed by a number.
pub fn hash_text_and_number(t: &str, n: u64) -> (r: u64)
    ensures
        r == seeded_hash(t@, n),
{
    let mut hasher = DefaultHasher::new();
    write_text(&mut hasher, t);
    let bytes = number_bytes(n);
    hasher.write(bytes.as_slice());
    assert(hasher@ =~= text_writes(t@).push(low_bytes(n as nat, 8)));
    hasher.finish()
}

} // verus!
