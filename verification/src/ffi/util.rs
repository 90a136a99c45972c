//! Checks on strings before they are handed to cpdb-libs as C strings: a
//! C string ends at its first zero byte, so a string that holds one is
//! refused.

use vstd::prelude::*;
use vstd::utf8::encode_utf8;
use crate::error::CpdbError;
use crate::text::{concat2, nat_decimal, u64_to_decimal};

verus! {

/// `bytes` holds a zero byte.
pub open spec fn has_zero(bytes: Seq<u8>) -> bool {
    exists|i: int| 0 <= i < bytes.len() && bytes[i] == 0
}

/// The position of the first zero byte of `bytes`, when it holds one.
pub open spec fn first_zero(bytes: Seq<u8>) -> int {
    choose|i: int| 0 <= i < bytes.len() && bytes[i] == 0 && forall|j: int| 0 <= j < i ==> bytes[j] != 0
}

/// The message of the error for a string whose UTF-8 bytes hold a zero
/// byte at `pos`.
pub open spec fn nul_message(pos: int) -> Seq<char> {
    "nul byte found in provided data at position: "@ + nat_decimal(pos as nat)
}

/// The strings of option pairs in the order they are converted: the
/// name, then the value, of each pair.
pub open spec fn option_strings<'a>(pairs: Seq<(&'a str, &'a str)>) -> Seq<Seq<char>> {
    Seq::new(2 * pairs.len(), |i: int| if i % 2 == 0 { pairs[i / 2].0@ } else { pairs[i / 2].1@ })
}

/// The position of the first zero byte in the UTF-8 encoding of `s`.
pub fn nul_position(s: &str) -> (r: Option<usize>)
    ensures
        match r {
            Some(p) => has_zero(encode_utf8(s@)) && p == first_zero(encode_utf8(s@)),
            None => !has_zero(encode_utf8(s@)),
        },
{
    let b = s.as_bytes();
    let mut i: usize = 0;
    while i < b.len()
        invariant
            i <= b@.len(),
            b@ == encode_utf8(s@),
            forall|j: int| 0 <= j < i ==> b@[j] != 0,
        decreases b@.len() - i,
    {
        if b[i] == 0 {
            proof {
                let w = first_zero(b@);
                assert(0 <= w < b@.len() && b@[w] == 0 && forall|j: int| 0 <= j < w ==> b@[j] != 0);
                if w < i {
                    assert(b@[w] != 0);
                }
                if w > i {
                    assert(b@[i as int] != 0);
                }
            }
            return Some(i);
        }
        i = i + 1;
    }
    None
}

/// Checks that `s` can be handed over as a C string: it is refused when
/// its UTF-8 bytes hold a zero byte, with the position of the first one.
pub fn check_c_string(s: &str) -> (r: Result<(), CpdbError>)
    ensures
        !has_zero(encode_utf8(s@)) ==> r is Ok,
        has_zero(encode_utf8(s@)) ==> (r matches Err(CpdbError::NulError(m))
            && m@ == nul_message(first_zero(encode_utf8(s@)))),
{
    match nul_position(s) {
        None => Ok(()),
        Some(p) => {
            let pos = u64_to_decimal(p as u64);
            Err(CpdbError::NulError(concat2("nul byte found in provided data at position: ", pos.as_str())))
        },
    }
}

proof fn lemma_option_strings<'a>(pairs: Seq<(&'a str, &'a str)>, k: int)
    requires
        0 <= k < pairs.len(),
    ensures
        option_strings(pairs).len() == 2 * pairs.len(),
        option_strings(pairs)[2 * k] == pairs[k].0@,
        option_strings(pairs)[2 * k + 1] == pairs[k].1@,
{
    assert((2 * k) % 2 == 0 && (2 * k) / 2 == k);
    assert((2 * k + 1) % 2 == 1 && (2 * k + 1) / 2 == k);
}

/// Only the first string that holds a zero byte is the first such string.
proof fn lemma_first_bad(texts: Seq<Seq<char>>, b: int)
    requires
        0 <= b < texts.len(),
        has_zero(encode_utf8(texts[b])),
        forall|j: int| 0 <= j < b ==> !has_zero(#[trigger] encode_utf8(texts[j])),
    ensures
        forall|i: int| 0 <= i < texts.len() && has_zero(#[trigger] encode_utf8(texts[i]))
            && (forall|j: int| 0 <= j < i ==> !has_zero(encode_utf8(texts[j]))) ==> i == b,
{
    assert forall|i: int| 0 <= i < texts.len() && has_zero(#[trigger] encode_utf8(texts[i]))
        && (forall|j: int| 0 <= j < i ==> !has_zero(encode_utf8(texts[j]))) implies i == b by {
        if i < b {
            assert(!has_zero(encode_utf8(texts[i])));
        }
        if i > b {
            assert(!has_zero(encode_utf8(texts[b])));
        }
    }
}

/// Checks that every name and value of `pairs` can be handed over as a C
/// string, in order (the name, then the value, of each pair): the first
/// string that holds a zero byte is refused.
pub fn check_c_options(pairs: &[(&str, &str)]) -> (r: Result<(), CpdbError>)
    ensures
        (forall|i: int| 0 <= i < option_strings(pairs@).len() ==> !has_zero(
            #[trigger] encode_utf8(option_strings(pairs@)[i]))) ==> r is Ok,
        forall|i: int| 0 <= i < option_strings(pairs@).len()
            && has_zero(#[trigger] encode_utf8(option_strings(pairs@)[i]))
            && (forall|j: int| 0 <= j < i ==> !has_zero(encode_utf8(option_strings(pairs@)[j])))
            ==> (r matches Err(CpdbError::NulError(m))
                && m@ == nul_message(first_zero(encode_utf8(option_strings(pairs@)[i])))),
{
    let ghost texts = option_strings(pairs@);
    let mut k: usize = 0;
    while k < pairs.len()
        invariant
            k <= pairs@.len(),
            texts == option_strings(pairs@),
            texts.len() == 2 * pairs@.len(),
            forall|j: int| 0 <= j < 2 * k ==> !has_zero(#[trigger] encode_utf8(texts[j])),
        decreases pairs@.len() - k,
    {
        let (name, value) = pairs[k];
        proof {
            lemma_option_strings(pairs@, k as int);
        }
        let first = check_c_string(name);
        if first.is_err() {
            proof {
                lemma_first_bad(texts, 2 * k as int);
            }
            return first;
        }
        let second = check_c_string(value);
        if second.is_err() {
            proof {
                lemma_first_bad(texts, 2 * k + 1);
            }
            return second;
        }
        k = k + 1;
    }
    proof {
        assert(texts.len() == 2 * pairs@.len());
    }
    Ok(())
}

} // verus!
