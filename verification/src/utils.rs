//! Word arithmetic: sign extension of narrow fields and the decoding of a
//! big-endian program image.

use vstd::prelude::*;
use vstd::arithmetic::power2::{pow2, lemma2_to64};
use crate::vm::VMError;

verus! {

/// The integer that the low `n` bits of `x` encode in two's complement.
pub open spec fn signed_value(x: u16, n: nat) -> int {
    let low = (x as int) % (pow2(n) as int);
    if low >= pow2((n - 1) as nat) {
        low - pow2(n)
    } else {
        low
    }
}

/// The word that represents an integer modulo 2^16.
pub open spec fn word_of(i: int) -> u16 {
    (i % 0x10000) as u16
}

/// Sign extension as arithmetic: the 16-bit representation of the integer
/// held in the low `n` bits of `x`.
pub open spec fn spec_sign_extend(x: u16, n: nat) -> u16 {
    word_of(signed_value(x, n))
}

proof fn lemma_shift_is_pow2(n: u32)
    requires
        n <= 16,
    ensures
        (1u32 << n) == pow2(n as nat),
{
    lemma2_to64();
    assert((1u32 << 0) == 1 && (1u32 << 1) == 2 && (1u32 << 2) == 4 && (1u32 << 3) == 8 && (1u32
        << 4) == 16 && (1u32 << 5) == 32 && (1u32 << 6) == 64 && (1u32 << 7) == 128 && (1u32 << 8)
        == 256 && (1u32 << 9) == 512 && (1u32 << 10) == 1024 && (1u32 << 11) == 2048 && (1u32
        << 12) == 4096 && (1u32 << 13) == 8192 && (1u32 << 14) == 16384 && (1u32 << 15) == 32768
        && (1u32 << 16) == 65536) by (bit_vector);
}

/// Widens the two's-complement integer in the low `bit_count` bits of `x` to
/// sixteen bits: the bits above the field are copies of its top bit.
pub fn sign_extend(x: u16, bit_count: u8) -> (r: u16)
    requires
        1 <= bit_count <= 16,
    ensures
        r == spec_sign_extend(x, bit_count as nat),
{
    let n: u32 = bit_count as u32;
    let wide: u32 = x as u32;
    let modulus: u32 = 1u32 << n;
    let half: u32 = 1u32 << (n - 1);
    proof {
        lemma_shift_is_pow2(n);
        lemma_shift_is_pow2((n - 1) as u32);
        assert(1 <= n <= 16 ==> (1u32 << n) >= 2 && (1u32 << n) <= 65536 && (1u32 << n) == 2 * (1u32
            << ((n - 1) as u32))) by (bit_vector);
    }
    let low: u32 = wide % modulus;
    if low >= half {
        let r: u32 = low + (0x10000 - modulus);
        proof {
            assert((low - modulus) % 0x10000 == low + 0x10000 - modulus) by {
                vstd::arithmetic::div_mod::lemma_fundamental_div_mod_converse(
                    low - modulus,
                    0x10000,
                    -1,
                    low + 0x10000 - modulus,
                );
            }
        }
        r as u16
    } else {
        low as u16
    }
}

/// The words that a byte sequence holds, two bytes to a word, the high
/// byte first. A last byte without a partner is left out.
pub open spec fn image_words(bytes: Seq<u8>) -> Seq<u16> {
    Seq::new(bytes.len() / 2, |i: int| (bytes[2 * i] * 256 + bytes[2 * i + 1]) as u16)
}

/// A program image is a whole number of words, the first of which is the
/// address at which the rest is to be placed.
pub open spec fn image_ok(bytes: Seq<u8>) -> bool {
    bytes.len() % 2 == 0 && bytes.len() >= 2
}

/// The origin of a program image: its first word.
pub open spec fn image_origin(bytes: Seq<u8>) -> u16 {
    image_words(bytes)[0]
}

/// The words of a program image that go into memory: all but the first.
pub open spec fn image_payload(bytes: Seq<u8>) -> Seq<u16> {
    image_words(bytes).skip(1)
}

/// Memory after `words` have been written one by one to the addresses from
/// `origin` upwards. Addresses count modulo 2^16, so words that run past
/// the last address go on from address zero.
pub open spec fn place_words(mem: Seq<u16>, origin: u16, words: Seq<u16>) -> Seq<u16>
    decreases words.len(),
{
    if words.len() == 0 {
        mem
    } else {
        place_words(mem, origin, words.drop_last()).update(
            (origin + words.len() - 1) % 0x10000,
            words.last(),
        )
    }
}

/// Placing words keeps the size of memory.
pub proof fn lemma_place_words_len(mem: Seq<u16>, origin: u16, words: Seq<u16>)
    requires
        mem.len() == 0x10000,
    ensures
        place_words(mem, origin, words).len() == 0x10000,
    decreases words.len(),
{
    if words.len() > 0 {
        lemma_place_words_len(mem, origin, words.drop_last());
    }
}

/// Words that fit below the end of memory land side by side from the
/// origin on, and every other cell keeps what it held.
pub proof fn lemma_place_words_in_range(mem: Seq<u16>, origin: u16, words: Seq<u16>)
    requires
        mem.len() == 0x10000,
        origin + words.len() <= 0x10000,
    ensures
        place_words(mem, origin, words).len() == 0x10000,
        forall|a: int|
            0 <= a < 0x10000 ==> #[trigger] place_words(mem, origin, words)[a] == (if origin <= a
                < origin + words.len() {
                words[a - origin]
            } else {
                mem[a]
            }),
    decreases words.len(),
{
    if words.len() > 0 {
        lemma_place_words_in_range(mem, origin, words.drop_last());
    }
}

/// Decodes a program image and copies it into `buffer`: the first word
/// names the address of the second, and the rest follow at rising
/// addresses. An image with an odd number of bytes, or without a first
/// word, is refused and `buffer` is left as it was.
pub fn read_file_as_u16(contents: &[u8], buffer: &mut [u16; 65536]) -> (r: Result<(), VMError>)
    ensures
        image_ok(contents@) ==> r is Ok && final(buffer)@ == place_words(
            old(buffer)@,
            image_origin(contents@),
            image_payload(contents@),
        ),
        !image_ok(contents@) ==> r == Err::<(), VMError>(VMError::ImageIOError) && final(buffer)@
            == old(buffer)@,
{
    let len = contents.len();
    if len % 2 != 0 || len < 2 {
        return Err(VMError::ImageIOError);
    }
    let origin = word_at(contents, 0);
    let count = len / 2 - 1;
    let ghost payload = image_payload(contents@);
    let mut address = origin;
    let mut i: usize = 0;
    while i < count
        invariant
            i <= count,
            count == payload.len(),
            len == contents@.len(),
            count + 1 == len / 2,
            payload == image_payload(contents@),
            address == (origin + i) % 0x10000,
            buffer@ == place_words(old(buffer)@, origin, payload.take(i as int)),
        decreases count - i,
    {
        let word = word_at(contents, i + 1);
        proof {
            let next = payload.take(i + 1);
            assert(next.drop_last() =~= payload.take(i as int));
            assert(next.last() == word);
        }
        buffer[address as usize] = word;
        address = address.wrapping_add(1);
        i += 1;
    }
    assert(payload.take(count as int) =~= payload);
    Ok(())
}

/// The `index`-th word of a byte sequence.
fn word_at(contents: &[u8], index: usize) -> (w: u16)
    requires
        2 * index + 1 < contents@.len() <= usize::MAX,
    ensures
        w == image_words(contents@)[index as int],
{
    let high = contents[2 * index] as u16;
    let low = contents[2 * index + 1] as u16;
    high * 256 + low
}

/// The local-mode word of a terminal with line buffering and echo turned
/// off: the bits of `canonical` and `echo` are cleared in `local_modes` and
/// every other bit stays as it is.
pub fn disable_input_buffering(local_modes: u32, canonical: u32, echo: u32) -> (r: u32)
    ensures
        r & canonical == 0,
        r & echo == 0,
        r | (canonical | echo) == local_modes | (canonical | echo),
{
    let r = local_modes & !canonical & !echo;
    assert({
        let r = local_modes & !canonical & !echo;
        &&& r & canonical == 0
        &&& r & echo == 0
        &&& r | (canonical | echo) == local_modes | (canonical | echo)
    }) by (bit_vector);
    r
}

} // verus!
