//! Content fingerprint of a media file: the file size plus the sums of the
//! little-endian 64-bit words of its first and last 64 KiB, modulo 2^64.

use vstd::arithmetic::div_mod::{lemma_add_mod_noop, lemma_mod_equivalence};
use vstd::prelude::*;

verus! {

/// Number of bytes in each of the two windows that the checksum reads.
pub const WINDOW_SIZE: usize = 65536;

/// Number of little-endian words in one window.
pub const WORDS_PER_WINDOW: usize = 8192;

/// Smallest file size that is fingerprinted: two whole windows.
pub const MIN_FILE_SIZE: u64 = 131072;

/// The modulus of 64-bit wrapping arithmetic.
pub open spec fn modulus() -> int {
    0x1_0000_0000_0000_0000
}

/// Length of one little-endian word.
pub const WORD_SIZE: usize = 8;

/// Little-endian value of the eight bytes of `s` that start at `at`.
pub open spec fn le_word(s: Seq<u8>, at: int) -> int {
    s[at] + 0x100 * s[at + 1] + 0x1_0000 * s[at + 2] + 0x100_0000 * s[at + 3]
        + 0x1_0000_0000 * s[at + 4] + 0x100_0000_0000 * s[at + 5]
        + 0x1_0000_0000_0000 * s[at + 6] + 0x100_0000_0000_0000 * s[at + 7]
}

/// Decodes the eight bytes of `bytes` at `at` as a little-endian integer.
pub fn to_u64(bytes: &[u8], at: usize) -> (r: u64)
    requires
        at + WORD_SIZE <= bytes@.len(),
    ensures
        r == le_word(bytes@, at as int),
{
    let b0 = bytes[at];
    let b1 = bytes[at + 1];
    let b2 = bytes[at + 2];
    let b3 = bytes[at + 3];
    let b4 = bytes[at + 4];
    let b5 = bytes[at + 5];
    let b6 = bytes[at + 6];
    let b7 = bytes[at + 7];
    let r: u64 = (b0 as u64) | (b1 as u64) << 8u64 | (b2 as u64) << 16u64 | (b3 as u64) << 24u64
        | (b4 as u64) << 32u64 | (b5 as u64) << 40u64 | (b6 as u64) << 48u64 | (b7 as u64) << 56u64;
    assert(r == b0 + 0x100 * b1 + 0x1_0000 * b2 + 0x100_0000 * b3 + 0x1_0000_0000 * b4
        + 0x100_0000_0000 * b5 + 0x1_0000_0000_0000 * b6 + 0x100_0000_0000_0000 * b7) by (bit_vector)
        requires
            r == (b0 as u64) | (b1 as u64) << 8u64 | (b2 as u64) << 16u64 | (b3 as u64) << 24u64
                | (b4 as u64) << 32u64 | (b5 as u64) << 40u64 | (b6 as u64) << 48u64
                | (b7 as u64) << 56u64,
    ;
    r
}

/// Sum of the first `n` little-endian words of `s`, without wrapping.
pub open spec fn word_sum(s: Seq<u8>, n: nat) -> int
    decreases n,
{
    if n == 0 {
        0
    } else {
        word_sum(s, (n - 1) as nat) + le_word(s, 8 * (n - 1))
    }
}

/// Sum of all the words of one window, without wrapping.
pub open spec fn window_sum(w: Seq<u8>) -> int {
    word_sum(w, WORDS_PER_WINDOW as nat)
}

/// The checksum of a file of `size` bytes whose first and last windows are
/// `first` and `last`.
pub open spec fn checksum_of(size: u64, first: Seq<u8>, last: Seq<u8>) -> u64 {
    ((size + window_sum(first) + window_sum(last)) % modulus()) as u64
}

/// Sum of the words of a window, modulo 2^64.
pub fn checksum_64k(window: &[u8]) -> (r: u64)
    requires
        window@.len() == WINDOW_SIZE,
    ensures
        r == window_sum(window@) % modulus(),
{
    let mut hash: u64 = 0;
    let mut i: usize = 0;
    while i < WORDS_PER_WINDOW
        invariant
            i <= WORDS_PER_WINDOW,
            window@.len() == WINDOW_SIZE,
            hash == word_sum(window@, i as nat) % modulus(),
        decreases WORDS_PER_WINDOW - i,
    {
        let w = to_u64(window, i * WORD_SIZE);
        proof {
            lemma_add_mod_noop(word_sum(window@, i as nat), w as int, modulus());
            assert(word_sum(window@, (i + 1) as nat) == word_sum(window@, i as nat) + w);
        }
        hash = hash.wrapping_add(w);
        i = i + 1;
    }
    hash
}

/// Why a file could not be fingerprinted.
#[derive(Clone, Copy, Debug, PartialEq, Eq, Structural)]
pub enum FingerprintError {
    /// The file could not be examined or opened.
    Io,
    /// The file is smaller than two whole windows.
    FileTooSmall,
    /// A window came back shorter than requested.
    ShortRead,
}

/// The fingerprint of a media file.
#[derive(Clone, Copy, Debug, PartialEq, Eq, Structural)]
pub struct Fingerprint {
    pub file_size: u64,
    pub checksum: u64,
}

/// Fingerprints a file of `file_size` bytes from its first and last
/// `WINDOW_SIZE` bytes.
pub fn compute(file_size: u64, first: &[u8], last: &[u8]) -> (r: Result<
    Fingerprint,
    FingerprintError,
>)
    ensures
        file_size < MIN_FILE_SIZE ==> r == Err::<Fingerprint, FingerprintError>(
            FingerprintError::FileTooSmall,
        ),
        file_size >= MIN_FILE_SIZE && (first@.len() != WINDOW_SIZE || last@.len() != WINDOW_SIZE)
            ==> r == Err::<Fingerprint, FingerprintError>(FingerprintError::ShortRead),
        file_size >= MIN_FILE_SIZE && first@.len() == WINDOW_SIZE && last@.len() == WINDOW_SIZE
            ==> r == Ok::<Fingerprint, FingerprintError>(
            Fingerprint { file_size, checksum: checksum_of(file_size, first@, last@) },
        ),
{
    if file_size < MIN_FILE_SIZE {
        return Err(FingerprintError::FileTooSmall);
    }
    if first.len() != WINDOW_SIZE || last.len() != WINDOW_SIZE {
        return Err(FingerprintError::ShortRead);
    }
    let head = checksum_64k(first);
    let tail = checksum_64k(last);
    let checksum = file_size.wrapping_add(head).wrapping_add(tail);
    proof {
        let (a, b) = (window_sum(first@), window_sum(last@));
        lemma_add_mod_noop(file_size as int, a, modulus());
        lemma_add_mod_noop(file_size + a, b, modulus());
        lemma_add_mod_noop((file_size + a) % modulus(), b, modulus());
    }
    Ok(Fingerprint { file_size, checksum })
}

/// The lowercase hexadecimal digit of `d`, for `d < 16`.
pub open spec fn hex_digit(d: int) -> char {
    if d < 10 {
        ((48 + d) as u8) as char
    } else {
        ((87 + d) as u8) as char
    }
}

/// The last `n` hexadecimal digits of `v`, most significant first.
pub open spec fn hex_text(v: nat, n: nat) -> Seq<char>
    decreases n,
{
    if n == 0 {
        Seq::empty()
    } else {
        hex_text(v / 16, (n - 1) as nat).push(hex_digit((v % 16) as int))
    }
}

/// `v` as sixteen lowercase hexadecimal digits, zero-padded.
pub open spec fn hex16(v: u64) -> Seq<char> {
    hex_text(v as nat, 16)
}

pub(crate) fn digit_char(d: u64) -> (c: char)
    requires
        d < 16,
    ensures
        c == hex_digit(d as int),
{
    if d < 10 {
        ((48 + d) as u8) as char
    } else {
        ((87 + d) as u8) as char
    }
}

/// Appends the last `n` hexadecimal digits of `v` to `out`.
fn push_hex(out: &mut String, v: u64, n: usize)
    ensures
        final(out)@ == old(out)@ + hex_text(v as nat, n as nat),
    decreases n,
{
    if n > 0 {
        push_hex(out, v / 16, n - 1);
        out.push(digit_char(v % 16));
        assert(out@ =~= old(out)@ + hex_text(v as nat, n as nat));
    }
}

/// Relies on `String::push`: the character is appended at the end.
pub assume_specification[ String::push ](s: &mut String, ch: char)
    ensures
        final(s)@ == old(s)@.push(ch),
;

impl Fingerprint {
    /// The checksum as sixteen lowercase hexadecimal digits.
    pub fn hex(&self) -> (r: String)
        ensures
            r@ == hex16(self.checksum),
    {
        let mut out = String::new();
        push_hex(&mut out, self.checksum, 16);
        out
    }
}

/// The weight of byte `k` of a little-endian word: 256 to the power `k`.
pub open spec fn byte_weight(k: int) -> int {
    if k == 0 {
        1
    } else if k == 1 {
        0x100
    } else if k == 2 {
        0x1_0000
    } else if k == 3 {
        0x100_0000
    } else if k == 4 {
        0x1_0000_0000
    } else if k == 5 {
        0x100_0000_0000
    } else if k == 6 {
        0x1_0000_0000_0000
    } else {
        0x100_0000_0000_0000
    }
}

/// Setting byte `i` to `v` moves the sum of the first `n` words by the
/// change of that byte times its weight, or not at all if the byte lies
/// beyond them.
proof fn lemma_word_sum_update(s: Seq<u8>, i: int, v: u8, n: nat)
    requires
        0 <= i < s.len(),
        8 * n <= s.len(),
    ensures
        word_sum(s.update(i, v), n) - word_sum(s, n) == if i < 8 * n {
            (v - s[i]) * byte_weight(i % 8)
        } else {
            0
        },
    decreases n,
{
    if n > 0 {
        let t = s.update(i, v);
        let at = 8 * (n - 1);
        lemma_word_sum_update(s, i, v, (n - 1) as nat);
        if at <= i < at + 8 {
            assert(i % 8 == i - at);
            assert(le_word(t, at) - le_word(s, at) == (v - s[i]) * byte_weight(i - at));
        } else {
            assert(le_word(t, at) == le_word(s, at));
        }
    }
}

/// Changing a single byte of either window changes the checksum.
pub proof fn lemma_single_byte_change(size: u64, first: Seq<u8>, last: Seq<u8>, i: int, v: u8)
    requires
        first.len() == WINDOW_SIZE,
        last.len() == WINDOW_SIZE,
        0 <= i < WINDOW_SIZE,
    ensures
        v != first[i] ==> checksum_of(size, first.update(i, v), last) != checksum_of(
            size,
            first,
            last,
        ),
        v != last[i] ==> checksum_of(size, first, last.update(i, v)) != checksum_of(
            size,
            first,
            last,
        ),
{
    let x = size + window_sum(first) + window_sum(last);
    lemma_word_sum_update(first, i, v, WORDS_PER_WINDOW as nat);
    lemma_word_sum_update(last, i, v, WORDS_PER_WINDOW as nat);
    let k = i % 8;
    assert(0 < byte_weight(k) <= 0x100_0000_0000_0000);
    let d1 = (v - first[i]) * byte_weight(k);
    let d2 = (v - last[i]) * byte_weight(k);
    assert(-0x100 * byte_weight(k) < d1 < 0x100 * byte_weight(k)) by (nonlinear_arith)
        requires
            d1 == (v - first[i]) * byte_weight(k),
            -0x100 < v - first[i] < 0x100,
            byte_weight(k) > 0,
    ;
    assert(-0x100 * byte_weight(k) < d2 < 0x100 * byte_weight(k)) by (nonlinear_arith)
        requires
            d2 == (v - last[i]) * byte_weight(k),
            -0x100 < v - last[i] < 0x100,
            byte_weight(k) > 0,
    ;
    if v != first[i] {
        assert(d1 != 0) by (nonlinear_arith)
            requires
                d1 == (v - first[i]) * byte_weight(k),
                v - first[i] != 0,
                byte_weight(k) > 0,
        ;
        lemma_mod_equivalence(x + d1, x, modulus());
    }
    if v != last[i] {
        assert(d2 != 0) by (nonlinear_arith)
            requires
                d2 == (v - last[i]) * byte_weight(k),
                v - last[i] != 0,
                byte_weight(k) > 0,
        ;
        lemma_mod_equivalence(x + d2, x, modulus());
    }
}

/// The fingerprint text depends on the file size and the two windows alone,
/// and is always sixteen characters long.
pub proof fn lemma_fingerprint_deterministic(
    size: u64,
    first: Seq<u8>,
    last: Seq<u8>,
    first_again: Seq<u8>,
    last_again: Seq<u8>,
)
    requires
        first == first_again,
        last == last_again,
    ensures
        hex16(checksum_of(size, first, last)) == hex16(checksum_of(size, first_again, last_again)),
        hex16(checksum_of(size, first, last)).len() == 16,
{
    lemma_hex_text_len(checksum_of(size, first, last) as nat, 16);
}

proof fn lemma_hex_text_len(v: nat, n: nat)
    ensures
        hex_text(v, n).len() == n,
    decreases n,
{
    if n > 0 {
        lemma_hex_text_len(v / 16, (n - 1) as nat);
    }
}

} // verus!
