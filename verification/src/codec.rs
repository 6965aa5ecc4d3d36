//! Ethereum-ABI-style tuple codec.
//!
//! Every field of a payload tuple occupies one 32-byte head word: static
//! fields (unsigned integers) hold their value big-endian, left-padded with
//! zeroes; dynamic fields (strings, byte strings, arrays) hold the byte
//! offset, from the start of the tuple region, of their out-of-line data.
//! The out-of-line data is a 32-byte big-endian length word followed by the
//! payload, right-padded with zeroes to the next 32-byte boundary.

use vstd::prelude::*;
use vstd::arithmetic::div_mod::{lemma_div_denominator, lemma_fundamental_div_mod};

verus! {

// ---------------------------------------------------------------------------
// 32-byte big-endian words
// ---------------------------------------------------------------------------

/// Powers of 256, the base of the byte representation.
pub open spec fn pow256(k: nat) -> nat
    decreases k,
{
    if k == 0 {
        1
    } else {
        256 * pow256((k - 1) as nat)
    }
}

/// The unsigned value of a big-endian byte string (most significant first).
pub open spec fn word_val(s: Seq<u8>) -> nat
    decreases s.len(),
{
    if s.len() == 0 {
        0
    } else {
        (word_val(s.drop_last()) * 256 + s.last()) as nat
    }
}

/// The canonical 32-byte big-endian image of a value.
pub open spec fn word_of(v: nat) -> Seq<u8> {
    Seq::new(32, |i: int| ((v / pow256((31 - i) as nat)) % 256) as u8)
}

pub proof fn lemma_pow256_pos(k: nat)
    ensures
        pow256(k) >= 1,
    decreases k,
{
    if k > 0 {
        lemma_pow256_pos((k - 1) as nat);
    }
}

pub proof fn lemma_pow256_increases(j: nat, k: nat)
    requires
        j <= k,
    ensures
        pow256(j) <= pow256(k),
    decreases k,
{
    if j < k {
        lemma_pow256_increases(j, (k - 1) as nat);
        lemma_pow256_pos((k - 1) as nat);
    }
}

pub proof fn lemma_pow256_adds(j: nat, k: nat)
    ensures
        pow256(j + k) == pow256(j) * pow256(k),
    decreases j,
{
    if j == 0 {
        assert(pow256(j) == 1);
        assert(j + k == k);
        assert(pow256(j + k) == pow256(k));
    } else {
        lemma_pow256_adds((j - 1) as nat, k);
        let a = pow256((j - 1) as nat);
        let b = pow256(k);
        assert(pow256(j + k) == 256 * pow256((j - 1) as nat + k));
        assert(256 * (a * b) == (256 * a) * b) by (nonlinear_arith);
        assert(pow256(j) == 256 * a);
        assert(pow256(j + k) == 256 * (a * b));
        assert(pow256(j + k) == pow256(j) * b);
    }
}

/// 2^128 == 256^16: every `u128` value fits in sixteen bytes.
pub proof fn lemma_pow256_16()
    ensures
        pow256(16) == 0x1_0000_0000_0000_0000_0000_0000_0000_0000,
{
    reveal_with_fuel(pow256, 17);
}

/// A byte string of zeroes has value zero.
pub proof fn lemma_word_val_zero(s: Seq<u8>)
    requires
        forall|j: int| 0 <= j < s.len() ==> s[j] == 0,
    ensures
        word_val(s) == 0,
    decreases s.len(),
{
    if s.len() > 0 {
        lemma_word_val_zero(s.drop_last());
    }
}

/// The value of a byte string is below 256^length.
pub proof fn lemma_word_val_bound(s: Seq<u8>)
    ensures
        word_val(s) < pow256(s.len()),
    decreases s.len(),
{
    if s.len() == 0 {
    } else {
        lemma_word_val_bound(s.drop_last());
        assert(word_val(s.drop_last()) * 256 + 255 < pow256((s.len() - 1) as nat) * 256)
            by (nonlinear_arith)
            requires
                word_val(s.drop_last()) < pow256((s.len() - 1) as nat),
        ;
        assert(pow256((s.len() - 1) as nat) * 256 == pow256(s.len())) by {
            lemma_pow256_adds((s.len() - 1) as nat, 1);
        }
    }
}

/// Peeling one byte off the front: `word_val(take(n + 1))` in terms of
/// `word_val(take(n))`.
pub proof fn lemma_word_val_take_step(s: Seq<u8>, n: int)
    requires
        0 <= n < s.len(),
    ensures
        word_val(s.take(n + 1)) == word_val(s.take(n)) * 256 + s[n],
{
    assert(s.take(n + 1).drop_last() =~= s.take(n));
    assert(s.take(n + 1).last() == s[n]);
}

/// For the canonical image `word_of(v)`, the first `n` bytes spell out
/// `v / 256^(32-n)`.
proof fn lemma_word_of_take(v: nat, n: int)
    requires
        v < pow256(16),
        0 <= n <= 32,
    ensures
        word_val(word_of(v).take(n)) == v / pow256((32 - n) as nat),
    decreases n,
{
    if n == 0 {
        lemma_pow256_increases(16, 32);
        assert(v / pow256(32) == 0) by {
            lemma_pow256_pos(32);
            vstd::arithmetic::div_mod::lemma_basic_div(v as int, pow256(32) as int);
        }
    } else {
        lemma_word_of_take(v, n - 1);
        lemma_word_val_take_step(word_of(v), n - 1);
        let q = v / pow256((32 - n) as nat);
        // v / 256^(33-n) == (v / 256^(32-n)) / 256
        assert(pow256((33 - n) as nat) == pow256((32 - n) as nat) * 256) by {
            lemma_pow256_adds((32 - n) as nat, 1);
        }
        lemma_pow256_pos((32 - n) as nat);
        lemma_div_denominator(v as int, pow256((32 - n) as nat) as int, 256);
        assert(word_val(word_of(v).take(n)) == (q / 256) * 256 + q % 256);
        lemma_fundamental_div_mod(q as int, 256);
    }
}

/// Reading back the canonical image of `v` gives `v`.
pub proof fn lemma_word_roundtrip(v: nat)
    requires
        v < pow256(16),
    ensures
        word_val(word_of(v)) == v,
{
    lemma_word_of_take(v, 32);
    assert(word_of(v).take(32) =~= word_of(v));
    assert(pow256(0) == 1);
    vstd::arithmetic::div_mod::lemma_div_basics(v as int);
}

/// 256^k as a machine integer, for k small enough to fit.
pub(crate) fn pow256_u128(k: usize) -> (d: u128)
    requires
        k <= 15,
    ensures
        d as nat == pow256(k as nat),
{
    let mut d: u128 = 1;
    let mut j: usize = 0;
    while j < k
        invariant
            j <= k <= 15,
            d as nat == pow256(j as nat),
        decreases k - j,
    {
        proof {
            lemma_pow256_increases((j + 1) as nat, 15);
            reveal_with_fuel(pow256, 16);
        }
        d = d * 256;
        j += 1;
    }
    d
}

/// Appends the 32-byte big-endian image of `v` to `out`.
pub fn push_word(out: &mut Vec<u8>, v: u128)
    requires
        old(out)@.len() + 32 <= usize::MAX,
    ensures
        final(out)@ == old(out)@ + word_of(v as nat),
        final(out)@.len() == old(out)@.len() + 32,
{
    proof {
        lemma_pow256_16();
    }
    let ghost prefix = out@;
    let mut i: usize = 0;
    while i < 32
        invariant
            i <= 32,
            prefix.len() + 32 <= usize::MAX,
            out@.len() == prefix.len() + i,
            v < pow256(16),
            forall|j: int| 0 <= j < prefix.len() ==> out@[j] == prefix[j],
            forall|j: int|
                prefix.len() <= j < out@.len() ==> out@[j] == word_of(v as nat)[j - prefix.len()],
        decreases 32 - i,
    {
        let b: u8 = if i < 16 {
            proof {
                // the top sixteen bytes of a u128 word are zero
                lemma_pow256_increases(16, (31 - i) as nat);
                lemma_pow256_pos((31 - i) as nat);
                vstd::arithmetic::div_mod::lemma_basic_div(
                    v as int,
                    pow256((31 - i) as nat) as int,
                );
            }
            0u8
        } else {
            let d = pow256_u128(31 - i);
            proof {
                lemma_pow256_pos((31 - i) as nat);
            }
            ((v / d) % 256) as u8
        };
        out.push(b);
        i += 1;
    }
    assert(out@ =~= prefix + word_of(v as nat));
}

/// Appends a copy of `s` to `out`.
pub fn push_bytes(out: &mut Vec<u8>, s: &Vec<u8>)
    requires
        old(out)@.len() + s@.len() <= usize::MAX,
    ensures
        final(out)@ == old(out)@ + s@,
{
    let ghost prefix = out@;
    let n = s.len();
    let mut i: usize = 0;
    while i < n
        invariant
            i <= n,
            n == s@.len(),
            prefix.len() + n <= usize::MAX,
            out@ == prefix + s@.take(i as int),
        decreases n - i,
    {
        out.push(s[i]);
        assert(out@ =~= prefix + s@.take(i + 1));
        i += 1;
    }
    assert(out@ =~= prefix + s@);
}

/// Appends `k` zero bytes to `out`.
pub fn push_zeros(out: &mut Vec<u8>, k: usize)
    requires
        old(out)@.len() + k <= usize::MAX,
    ensures
        final(out)@ == old(out)@ + zeros(k as nat),
{
    let ghost prefix = out@;
    let mut i: usize = 0;
    while i < k
        invariant
            i <= k,
            prefix.len() + k <= usize::MAX,
            out@ == prefix + zeros(i as nat),
        decreases k - i,
    {
        out.push(0u8);
        assert(out@ =~= prefix + zeros((i + 1) as nat));
        i += 1;
    }
}

// ---------------------------------------------------------------------------
// Tokens and type descriptors
// ---------------------------------------------------------------------------

/// A type descriptor for one field of a payload tuple.  Wide wire integers
/// are narrowed to the native widths the contracts use; decoding checks the
/// narrowing and fails loudly on overflow.
#[derive(Clone, Copy, PartialEq, Eq, Debug)]
pub enum Ty {
    /// A 256-bit wire word narrowed to `u64`.
    U64,
    /// A 256-bit wire word narrowed to `u128`.
    U128,
    /// A 256-bit wire word kept at full width, narrowed to `u128` on decode.
    U256,
    /// A dynamic UTF-8 string, carried as its raw bytes.
    Str,
    /// A dynamic byte string.
    Bytes,
    /// A dynamic array of 256-bit words, each narrowed to `u128`.
    U256Arr,
}

/// One field value of a payload tuple.
#[derive(Clone, PartialEq, Eq, Debug)]
pub enum Tok {
    Uint(u128),
    Str(Vec<u8>),
    Bytes(Vec<u8>),
    UintArr(Vec<u128>),
}

/// The mathematical image of a [`Tok`].
pub ghost enum TokV {
    Uint(u128),
    Str(Seq<u8>),
    Bytes(Seq<u8>),
    UintArr(Seq<u128>),
}

impl View for Tok {
    type V = TokV;

    open spec fn view(&self) -> TokV {
        match self {
            Tok::Uint(v) => TokV::Uint(*v),
            Tok::Str(s) => TokV::Str(s@),
            Tok::Bytes(b) => TokV::Bytes(b@),
            Tok::UintArr(vs) => TokV::UintArr(vs@),
        }
    }
}

/// The element-wise mathematical image of a token vector.
pub open spec fn toks_view(ts: Seq<Tok>) -> Seq<TokV> {
    Seq::new(ts.len(), |i: int| ts[i]@)
}

pub open spec fn zeros(n: nat) -> Seq<u8> {
    Seq::new(n, |i: int| 0u8)
}

/// Zero bytes needed to pad `n` bytes to a 32-byte boundary.
pub open spec fn pad_len(n: nat) -> nat {
    ((32 - (n % 32)) % 32) as nat
}

/// The concatenated 32-byte words of an integer array.
pub open spec fn words_of(vs: Seq<u128>) -> Seq<u8>
    decreases vs.len(),
{
    if vs.len() == 0 {
        Seq::empty()
    } else {
        words_of(vs.drop_last()) + word_of(vs.last() as nat)
    }
}

/// The out-of-line (tail) bytes of one token: a length word followed by the
/// padded payload for strings and byte strings, a length word followed by the
/// element words for arrays, and nothing for integers.
pub open spec fn tail_of(t: TokV) -> Seq<u8> {
    match t {
        TokV::Uint(_) => Seq::empty(),
        TokV::Str(s) => word_of(s.len()) + s + zeros(pad_len(s.len())),
        TokV::Bytes(s) => word_of(s.len()) + s + zeros(pad_len(s.len())),
        TokV::UintArr(vs) => word_of(vs.len()) + words_of(vs),
    }
}

/// The concatenated tails of the first `i` tokens.
pub open spec fn tails_upto(tv: Seq<TokV>, i: int) -> Seq<u8>
    decreases i,
{
    if i <= 0 {
        Seq::empty()
    } else {
        tails_upto(tv, i - 1) + tail_of(tv[i - 1])
    }
}

/// The head word of token `i`: the value itself for a static token, the
/// offset of its tail (from the start of the encoding) for a dynamic one.
pub open spec fn head_word(tv: Seq<TokV>, i: int) -> Seq<u8> {
    match tv[i] {
        TokV::Uint(v) => word_of(v as nat),
        _ => word_of(32 * tv.len() + tails_upto(tv, i).len()),
    }
}

/// The concatenated head words of the first `i` tokens.
pub open spec fn heads_upto(tv: Seq<TokV>, i: int) -> Seq<u8>
    decreases i,
{
    if i <= 0 {
        Seq::empty()
    } else {
        heads_upto(tv, i - 1) + head_word(tv, i - 1)
    }
}

/// The ABI encoding of a payload tuple: the head region followed by the tail
/// region.
pub open spec fn spec_encode(tv: Seq<TokV>) -> Seq<u8> {
    heads_upto(tv, tv.len() as int) + tails_upto(tv, tv.len() as int)
}

pub proof fn lemma_heads_upto_len(tv: Seq<TokV>, i: int)
    requires
        0 <= i <= tv.len(),
    ensures
        heads_upto(tv, i).len() == 32 * i,
    decreases i,
{
    if i > 0 {
        lemma_heads_upto_len(tv, i - 1);
        lemma_head_word_len(tv, i - 1);
    }
}

pub proof fn lemma_head_word_len(tv: Seq<TokV>, i: int)
    ensures
        head_word(tv, i).len() == 32,
{
}

pub proof fn lemma_words_of_len(vs: Seq<u128>)
    ensures
        words_of(vs).len() == 32 * vs.len(),
    decreases vs.len(),
{
    if vs.len() > 0 {
        lemma_words_of_len(vs.drop_last());
    }
}

/// Tail lengths grow with the number of tokens taken.
pub proof fn lemma_tails_upto_le(tv: Seq<TokV>, i: int, j: int)
    requires
        0 <= i <= j,
    ensures
        tails_upto(tv, i).len() <= tails_upto(tv, j).len(),
    decreases j - i,
{
    if i < j {
        lemma_tails_upto_le(tv, i, j - 1);
    }
}

/// Encodes a payload tuple.
///
/// The encoding is the Ethereum ABI tuple encoding: it reproduces, byte for
/// byte, what an EVM-side encoder would produce for the same fields.
pub fn encode(toks: &Vec<Tok>) -> (out: Vec<u8>)
    requires
        spec_encode(toks_view(toks@)).len() <= usize::MAX,
    ensures
        out@ == spec_encode(toks_view(toks@)),
{
    let ghost tv = toks_view(toks@);
    let n = toks.len();
    let ghost total = spec_encode(tv).len();
    proof {
        lemma_heads_upto_len(tv, n as int);
    }
    let mut heads: Vec<u8> = Vec::new();
    let mut tails: Vec<u8> = Vec::new();
    let mut i: usize = 0;
    while i < n
        invariant
            i <= n,
            n == toks@.len(),
            tv == toks_view(toks@),
            total == spec_encode(tv).len(),
            total <= usize::MAX,
            total == 32 * n + tails_upto(tv, n as int).len(),
            heads@ == heads_upto(tv, i as int),
            tails@ == tails_upto(tv, i as int),
        decreases n - i,
    {
        proof {
            lemma_heads_upto_len(tv, i as int);
            lemma_tails_upto_le(tv, i as int, n as int);
            lemma_tails_upto_le(tv, i as int + 1, n as int);
            assert(tv[i as int] == toks@[i as int]@);
        }
        // head word
        match &toks[i] {
            Tok::Uint(v) => {
                push_word(&mut heads, *v);
            },
            _ => {
                let offset: usize = 32 * n + tails.len();
                push_word(&mut heads, offset as u128);
            },
        }
        assert(heads@ =~= heads_upto(tv, i as int + 1));
        // tail bytes
        match &toks[i] {
            Tok::Uint(_) => {},
            Tok::Str(s) => {
                push_dyn_bytes(&mut tails, s, Ghost(tv), Ghost(i as int), Ghost(total), Ghost(n as nat));
            },
            Tok::Bytes(s) => {
                push_dyn_bytes(&mut tails, s, Ghost(tv), Ghost(i as int), Ghost(total), Ghost(n as nat));
            },
            Tok::UintArr(vs) => {
                push_arr_tail(&mut tails, vs, Ghost(tv), Ghost(i as int), Ghost(total), Ghost(n as nat));
            },
        }
        assert(tails@ =~= tails_upto(tv, i as int + 1));
        i += 1;
    }
    heads.append(&mut tails);
    assert(heads@ =~= spec_encode(tv));
    heads
}

/// Appends the tail of a string or byte-string token: length word, payload,
/// zero padding to the next word boundary.
fn push_dyn_bytes(
    tails: &mut Vec<u8>,
    s: &Vec<u8>,
    Ghost(tv): Ghost<Seq<TokV>>,
    Ghost(i): Ghost<int>,
    Ghost(total): Ghost<nat>,
    Ghost(n): Ghost<nat>,
)
    requires
        0 <= i < tv.len(),
        n == tv.len(),
        tv[i] == TokV::Str(s@) || tv[i] == TokV::Bytes(s@),
        old(tails)@ == tails_upto(tv, i),
        total == 32 * n + tails_upto(tv, n as int).len(),
        total <= usize::MAX,
    ensures
        final(tails)@ == tails_upto(tv, i + 1),
{
    proof {
        lemma_tails_upto_le(tv, i + 1, n as int);
    }
    assert(tails_upto(tv, i + 1).len() == tails_upto(tv, i).len() + 32 + s@.len() + pad_len(
        s@.len(),
    ));
    let len = s.len();
    push_word(tails, len as u128);
    push_bytes(tails, s);
    let pad: usize = (32 - (len % 32)) % 32;
    assert(pad as nat == pad_len(s@.len()));
    push_zeros(tails, pad);
    assert(tails@ =~= tails_upto(tv, i + 1));
}

/// Appends the tail of an integer-array token: length word, then one word
/// per element.
fn push_arr_tail(
    tails: &mut Vec<u8>,
    vs: &Vec<u128>,
    Ghost(tv): Ghost<Seq<TokV>>,
    Ghost(i): Ghost<int>,
    Ghost(total): Ghost<nat>,
    Ghost(n): Ghost<nat>,
)
    requires
        0 <= i < tv.len(),
        n == tv.len(),
        tv[i] == TokV::UintArr(vs@),
        old(tails)@ == tails_upto(tv, i),
        total == 32 * n + tails_upto(tv, n as int).len(),
        total <= usize::MAX,
    ensures
        final(tails)@ == tails_upto(tv, i + 1),
{
    proof {
        lemma_tails_upto_le(tv, i + 1, n as int);
        lemma_words_of_len(vs@);
    }
    assert(tails_upto(tv, i + 1).len() == tails_upto(tv, i).len() + 32 + 32 * vs@.len());
    let ghost base = tails@;
    let m = vs.len();
    push_word(tails, m as u128);
    let mut j: usize = 0;
    while j < m
        invariant
            j <= m,
            m == vs@.len(),
            base.len() + 32 + 32 * m <= usize::MAX,
            tails@ == base + word_of(m as nat) + words_of(vs@.take(j as int)),
        decreases m - j,
    {
        proof {
            lemma_words_of_len(vs@.take(j as int));
        }
        push_word(tails, vs[j]);
        proof {
            assert(vs@.take(j + 1).drop_last() =~= vs@.take(j as int));
            assert(vs@.take(j + 1).last() == vs@[j as int]);
            assert(words_of(vs@.take(j + 1)) == words_of(vs@.take(j as int)) + word_of(
                vs@[j as int] as nat,
            ));
        }
        assert(tails@ =~= base + word_of(m as nat) + words_of(vs@.take(j + 1)));
        j += 1;
    }
    assert(vs@.take(m as int) =~= vs@);
    assert(tails@ =~= tails_upto(tv, i + 1));
}

// ---------------------------------------------------------------------------
// Decoding
// ---------------------------------------------------------------------------

/// Why a byte string failed to decode against a schema.
#[derive(Clone, Copy, PartialEq, Eq, Structural, Debug)]
pub enum DecodeError {
    /// The byte length is insufficient for the declared schema's head words.
    Truncated,
    /// A dynamic field's offset word points outside the buffer.
    OffsetOutOfRange,
    /// A dynamic field's declared length exceeds the remaining buffer.
    LengthOutOfRange,
    /// A numeric field does not fit the target native width.
    NarrowingOverflow,
}

/// The string or byte-string tail at offset `off`: length word, then that
/// many payload bytes.
pub open spec fn spec_dec_bytes(data: Seq<u8>, off: nat) -> Result<Seq<u8>, DecodeError> {
    if off + 32 > data.len() {
        Err(DecodeError::OffsetOutOfRange)
    } else {
        let l = word_val(data.subrange(off as int, off as int + 32));
        if off + 32 + l > data.len() {
            Err(DecodeError::LengthOutOfRange)
        } else {
            Ok(data.subrange(off as int + 32, off as int + 32 + l))
        }
    }
}

/// The array tail at offset `off`: length word, then one 32-byte element
/// word per entry, each required to fit `u128`.
pub open spec fn spec_dec_arr(data: Seq<u8>, off: nat) -> Result<Seq<u128>, DecodeError> {
    if off + 32 > data.len() {
        Err(DecodeError::OffsetOutOfRange)
    } else {
        let l = word_val(data.subrange(off as int, off as int + 32));
        if off + 32 + 32 * l > data.len() {
            Err(DecodeError::LengthOutOfRange)
        } else if exists|j: int|
            0 <= j < l && word_val(
                #[trigger] data.subrange(off as int + 32 + 32 * j, off as int + 64 + 32 * j),
            ) >= pow256(16) {
            Err(DecodeError::NarrowingOverflow)
        } else {
            Ok(
                Seq::new(
                    l,
                    |j: int| word_val(data.subrange(off as int + 32 + 32 * j, off as int + 64 + 32 * j)) as u128,
                ),
            )
        }
    }
}

/// Field `i` of the tuple, decoded against its type descriptor.  Fields are
/// independent of one another: each reads its own head word and, for dynamic
/// types, follows the offset stored there.
pub open spec fn spec_dec_field(ty: Ty, data: Seq<u8>, i: int) -> Result<TokV, DecodeError> {
    if data.len() < 32 * (i + 1) {
        Err(DecodeError::Truncated)
    } else {
        let w = word_val(data.subrange(32 * i, 32 * i + 32));
        match ty {
            Ty::U64 => if w < 0x1_0000_0000_0000_0000 {
                Ok(TokV::Uint(w as u128))
            } else {
                Err(DecodeError::NarrowingOverflow)
            },
            Ty::U128 => if w < pow256(16) {
                Ok(TokV::Uint(w as u128))
            } else {
                Err(DecodeError::NarrowingOverflow)
            },
            Ty::U256 => if w < pow256(16) {
                Ok(TokV::Uint(w as u128))
            } else {
                Err(DecodeError::NarrowingOverflow)
            },
            Ty::Str => match spec_dec_bytes(data, w) {
                Ok(s) => Ok(TokV::Str(s)),
                Err(e) => Err(e),
            },
            Ty::Bytes => match spec_dec_bytes(data, w) {
                Ok(s) => Ok(TokV::Bytes(s)),
                Err(e) => Err(e),
            },
            Ty::U256Arr => match spec_dec_arr(data, w) {
                Ok(vs) => Ok(TokV::UintArr(vs)),
                Err(e) => Err(e),
            },
        }
    }
}

/// Decoding from field `i` on: the first failing field's error, or the
/// sequence of all decoded fields.
pub open spec fn spec_decode_from(schema: Seq<Ty>, data: Seq<u8>, i: int) -> Result<
    Seq<TokV>,
    DecodeError,
>
    decreases schema.len() - i,
{
    if i < 0 || i >= schema.len() {
        Ok(Seq::empty())
    } else {
        match spec_dec_field(schema[i], data, i) {
            Err(e) => Err(e),
            Ok(t) => match spec_decode_from(schema, data, i + 1) {
                Err(e) => Err(e),
                Ok(rest) => Ok(seq![t] + rest),
            },
        }
    }
}

/// The decoding of `data` against `schema`.
pub open spec fn spec_decode(schema: Seq<Ty>, data: Seq<u8>) -> Result<Seq<TokV>, DecodeError> {
    spec_decode_from(schema, data, 0)
}

/// If every field from `i` on decodes, the whole suffix decodes to those
/// fields.
proof fn lemma_decode_from_ok(schema: Seq<Ty>, data: Seq<u8>, i: int, tv: Seq<TokV>)
    requires
        0 <= i <= schema.len(),
        tv.len() == schema.len() - i,
        forall|j: int|
            i <= j < schema.len() ==> spec_dec_field(schema[j], data, j) == Ok::<
                TokV,
                DecodeError,
            >(tv[j - i]),
    ensures
        spec_decode_from(schema, data, i) == Ok::<Seq<TokV>, DecodeError>(tv),
    decreases schema.len() - i,
{
    if i == schema.len() {
        assert(tv =~= Seq::<TokV>::empty());
    } else {
        lemma_decode_from_ok(schema, data, i + 1, tv.skip(1));
        assert(seq![tv[0]] + tv.skip(1) =~= tv);
    }
}

/// If the fields before `k` decode and field `k` fails with `e`, the whole
/// decoding fails with `e`.
proof fn lemma_decode_from_err(schema: Seq<Ty>, data: Seq<u8>, i: int, k: int, e: DecodeError)
    requires
        0 <= i <= k < schema.len(),
        spec_dec_field(schema[k], data, k) == Err::<TokV, DecodeError>(e),
        forall|j: int| i <= j < k ==> !(spec_dec_field(schema[j], data, j) is Err),
    ensures
        spec_decode_from(schema, data, i) == Err::<Seq<TokV>, DecodeError>(e),
    decreases k - i,
{
    if i < k {
        lemma_decode_from_err(schema, data, i + 1, k, e);
    }
}

/// Copies `data[start..end]`.
pub fn bytes_range(data: &Vec<u8>, start: usize, end: usize) -> (r: Vec<u8>)
    requires
        start <= end <= data@.len(),
    ensures
        r@ == data@.subrange(start as int, end as int),
{
    let mut r: Vec<u8> = Vec::new();
    let mut i: usize = start;
    while i < end
        invariant
            start <= i <= end <= data@.len(),
            r@ == data@.subrange(start as int, i as int),
        decreases end - i,
    {
        r.push(data[i]);
        assert(r@ =~= data@.subrange(start as int, i + 1));
        i += 1;
    }
    r
}

/// The lower bound a single byte puts on the whole word's value.
proof fn lemma_word_val_byte_lower(s: Seq<u8>, j: int)
    requires
        0 <= j < s.len(),
    ensures
        word_val(s) >= s[j] * pow256((s.len() - 1 - j) as nat),
    decreases s.len(),
{
    if j == s.len() - 1 {
        let pw = pow256((s.len() - 1 - j) as nat);
        assert(pw == 1);
        assert(s[j] == s.last());
        assert(word_val(s) >= s.last());
        assert(s[j] * pw == s[j] * 1);
        assert(s[j] * 1 == s[j]);
    } else {
        lemma_word_val_byte_lower(s.drop_last(), j);
        let p = pow256((s.len() - 2 - j) as nat);
        assert(s.drop_last()[j] == s[j]);
        assert(word_val(s.drop_last()) >= s[j] * p);
        assert(word_val(s) >= word_val(s.drop_last()) * 256);
        assert((s[j] * p) * 256 == s[j] * (p * 256)) by (nonlinear_arith);
        assert(word_val(s.drop_last()) * 256 >= (s[j] * p) * 256) by (nonlinear_arith)
            requires
                word_val(s.drop_last()) >= s[j] * p,
        ;
        lemma_pow256_adds((s.len() - 2 - j) as nat, 1);
        assert(pow256(0) == 1);
        assert(pow256(1) == 256);
        assert(p * 256 == pow256((s.len() - 1 - j) as nat));
        assert(word_val(s) >= s[j] * (p * 256));
        assert(s[j] * (p * 256) == s[j] * pow256((s.len() - 1 - j) as nat));
    }
}

/// Reads the 32-byte word at `off`, if its value fits a `u128`.
pub(crate) fn word_at(data: &Vec<u8>, off: usize) -> (r: Option<u128>)
    requires
        off + 32 <= data@.len(),
    ensures
        match r {
            Some(v) => v as nat == word_val(data@.subrange(off as int, off as int + 32)),
            None => word_val(data@.subrange(off as int, off as int + 32)) >= pow256(16),
        },
{
    let ghost w = data@.subrange(off as int, off as int + 32);
    proof {
        lemma_pow256_16();
    }
    let dlen = data.len();
    // the top sixteen bytes must be zero, else the value exceeds u128
    let mut i: usize = 0;
    while i < 16
        invariant
            i <= 16,
            dlen == data@.len(),
            off + 32 <= dlen,
            w == data@.subrange(off as int, off as int + 32),
            forall|j: int| 0 <= j < i ==> w[j] == 0,
        decreases 16 - i,
    {
        if data[off + i] != 0 {
            proof {
                lemma_word_val_byte_lower(w, i as int);
                lemma_pow256_increases(16, (31 - i) as nat);
                let p = pow256((31 - i) as nat);
                assert(w[i as int] >= 1);
                assert(w[i as int] * p >= 1 * p) by (nonlinear_arith)
                    requires
                        w[i as int] >= 1,
                        p >= 0,
                ;
            }
            return None;
        }
        i += 1;
    }
    // Horner evaluation of the low sixteen bytes
    proof {
        lemma_word_val_zero(w.take(16));
    }
    let mut acc: u128 = 0;
    let mut k: usize = 16;
    while k < 32
        invariant
            16 <= k <= 32,
            dlen == data@.len(),
            off + 32 <= dlen,
            w == data@.subrange(off as int, off as int + 32),
            acc as nat == word_val(w.take(k as int)),
            (acc as nat) < pow256((k - 16) as nat),
        decreases 32 - k,
    {
        let b = data[off + k];
        proof {
            lemma_word_val_take_step(w, k as int);
            let p = pow256((k - 16) as nat);
            assert(acc as nat * 256 + b < p * 256) by (nonlinear_arith)
                requires
                    (acc as nat) < p,
                    b < 256,
            ;
            lemma_pow256_adds((k - 16) as nat, 1);
            lemma_pow256_increases((k - 15) as nat, 16);
            lemma_pow256_16();
        }
        acc = acc * 256 + (b as u128);
        k += 1;
    }
    assert(w.take(32) =~= w);
    Some(acc)
}

/// Decodes `data` against `schema`.
///
/// Exactly mirrors [`spec_decode`]: the result is the decoded field values,
/// or the error of the first field that fails.  Trailing bytes beyond what
/// the schema reads are ignored, as the Ethereum ABI convention allows.
pub fn decode(schema: &Vec<Ty>, data: &Vec<u8>) -> (r: Result<Vec<Tok>, DecodeError>)
    ensures
        match r {
            Ok(toks) => spec_decode(schema@, data@) == Ok::<Seq<TokV>, DecodeError>(
                toks_view(toks@),
            ),
            Err(e) => spec_decode(schema@, data@) == Err::<Seq<TokV>, DecodeError>(e),
        },
{
    let n = schema.len();
    let dlen = data.len();
    let mut toks: Vec<Tok> = Vec::new();
    let mut i: usize = 0;
    while i < n
        invariant
            i <= n,
            n == schema@.len(),
            dlen == data@.len(),
            dlen >= 32 * i,
            toks@.len() == i,
            forall|j: int|
                0 <= j < i ==> #[trigger] spec_dec_field(schema@[j], data@, j) == Ok::<
                    TokV,
                    DecodeError,
                >(toks@[j]@),
        decreases n - i,
    {
        let ghost gi = i as int;
        let rem = dlen - 32 * i;
        if rem < 32 {
            proof {
                assert(spec_dec_field(schema@[gi], data@, gi) == Err::<TokV, DecodeError>(
                    DecodeError::Truncated,
                ));
                lemma_decode_from_err(schema@, data@, 0, gi, DecodeError::Truncated);
            }
            return Err(DecodeError::Truncated);
        }
        let ghost w = word_val(data@.subrange(32 * gi, 32 * gi + 32));
        let head = word_at(data, 32 * i);
        let tok: Tok = match schema[i] {
            Ty::U64 => {
                match head {
                    Some(v) if v < 0x1_0000_0000_0000_0000u128 => Tok::Uint(v),
                    _ => {
                        proof {
                            if head is Some {
                            } else {
                                lemma_pow256_16();
                            }
                            assert(spec_dec_field(schema@[gi], data@, gi) == Err::<
                                TokV,
                                DecodeError,
                            >(DecodeError::NarrowingOverflow));
                            lemma_decode_from_err(
                                schema@,
                                data@,
                                0,
                                gi,
                                DecodeError::NarrowingOverflow,
                            );
                        }
                        return Err(DecodeError::NarrowingOverflow);
                    },
                }
            },
            Ty::U128 | Ty::U256 => {
                match head {
                    Some(v) => Tok::Uint(v),
                    None => {
                        proof {
                            assert(spec_dec_field(schema@[gi], data@, gi) == Err::<
                                TokV,
                                DecodeError,
                            >(DecodeError::NarrowingOverflow));
                            lemma_decode_from_err(
                                schema@,
                                data@,
                                0,
                                gi,
                                DecodeError::NarrowingOverflow,
                            );
                        }
                        return Err(DecodeError::NarrowingOverflow);
                    },
                }
            },
            Ty::Str | Ty::Bytes => {
                let is_str = match schema[i] {
                    Ty::Str => true,
                    _ => false,
                };
                match decode_bytes_tail(data, head, Ghost(w)) {
                    Ok(content) => {
                        if is_str {
                            Tok::Str(content)
                        } else {
                            Tok::Bytes(content)
                        }
                    },
                    Err(e) => {
                        proof {
                            assert(spec_dec_field(schema@[gi], data@, gi) == Err::<
                                TokV,
                                DecodeError,
                            >(e));
                            lemma_decode_from_err(schema@, data@, 0, gi, e);
                        }
                        return Err(e);
                    },
                }
            },
            Ty::U256Arr => {
                match decode_arr_tail(data, head, Ghost(w)) {
                    Ok(vals) => Tok::UintArr(vals),
                    Err(e) => {
                        proof {
                            assert(spec_dec_field(schema@[gi], data@, gi) == Err::<
                                TokV,
                                DecodeError,
                            >(e));
                            lemma_decode_from_err(schema@, data@, 0, gi, e);
                        }
                        return Err(e);
                    },
                }
            },
        };
        proof {
            lemma_pow256_16();
            assert(spec_dec_field(schema@[gi], data@, gi) == Ok::<TokV, DecodeError>(tok@));
        }
        toks.push(tok);
        i += 1;
    }
    proof {
        lemma_decode_from_ok(schema@, data@, 0, toks_view(toks@));
    }
    Ok(toks)
}

/// Follows a string/byte-string offset word and reads the tail.
fn decode_bytes_tail(data: &Vec<u8>, head: Option<u128>, Ghost(w): Ghost<nat>) -> (r: Result<
    Vec<u8>,
    DecodeError,
>)
    requires
        match head {
            Some(v) => v as nat == w,
            None => w >= pow256(16),
        },
    ensures
        match r {
            Ok(content) => spec_dec_bytes(data@, w) == Ok::<Seq<u8>, DecodeError>(content@),
            Err(e) => spec_dec_bytes(data@, w) == Err::<Seq<u8>, DecodeError>(e),
        },
{
    let dlen = data.len();
    let off128: u128 = match head {
        Some(v) => v,
        None => {
            proof {
                lemma_pow256_16();
            }
            return Err(DecodeError::OffsetOutOfRange);
        },
    };
    if off128 > (dlen as u128) || dlen - (off128 as usize) < 32 {
        return Err(DecodeError::OffsetOutOfRange);
    }
    let off = off128 as usize;
    let ghost lw = word_val(data@.subrange(off as int, off as int + 32));
    let len_word = word_at(data, off);
    let avail = dlen - (off + 32);
    let l: usize = match len_word {
        Some(l128) => {
            if l128 > (avail as u128) {
                return Err(DecodeError::LengthOutOfRange);
            }
            l128 as usize
        },
        None => {
            proof {
                lemma_pow256_16();
            }
            return Err(DecodeError::LengthOutOfRange);
        },
    };
    Ok(bytes_range(data, off + 32, off + 32 + l))
}

/// Follows an array offset word and reads the element words.
fn decode_arr_tail(data: &Vec<u8>, head: Option<u128>, Ghost(w): Ghost<nat>) -> (r: Result<
    Vec<u128>,
    DecodeError,
>)
    requires
        match head {
            Some(v) => v as nat == w,
            None => w >= pow256(16),
        },
    ensures
        match r {
            Ok(vals) => spec_dec_arr(data@, w) == Ok::<Seq<u128>, DecodeError>(vals@),
            Err(e) => spec_dec_arr(data@, w) == Err::<Seq<u128>, DecodeError>(e),
        },
{
    let dlen = data.len();
    let off128: u128 = match head {
        Some(v) => v,
        None => {
            proof {
                lemma_pow256_16();
            }
            return Err(DecodeError::OffsetOutOfRange);
        },
    };
    if off128 > (dlen as u128) || dlen - (off128 as usize) < 32 {
        return Err(DecodeError::OffsetOutOfRange);
    }
    let off = off128 as usize;
    let ghost lw = word_val(data@.subrange(off as int, off as int + 32));
    let len_word = word_at(data, off);
    let avail = dlen - (off + 32);
    let l: usize = match len_word {
        Some(l128) => {
            if l128 > (avail / 32) as u128 {
                proof {
                    lemma_fundamental_div_mod(avail as int, 32);
                    assert(32 * lw > avail) by (nonlinear_arith)
                        requires
                            lw > avail / 32,
                            avail == 32 * (avail / 32) + avail % 32,
                            avail % 32 < 32,
                    ;
                }
                return Err(DecodeError::LengthOutOfRange);
            }
            proof {
                lemma_fundamental_div_mod(avail as int, 32);
                assert(32 * lw <= avail) by (nonlinear_arith)
                    requires
                        lw <= avail / 32,
                        avail == 32 * (avail / 32) + avail % 32,
                        avail % 32 >= 0,
                ;
            }
            l128 as usize
        },
        None => {
            proof {
                lemma_pow256_16();
                lemma_pow256_pos(16);
            }
            return Err(DecodeError::LengthOutOfRange);
        },
    };
    let mut vals: Vec<u128> = Vec::new();
    let mut j: usize = 0;
    while j < l
        invariant
            j <= l,
            l as nat == lw,
            w == off as nat,
            dlen == data@.len(),
            off + 32 + 32 * l <= dlen,
            lw == word_val(data@.subrange(off as int, off as int + 32)),
            vals@.len() == j,
            forall|j2: int|
                0 <= j2 < j ==> #[trigger] vals@[j2] as nat == word_val(
                    data@.subrange(off + 32 + 32 * j2, off + 64 + 32 * j2),
                ),
        decreases l - j,
    {
        let elem = word_at(data, off + 32 + 32 * j);
        match elem {
            Some(v) => {
                vals.push(v);
            },
            None => {
                proof {
                    let gj = j as int;
                    assert(word_val(
                        data@.subrange(off + 32 + 32 * gj, off + 64 + 32 * gj),
                    ) >= pow256(16));
                    assert(spec_dec_arr(data@, w) == Err::<Seq<u128>, DecodeError>(
                        DecodeError::NarrowingOverflow,
                    ));
                }
                return Err(DecodeError::NarrowingOverflow);
            },
        }
        j += 1;
    }
    proof {
        assert forall|j2: int| 0 <= j2 < lw implies word_val(
            #[trigger] data@.subrange(off + 32 + 32 * j2, off + 64 + 32 * j2),
        ) < pow256(16) by {
            assert(vals@[j2] as nat == word_val(
                data@.subrange(off + 32 + 32 * j2, off + 64 + 32 * j2),
            ));
            lemma_pow256_16();
        }
        assert(vals@ =~= Seq::new(
            lw,
            |j2: int| word_val(data@.subrange(off + 32 + 32 * j2, off + 64 + 32 * j2)) as u128,
        ));
    }
    Ok(vals)
}

// ---------------------------------------------------------------------------
// The round-trip law
// ---------------------------------------------------------------------------

/// Whether a token fits a type descriptor (and, for narrowed widths, its
/// value range).
pub open spec fn tok_matches(t: TokV, ty: Ty) -> bool {
    match ty {
        Ty::U64 => t matches TokV::Uint(v) && (v as nat) < 0x1_0000_0000_0000_0000,
        Ty::U128 => t is Uint,
        Ty::U256 => t is Uint,
        Ty::Str => t is Str,
        Ty::Bytes => t is Bytes,
        Ty::U256Arr => t is UintArr,
    }
}

/// Whether a token tuple fits a schema.
pub open spec fn toks_match(tv: Seq<TokV>, schema: Seq<Ty>) -> bool {
    tv.len() == schema.len() && forall|i: int|
        0 <= i < tv.len() ==> tok_matches(#[trigger] tv[i], schema[i])
}

/// The head region of the encoding serves up each head word at its slot.
proof fn lemma_heads_slice(tv: Seq<TokV>, i: int, m: int)
    requires
        0 <= i < m <= tv.len(),
    ensures
        heads_upto(tv, m).subrange(32 * i, 32 * i + 32) == head_word(tv, i),
    decreases m,
{
    lemma_heads_upto_len(tv, i);
    if m == i + 1 {
        assert(heads_upto(tv, m) == heads_upto(tv, i) + head_word(tv, i));
        assert(heads_upto(tv, m).subrange(32 * i, 32 * i + 32) =~= head_word(tv, i));
    } else {
        lemma_heads_slice(tv, i, m - 1);
        lemma_heads_upto_len(tv, m - 1);
        assert(heads_upto(tv, m) == heads_upto(tv, m - 1) + head_word(tv, m - 1));
        assert(heads_upto(tv, m).subrange(32 * i, 32 * i + 32) =~= heads_upto(tv, m - 1).subrange(
            32 * i,
            32 * i + 32,
        ));
    }
}

/// The tail region of the encoding serves up each dynamic tail at its
/// accumulated offset.
proof fn lemma_tails_slice(tv: Seq<TokV>, i: int, m: int)
    requires
        0 <= i < m <= tv.len(),
    ensures
        tails_upto(tv, m).subrange(
            tails_upto(tv, i).len() as int,
            tails_upto(tv, i).len() as int + tail_of(tv[i]).len(),
        ) == tail_of(tv[i]),
    decreases m,
{
    if m == i + 1 {
        assert(tails_upto(tv, m) == tails_upto(tv, i) + tail_of(tv[i]));
        assert(tails_upto(tv, m).subrange(
            tails_upto(tv, i).len() as int,
            tails_upto(tv, i).len() as int + tail_of(tv[i]).len(),
        ) =~= tail_of(tv[i]));
    } else {
        lemma_tails_slice(tv, i, m - 1);
        lemma_tails_upto_le(tv, i + 1, m - 1);
        assert(tails_upto(tv, i + 1) == tails_upto(tv, i) + tail_of(tv[i]));
        assert(tails_upto(tv, m) == tails_upto(tv, m - 1) + tail_of(tv[m - 1]));
        assert(tails_upto(tv, m).subrange(
            tails_upto(tv, i).len() as int,
            tails_upto(tv, i).len() as int + tail_of(tv[i]).len(),
        ) =~= tails_upto(tv, m - 1).subrange(
            tails_upto(tv, i).len() as int,
            tails_upto(tv, i).len() as int + tail_of(tv[i]).len(),
        ));
    }
}

/// The element words of an array tail serve up each element at its slot.
proof fn lemma_words_of_index(vs: Seq<u128>, j: int)
    requires
        0 <= j < vs.len(),
    ensures
        words_of(vs).subrange(32 * j, 32 * j + 32) == word_of(vs[j] as nat),
    decreases vs.len(),
{
    lemma_words_of_len(vs);
    lemma_words_of_len(vs.drop_last());
    if j == vs.len() - 1 {
        assert(words_of(vs).subrange(32 * j, 32 * j + 32) =~= word_of(vs.last() as nat));
    } else {
        lemma_words_of_index(vs.drop_last(), j);
        assert(vs.drop_last()[j] == vs[j]);
        assert(words_of(vs).subrange(32 * j, 32 * j + 32) =~= words_of(vs.drop_last()).subrange(
            32 * j,
            32 * j + 32,
        ));
    }
}

/// The byte offset of token `i`'s tail within the whole encoding.
pub open spec fn tail_offset(tv: Seq<TokV>, i: int) -> nat {
    (32 * tv.len() + tails_upto(tv, i).len()) as nat
}

/// Each field of an encoded tuple decodes back to the token it came from.
proof fn lemma_enc_field(schema: Seq<Ty>, tv: Seq<TokV>, i: int)
    requires
        toks_match(tv, schema),
        spec_encode(tv).len() < pow256(16),
        0 <= i < tv.len(),
    ensures
        spec_dec_field(schema[i], spec_encode(tv), i) == Ok::<TokV, DecodeError>(tv[i]),
{
    let n = tv.len() as int;
    let enc = spec_encode(tv);
    lemma_heads_upto_len(tv, n);
    lemma_pow256_16();
    // the head word sits in the head region
    lemma_heads_slice(tv, i, n);
    assert(enc.subrange(32 * i, 32 * i + 32) =~= heads_upto(tv, n).subrange(32 * i, 32 * i + 32));
    let w = word_val(enc.subrange(32 * i, 32 * i + 32));
    match tv[i] {
        TokV::Uint(v) => {
            lemma_word_roundtrip(v as nat);
            assert(w == v as nat);
        },
        _ => {
            // dynamic: the head word holds the tail offset
            let off = tail_offset(tv, i);
            lemma_tails_upto_le(tv, i + 1, n);
            assert(tails_upto(tv, i + 1) == tails_upto(tv, i) + tail_of(tv[i]));
            assert(off + tail_of(tv[i]).len() <= enc.len());
            lemma_word_roundtrip(off);
            assert(w == off);
            // the tail sits at that offset
            lemma_tails_slice(tv, i, n);
            assert(enc.subrange(off as int, off as int + tail_of(tv[i]).len()) =~= tails_upto(
                tv,
                n,
            ).subrange(
                tails_upto(tv, i).len() as int,
                tails_upto(tv, i).len() as int + tail_of(tv[i]).len(),
            ));
            let tail = tail_of(tv[i]);
            assert(enc.subrange(off as int, off as int + tail.len()) == tail);
            match tv[i] {
                TokV::Uint(_) => {},
                TokV::Str(s) => {
                    lemma_dyn_bytes_field(enc, off, tail, s);
                },
                TokV::Bytes(s) => {
                    lemma_dyn_bytes_field(enc, off, tail, s);
                },
                TokV::UintArr(vs) => {
                    lemma_arr_field(enc, off, tail, vs);
                },
            }
        },
    }
}

/// Within an encoding that carries `word_of(s.len()) + s + padding` at
/// offset `off`, the byte-string tail decodes to `s`.
proof fn lemma_dyn_bytes_field(enc: Seq<u8>, off: nat, tail: Seq<u8>, s: Seq<u8>)
    requires
        enc.len() < pow256(16),
        off + tail.len() <= enc.len(),
        tail == word_of(s.len()) + s + zeros(pad_len(s.len())),
        enc.subrange(off as int, off as int + tail.len()) == tail,
    ensures
        spec_dec_bytes(enc, off) == Ok::<Seq<u8>, DecodeError>(s),
{
    lemma_pow256_16();
    assert(tail.len() == 32 + s.len() + pad_len(s.len()));
    assert forall|x: int| 0 <= x < tail.len() implies enc[off + x] == tail[x] by {
        assert(enc.subrange(off as int, off as int + tail.len())[x] == tail[x]);
    }
    assert(enc.subrange(off as int, off as int + 32) =~= word_of(s.len()));
    lemma_word_roundtrip(s.len());
    assert(word_val(enc.subrange(off as int, off as int + 32)) == s.len());
    assert forall|k: int| 0 <= k < s.len() implies enc.subrange(
        off as int + 32,
        off as int + 32 + s.len(),
    )[k] == s[k] by {
        assert(enc.subrange(off as int, off as int + tail.len())[32 + k] == tail[32 + k]);
    }
    assert(enc.subrange(off as int + 32, off as int + 32 + s.len()) =~= s);
}

/// Within an encoding that carries `word_of(vs.len()) + words_of(vs)` at
/// offset `off`, the array tail decodes to `vs`.
proof fn lemma_arr_field(enc: Seq<u8>, off: nat, tail: Seq<u8>, vs: Seq<u128>)
    requires
        enc.len() < pow256(16),
        off + tail.len() <= enc.len(),
        tail == word_of(vs.len()) + words_of(vs),
        enc.subrange(off as int, off as int + tail.len()) == tail,
    ensures
        spec_dec_arr(enc, off) == Ok::<Seq<u128>, DecodeError>(vs),
{
    lemma_pow256_16();
    lemma_words_of_len(vs);
    assert(tail.len() == 32 + 32 * vs.len());
    assert forall|x: int| 0 <= x < tail.len() implies enc[off + x] == tail[x] by {
        assert(enc.subrange(off as int, off as int + tail.len())[x] == tail[x]);
    }
    assert(enc.subrange(off as int, off as int + 32) =~= word_of(vs.len()));
    lemma_word_roundtrip(vs.len());
    assert(word_val(enc.subrange(off as int, off as int + 32)) == vs.len());
    assert(off + 32 + 32 * vs.len() <= enc.len());
    assert forall|j: int| 0 <= j < vs.len() implies word_val(
        #[trigger] enc.subrange(off as int + 32 + 32 * j, off as int + 64 + 32 * j),
    ) == vs[j] as nat by {
        lemma_words_of_index(vs, j);
        assert forall|k: int| 0 <= k < 32 implies #[trigger] enc.subrange(
            off as int + 32 + 32 * j,
            off as int + 64 + 32 * j,
        )[k] == words_of(vs).subrange(32 * j, 32 * j + 32)[k] by {
            assert(enc.subrange(off as int, off as int + tail.len())[32 + 32 * j + k] == tail[32
                + 32 * j + k]);
        }
        assert(enc.subrange(off as int + 32 + 32 * j, off as int + 64 + 32 * j) =~= words_of(vs).subrange(
            32 * j,
            32 * j + 32,
        ));
        lemma_word_roundtrip(vs[j] as nat);
    }
    assert(!(exists|j: int|
        0 <= j < vs.len() && word_val(
            #[trigger] enc.subrange(off as int + 32 + 32 * j, off as int + 64 + 32 * j),
        ) >= pow256(16)));
    assert(Seq::new(
        vs.len(),
        |j: int| word_val(enc.subrange(off as int + 32 + 32 * j, off as int + 64 + 32 * j)) as u128,
    ) =~= vs);
}

/// The round-trip law: decoding an encoded tuple against its own schema
/// gives back exactly the fields that were encoded.  This holds for all
/// valid field values, including empty strings and byte strings and
/// maximum-width integers.
pub proof fn lemma_round_trip(schema: Seq<Ty>, tv: Seq<TokV>)
    requires
        toks_match(tv, schema),
        spec_encode(tv).len() < pow256(16),
    ensures
        spec_decode(schema, spec_encode(tv)) == Ok::<Seq<TokV>, DecodeError>(tv),
{
    let enc = spec_encode(tv);
    assert forall|i: int| 0 <= i < schema.len() implies #[trigger] spec_dec_field(
        schema[i],
        enc,
        i,
    ) == Ok::<TokV, DecodeError>(tv[i]) by {
        lemma_enc_field(schema, tv, i);
    }
    lemma_decode_from_ok(schema, enc, 0, tv);
}

/// A successful decode yields one token per schema entry, each the value of
/// its own field.
pub proof fn lemma_decode_ok_fields(schema: Seq<Ty>, data: Seq<u8>)
    ensures
        spec_decode(schema, data) matches Ok(tv) ==> tv.len() == schema.len() && forall|i: int|
            0 <= i < schema.len() ==> spec_dec_field(schema[i], data, i) == Ok::<TokV, DecodeError>(
                #[trigger] tv[i],
            ),
{
    lemma_decode_from_fields(schema, data, 0);
    if spec_decode(schema, data) is Ok {
        let tv = spec_decode(schema, data)->Ok_0;
        assert forall|i: int| 0 <= i < schema.len() implies spec_dec_field(schema[i], data, i)
            == Ok::<TokV, DecodeError>(#[trigger] tv[i]) by {
            assert(tv[i - 0] == tv[i]);
        }
    }
}

proof fn lemma_decode_from_fields(schema: Seq<Ty>, data: Seq<u8>, i: int)
    requires
        0 <= i <= schema.len(),
    ensures
        spec_decode_from(schema, data, i) matches Ok(tv) ==> tv.len() == schema.len() - i
            && forall|j: int|
            i <= j < schema.len() ==> spec_dec_field(schema[j], data, j) == Ok::<TokV, DecodeError>(
                #[trigger] tv[j - i],
            ),
    decreases schema.len() - i,
{
    if i < schema.len() {
        lemma_decode_from_fields(schema, data, i + 1);
        if spec_decode_from(schema, data, i) is Ok {
            let t = spec_dec_field(schema[i], data, i)->Ok_0;
            let rest = spec_decode_from(schema, data, i + 1)->Ok_0;
            let tv = spec_decode_from(schema, data, i)->Ok_0;
            assert(tv == seq![t] + rest);
            assert forall|j: int| i <= j < schema.len() implies spec_dec_field(schema[j], data, j)
                == Ok::<TokV, DecodeError>(#[trigger] tv[j - i]) by {
                if j == i {
                    assert(tv[0] == t);
                } else {
                    assert(tv[j - i] == rest[j - i - 1]);
                    assert(rest[j - (i + 1)] == rest[j - i - 1]);
                    assert(spec_dec_field(schema[j], data, j) == Ok::<TokV, DecodeError>(
                        rest[j - (i + 1)],
                    ));
                }
            }
        }
    }
}

// ---------------------------------------------------------------------------
// Wrapped tuples
// ---------------------------------------------------------------------------

/// The encoding of a payload that consists of one dynamic tuple: an offset
/// word pointing at the tuple region (always 32, right after the single
/// head word), then the tuple's own encoding.
pub open spec fn spec_encode_wrapped(tv: Seq<TokV>) -> Seq<u8> {
    word_of(32) + spec_encode(tv)
}

/// Encodes a payload of one dynamic tuple.
pub fn encode_wrapped(toks: &Vec<Tok>) -> (out: Vec<u8>)
    requires
        spec_encode(toks_view(toks@)).len() + 32 <= usize::MAX,
    ensures
        out@ == spec_encode_wrapped(toks_view(toks@)),
{
    let mut out: Vec<u8> = Vec::new();
    push_word(&mut out, 32);
    let enc = encode(toks);
    push_bytes(&mut out, &enc);
    out
}

/// The decoding of a payload of one dynamic tuple: follow the offset word,
/// then decode the tuple region, whose inner offsets are relative to the
/// tuple's own start.
pub open spec fn spec_decode_wrapped(schema: Seq<Ty>, data: Seq<u8>) -> Result<
    Seq<TokV>,
    DecodeError,
> {
    if data.len() < 32 {
        Err(DecodeError::Truncated)
    } else {
        let off = word_val(data.subrange(0, 32));
        if off > data.len() {
            Err(DecodeError::OffsetOutOfRange)
        } else {
            spec_decode(schema, data.skip(off as int))
        }
    }
}

/// Decodes a payload of one dynamic tuple.
pub fn decode_wrapped(schema: &Vec<Ty>, data: &Vec<u8>) -> (r: Result<Vec<Tok>, DecodeError>)
    ensures
        match r {
            Ok(toks) => spec_decode_wrapped(schema@, data@) == Ok::<Seq<TokV>, DecodeError>(
                toks_view(toks@),
            ),
            Err(e) => spec_decode_wrapped(schema@, data@) == Err::<Seq<TokV>, DecodeError>(e),
        },
{
    let dlen = data.len();
    if dlen < 32 {
        return Err(DecodeError::Truncated);
    }
    let off = match word_at(data, 0) {
        Some(v) => {
            if v > dlen as u128 {
                return Err(DecodeError::OffsetOutOfRange);
            }
            v as usize
        },
        None => {
            proof {
                lemma_pow256_16();
            }
            return Err(DecodeError::OffsetOutOfRange);
        },
    };
    let region = bytes_range(data, off, dlen);
    proof {
        assert(region@ =~= data@.skip(off as int));
    }
    decode(schema, &region)
}

/// The round-trip law for wrapped tuples: decoding an encoded tuple payload
/// against its own schema gives back exactly the fields.
pub proof fn lemma_round_trip_wrapped(schema: Seq<Ty>, tv: Seq<TokV>)
    requires
        toks_match(tv, schema),
        spec_encode(tv).len() + 32 < pow256(16),
    ensures
        spec_decode_wrapped(schema, spec_encode_wrapped(tv)) == Ok::<Seq<TokV>, DecodeError>(tv),
{
    let data = spec_encode_wrapped(tv);
    assert(data.subrange(0, 32) =~= word_of(32));
    lemma_pow256_16();
    lemma_word_roundtrip(32);
    assert(data.skip(32) =~= spec_encode(tv));
    lemma_round_trip(schema, tv);
}

} // verus!
