//! The identifier generator: a fingerprint fixed at construction, a wrapping
//! counter, and an encoder that combines time, counter, fingerprint and fresh
//! entropy into one fixed-length base-36 identifier.

use vstd::prelude::*;

use crate::base36::{
    base36_fixed, digit_char, digit_char_of, is_digit_byte, is_identifier, is_letter_byte,
    lemma_base36_digits, lemma_base36_len, spec_base36,
};
use crate::bytes::push_all;
use crate::clock::current_millis;
use crate::entropy::random_bytes;
use crate::errors::GenError;
use crate::hashing::{hash64, spec_hash64};

verus! {

/// The smallest identifier length a request may ask for.
pub const MIN_LENGTH: usize = 2;

/// The identifier length used when a request names none.
pub const DEFAULT_LENGTH: usize = 24;

/// The counter wraps modulo this bound (2^32) instead of overflowing.
pub const COUNTER_BOUND: u64 = 4294967296;

/// The number of base-36 characters in a fingerprint.
pub const FINGERPRINT_LEN: usize = 4;

/// Random bytes drawn for each identifier beyond the byte that selects the
/// leading letter.
pub const ENTROPY_BYTES: usize = 32;

/// Base-36 characters used to render the time component.
pub const TIME_CHARS: usize = 13;

/// Base-36 characters used to render the counter component.
pub const COUNTER_CHARS: usize = 7;

/// Base-36 characters produced by one digest block.
pub const BLOCK_CHARS: usize = 13;

/// An identifier generator. The fingerprint is fixed after construction; the
/// counter advances by one on every successful generation and wraps modulo
/// `COUNTER_BOUND`.
pub struct Generator {
    /// Base-36 characters distinguishing this generator's process.
    pub fingerprint: Vec<u8>,
    /// The next counter value to use; always below `COUNTER_BOUND`.
    pub counter: u64,
}

impl Generator {
    /// The generator's invariant: the counter sits below its wrap bound and
    /// the fingerprint is exactly `FINGERPRINT_LEN` base-36 characters.
    pub open spec fn wf(self) -> bool {
        &&& self.counter < COUNTER_BOUND
        &&& self.fingerprint@.len() == FINGERPRINT_LEN
        &&& forall|i: int|
            0 <= i < self.fingerprint@.len() ==> is_digit_byte(#[trigger] self.fingerprint@[i])
    }
}

/// The counter value after one generation: one more, wrapping to zero at the
/// bound.
pub open spec fn next_counter(c: u64) -> u64
    recommends
        c < COUNTER_BOUND,
{
    if c + 1 == COUNTER_BOUND {
        0
    } else {
        (c + 1) as u64
    }
}

/// The counter value after `n` generations.
pub open spec fn counter_after(c: u64, n: nat) -> u64
    decreases n,
{
    if n == 0 {
        c
    } else {
        next_counter(counter_after(c, (n - 1) as nat))
    }
}

/// The leading letter of an identifier, selected by one entropy byte.
pub open spec fn letter_char(b: u8) -> u8 {
    (97 + (b as int) % 26) as u8
}

/// Two base-36 characters for each of the first `i` entropy bytes: the byte
/// divided by 36, then its remainder.
pub open spec fn entropy_digits(s: Seq<u8>, i: int) -> Seq<u8>
    decreases i,
{
    if i <= 0 {
        Seq::empty()
    } else {
        entropy_digits(s, i - 1) + seq![
            digit_char((s[i - 1] as int) / 36),
            digit_char((s[i - 1] as int) % 36),
        ]
    }
}

/// The hash input material: the time in `TIME_CHARS` base-36 characters, the
/// counter in `COUNTER_CHARS`, the fingerprint, and two characters for every
/// entropy byte after the first (which selects the leading letter instead).
pub open spec fn spec_material(time: u64, counter: u64, fp: Seq<u8>, ent: Seq<u8>) -> Seq<u8>
    recommends
        ent.len() >= 1,
{
    spec_base36(time as int, TIME_CHARS as nat) + spec_base36(counter as int, COUNTER_CHARS as nat)
        + fp + entropy_digits(ent.skip(1), ent.len() - 1)
}

/// One digest block: the material salted with the block index, hashed, and
/// rendered as `BLOCK_CHARS` base-36 characters.
pub open spec fn spec_block(material: Seq<u8>, k: int) -> Seq<u8> {
    spec_base36(
        spec_hash64(material + spec_base36(k, BLOCK_CHARS as nat)) as int,
        BLOCK_CHARS as nat,
    )
}

/// The first `k` digest blocks, concatenated.
pub open spec fn spec_blocks(material: Seq<u8>, k: int) -> Seq<u8>
    decreases k,
{
    if k <= 0 {
        Seq::empty()
    } else {
        spec_blocks(material, k - 1) + spec_block(material, k - 1)
    }
}

/// Digest blocks needed to cover `n` characters.
pub open spec fn blocks_for(n: int) -> int {
    (n + 12) / 13
}

/// The identifier encoding: a letter selected by the first entropy byte,
/// then `length - 1` characters of the block stream over the material.
pub open spec fn spec_encode(
    time: u64,
    counter: u64,
    fp: Seq<u8>,
    ent: Seq<u8>,
    length: int,
) -> Seq<u8>
    recommends
        ent.len() >= 1,
        length >= 1,
{
    seq![letter_char(ent[0])] + spec_blocks(
        spec_material(time, counter, fp, ent),
        blocks_for(length - 1),
    ).take(length - 1)
}

pub proof fn lemma_blocks_len(material: Seq<u8>, k: int)
    requires
        k >= 0,
    ensures
        spec_blocks(material, k).len() == 13 * k,
    decreases k,
{
    if k > 0 {
        lemma_blocks_len(material, k - 1);
        lemma_base36_len(
            spec_hash64(material + spec_base36(k - 1, BLOCK_CHARS as nat)) as int,
            BLOCK_CHARS as nat,
        );
    }
}

pub proof fn lemma_blocks_digits(material: Seq<u8>, k: int)
    ensures
        forall|i: int|
            0 <= i < spec_blocks(material, k).len() ==> is_digit_byte(
                #[trigger] spec_blocks(material, k)[i],
            ),
    decreases k,
{
    if k > 0 {
        lemma_blocks_digits(material, k - 1);
        lemma_base36_digits(
            spec_hash64(material + spec_base36(k - 1, BLOCK_CHARS as nat)) as int,
            BLOCK_CHARS as nat,
        );
        lemma_blocks_len(material, k - 1);
        assert forall|i: int|
            0 <= i < spec_blocks(material, k).len() implies is_digit_byte(
            spec_blocks(material, k)[i],
        ) by {
            let prefix = spec_blocks(material, k - 1);
            if i < prefix.len() {
                assert(spec_blocks(material, k)[i] == prefix[i]);
            } else {
                assert(spec_blocks(material, k)[i] == spec_block(material, k - 1)[i
                    - prefix.len()]);
            }
        }
    }
}

/// Law: every encoded identifier has exactly the requested length, starts
/// with a lowercase letter, and continues with lowercase letters and digits.
pub proof fn lemma_encode_shape(time: u64, counter: u64, fp: Seq<u8>, ent: Seq<u8>, length: int)
    requires
        ent.len() >= 1,
        length >= 1,
    ensures
        spec_encode(time, counter, fp, ent, length).len() == length,
        is_identifier(spec_encode(time, counter, fp, ent, length)),
{
    let mat = spec_material(time, counter, fp, ent);
    let nb = blocks_for(length - 1);
    lemma_blocks_len(mat, nb);
    lemma_blocks_digits(mat, nb);
    assert(13 * nb >= length - 1);
    let s = spec_encode(time, counter, fp, ent, length);
    assert(is_letter_byte(letter_char(ent[0])));
    assert forall|i: int| 1 <= i < s.len() implies is_digit_byte(s[i]) by {
        assert(s[i] == spec_blocks(mat, nb).take(length - 1)[i - 1]);
    }
}

/// Law: the encoding is deterministic. Identical time, counter, fingerprint,
/// entropy bytes and length give byte-for-byte identical identifiers.
pub proof fn lemma_encode_deterministic(
    t1: u64,
    c1: u64,
    f1: Seq<u8>,
    e1: Seq<u8>,
    n1: int,
    t2: u64,
    c2: u64,
    f2: Seq<u8>,
    e2: Seq<u8>,
    n2: int,
)
    requires
        t1 == t2,
        c1 == c2,
        f1 == f2,
        e1 == e2,
        n1 == n2,
    ensures
        spec_encode(t1, c1, f1, e1, n1) == spec_encode(t2, c2, f2, e2, n2),
{
}

/// The character selected by one entropy byte for the leading letter.
fn letter_of(b: u8) -> (r: u8)
    ensures
        r == letter_char(b),
{
    97 + b % 26
}

/// Deterministically combines the time, the counter value, the fingerprint
/// and the entropy bytes into one identifier of exactly `length` characters.
/// The first entropy byte selects the leading letter; the rest feed the hash.
pub fn encode_id(
    time: u64,
    counter: u64,
    fingerprint: &Vec<u8>,
    entropy: &Vec<u8>,
    length: usize,
) -> (r: Vec<u8>)
    requires
        entropy@.len() >= 1,
        MIN_LENGTH <= length,
        length <= usize::MAX - 64,
    ensures
        r@ == spec_encode(time, counter, fingerprint@, entropy@, length as int),
        r@.len() == length,
        is_identifier(r@),
{
    // The hash input material.
    let mut material = base36_fixed(time, TIME_CHARS);
    let counter_part = base36_fixed(counter, COUNTER_CHARS);
    push_all(&mut material, &counter_part);
    push_all(&mut material, fingerprint);
    let mut i: usize = 1;
    while i < entropy.len()
        invariant
            1 <= i <= entropy@.len(),
            material@ == spec_base36(time as int, TIME_CHARS as nat) + spec_base36(
                counter as int,
                COUNTER_CHARS as nat,
            ) + fingerprint@ + entropy_digits(entropy@.skip(1), i - 1),
        decreases entropy@.len() - i,
    {
        let b: u8 = entropy[i];
        material.push(digit_char_of(b / 36));
        material.push(digit_char_of(b % 36));
        proof {
            assert(entropy@.skip(1)[i - 1] == entropy@[i as int]);
            assert(material@ =~= spec_base36(time as int, TIME_CHARS as nat) + spec_base36(
                counter as int,
                COUNTER_CHARS as nat,
            ) + fingerprint@ + entropy_digits(entropy@.skip(1), i as int));
        }
        i = i + 1;
    }
    proof {
        assert(entropy@.skip(1).len() == entropy@.len() - 1);
        assert(material@ == spec_material(time, counter, fingerprint@, entropy@));
    }
    let ghost mat = material@;

    // The block stream, long enough to cover length - 1 characters.
    let need: usize = length - 1;
    let nb: usize = (need + 12) / 13;
    let mut chars: Vec<u8> = Vec::new();
    let mut k: usize = 0;
    while k < nb
        invariant
            k <= nb,
            chars@ == spec_blocks(mat, k as int),
            chars@.len() == 13 * k,
            material@ == mat,
        decreases nb - k,
    {
        let mut salted: Vec<u8> = Vec::new();
        push_all(&mut salted, &material);
        let salt = base36_fixed(k as u64, BLOCK_CHARS);
        push_all(&mut salted, &salt);
        proof {
            assert(salted@ =~= mat + spec_base36(k as int, BLOCK_CHARS as nat));
        }
        let digest: u64 = hash64(&salted);
        let block = base36_fixed(digest, BLOCK_CHARS);
        push_all(&mut chars, &block);
        proof {
            assert(block@ == spec_block(mat, k as int));
            assert(chars@ == spec_blocks(mat, k as int + 1));
        }
        k = k + 1;
    }
    proof {
        assert(13 * (nb as int) >= need as int);
    }
    chars.truncate(need);

    // The identifier: the leading letter, then the first length - 1 stream
    // characters.
    let mut out: Vec<u8> = Vec::new();
    out.push(letter_of(entropy[0]));
    push_all(&mut out, &chars);
    proof {
        lemma_encode_shape(time, counter, fingerprint@, entropy@, length as int);
        assert(out@ =~= spec_encode(time, counter, fingerprint@, entropy@, length as int));
    }
    out
}

impl Generator {
    /// Builds a generator from explicit parts: a fingerprint of exactly
    /// `FINGERPRINT_LEN` base-36 characters and a counter below the wrap
    /// bound. Anything else is a configuration error. Fixed parts give a
    /// generator whose encodings are reproducible given fixed entropy.
    pub fn from_parts(fingerprint: Vec<u8>, counter: u64) -> (r: Result<Generator, GenError>)
        ensures
            r is Ok <==> (counter < COUNTER_BOUND && fingerprint@.len() == FINGERPRINT_LEN
                && forall|i: int|
                0 <= i < fingerprint@.len() ==> is_digit_byte(#[trigger] fingerprint@[i])),
            r is Ok ==> (r->Ok_0.wf() && r->Ok_0.fingerprint@ == fingerprint@ && r->Ok_0.counter
                == counter),
            r is Err ==> r == Err::<Generator, GenError>(GenError::ConfigurationError),
    {
        if counter >= COUNTER_BOUND {
            return Err(GenError::ConfigurationError);
        }
        if fingerprint.len() != FINGERPRINT_LEN {
            return Err(GenError::ConfigurationError);
        }
        let mut i: usize = 0;
        while i < fingerprint.len()
            invariant
                i <= fingerprint@.len(),
                forall|j: int| 0 <= j < i ==> is_digit_byte(#[trigger] fingerprint@[j]),
            decreases fingerprint@.len() - i,
        {
            let b: u8 = fingerprint[i];
            if !((48 <= b && b <= 57) || (97 <= b && b <= 122)) {
                return Err(GenError::ConfigurationError);
            }
            i = i + 1;
        }
        Ok(Generator { fingerprint, counter })
    }

    /// Creates a generator. The fingerprint digests the caller's host
    /// identity bytes (which may be empty: the salt alone then stands in,
    /// so construction never fails for want of them) together with a fresh
    /// random salt; the counter starts at a random value below the bound.
    /// Fails only when the secure random source does.
    pub fn new(host_id: &Vec<u8>) -> (r: Result<Generator, GenError>)
        requires
            host_id@.len() <= usize::MAX - 16,
        ensures
            r is Ok ==> r->Ok_0.wf(),
            r is Ok ==> (exists|salt: Seq<u8>|
                salt.len() == 16 && r->Ok_0.fingerprint@ == spec_base36(
                    #[trigger] spec_hash64(host_id@ + salt) as int,
                    FINGERPRINT_LEN as nat,
                )),
            r is Err ==> r == Err::<Generator, GenError>(GenError::EntropyUnavailableError),
    {
        let salt = match random_bytes(16) {
            Ok(v) => v,
            Err(_) => {
                return Err(GenError::EntropyUnavailableError);
            },
        };
        let seed = match random_bytes(4) {
            Ok(v) => v,
            Err(_) => {
                return Err(GenError::EntropyUnavailableError);
            },
        };
        let mut material: Vec<u8> = Vec::new();
        push_all(&mut material, host_id);
        push_all(&mut material, &salt);
        let h: u64 = hash64(&material);
        let fingerprint = base36_fixed(h, FINGERPRINT_LEN);
        proof {
            lemma_base36_digits(h as int, FINGERPRINT_LEN as nat);
            assert(material@ =~= host_id@ + salt@);
            assert(fingerprint@ == spec_base36(
                spec_hash64(host_id@ + salt@) as int,
                FINGERPRINT_LEN as nat,
            ));
        }
        let counter: u64 = seed[0] as u64 + 256 * (seed[1] as u64 + 256 * (seed[2] as u64 + 256
            * (seed[3] as u64)));
        Ok(Generator { fingerprint, counter })
    }

    /// Generates one identifier of exactly `length` characters: lowercase
    /// letters and digits, a letter first. A length below `MIN_LENGTH` is a
    /// configuration error and has no side effect; an entropy failure also
    /// leaves the counter untouched. On success the counter advances by
    /// exactly one, wrapping at the bound, and the identifier is the
    /// deterministic encoding of the time read, the counter value used, the
    /// fingerprint, and the entropy drawn.
    pub fn generate_with_length(&mut self, length: usize) -> (r: Result<Vec<u8>, GenError>)
        requires
            old(self).wf(),
            length <= usize::MAX - 64,
        ensures
            final(self).wf(),
            final(self).fingerprint@ == old(self).fingerprint@,
            length < MIN_LENGTH ==> r == Err::<Vec<u8>, GenError>(GenError::ConfigurationError)
                && final(self).counter == old(self).counter,
            (r is Err && length >= MIN_LENGTH) ==> r == Err::<Vec<u8>, GenError>(
                GenError::EntropyUnavailableError,
            ) && final(self).counter == old(self).counter,
            r is Ok ==> (length >= MIN_LENGTH && final(self).counter == next_counter(
                old(self).counter,
            ) && r->Ok_0@.len() == length && is_identifier(r->Ok_0@) && (exists|t: u64, e: Seq<u8>|
                e.len() == ENTROPY_BYTES + 1 && #[trigger] spec_encode(
                    t,
                    old(self).counter,
                    old(self).fingerprint@,
                    e,
                    length as int,
                ) == r->Ok_0@)),
    {
        if length < MIN_LENGTH {
            return Err(GenError::ConfigurationError);
        }
        let entropy = match random_bytes(ENTROPY_BYTES + 1) {
            Ok(v) => v,
            Err(_) => {
                return Err(GenError::EntropyUnavailableError);
            },
        };
        let time = current_millis();
        let used = self.counter;
        self.counter = if self.counter + 1 == COUNTER_BOUND {
            0
        } else {
            self.counter + 1
        };
        let id = encode_id(time, used, &self.fingerprint, &entropy, length);
        proof {
            assert(spec_encode(time, used, old(self).fingerprint@, entropy@, length as int)
                == id@);
        }
        Ok(id)
    }

    /// Generates one identifier of the default length.
    pub fn generate(&mut self) -> (r: Result<Vec<u8>, GenError>)
        requires
            old(self).wf(),
        ensures
            final(self).wf(),
            final(self).fingerprint@ == old(self).fingerprint@,
            r is Ok ==> (final(self).counter == next_counter(old(self).counter) && r->Ok_0@.len()
                == DEFAULT_LENGTH && is_identifier(r->Ok_0@) && (exists|t: u64, e: Seq<u8>|
                e.len() == ENTROPY_BYTES + 1 && #[trigger] spec_encode(
                    t,
                    old(self).counter,
                    old(self).fingerprint@,
                    e,
                    DEFAULT_LENGTH as int,
                ) == r->Ok_0@)),
            r is Err ==> (r == Err::<Vec<u8>, GenError>(GenError::EntropyUnavailableError)
                && final(self).counter == old(self).counter),
    {
        self.generate_with_length(DEFAULT_LENGTH)
    }
}

/// Generates `count` identifiers of the default length. A count of zero
/// draws no entropy and succeeds with the empty list, the counter untouched.
/// On success every identifier has the identifier shape and the counter has
/// advanced exactly `count` times, wrapping at the bound: no generation is
/// lost and none is counted twice. On an entropy failure the counter stands
/// at the successful prefix: advanced some number of times below `count`.
pub fn generate_ids(gen: &mut Generator, count: u32) -> (r: Result<Vec<Vec<u8>>, GenError>)
    requires
        old(gen).wf(),
    ensures
        final(gen).wf(),
        final(gen).fingerprint@ == old(gen).fingerprint@,
        count == 0 ==> r is Ok,
        r is Ok ==> (r->Ok_0@.len() == count && (forall|i: int|
            0 <= i < count ==> (#[trigger] r->Ok_0@[i]@.len() == DEFAULT_LENGTH && is_identifier(
                r->Ok_0@[i]@,
            ))) && final(gen).counter == counter_after(old(gen).counter, count as nat)),
        r is Err ==> r == Err::<Vec<Vec<u8>>, GenError>(GenError::EntropyUnavailableError),
        r is Err ==> (exists|k: nat|
            k < count && final(gen).counter == #[trigger] counter_after(old(gen).counter, k)),
{
    let mut ids: Vec<Vec<u8>> = Vec::new();
    let mut i: u32 = 0;
    while i < count
        invariant
            i <= count,
            gen.wf(),
            gen.fingerprint@ == old(gen).fingerprint@,
            gen.counter == counter_after(old(gen).counter, i as nat),
            ids@.len() == i,
            forall|j: int|
                0 <= j < i ==> (#[trigger] ids@[j]@.len() == DEFAULT_LENGTH && is_identifier(
                    ids@[j]@,
                )),
        decreases count - i,
    {
        match gen.generate() {
            Ok(id) => {
                ids.push(id);
            },
            Err(e) => {
                proof {
                    assert(i < count);
                    assert(gen.counter == counter_after(old(gen).counter, i as nat));
                }
                return Err(e);
            },
        }
        i = i + 1;
    }
    Ok(ids)
}

} // verus!
