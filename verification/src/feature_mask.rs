//! The CPU features that payloads are compiled for and hosts offer, and sets of
//! them packed into two machine words.
use crate::text::str_eq;
use vstd::prelude::*;

verus! {

/// A set of features, one bit for each.
#[derive(Clone, Copy, Debug, PartialEq, Eq, Structural)]
pub struct FeatureMask {
    low: u64,
    high: u64,
}

/// Whether bit `i` of a word is set.
pub open spec fn bit_set(word: u64, i: int) -> bool {
    (word & (1u64 << (i as u64))) != 0
}

impl FeatureMask {
    /// The word that holds bits 0 to 63.
    pub closed spec fn low_word(self) -> u64 {
        self.low
    }

    /// The word that holds bits 64 to 127.
    pub closed spec fn high_word(self) -> u64 {
        self.high
    }

    /// The mask of the features of this one that `other` lacks.
    pub closed spec fn minus(self, other: FeatureMask) -> FeatureMask {
        FeatureMask { low: self.low & !other.low, high: self.high & !other.high }
    }

    /// Whether bit `i` of the mask is set.
    pub open spec fn has_bit(self, i: int) -> bool {
        if 0 <= i < 64 {
            bit_set(self.low_word(), i)
        } else {
            64 <= i < 128 && bit_set(self.high_word(), i - 64)
        }
    }

    /// Whether the feature is in the set.
    pub open spec fn has(self, feature: Feature) -> bool {
        self@.contains(feature as int)
    }
}

impl View for FeatureMask {
    type V = Set<int>;

    /// The positions of the bits that are set.
    open spec fn view(&self) -> Set<int> {
        Set::new(|i: int| self.has_bit(i))
    }
}

/// A word whose bits 0 to `n` are clear loses nothing above bit `n` when those are
/// moved out at the top.
proof fn low_bits_clear(x: u64, n: u64)
    requires
        n < 64,
        forall|i: int| 0 <= i <= n ==> !bit_set(x, i),
    ensures
        x << ((63 - n) as u64) == 0,
    decreases n,
{
    assert(!bit_set(x, n as int));
    let up = (63 - n) as u64;
    if n == 0 {
        assert(x & (1u64 << 0) == 0 ==> x << 63 == 0) by (bit_vector);
    } else {
        low_bits_clear(x, (n - 1) as u64);
        let more = (64 - n) as u64;
        assert(n < 64 && up + n == 63 && more == up + 1 && x & (1u64 << n) == 0 && x << more == 0
            ==> x << up == 0) by (bit_vector);
    }
}

/// A word without a set bit is zero.
proof fn no_bit_is_zero(x: u64)
    requires
        forall|i: int| 0 <= i < 64 ==> !bit_set(x, i),
    ensures
        x == 0,
{
    low_bits_clear(x, 63);
    assert(x << 0 == 0 ==> x == 0) by (bit_vector);
}

/// Two words with the same bits are the same word.
proof fn same_bits_same_word(x: u64, y: u64)
    requires
        forall|i: int| 0 <= i < 64 ==> bit_set(x, i) == bit_set(y, i),
    ensures
        x == y,
{
    assert forall|i: int| 0 <= i < 64 implies !bit_set(x ^ y, i) by {
        let k = i as u64;
        assert(bit_set(x, i) == bit_set(y, i));
        assert(k < 64 && ((x & (1u64 << k)) != 0) == ((y & (1u64 << k)) != 0) ==> ((x ^ y) & (1u64
            << k)) == 0) by (bit_vector);
    }
    no_bit_is_zero(x ^ y);
    assert(x ^ y == 0 ==> x == y) by (bit_vector);
}

/// A mask is determined by the set of its bits.
pub proof fn mask_from_bits(a: FeatureMask, b: FeatureMask)
    requires
        a@ == b@,
    ensures
        a == b,
{
    assert forall|i: int| 0 <= i < 128 implies a.has_bit(i) == b.has_bit(i) by {
        assert(a@.contains(i) == a.has_bit(i));
        assert(b@.contains(i) == b.has_bit(i));
    }
    assert forall|i: int| 0 <= i < 64 implies bit_set(a.low, i) == bit_set(b.low, i) by {
        assert(a.has_bit(i) == b.has_bit(i));
    }
    assert forall|i: int| 0 <= i < 64 implies bit_set(a.high, i) == bit_set(b.high, i) by {
        assert(a.has_bit(i + 64) == b.has_bit(i + 64));
    }
    same_bits_same_word(a.low, b.low);
    same_bits_same_word(a.high, b.high);
}

/// Every set bit of a mask lies in its two words, so its set of bits is finite.
pub proof fn bits_are_bounded(mask: FeatureMask)
    ensures
        mask@.finite(),
        forall|i: int| mask@.contains(i) ==> 0 <= i < 128,
{
    let all = vstd::set_lib::set_int_range(0, 128);
    vstd::set_lib::lemma_int_range(0, 128);
    assert(mask@.subset_of(all));
    vstd::set_lib::lemma_set_subset_finite(all, mask@);
}

impl FeatureMask {
    /// The mask of no feature.
    pub fn empty() -> (mask: FeatureMask)
        ensures
            mask@ == Set::<int>::empty(),
            mask.low_word() == 0,
            mask.high_word() == 0,
    {
        let mask = FeatureMask { low: 0, high: 0 };
        assert forall|i: int| !mask.has_bit(i) by {
            let k = i as u64;
            let h = (i - 64) as u64;
            assert(0u64 & (1u64 << k) == 0) by (bit_vector);
            assert(0u64 & (1u64 << h) == 0) by (bit_vector);
        }
        assert(mask@ == Set::<int>::empty());
        mask
    }

    /// The mask that consists of the two words, the low one first.
    pub fn from_words(words: [u64; 2]) -> (mask: FeatureMask)
        ensures
            mask.low_word() == words[0],
            mask.high_word() == words[1],
    {
        FeatureMask { low: words[0], high: words[1] }
    }

    /// The two words of the mask, the low one first.
    pub fn words(self) -> (words: [u64; 2])
        ensures
            words[0] == self.low_word(),
            words[1] == self.high_word(),
    {
        [self.low, self.high]
    }

    /// Whether bit `i` of the mask is set.
    fn test_bit(self, i: usize) -> (r: bool)
        requires
            i < 128,
        ensures
            r == self@.contains(i as int),
    {
        if i < 64 {
            (self.low & (1u64 << (i as u64))) != 0
        } else {
            (self.high & (1u64 << ((i - 64) as u64))) != 0
        }
    }

    /// Whether the feature is in the set.
    pub fn contains(self, feature: Feature) -> (r: bool)
        ensures
            r == self.has(feature),
    {
        self.test_bit(feature as usize)
    }

    /// Adds the feature to the set.
    pub fn insert(&mut self, feature: Feature)
        ensures
            final(self)@ == old(self)@.insert(feature as int),
    {
        let bit: usize = feature as usize;
        let ghost before = *self;
        if bit < 64 {
            let b: u64 = bit as u64;
            self.low = self.low | (1u64 << b);
            proof {
                word_insert(before.low, b);
            }
        } else {
            let b: u64 = (bit - 64) as u64;
            self.high = self.high | (1u64 << b);
            proof {
                word_insert(before.high, b);
            }
        }
        proof {
            assert forall|i: int| self.has_bit(i) == (before.has_bit(i) || i == bit as int) by {
                if 64 <= i < 128 {
                    assert(bit_set(self.high, i - 64) == (bit_set(before.high, i - 64) || (i == bit
                        as int)));
                }
            }
            assert(self@ =~= before@.insert(feature as int));
        }
    }

    /// The features that are in one of the two sets, or in both.
    pub fn union(self, other: FeatureMask) -> (r: FeatureMask)
        ensures
            r@ == self@.union(other@),
            r.low_word() == self.low_word() | other.low_word(),
            r.high_word() == self.high_word() | other.high_word(),
    {
        let r = FeatureMask { low: self.low | other.low, high: self.high | other.high };
        proof {
            word_union(self.low, other.low);
            word_union(self.high, other.high);
            assert forall|i: int| r.has_bit(i) == (self.has_bit(i) || other.has_bit(i)) by {
                if 64 <= i < 128 {
                    assert(bit_set(r.high, i - 64) == (bit_set(self.high, i - 64) || bit_set(
                        other.high,
                        i - 64,
                    )));
                }
            }
            assert(r@ =~= self@.union(other@));
        }
        r
    }

    /// The features of this set that `other` lacks.
    pub fn missing_from(self, other: FeatureMask) -> (r: FeatureMask)
        ensures
            r == self.minus(other),
            r@ == self@.difference(other@),
            r.low_word() == self.low_word() & !other.low_word(),
            r.high_word() == self.high_word() & !other.high_word(),
    {
        let r = FeatureMask { low: self.low & !other.low, high: self.high & !other.high };
        proof {
            word_difference(self.low, other.low);
            word_difference(self.high, other.high);
            assert forall|i: int| r.has_bit(i) == (self.has_bit(i) && !other.has_bit(i)) by {
                if 64 <= i < 128 {
                    assert(bit_set(r.high, i - 64) == (bit_set(self.high, i - 64) && !bit_set(
                        other.high,
                        i - 64,
                    )));
                }
            }
            assert(r@ =~= self@.difference(other@));
        }
        r
    }

    /// Whether every feature of this set is in `host` too.
    pub fn is_subset_of(self, host: FeatureMask) -> (r: bool)
        ensures
            r == self@.subset_of(host@),
    {
        let missing = self.missing_from(host);
        let none = missing.low == 0 && missing.high == 0;
        proof {
            let nothing = FeatureMask { low: 0, high: 0 };
            assert forall|i: int| !nothing.has_bit(i) by {
                let k = i as u64;
                let h = (i - 64) as u64;
                assert(0u64 & (1u64 << k) == 0) by (bit_vector);
                assert(0u64 & (1u64 << h) == 0) by (bit_vector);
            }
            if none {
                assert(missing == nothing);
                assert forall|i: int| self@.contains(i) implies host@.contains(i) by {
                    assert(!missing@.contains(i));
                }
            } else if self@.subset_of(host@) {
                assert(missing@ =~= nothing@);
                mask_from_bits(missing, nothing);
            }
        }
        none
    }

    /// The number of features in the set.
    pub fn count(self) -> (n: u16)
        ensures
            n == self@.len(),
            n <= 128,
    {
        let mut n: u16 = 0;
        let mut i: usize = 0;
        let ghost below = |k: int| self@.filter(|j: int| j < k);
        assert(below(0) =~= Set::<int>::empty());
        while i < 128
            invariant
                i <= 128,
                n <= i,
                below == (|k: int| self@.filter(|j: int| j < k)),
                below(i as int).finite(),
                n == below(i as int).len(),
            decreases 128 - i,
        {
            if self.test_bit(i) {
                assert(below(i + 1) =~= below(i as int).insert(i as int));
                n += 1;
            } else {
                assert(below(i + 1) =~= below(i as int));
            }
            i += 1;
        }
        assert(below(128) =~= self@);
        n
    }
}

proof fn word_insert(w: u64, b: u64)
    requires
        b < 64,
    ensures
        forall|i: int| 0 <= i < 64 ==> #[trigger] bit_set(w | (1u64 << b), i) == (bit_set(w, i) || i
            == b),
{
    assert forall|i: int| 0 <= i < 64 implies #[trigger] bit_set(w | (1u64 << b), i) == (bit_set(
        w,
        i,
    ) || i == b) by {
        let k = i as u64;
        assert(b < 64 && k < 64 ==> (((w | (1u64 << b)) & (1u64 << k)) != 0) == ((w & (1u64 << k))
            != 0 || k == b)) by (bit_vector);
    }
}

proof fn word_union(v: u64, w: u64)
    ensures
        forall|i: int| 0 <= i < 64 ==> #[trigger] bit_set(v | w, i) == (bit_set(v, i) || bit_set(
            w,
            i,
        )),
{
    assert forall|i: int| 0 <= i < 64 implies #[trigger] bit_set(v | w, i) == (bit_set(v, i)
        || bit_set(w, i)) by {
        let k = i as u64;
        assert(((v | w) & (1u64 << k) != 0) == (v & (1u64 << k) != 0 || w & (1u64 << k) != 0))
            by (bit_vector);
    }
}

proof fn word_difference(v: u64, w: u64)
    ensures
        forall|i: int| 0 <= i < 64 ==> #[trigger] bit_set(v & !w, i) == (bit_set(v, i) && !bit_set(
            w,
            i,
        )),
{
    assert forall|i: int| 0 <= i < 64 implies #[trigger] bit_set(v & !w, i) == (bit_set(v, i)
        && !bit_set(w, i)) by {
        let k = i as u64;
        assert(k < 64 ==> ((v & !w) & (1u64 << k) != 0) == (v & (1u64 << k) != 0 && w & (1u64 << k)
            == 0)) by (bit_vector);
    }
}

// ---------------------------------------------------------------------------
// Features and their names

/// A CPU feature. Its position in this list is its bit in a mask.
#[derive(Clone, Copy, Debug, PartialEq, Eq, Structural)]
pub enum Feature {
    Adx,
    Aes,
    Asimd,
    Avx,
    Avx2,
    Avx512Bf16,
    Avx512Bitalg,
    Avx512Bw,
    Avx512Cd,
    Avx512Dq,
    Avx512F,
    Avx512Fp16,
    Avx512Ifma,
    Avx512Vbmi,
    Avx512Vbmi2,
    Avx512Vl,
    Avx512Vnni,
    Avx512Vp2intersect,
    Avx512Vpopcntdq,
    AvxIfma,
    AvxNeConvert,
    AvxVnni,
    AvxVnniInt16,
    AvxVnniInt8,
    Bf16,
    Bmi1,
    Bmi2,
    Bti,
    Cmpxchg16b,
    Crc,
    Dit,
    Dotprod,
    Dpb,
    Dpb2,
    F16c,
    Fcma,
    Fxsr,
    Fhm,
    Flagm,
    Fma,
    Fp16,
    Frintts,
    Gfni,
    I8mm,
    Jsconv,
    Kl,
    Lor,
    Lse,
    Lzcnt,
    Movbe,
    Mte,
    Paca,
    Pacg,
    Pan,
    Pclmulqdq,
    Pmuv3,
    Popcnt,
    Rand,
    Ras,
    Rcpc,
    Rcpc2,
    Rdm,
    Rdrand,
    Rdseed,
    Sb,
    Sha,
    Sha2,
    Sha3,
    Sha512,
    Sm3,
    Sm4,
    Spe,
    Sse,
    Sse2,
    Sse3,
    Sse4_1,
    Sse4_2,
    Sse4a,
    Ssbs,
    Ssse3,
    Sve,
    Sve2,
    Tbm,
    Vaes,
    Vh,
    Vpclmulqdq,
    Widekl,
    Xsave,
    Xsavec,
    Xsaveopt,
    Xsaves,
}

/// The name by which rustc knows the feature.
pub open spec fn name_of(feature: Feature) -> Seq<char> {
    match feature {
        Feature::Adx => "adx"@,
        Feature::Aes => "aes"@,
        Feature::Asimd => "neon"@,
        Feature::Avx => "avx"@,
        Feature::Avx2 => "avx2"@,
        Feature::Avx512Bf16 => "avx512bf16"@,
        Feature::Avx512Bitalg => "avx512bitalg"@,
        Feature::Avx512Bw => "avx512bw"@,
        Feature::Avx512Cd => "avx512cd"@,
        Feature::Avx512Dq => "avx512dq"@,
        Feature::Avx512F => "avx512f"@,
        Feature::Avx512Fp16 => "avx512fp16"@,
        Feature::Avx512Ifma => "avx512ifma"@,
        Feature::Avx512Vbmi => "avx512vbmi"@,
        Feature::Avx512Vbmi2 => "avx512vbmi2"@,
        Feature::Avx512Vl => "avx512vl"@,
        Feature::Avx512Vnni => "avx512vnni"@,
        Feature::Avx512Vp2intersect => "avx512vp2intersect"@,
        Feature::Avx512Vpopcntdq => "avx512vpopcntdq"@,
        Feature::AvxIfma => "avxifma"@,
        Feature::AvxNeConvert => "avxneconvert"@,
        Feature::AvxVnni => "avxvnni"@,
        Feature::AvxVnniInt16 => "avxvnniint16"@,
        Feature::AvxVnniInt8 => "avxvnniint8"@,
        Feature::Bf16 => "bf16"@,
        Feature::Bmi1 => "bmi1"@,
        Feature::Bmi2 => "bmi2"@,
        Feature::Bti => "bti"@,
        Feature::Cmpxchg16b => "cmpxchg16b"@,
        Feature::Crc => "crc"@,
        Feature::Dit => "dit"@,
        Feature::Dotprod => "dotprod"@,
        Feature::Dpb => "dpb"@,
        Feature::Dpb2 => "dpb2"@,
        Feature::F16c => "f16c"@,
        Feature::Fcma => "fcma"@,
        Feature::Fxsr => "fxsr"@,
        Feature::Fhm => "fhm"@,
        Feature::Flagm => "flagm"@,
        Feature::Fma => "fma"@,
        Feature::Fp16 => "fp16"@,
        Feature::Frintts => "frintts"@,
        Feature::Gfni => "gfni"@,
        Feature::I8mm => "i8mm"@,
        Feature::Jsconv => "jsconv"@,
        Feature::Kl => "kl"@,
        Feature::Lor => "lor"@,
        Feature::Lse => "lse"@,
        Feature::Lzcnt => "lzcnt"@,
        Feature::Movbe => "movbe"@,
        Feature::Mte => "mte"@,
        Feature::Paca => "paca"@,
        Feature::Pacg => "pacg"@,
        Feature::Pan => "pan"@,
        Feature::Pclmulqdq => "pclmulqdq"@,
        Feature::Pmuv3 => "pmuv3"@,
        Feature::Popcnt => "popcnt"@,
        Feature::Rand => "rand"@,
        Feature::Ras => "ras"@,
        Feature::Rcpc => "rcpc"@,
        Feature::Rcpc2 => "rcpc2"@,
        Feature::Rdm => "rdm"@,
        Feature::Rdrand => "rdrand"@,
        Feature::Rdseed => "rdseed"@,
        Feature::Sb => "sb"@,
        Feature::Sha => "sha"@,
        Feature::Sha2 => "sha2"@,
        Feature::Sha3 => "sha3"@,
        Feature::Sha512 => "sha512"@,
        Feature::Sm3 => "sm3"@,
        Feature::Sm4 => "sm4"@,
        Feature::Spe => "spe"@,
        Feature::Sse => "sse"@,
        Feature::Sse2 => "sse2"@,
        Feature::Sse3 => "sse3"@,
        Feature::Sse4_1 => "sse4.1"@,
        Feature::Sse4_2 => "sse4.2"@,
        Feature::Sse4a => "sse4a"@,
        Feature::Ssbs => "ssbs"@,
        Feature::Ssse3 => "ssse3"@,
        Feature::Sve => "sve"@,
        Feature::Sve2 => "sve2"@,
        Feature::Tbm => "tbm"@,
        Feature::Vaes => "vaes"@,
        Feature::Vh => "vh"@,
        Feature::Vpclmulqdq => "vpclmulqdq"@,
        Feature::Widekl => "widekl"@,
        Feature::Xsave => "xsave"@,
        Feature::Xsavec => "xsavec"@,
        Feature::Xsaveopt => "xsaveopt"@,
        Feature::Xsaves => "xsaves"@,
    }
}

/// Whether `name` stands for the feature: its own name, or `asimd` for what
/// rustc calls `neon`.
pub open spec fn names(name: Seq<char>, feature: Feature) -> bool {
    name == name_of(feature) || (feature == Feature::Asimd && name == "asimd"@)
}

/// The feature that `name` stands for, if there is one.
#[verifier::rlimit(40)]
pub fn feature_by_name(name: &str) -> (r: Option<Feature>)
    ensures
        match r {
            Some(feature) => names(name@, feature),
            None => forall|feature: Feature| !names(name@, feature),
        },
{
    if str_eq(name, "adx") {
        return Some(Feature::Adx);
    }
    if str_eq(name, "aes") {
        return Some(Feature::Aes);
    }
    if str_eq(name, "asimd") || str_eq(name, "neon") {
        return Some(Feature::Asimd);
    }
    if str_eq(name, "avx") {
        return Some(Feature::Avx);
    }
    if str_eq(name, "avx2") {
        return Some(Feature::Avx2);
    }
    if str_eq(name, "avx512bf16") {
        return Some(Feature::Avx512Bf16);
    }
    if str_eq(name, "avx512bitalg") {
        return Some(Feature::Avx512Bitalg);
    }
    if str_eq(name, "avx512bw") {
        return Some(Feature::Avx512Bw);
    }
    if str_eq(name, "avx512cd") {
        return Some(Feature::Avx512Cd);
    }
    if str_eq(name, "avx512dq") {
        return Some(Feature::Avx512Dq);
    }
    if str_eq(name, "avx512f") {
        return Some(Feature::Avx512F);
    }
    if str_eq(name, "avx512fp16") {
        return Some(Feature::Avx512Fp16);
    }
    if str_eq(name, "avx512ifma") {
        return Some(Feature::Avx512Ifma);
    }
    if str_eq(name, "avx512vbmi") {
        return Some(Feature::Avx512Vbmi);
    }
    if str_eq(name, "avx512vbmi2") {
        return Some(Feature::Avx512Vbmi2);
    }
    if str_eq(name, "avx512vl") {
        return Some(Feature::Avx512Vl);
    }
    if str_eq(name, "avx512vnni") {
        return Some(Feature::Avx512Vnni);
    }
    if str_eq(name, "avx512vp2intersect") {
        return Some(Feature::Avx512Vp2intersect);
    }
    if str_eq(name, "avx512vpopcntdq") {
        return Some(Feature::Avx512Vpopcntdq);
    }
    if str_eq(name, "avxifma") {
        return Some(Feature::AvxIfma);
    }
    if str_eq(name, "avxneconvert") {
        return Some(Feature::AvxNeConvert);
    }
    if str_eq(name, "avxvnni") {
        return Some(Feature::AvxVnni);
    }
    if str_eq(name, "avxvnniint16") {
        return Some(Feature::AvxVnniInt16);
    }
    if str_eq(name, "avxvnniint8") {
        return Some(Feature::AvxVnniInt8);
    }
    if str_eq(name, "bf16") {
        return Some(Feature::Bf16);
    }
    if str_eq(name, "bmi1") {
        return Some(Feature::Bmi1);
    }
    if str_eq(name, "bmi2") {
        return Some(Feature::Bmi2);
    }
    if str_eq(name, "bti") {
        return Some(Feature::Bti);
    }
    if str_eq(name, "cmpxchg16b") {
        return Some(Feature::Cmpxchg16b);
    }
    if str_eq(name, "crc") {
        return Some(Feature::Crc);
    }
    if str_eq(name, "dit") {
        return Some(Feature::Dit);
    }
    if str_eq(name, "dotprod") {
        return Some(Feature::Dotprod);
    }
    if str_eq(name, "dpb") {
        return Some(Feature::Dpb);
    }
    if str_eq(name, "dpb2") {
        return Some(Feature::Dpb2);
    }
    if str_eq(name, "f16c") {
        return Some(Feature::F16c);
    }
    if str_eq(name, "fcma") {
        return Some(Feature::Fcma);
    }
    if str_eq(name, "fxsr") {
        return Some(Feature::Fxsr);
    }
    if str_eq(name, "fhm") {
        return Some(Feature::Fhm);
    }
    if str_eq(name, "flagm") {
        return Some(Feature::Flagm);
    }
    if str_eq(name, "fma") {
        return Some(Feature::Fma);
    }
    if str_eq(name, "fp16") {
        return Some(Feature::Fp16);
    }
    if str_eq(name, "frintts") {
        return Some(Feature::Frintts);
    }
    if str_eq(name, "gfni") {
        return Some(Feature::Gfni);
    }
    if str_eq(name, "i8mm") {
        return Some(Feature::I8mm);
    }
    if str_eq(name, "jsconv") {
        return Some(Feature::Jsconv);
    }
    if str_eq(name, "kl") {
        return Some(Feature::Kl);
    }
    if str_eq(name, "lor") {
        return Some(Feature::Lor);
    }
    if str_eq(name, "lse") {
        return Some(Feature::Lse);
    }
    if str_eq(name, "lzcnt") {
        return Some(Feature::Lzcnt);
    }
    if str_eq(name, "movbe") {
        return Some(Feature::Movbe);
    }
    if str_eq(name, "mte") {
        return Some(Feature::Mte);
    }
    if str_eq(name, "paca") {
        return Some(Feature::Paca);
    }
    if str_eq(name, "pacg") {
        return Some(Feature::Pacg);
    }
    if str_eq(name, "pan") {
        return Some(Feature::Pan);
    }
    if str_eq(name, "pclmulqdq") {
        return Some(Feature::Pclmulqdq);
    }
    if str_eq(name, "pmuv3") {
        return Some(Feature::Pmuv3);
    }
    if str_eq(name, "popcnt") {
        return Some(Feature::Popcnt);
    }
    if str_eq(name, "rand") {
        return Some(Feature::Rand);
    }
    if str_eq(name, "ras") {
        return Some(Feature::Ras);
    }
    if str_eq(name, "rcpc") {
        return Some(Feature::Rcpc);
    }
    if str_eq(name, "rcpc2") {
        return Some(Feature::Rcpc2);
    }
    if str_eq(name, "rdm") {
        return Some(Feature::Rdm);
    }
    if str_eq(name, "rdrand") {
        return Some(Feature::Rdrand);
    }
    if str_eq(name, "rdseed") {
        return Some(Feature::Rdseed);
    }
    if str_eq(name, "sb") {
        return Some(Feature::Sb);
    }
    if str_eq(name, "sha") {
        return Some(Feature::Sha);
    }
    if str_eq(name, "sha2") {
        return Some(Feature::Sha2);
    }
    if str_eq(name, "sha3") {
        return Some(Feature::Sha3);
    }
    if str_eq(name, "sha512") {
        return Some(Feature::Sha512);
    }
    if str_eq(name, "sm3") {
        return Some(Feature::Sm3);
    }
    if str_eq(name, "sm4") {
        return Some(Feature::Sm4);
    }
    if str_eq(name, "spe") {
        return Some(Feature::Spe);
    }
    if str_eq(name, "sse") {
        return Some(Feature::Sse);
    }
    if str_eq(name, "sse2") {
        return Some(Feature::Sse2);
    }
    if str_eq(name, "sse3") {
        return Some(Feature::Sse3);
    }
    if str_eq(name, "sse4.1") {
        return Some(Feature::Sse4_1);
    }
    if str_eq(name, "sse4.2") {
        return Some(Feature::Sse4_2);
    }
    if str_eq(name, "sse4a") {
        return Some(Feature::Sse4a);
    }
    if str_eq(name, "ssbs") {
        return Some(Feature::Ssbs);
    }
    if str_eq(name, "ssse3") {
        return Some(Feature::Ssse3);
    }
    if str_eq(name, "sve") {
        return Some(Feature::Sve);
    }
    if str_eq(name, "sve2") {
        return Some(Feature::Sve2);
    }
    if str_eq(name, "tbm") {
        return Some(Feature::Tbm);
    }
    if str_eq(name, "vaes") {
        return Some(Feature::Vaes);
    }
    if str_eq(name, "vh") {
        return Some(Feature::Vh);
    }
    if str_eq(name, "vpclmulqdq") {
        return Some(Feature::Vpclmulqdq);
    }
    if str_eq(name, "widekl") {
        return Some(Feature::Widekl);
    }
    if str_eq(name, "xsave") {
        return Some(Feature::Xsave);
    }
    if str_eq(name, "xsavec") {
        return Some(Feature::Xsavec);
    }
    if str_eq(name, "xsaveopt") {
        return Some(Feature::Xsaveopt);
    }
    if str_eq(name, "xsaves") {
        return Some(Feature::Xsaves);
    }
    assert forall|feature: Feature| !names(name@, feature) by {
        assert(name@ != name_of(feature));
    }
    None
}

/// The name by which rustc knows the feature.
pub fn feature_name(feature: Feature) -> (name: &'static str)
    ensures
        name@ == name_of(feature),
{
    match feature {
        Feature::Adx => "adx",
        Feature::Aes => "aes",
        Feature::Asimd => "neon",
        Feature::Avx => "avx",
        Feature::Avx2 => "avx2",
        Feature::Avx512Bf16 => "avx512bf16",
        Feature::Avx512Bitalg => "avx512bitalg",
        Feature::Avx512Bw => "avx512bw",
        Feature::Avx512Cd => "avx512cd",
        Feature::Avx512Dq => "avx512dq",
        Feature::Avx512F => "avx512f",
        Feature::Avx512Fp16 => "avx512fp16",
        Feature::Avx512Ifma => "avx512ifma",
        Feature::Avx512Vbmi => "avx512vbmi",
        Feature::Avx512Vbmi2 => "avx512vbmi2",
        Feature::Avx512Vl => "avx512vl",
        Feature::Avx512Vnni => "avx512vnni",
        Feature::Avx512Vp2intersect => "avx512vp2intersect",
        Feature::Avx512Vpopcntdq => "avx512vpopcntdq",
        Feature::AvxIfma => "avxifma",
        Feature::AvxNeConvert => "avxneconvert",
        Feature::AvxVnni => "avxvnni",
        Feature::AvxVnniInt16 => "avxvnniint16",
        Feature::AvxVnniInt8 => "avxvnniint8",
        Feature::Bf16 => "bf16",
        Feature::Bmi1 => "bmi1",
        Feature::Bmi2 => "bmi2",
        Feature::Bti => "bti",
        Feature::Cmpxchg16b => "cmpxchg16b",
        Feature::Crc => "crc",
        Feature::Dit => "dit",
        Feature::Dotprod => "dotprod",
        Feature::Dpb => "dpb",
        Feature::Dpb2 => "dpb2",
        Feature::F16c => "f16c",
        Feature::Fcma => "fcma",
        Feature::Fxsr => "fxsr",
        Feature::Fhm => "fhm",
        Feature::Flagm => "flagm",
        Feature::Fma => "fma",
        Feature::Fp16 => "fp16",
        Feature::Frintts => "frintts",
        Feature::Gfni => "gfni",
        Feature::I8mm => "i8mm",
        Feature::Jsconv => "jsconv",
        Feature::Kl => "kl",
        Feature::Lor => "lor",
        Feature::Lse => "lse",
        Feature::Lzcnt => "lzcnt",
        Feature::Movbe => "movbe",
        Feature::Mte => "mte",
        Feature::Paca => "paca",
        Feature::Pacg => "pacg",
        Feature::Pan => "pan",
        Feature::Pclmulqdq => "pclmulqdq",
        Feature::Pmuv3 => "pmuv3",
        Feature::Popcnt => "popcnt",
        Feature::Rand => "rand",
        Feature::Ras => "ras",
        Feature::Rcpc => "rcpc",
        Feature::Rcpc2 => "rcpc2",
        Feature::Rdm => "rdm",
        Feature::Rdrand => "rdrand",
        Feature::Rdseed => "rdseed",
        Feature::Sb => "sb",
        Feature::Sha => "sha",
        Feature::Sha2 => "sha2",
        Feature::Sha3 => "sha3",
        Feature::Sha512 => "sha512",
        Feature::Sm3 => "sm3",
        Feature::Sm4 => "sm4",
        Feature::Spe => "spe",
        Feature::Sse => "sse",
        Feature::Sse2 => "sse2",
        Feature::Sse3 => "sse3",
        Feature::Sse4_1 => "sse4.1",
        Feature::Sse4_2 => "sse4.2",
        Feature::Sse4a => "sse4a",
        Feature::Ssbs => "ssbs",
        Feature::Ssse3 => "ssse3",
        Feature::Sve => "sve",
        Feature::Sve2 => "sve2",
        Feature::Tbm => "tbm",
        Feature::Vaes => "vaes",
        Feature::Vh => "vh",
        Feature::Vpclmulqdq => "vpclmulqdq",
        Feature::Widekl => "widekl",
        Feature::Xsave => "xsave",
        Feature::Xsavec => "xsavec",
        Feature::Xsaveopt => "xsaveopt",
        Feature::Xsaves => "xsaves",
    }
}

/// Every feature, in the order of the bits.
pub const ALL_FEATURES: [Feature; 91] = [
    Feature::Adx,
    Feature::Aes,
    Feature::Asimd,
    Feature::Avx,
    Feature::Avx2,
    Feature::Avx512Bf16,
    Feature::Avx512Bitalg,
    Feature::Avx512Bw,
    Feature::Avx512Cd,
    Feature::Avx512Dq,
    Feature::Avx512F,
    Feature::Avx512Fp16,
    Feature::Avx512Ifma,
    Feature::Avx512Vbmi,
    Feature::Avx512Vbmi2,
    Feature::Avx512Vl,
    Feature::Avx512Vnni,
    Feature::Avx512Vp2intersect,
    Feature::Avx512Vpopcntdq,
    Feature::AvxIfma,
    Feature::AvxNeConvert,
    Feature::AvxVnni,
    Feature::AvxVnniInt16,
    Feature::AvxVnniInt8,
    Feature::Bf16,
    Feature::Bmi1,
    Feature::Bmi2,
    Feature::Bti,
    Feature::Cmpxchg16b,
    Feature::Crc,
    Feature::Dit,
    Feature::Dotprod,
    Feature::Dpb,
    Feature::Dpb2,
    Feature::F16c,
    Feature::Fcma,
    Feature::Fxsr,
    Feature::Fhm,
    Feature::Flagm,
    Feature::Fma,
    Feature::Fp16,
    Feature::Frintts,
    Feature::Gfni,
    Feature::I8mm,
    Feature::Jsconv,
    Feature::Kl,
    Feature::Lor,
    Feature::Lse,
    Feature::Lzcnt,
    Feature::Movbe,
    Feature::Mte,
    Feature::Paca,
    Feature::Pacg,
    Feature::Pan,
    Feature::Pclmulqdq,
    Feature::Pmuv3,
    Feature::Popcnt,
    Feature::Rand,
    Feature::Ras,
    Feature::Rcpc,
    Feature::Rcpc2,
    Feature::Rdm,
    Feature::Rdrand,
    Feature::Rdseed,
    Feature::Sb,
    Feature::Sha,
    Feature::Sha2,
    Feature::Sha3,
    Feature::Sha512,
    Feature::Sm3,
    Feature::Sm4,
    Feature::Spe,
    Feature::Sse,
    Feature::Sse2,
    Feature::Sse3,
    Feature::Sse4_1,
    Feature::Sse4_2,
    Feature::Sse4a,
    Feature::Ssbs,
    Feature::Ssse3,
    Feature::Sve,
    Feature::Sve2,
    Feature::Tbm,
    Feature::Vaes,
    Feature::Vh,
    Feature::Vpclmulqdq,
    Feature::Widekl,
    Feature::Xsave,
    Feature::Xsavec,
    Feature::Xsaveopt,
    Feature::Xsaves,
];

/// A number that tells the feature names apart.
spec fn signature(s: Seq<char>) -> int {
    let at = |i: int| if i < s.len() { s[i] as int } else { 0 };
    1000 * s.len() + 2 * at(0) + 1 * at(1) + 53 * at(2) + 10 * at(3) + 53 * at(4) + 20 * at(5) + 39 * at(6) + 46 * at(7)
}

/// The feature whose name has the given signature.
spec fn by_signature(n: int) -> Option<Feature> {
    if n == 9654 {
        Some(Feature::Adx)
    } else if n == 9390 {
        Some(Feature::Aes)
    } else if n == 11304 {
        Some(Feature::Asimd)
    } else if n == 9672 {
        Some(Feature::Avx)
    } else if n == 11172 {
        Some(Feature::Avx2)
    } else if n == 29313 {
        Some(Feature::Avx512Bf16)
    } else if n == 31451 {
        Some(Feature::Avx512Bitalg)
    } else if n == 28095 {
        Some(Feature::Avx512Bw)
    } else if n == 27260 {
        Some(Feature::Avx512Cd)
    } else if n == 27897 {
        Some(Feature::Avx512Dq)
    } else if n == 21777 {
        Some(Feature::Avx512F)
    } else if n == 29929 {
        Some(Feature::Avx512Fp16)
    } else if n == 29586 {
        Some(Feature::Avx512Ifma)
    } else if n == 29909 {
        Some(Feature::Avx512Vbmi)
    } else if n == 30909 {
        Some(Feature::Avx512Vbmi2)
    } else if n == 28369 {
        Some(Feature::Avx512Vl)
    } else if n == 30461 {
        Some(Feature::Avx512Vnni)
    } else if n == 38553 {
        Some(Feature::Avx512Vp2intersect)
    } else if n == 35553 {
        Some(Feature::Avx512Vpopcntdq)
    } else if n == 26091 {
        Some(Feature::AvxIfma)
    } else if n == 36494 {
        Some(Feature::AvxNeConvert)
    } else if n == 26977 {
        Some(Feature::AvxVnni)
    } else if n == 36807 {
        Some(Feature::AvxVnniInt16)
    } else if n == 35807 {
        Some(Feature::AvxVnniInt8)
    } else if n == 7435 {
        Some(Feature::Bf16)
    } else if n == 10360 {
        Some(Feature::Bmi1)
    } else if n == 10370 {
        Some(Feature::Bmi2)
    } else if n == 8877 {
        Some(Feature::Bti)
    } else if n == 31041 {
        Some(Feature::Cmpxchg16b)
    } else if n == 8559 {
        Some(Feature::Crc)
    } else if n == 9453 {
        Some(Feature::Dit)
    } else if n == 26741 {
        Some(Feature::Dotprod)
    } else if n == 8506 {
        Some(Feature::Dpb)
    } else if n == 10006 {
        Some(Feature::Dpb2)
    } else if n == 8105 {
        Some(Feature::F16c)
    } else if n == 11050 {
        Some(Feature::Fcma)
    } else if n == 11559 {
        Some(Feature::Fxsr)
    } else if n == 9085 {
        Some(Feature::Fhm)
    } else if n == 17260 {
        Some(Feature::Flagm)
    } else if n == 8454 {
        Some(Feature::Fma)
    } else if n == 7453 {
        Some(Feature::Fp16)
    } else if n == 26936 {
        Some(Feature::Frintts)
    } else if n == 11188 {
        Some(Feature::Gfni)
    } else if n == 11133 {
        Some(Feature::I8mm)
    } else if n == 20874 {
        Some(Feature::Jsconv)
    } else if n == 2322 {
        Some(Feature::Kl)
    } else if n == 9369 {
        Some(Feature::Lor)
    } else if n == 8684 {
        Some(Feature::Lse)
    } else if n == 17833 {
        Some(Feature::Lzcnt)
    } else if n == 17916 {
        Some(Feature::Movbe)
    } else if n == 8687 {
        Some(Feature::Mte)
    } else if n == 10538 {
        Some(Feature::Paca)
    } else if n == 10598 {
        Some(Feature::Pacg)
    } else if n == 9151 {
        Some(Feature::Pan)
    } else if n == 33505 {
        Some(Feature::Pclmulqdq)
    } else if n == 15417 {
        Some(Feature::Pmuv3)
    } else if n == 21411 {
        Some(Feature::Popcnt)
    } else if n == 11155 {
        Some(Feature::Rand)
    } else if n == 9420 {
        Some(Feature::Ras)
    } else if n == 11253 {
        Some(Feature::Rcpc)
    } else if n == 14903 {
        Some(Feature::Rcpc2)
    } else if n == 9105 {
        Some(Feature::Rdm)
    } else if n == 21170 {
        Some(Feature::Rdrand)
    } else if n == 20786 {
        Some(Feature::Rdseed)
    } else if n == 2328 {
        Some(Feature::Sb)
    } else if n == 8475 {
        Some(Feature::Sha)
    } else if n == 9975 {
        Some(Feature::Sha2)
    } else if n == 9985 {
        Some(Feature::Sha3)
    } else if n == 15602 {
        Some(Feature::Sha512)
    } else if n == 6042 {
        Some(Feature::Sm3)
    } else if n == 6095 {
        Some(Feature::Sm4)
    } else if n == 8695 {
        Some(Feature::Spe)
    } else if n == 8698 {
        Some(Feature::Sse)
    } else if n == 10198 {
        Some(Feature::Sse2)
    } else if n == 10208 {
        Some(Feature::Sse3)
    } else if n == 15636 {
        Some(Feature::Sse4_1)
    } else if n == 15656 {
        Some(Feature::Sse4_2)
    } else if n == 16359 {
        Some(Feature::Sse4a)
    } else if n == 10689 {
        Some(Feature::Ssbs)
    } else if n == 15153 {
        Some(Feature::Ssse3)
    } else if n == 8701 {
        Some(Feature::Sve)
    } else if n == 10201 {
        Some(Feature::Sve2)
    } else if n == 9107 {
        Some(Feature::Tbm)
    } else if n == 10836 {
        Some(Feature::Vaes)
    } else if n == 2340 {
        Some(Feature::Vh)
    } else if n == 34202 {
        Some(Feature::Vpclmulqdq)
    } else if n == 20484 {
        Some(Feature::Widekl)
    } else if n == 17029 {
        Some(Feature::Xsave)
    } else if n == 20009 {
        Some(Feature::Xsavec)
    } else if n == 31953 {
        Some(Feature::Xsaveopt)
    } else if n == 20329 {
        Some(Feature::Xsaves)
    } else if n == 17264 {
        Some(Feature::Asimd)
    } else {
        None
    }
}

#[verifier::rlimit(60)]
proof fn signature_of_name(feature: Feature)
    ensures
        by_signature(signature(name_of(feature))) == Some(feature),
{
    match feature {
        Feature::Adx => {
            reveal_strlit("adx");
            assert(signature("adx"@) == 9654);
        },
        Feature::Aes => {
            reveal_strlit("aes");
            assert(signature("aes"@) == 9390);
        },
        Feature::Asimd => {
            reveal_strlit("neon");
            assert(signature("neon"@) == 11304);
        },
        Feature::Avx => {
            reveal_strlit("avx");
            assert(signature("avx"@) == 9672);
        },
        Feature::Avx2 => {
            reveal_strlit("avx2");
            assert(signature("avx2"@) == 11172);
        },
        Feature::Avx512Bf16 => {
            reveal_strlit("avx512bf16");
            assert(signature("avx512bf16"@) == 29313);
        },
        Feature::Avx512Bitalg => {
            reveal_strlit("avx512bitalg");
            assert(signature("avx512bitalg"@) == 31451);
        },
        Feature::Avx512Bw => {
            reveal_strlit("avx512bw");
            assert(signature("avx512bw"@) == 28095);
        },
        Feature::Avx512Cd => {
            reveal_strlit("avx512cd");
            assert(signature("avx512cd"@) == 27260);
        },
        Feature::Avx512Dq => {
            reveal_strlit("avx512dq");
            assert(signature("avx512dq"@) == 27897);
        },
        Feature::Avx512F => {
            reveal_strlit("avx512f");
            assert(signature("avx512f"@) == 21777);
        },
        Feature::Avx512Fp16 => {
            reveal_strlit("avx512fp16");
            assert(signature("avx512fp16"@) == 29929);
        },
        Feature::Avx512Ifma => {
            reveal_strlit("avx512ifma");
            assert(signature("avx512ifma"@) == 29586);
        },
        Feature::Avx512Vbmi => {
            reveal_strlit("avx512vbmi");
            assert(signature("avx512vbmi"@) == 29909);
        },
        Feature::Avx512Vbmi2 => {
            reveal_strlit("avx512vbmi2");
            assert(signature("avx512vbmi2"@) == 30909);
        },
        Feature::Avx512Vl => {
            reveal_strlit("avx512vl");
            assert(signature("avx512vl"@) == 28369);
        },
        Feature::Avx512Vnni => {
            reveal_strlit("avx512vnni");
            assert(signature("avx512vnni"@) == 30461);
        },
        Feature::Avx512Vp2intersect => {
            reveal_strlit("avx512vp2intersect");
            assert(signature("avx512vp2intersect"@) == 38553);
        },
        Feature::Avx512Vpopcntdq => {
            reveal_strlit("avx512vpopcntdq");
            assert(signature("avx512vpopcntdq"@) == 35553);
        },
        Feature::AvxIfma => {
            reveal_strlit("avxifma");
            assert(signature("avxifma"@) == 26091);
        },
        Feature::AvxNeConvert => {
            reveal_strlit("avxneconvert");
            assert(signature("avxneconvert"@) == 36494);
        },
        Feature::AvxVnni => {
            reveal_strlit("avxvnni");
            assert(signature("avxvnni"@) == 26977);
        },
        Feature::AvxVnniInt16 => {
            reveal_strlit("avxvnniint16");
            assert(signature("avxvnniint16"@) == 36807);
        },
        Feature::AvxVnniInt8 => {
            reveal_strlit("avxvnniint8");
            assert(signature("avxvnniint8"@) == 35807);
        },
        Feature::Bf16 => {
            reveal_strlit("bf16");
            assert(signature("bf16"@) == 7435);
        },
        Feature::Bmi1 => {
            reveal_strlit("bmi1");
            assert(signature("bmi1"@) == 10360);
        },
        Feature::Bmi2 => {
            reveal_strlit("bmi2");
            assert(signature("bmi2"@) == 10370);
        },
        Feature::Bti => {
            reveal_strlit("bti");
            assert(signature("bti"@) == 8877);
        },
        Feature::Cmpxchg16b => {
            reveal_strlit("cmpxchg16b");
            assert(signature("cmpxchg16b"@) == 31041);
        },
        Feature::Crc => {
            reveal_strlit("crc");
            assert(signature("crc"@) == 8559);
        },
        Feature::Dit => {
            reveal_strlit("dit");
            assert(signature("dit"@) == 9453);
        },
        Feature::Dotprod => {
            reveal_strlit("dotprod");
            assert(signature("dotprod"@) == 26741);
        },
        Feature::Dpb => {
            reveal_strlit("dpb");
            assert(signature("dpb"@) == 8506);
        },
        Feature::Dpb2 => {
            reveal_strlit("dpb2");
            assert(signature("dpb2"@) == 10006);
        },
        Feature::F16c => {
            reveal_strlit("f16c");
            assert(signature("f16c"@) == 8105);
        },
        Feature::Fcma => {
            reveal_strlit("fcma");
            assert(signature("fcma"@) == 11050);
        },
        Feature::Fxsr => {
            reveal_strlit("fxsr");
            assert(signature("fxsr"@) == 11559);
        },
        Feature::Fhm => {
            reveal_strlit("fhm");
            assert(signature("fhm"@) == 9085);
        },
        Feature::Flagm => {
            reveal_strlit("flagm");
            assert(signature("flagm"@) == 17260);
        },
        Feature::Fma => {
            reveal_strlit("fma");
            assert(signature("fma"@) == 8454);
        },
        Feature::Fp16 => {
            reveal_strlit("fp16");
            assert(signature("fp16"@) == 7453);
        },
        Feature::Frintts => {
            reveal_strlit("frintts");
            assert(signature("frintts"@) == 26936);
        },
        Feature::Gfni => {
            reveal_strlit("gfni");
            assert(signature("gfni"@) == 11188);
        },
        Feature::I8mm => {
            reveal_strlit("i8mm");
            assert(signature("i8mm"@) == 11133);
        },
        Feature::Jsconv => {
            reveal_strlit("jsconv");
            assert(signature("jsconv"@) == 20874);
        },
        Feature::Kl => {
            reveal_strlit("kl");
            assert(signature("kl"@) == 2322);
        },
        Feature::Lor => {
            reveal_strlit("lor");
            assert(signature("lor"@) == 9369);
        },
        Feature::Lse => {
            reveal_strlit("lse");
            assert(signature("lse"@) == 8684);
        },
        Feature::Lzcnt => {
            reveal_strlit("lzcnt");
            assert(signature("lzcnt"@) == 17833);
        },
        Feature::Movbe => {
            reveal_strlit("movbe");
            assert(signature("movbe"@) == 17916);
        },
        Feature::Mte => {
            reveal_strlit("mte");
            assert(signature("mte"@) == 8687);
        },
        Feature::Paca => {
            reveal_strlit("paca");
            assert(signature("paca"@) == 10538);
        },
        Feature::Pacg => {
            reveal_strlit("pacg");
            assert(signature("pacg"@) == 10598);
        },
        Feature::Pan => {
            reveal_strlit("pan");
            assert(signature("pan"@) == 9151);
        },
        Feature::Pclmulqdq => {
            reveal_strlit("pclmulqdq");
            assert(signature("pclmulqdq"@) == 33505);
        },
        Feature::Pmuv3 => {
            reveal_strlit("pmuv3");
            assert(signature("pmuv3"@) == 15417);
        },
        Feature::Popcnt => {
            reveal_strlit("popcnt");
            assert(signature("popcnt"@) == 21411);
        },
        Feature::Rand => {
            reveal_strlit("rand");
            assert(signature("rand"@) == 11155);
        },
        Feature::Ras => {
            reveal_strlit("ras");
            assert(signature("ras"@) == 9420);
        },
        Feature::Rcpc => {
            reveal_strlit("rcpc");
            assert(signature("rcpc"@) == 11253);
        },
        Feature::Rcpc2 => {
            reveal_strlit("rcpc2");
            assert(signature("rcpc2"@) == 14903);
        },
        Feature::Rdm => {
            reveal_strlit("rdm");
            assert(signature("rdm"@) == 9105);
        },
        Feature::Rdrand => {
            reveal_strlit("rdrand");
            assert(signature("rdrand"@) == 21170);
        },
        Feature::Rdseed => {
            reveal_strlit("rdseed");
            assert(signature("rdseed"@) == 20786);
        },
        Feature::Sb => {
            reveal_strlit("sb");
            assert(signature("sb"@) == 2328);
        },
        Feature::Sha => {
            reveal_strlit("sha");
            assert(signature("sha"@) == 8475);
        },
        Feature::Sha2 => {
            reveal_strlit("sha2");
            assert(signature("sha2"@) == 9975);
        },
        Feature::Sha3 => {
            reveal_strlit("sha3");
            assert(signature("sha3"@) == 9985);
        },
        Feature::Sha512 => {
            reveal_strlit("sha512");
            assert(signature("sha512"@) == 15602);
        },
        Feature::Sm3 => {
            reveal_strlit("sm3");
            assert(signature("sm3"@) == 6042);
        },
        Feature::Sm4 => {
            reveal_strlit("sm4");
            assert(signature("sm4"@) == 6095);
        },
        Feature::Spe => {
            reveal_strlit("spe");
            assert(signature("spe"@) == 8695);
        },
        Feature::Sse => {
            reveal_strlit("sse");
            assert(signature("sse"@) == 8698);
        },
        Feature::Sse2 => {
            reveal_strlit("sse2");
            assert(signature("sse2"@) == 10198);
        },
        Feature::Sse3 => {
            reveal_strlit("sse3");
            assert(signature("sse3"@) == 10208);
        },
        Feature::Sse4_1 => {
            reveal_strlit("sse4.1");
            assert(signature("sse4.1"@) == 15636);
        },
        Feature::Sse4_2 => {
            reveal_strlit("sse4.2");
            assert(signature("sse4.2"@) == 15656);
        },
        Feature::Sse4a => {
            reveal_strlit("sse4a");
            assert(signature("sse4a"@) == 16359);
        },
        Feature::Ssbs => {
            reveal_strlit("ssbs");
            assert(signature("ssbs"@) == 10689);
        },
        Feature::Ssse3 => {
            reveal_strlit("ssse3");
            assert(signature("ssse3"@) == 15153);
        },
        Feature::Sve => {
            reveal_strlit("sve");
            assert(signature("sve"@) == 8701);
        },
        Feature::Sve2 => {
            reveal_strlit("sve2");
            assert(signature("sve2"@) == 10201);
        },
        Feature::Tbm => {
            reveal_strlit("tbm");
            assert(signature("tbm"@) == 9107);
        },
        Feature::Vaes => {
            reveal_strlit("vaes");
            assert(signature("vaes"@) == 10836);
        },
        Feature::Vh => {
            reveal_strlit("vh");
            assert(signature("vh"@) == 2340);
        },
        Feature::Vpclmulqdq => {
            reveal_strlit("vpclmulqdq");
            assert(signature("vpclmulqdq"@) == 34202);
        },
        Feature::Widekl => {
            reveal_strlit("widekl");
            assert(signature("widekl"@) == 20484);
        },
        Feature::Xsave => {
            reveal_strlit("xsave");
            assert(signature("xsave"@) == 17029);
        },
        Feature::Xsavec => {
            reveal_strlit("xsavec");
            assert(signature("xsavec"@) == 20009);
        },
        Feature::Xsaveopt => {
            reveal_strlit("xsaveopt");
            assert(signature("xsaveopt"@) == 31953);
        },
        Feature::Xsaves => {
            reveal_strlit("xsaves");
            assert(signature("xsaves"@) == 20329);
        },
    }
}

/// A name stands for at most one feature.
pub proof fn name_is_unambiguous(name: Seq<char>, a: Feature, b: Feature)
    requires
        names(name, a),
        names(name, b),
    ensures
        a == b,
{
    reveal_strlit("asimd");
    assert(signature("asimd"@) == 17264);
    signature_of_name(a);
    signature_of_name(b);
}

/// Different features have different names.
pub proof fn names_are_distinct(a: Feature, b: Feature)
    requires
        a != b,
    ensures
        name_of(a) != name_of(b),
{
    signature_of_name(a);
    signature_of_name(b);
}

/// Every feature has a bit of its own within the two words of a mask, and is
/// listed in `ALL_FEATURES` at the position of that bit.
pub proof fn feature_bits(a: Feature, b: Feature)
    ensures
        0 <= (a as int) < ALL_FEATURES@.len(),
        ALL_FEATURES@.len() <= 128,
        ALL_FEATURES@[a as int] == a,
        a != b ==> a as int != b as int,
{
}

/// The names of what rustc reports for other reasons stand for no feature.
pub(crate) proof fn ignored_names_are_free(name: Seq<char>, feature: Feature)
    requires
        name == "crt-static"@ || name == "ermsb"@ || name == "lahfsahf"@ || name == "prfchw"@ || name
            == "x87"@,
    ensures
        !names(name, feature),
{
    reveal_strlit("crt-static");
    assert(signature("crt-static"@) == 34444);
    reveal_strlit("ermsb");
    assert(signature("ermsb"@) == 17437);
    reveal_strlit("lahfsahf");
    assert(signature("lahfsahf"@) == 31628);
    reveal_strlit("prfchw");
    assert(signature("prfchw"@) == 20626);
    reveal_strlit("x87");
    assert(signature("x87"@) == 6211);
    reveal_strlit("asimd");
    assert(signature("asimd"@) == 17264);
    signature_of_name(feature);
}

/// The names by which rustc knows the features: each stands for its feature, in both
/// directions.
pub proof fn rustc_names_the_features(feature: Feature, written: &'static str, read: Option<Feature>)
    requires
        call_ensures(feature_name, (feature,), written),
        call_ensures(feature_by_name, (written,), read),
    ensures
        read == Some(feature),
        feature == Feature::Adx ==> written@ == "adx"@,
        feature == Feature::Aes ==> written@ == "aes"@,
        feature == Feature::Asimd ==> written@ == "neon"@,
        feature == Feature::Avx ==> written@ == "avx"@,
        feature == Feature::Avx2 ==> written@ == "avx2"@,
        feature == Feature::Avx512Bf16 ==> written@ == "avx512bf16"@,
        feature == Feature::Avx512Bitalg ==> written@ == "avx512bitalg"@,
        feature == Feature::Avx512Bw ==> written@ == "avx512bw"@,
        feature == Feature::Avx512Cd ==> written@ == "avx512cd"@,
        feature == Feature::Avx512Dq ==> written@ == "avx512dq"@,
        feature == Feature::Avx512F ==> written@ == "avx512f"@,
        feature == Feature::Avx512Fp16 ==> written@ == "avx512fp16"@,
        feature == Feature::Avx512Ifma ==> written@ == "avx512ifma"@,
        feature == Feature::Avx512Vbmi ==> written@ == "avx512vbmi"@,
        feature == Feature::Avx512Vbmi2 ==> written@ == "avx512vbmi2"@,
        feature == Feature::Avx512Vl ==> written@ == "avx512vl"@,
        feature == Feature::Avx512Vnni ==> written@ == "avx512vnni"@,
        feature == Feature::Avx512Vp2intersect ==> written@ == "avx512vp2intersect"@,
        feature == Feature::Avx512Vpopcntdq ==> written@ == "avx512vpopcntdq"@,
        feature == Feature::AvxIfma ==> written@ == "avxifma"@,
        feature == Feature::AvxNeConvert ==> written@ == "avxneconvert"@,
        feature == Feature::AvxVnni ==> written@ == "avxvnni"@,
        feature == Feature::AvxVnniInt16 ==> written@ == "avxvnniint16"@,
        feature == Feature::AvxVnniInt8 ==> written@ == "avxvnniint8"@,
        feature == Feature::Bf16 ==> written@ == "bf16"@,
        feature == Feature::Bmi1 ==> written@ == "bmi1"@,
        feature == Feature::Bmi2 ==> written@ == "bmi2"@,
        feature == Feature::Bti ==> written@ == "bti"@,
        feature == Feature::Cmpxchg16b ==> written@ == "cmpxchg16b"@,
        feature == Feature::Crc ==> written@ == "crc"@,
        feature == Feature::Dit ==> written@ == "dit"@,
        feature == Feature::Dotprod ==> written@ == "dotprod"@,
        feature == Feature::Dpb ==> written@ == "dpb"@,
        feature == Feature::Dpb2 ==> written@ == "dpb2"@,
        feature == Feature::F16c ==> written@ == "f16c"@,
        feature == Feature::Fcma ==> written@ == "fcma"@,
        feature == Feature::Fxsr ==> written@ == "fxsr"@,
        feature == Feature::Fhm ==> written@ == "fhm"@,
        feature == Feature::Flagm ==> written@ == "flagm"@,
        feature == Feature::Fma ==> written@ == "fma"@,
        feature == Feature::Fp16 ==> written@ == "fp16"@,
        feature == Feature::Frintts ==> written@ == "frintts"@,
        feature == Feature::Gfni ==> written@ == "gfni"@,
        feature == Feature::I8mm ==> written@ == "i8mm"@,
        feature == Feature::Jsconv ==> written@ == "jsconv"@,
        feature == Feature::Kl ==> written@ == "kl"@,
        feature == Feature::Lor ==> written@ == "lor"@,
        feature == Feature::Lse ==> written@ == "lse"@,
        feature == Feature::Lzcnt ==> written@ == "lzcnt"@,
        feature == Feature::Movbe ==> written@ == "movbe"@,
        feature == Feature::Mte ==> written@ == "mte"@,
        feature == Feature::Paca ==> written@ == "paca"@,
        feature == Feature::Pacg ==> written@ == "pacg"@,
        feature == Feature::Pan ==> written@ == "pan"@,
        feature == Feature::Pclmulqdq ==> written@ == "pclmulqdq"@,
        feature == Feature::Pmuv3 ==> written@ == "pmuv3"@,
        feature == Feature::Popcnt ==> written@ == "popcnt"@,
        feature == Feature::Rand ==> written@ == "rand"@,
        feature == Feature::Ras ==> written@ == "ras"@,
        feature == Feature::Rcpc ==> written@ == "rcpc"@,
        feature == Feature::Rcpc2 ==> written@ == "rcpc2"@,
        feature == Feature::Rdm ==> written@ == "rdm"@,
        feature == Feature::Rdrand ==> written@ == "rdrand"@,
        feature == Feature::Rdseed ==> written@ == "rdseed"@,
        feature == Feature::Sb ==> written@ == "sb"@,
        feature == Feature::Sha ==> written@ == "sha"@,
        feature == Feature::Sha2 ==> written@ == "sha2"@,
        feature == Feature::Sha3 ==> written@ == "sha3"@,
        feature == Feature::Sha512 ==> written@ == "sha512"@,
        feature == Feature::Sm3 ==> written@ == "sm3"@,
        feature == Feature::Sm4 ==> written@ == "sm4"@,
        feature == Feature::Spe ==> written@ == "spe"@,
        feature == Feature::Sse ==> written@ == "sse"@,
        feature == Feature::Sse2 ==> written@ == "sse2"@,
        feature == Feature::Sse3 ==> written@ == "sse3"@,
        feature == Feature::Sse4_1 ==> written@ == "sse4.1"@,
        feature == Feature::Sse4_2 ==> written@ == "sse4.2"@,
        feature == Feature::Sse4a ==> written@ == "sse4a"@,
        feature == Feature::Ssbs ==> written@ == "ssbs"@,
        feature == Feature::Ssse3 ==> written@ == "ssse3"@,
        feature == Feature::Sve ==> written@ == "sve"@,
        feature == Feature::Sve2 ==> written@ == "sve2"@,
        feature == Feature::Tbm ==> written@ == "tbm"@,
        feature == Feature::Vaes ==> written@ == "vaes"@,
        feature == Feature::Vh ==> written@ == "vh"@,
        feature == Feature::Vpclmulqdq ==> written@ == "vpclmulqdq"@,
        feature == Feature::Widekl ==> written@ == "widekl"@,
        feature == Feature::Xsave ==> written@ == "xsave"@,
        feature == Feature::Xsavec ==> written@ == "xsavec"@,
        feature == Feature::Xsaveopt ==> written@ == "xsaveopt"@,
        feature == Feature::Xsaves ==> written@ == "xsaves"@,
{
    assert(names(written@, feature));
    match read {
        Some(other) => name_is_unambiguous(written@, feature, other),
        None => {
            let args = (written,);
            assert(!names(args.0@, feature));
        },
    }
}

/// A name is read as at most one feature: as the one whose name it is, or, for `asimd`, as what
/// rustc calls `neon`.
pub proof fn names_are_read_as_their_feature(
    name: &str,
    read: Option<Feature>,
    feature: Feature,
    written: &'static str,
)
    requires
        call_ensures(feature_by_name, (name,), read),
        call_ensures(feature_name, (feature,), written),
    ensures
        name@ == written@ ==> read == Some(feature),
        read == Some(feature) ==> name@ == written@ || feature == Feature::Asimd && name@
            == "asimd"@,
        name@ == "asimd"@ ==> read == Some(Feature::Asimd),
{
    if name@ == written@ {
        assert(names(name@, feature));
        match read {
            Some(other) => name_is_unambiguous(name@, feature, other),
            None => {
                let args = (name,);
                assert(!names(args.0@, feature));
            },
        }
    }
    if name@ == "asimd"@ {
        assert(names(name@, Feature::Asimd));
        match read {
            Some(other) => name_is_unambiguous(name@, Feature::Asimd, other),
            None => {
                let args = (name,);
                assert(!names(args.0@, Feature::Asimd));
            },
        }
    }
}

// ---------------------------------------------------------------------------
// Words and bits

/// A mask that is made of two words holds a feature if and only if its bit is set: the low word
/// has the first 64 bits, the high word the others. Taking the mask apart gives the words back.
pub proof fn words_make_a_mask(words: [u64; 2], mask: FeatureMask, back: [u64; 2], i: u64)
    requires
        call_ensures(FeatureMask::from_words, (words,), mask),
        call_ensures(FeatureMask::words, (mask,), back),
        i < 64,
    ensures
        back@ == words@,
        mask@.contains(i as int) == (words[0] & (1u64 << i) != 0),
        mask@.contains(i + 64) == (words[1] & (1u64 << i) != 0),
{
    assert(back@ =~= words@);
}

/// Masks with the same words are the same.
pub(crate) proof fn words_are_the_mask(a: FeatureMask, b: FeatureMask)
    requires
        a.low_word() == b.low_word(),
        a.high_word() == b.high_word(),
    ensures
        a == b,
{
}

/// The two words of a mask make the same mask again.
pub proof fn a_mask_is_its_words(mask: FeatureMask, words: [u64; 2], back: FeatureMask)
    requires
        call_ensures(FeatureMask::words, (mask,), words),
        call_ensures(FeatureMask::from_words, (words,), back),
    ensures
        back == mask,
{
}

/// Whether a feature is in a mask is a matter of each feature alone: a union has what one of
/// its parts has, a difference what only the first has, and the empty mask nothing.
pub proof fn masks_are_sets(
    a: FeatureMask,
    b: FeatureMask,
    union: FeatureMask,
    missing: FeatureMask,
    empty: FeatureMask,
    subset: bool,
    feature: Feature,
    in_a: bool,
    in_b: bool,
)
    requires
        call_ensures(FeatureMask::union, (a, b), union),
        call_ensures(FeatureMask::missing_from, (a, b), missing),
        call_ensures(FeatureMask::empty, (), empty),
        call_ensures(FeatureMask::is_subset_of, (a, b), subset),
        call_ensures(FeatureMask::contains, (a, feature), in_a),
        call_ensures(FeatureMask::contains, (b, feature), in_b),
    ensures
        union.has(feature) == (in_a || in_b),
        missing.has(feature) == (in_a && !in_b),
        !empty.has(feature),
        subset && in_a ==> in_b,
        subset <==> missing@ == Set::<int>::empty(),
{
    if subset {
        assert(missing@ =~= Set::<int>::empty());
    } else {
        let i = choose|i: int| a@.contains(i) && !b@.contains(i);
        assert(missing@.contains(i));
    }
}

/// One more feature in a mask makes its count greater by one.
pub proof fn counts_go_by_features(
    mask: FeatureMask,
    more: FeatureMask,
    feature: Feature,
    n: u16,
    m: u16,
)
    requires
        call_ensures(FeatureMask::count, (mask,), n),
        call_ensures(FeatureMask::count, (more,), m),
        more@ == mask@.insert(feature as int),
        !mask.has(feature),
    ensures
        m == n + 1,
{
    bits_are_bounded(mask);
}

/// The bit of each feature. The loader's own list of features has the same order.
pub proof fn bits_of_the_features()
    ensures
        Feature::Adx as int == 0,
        Feature::Aes as int == 1,
        Feature::Asimd as int == 2,
        Feature::Avx as int == 3,
        Feature::Avx2 as int == 4,
        Feature::Avx512Bf16 as int == 5,
        Feature::Avx512Bitalg as int == 6,
        Feature::Avx512Bw as int == 7,
        Feature::Avx512Cd as int == 8,
        Feature::Avx512Dq as int == 9,
        Feature::Avx512F as int == 10,
        Feature::Avx512Fp16 as int == 11,
        Feature::Avx512Ifma as int == 12,
        Feature::Avx512Vbmi as int == 13,
        Feature::Avx512Vbmi2 as int == 14,
        Feature::Avx512Vl as int == 15,
        Feature::Avx512Vnni as int == 16,
        Feature::Avx512Vp2intersect as int == 17,
        Feature::Avx512Vpopcntdq as int == 18,
        Feature::AvxIfma as int == 19,
        Feature::AvxNeConvert as int == 20,
        Feature::AvxVnni as int == 21,
        Feature::AvxVnniInt16 as int == 22,
        Feature::AvxVnniInt8 as int == 23,
        Feature::Bf16 as int == 24,
        Feature::Bmi1 as int == 25,
        Feature::Bmi2 as int == 26,
        Feature::Bti as int == 27,
        Feature::Cmpxchg16b as int == 28,
        Feature::Crc as int == 29,
        Feature::Dit as int == 30,
        Feature::Dotprod as int == 31,
        Feature::Dpb as int == 32,
        Feature::Dpb2 as int == 33,
        Feature::F16c as int == 34,
        Feature::Fcma as int == 35,
        Feature::Fxsr as int == 36,
        Feature::Fhm as int == 37,
        Feature::Flagm as int == 38,
        Feature::Fma as int == 39,
        Feature::Fp16 as int == 40,
        Feature::Frintts as int == 41,
        Feature::Gfni as int == 42,
        Feature::I8mm as int == 43,
        Feature::Jsconv as int == 44,
        Feature::Kl as int == 45,
        Feature::Lor as int == 46,
        Feature::Lse as int == 47,
        Feature::Lzcnt as int == 48,
        Feature::Movbe as int == 49,
        Feature::Mte as int == 50,
        Feature::Paca as int == 51,
        Feature::Pacg as int == 52,
        Feature::Pan as int == 53,
        Feature::Pclmulqdq as int == 54,
        Feature::Pmuv3 as int == 55,
        Feature::Popcnt as int == 56,
        Feature::Rand as int == 57,
        Feature::Ras as int == 58,
        Feature::Rcpc as int == 59,
        Feature::Rcpc2 as int == 60,
        Feature::Rdm as int == 61,
        Feature::Rdrand as int == 62,
        Feature::Rdseed as int == 63,
        Feature::Sb as int == 64,
        Feature::Sha as int == 65,
        Feature::Sha2 as int == 66,
        Feature::Sha3 as int == 67,
        Feature::Sha512 as int == 68,
        Feature::Sm3 as int == 69,
        Feature::Sm4 as int == 70,
        Feature::Spe as int == 71,
        Feature::Sse as int == 72,
        Feature::Sse2 as int == 73,
        Feature::Sse3 as int == 74,
        Feature::Sse4_1 as int == 75,
        Feature::Sse4_2 as int == 76,
        Feature::Sse4a as int == 77,
        Feature::Ssbs as int == 78,
        Feature::Ssse3 as int == 79,
        Feature::Sve as int == 80,
        Feature::Sve2 as int == 81,
        Feature::Tbm as int == 82,
        Feature::Vaes as int == 83,
        Feature::Vh as int == 84,
        Feature::Vpclmulqdq as int == 85,
        Feature::Widekl as int == 86,
        Feature::Xsave as int == 87,
        Feature::Xsavec as int == 88,
        Feature::Xsaveopt as int == 89,
        Feature::Xsaves as int == 90,
{
}

/// Inserting a feature adds it and leaves every other one as it was.
pub proof fn insertion_adds_one_feature(mask: &mut FeatureMask, added: Feature, other: Feature)
    requires
        call_ensures(FeatureMask::insert, (mask, added), ()),
    ensures
        final(mask).has(added),
        other != added ==> final(mask).has(other) == old(mask).has(other),
{
}

} // verus!
