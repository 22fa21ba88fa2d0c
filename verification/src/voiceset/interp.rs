//! Layout of a wavetable in memory: waveforms, oversampling and the mip-map levels.
use vstd::prelude::*;
use vstd::arithmetic::power2::{pow2, lemma2_to64};

verus! {

/// Offset of mip level `mip` inside a buffer that stores level 0 (`len` samples),
/// level 1 (`len / 2` samples), level 2 (`len / 4` samples) and so on, back to back.
/// Levels above `top` are not laid out and map to offset 0.
pub open spec fn exact_mip_offset(mip: nat, len: nat, top: nat) -> nat {
    if 1 <= mip <= top {
        (len * ((pow2(mip) - 1) as nat)) / pow2((mip - 1) as nat)
    } else {
        0
    }
}

/// A non-negative integer clamped to the range of `usize`, as a cast of a non-negative
/// float to `usize` clamps it.
pub open spec fn saturate(v: nat) -> usize {
    if v > usize::MAX {
        usize::MAX
    } else {
        v as usize
    }
}

/// Number of binary digits of `n`.
pub open spec fn bit_len(n: nat) -> nat
    decreases n,
{
    if n == 0 {
        0
    } else {
        1 + bit_len(n / 2)
    }
}

/// Spacing of the `f32` values around `n`: 1 up to 24 binary digits, then doubling with
/// every further digit.
pub open spec fn f32_ulp(n: nat) -> nat {
    if bit_len(n) <= 24 {
        1
    } else {
        pow2((bit_len(n) - 24) as nat)
    }
}

/// `n` rounded to the nearest `f32` value, ties to the even one: the rounding of an integer
/// cast to `f32` and of `f32` arithmetic.
pub open spec fn f32_round(n: nat) -> nat {
    let q = f32_ulp(n);
    let r = n % q;
    let base = (n - r) as nat;
    if 2 * r < q {
        base
    } else if 2 * r > q {
        base + q
    } else if (base / q) % 2 == 0 {
        base
    } else {
        base + q
    }
}

/// The mip offset as computed in `f32`: the length rounded to `f32`, times the level's factor
/// `(2^mip - 1) / 2^(mip - 1)` rounded to `f32`, truncated to an integer.
pub open spec fn f32_mip_offset(mip: nat, len: nat, top: nat) -> nat {
    if 1 <= mip <= top {
        f32_round(f32_round(len) * ((pow2(mip) - 1) as nat)) / pow2((mip - 1) as nat)
    } else {
        0
    }
}

/// A positive number has `bit_len` digits: it lies in `[2^(bits - 1), 2^bits)`.
pub proof fn lemma_bit_len(n: nat)
    ensures
        n < pow2(bit_len(n)),
        n > 0 ==> pow2((bit_len(n) - 1) as nat) <= n,
    decreases n,
{
    lemma2_to64();
    if n > 0 {
        lemma_bit_len(n / 2);
        vstd::arithmetic::power2::lemma_pow2_unfold(bit_len(n));
        if n / 2 > 0 {
            vstd::arithmetic::power2::lemma_pow2_unfold((bit_len(n) - 1) as nat);
        }
    }
}

/// A number below `2^k` has at most `k` digits.
proof fn lemma_bit_len_below(n: nat, k: nat)
    requires
        n < pow2(k),
    ensures
        bit_len(n) <= k,
{
    lemma_bit_len(n);
    if bit_len(n) > k {
        if k < (bit_len(n) - 1) as nat {
            vstd::arithmetic::power2::lemma_pow2_strictly_increases(k, (bit_len(n) - 1) as nat);
        }
    }
}

/// Rounding to `f32` at most doubles a number, and keeps zero.
proof fn lemma_f32_round_bound(n: nat)
    ensures
        f32_round(n) <= 2 * n,
        f32_ulp(n) >= 1,
        bit_len(n) > 24 ==> f32_ulp(n) <= n,
{
    lemma_bit_len(n);
    vstd::arithmetic::power2::lemma_pow2_pos((bit_len(n) - 24) as nat);
    if bit_len(n) > 24 {
        if bit_len(n) - 24 < bit_len(n) - 1 {
            vstd::arithmetic::power2::lemma_pow2_strictly_increases(
                (bit_len(n) - 24) as nat,
                (bit_len(n) - 1) as nat,
            );
        }
    } else {
        assert(n % 1 == 0);
    }
}

/// A number of at most 24 significant digits is an `f32` value: rounding keeps it.
pub proof fn lemma_f32_round_exact(a: nat, k: nat)
    requires
        a < pow2(24),
    ensures
        f32_round(a * pow2(k)) == a * pow2(k),
{
    let n = a * pow2(k);
    vstd::arithmetic::power2::lemma_pow2_adds(24, k);
    vstd::arithmetic::power2::lemma_pow2_pos(k);
    assert(n < pow2(24 + k)) by (nonlinear_arith)
        requires
            n == a * pow2(k),
            a < pow2(24),
            pow2(24 + k) == pow2(24) * pow2(k),
            pow2(k) > 0,
    ;
    lemma_bit_len_below(n, 24 + k);
    vstd::arithmetic::div_mod::lemma_mod_multiples_basic(a as int, pow2(k) as int);
    if bit_len(n) > 24 {
        lemma_divides_smaller_power(n, k, (bit_len(n) - 24) as nat, 0);
    }
}

/// For `len = a * 2^k` with `a * 1023 < 2^24` every mip offset up to level 10 is computed
/// exactly in `f32`.
pub proof fn lemma_f32_mip_offset_exact(a: nat, k: nat, m: nat, top: nat)
    requires
        a * 1023 < pow2(24),
        m <= 10,
    ensures
        f32_mip_offset(m, a * pow2(k), top) == exact_mip_offset(m, a * pow2(k), top),
{
    if 1 <= m <= top {
        lemma2_to64();
        let f = (pow2(m) - 1) as nat;
        assert(pow2(m) <= 1024) by {
            if m < 10 {
                vstd::arithmetic::power2::lemma_pow2_strictly_increases(m, 10);
            }
        }
        vstd::arithmetic::power2::lemma_pow2_pos(m);
        lemma_f32_round_exact(a, k);
        assert(a * f < pow2(24)) by (nonlinear_arith)
            requires
                a * 1023 < pow2(24),
                f <= 1023,
        ;
        lemma_f32_round_exact(a * f, k);
        assert(a * pow2(k) * f == (a * f) * pow2(k)) by (nonlinear_arith);
    }
}

/// Mip levels of short tables are stored back to back also as computed in `f32`: for
/// `len < 2^14`, level 0 starts at 0, level 1 right after the `len` samples of level 0, and
/// each level `m` below `top` is followed directly by level `m + 1`, `len / 2^m` samples
/// later, whenever `len` is a multiple of `2^m`.
pub proof fn lemma_f32_mip_levels_back_to_back(mip: nat, len: nat, top: nat)
    requires
        mip < top <= 10,
        len % pow2(mip) == 0,
        len < pow2(14),
    ensures
        f32_mip_offset(0, len, top) == 0,
        f32_mip_offset(1, len, top) == len,
        f32_mip_offset(mip + 1, len, top) == f32_mip_offset(mip, len, top) + len / pow2(mip),
{
    lemma2_to64();
    assert(len * pow2(0) == len);
    lemma_f32_mip_offset_exact(len, 0, 0, top);
    lemma_f32_mip_offset_exact(len, 0, 1, top);
    lemma_f32_mip_offset_exact(len, 0, mip, top);
    lemma_f32_mip_offset_exact(len, 0, mip + 1, top);
    lemma_mip_levels_back_to_back(mip, len, top);
}

/// `n` rounded to the nearest `f32` value, ties to even.
fn f32_round_exec(n: u128) -> (r: u128)
    requires
        n <= 0xffff_ffff_ffff_ffff_ffff,
    ensures
        r == f32_round(n as nat),
        r <= 2 * n,
{
    proof {
        lemma2_to64();
        assert(0x1_0000_0000_0000_0000_0000nat == pow2(64) * pow2(16));
        vstd::arithmetic::power2::lemma_pow2_adds(64, 16);
        lemma_bit_len_below(n as nat, 80);
        lemma_bit_len(n as nat);
        lemma_f32_round_bound(n as nat);
    }
    let mut bl: u128 = 0;
    let mut m: u128 = n;
    while m > 0
        invariant
            bit_len(n as nat) == bl + bit_len(m as nat),
            bit_len(n as nat) <= 80,
        decreases m,
    {
        m = m / 2;
        bl = bl + 1;
    }
    let mut q: u128 = 1;
    let mut k: u128 = 24;
    while k < bl
        invariant
            24 <= k,
            (bl <= 24 && k == 24) || (bl > 24 && k <= bl),
            bl == bit_len(n as nat),
            q == pow2((k - 24) as nat),
            bl > 24 ==> pow2((bl - 1) as nat) <= n,
        decreases bl - k,
    {
        proof {
            vstd::arithmetic::power2::lemma_pow2_unfold((k + 1 - 24) as nat);
            if k + 1 - 24 < bl - 1 {
                vstd::arithmetic::power2::lemma_pow2_strictly_increases((k + 1 - 24) as nat, (bl - 1) as nat);
            }
        }
        q = q * 2;
        k = k + 1;
    }
    assert(q == f32_ulp(n as nat)) by {
        lemma2_to64();
    }
    let r = n % q;
    let base = n - r;
    if 2 * r < q {
        base
    } else if 2 * r > q {
        base + q
    } else if (base / q) % 2 == 0 {
        base
    } else {
        base + q
    }
}

/// Shared computation of the mip offset for tables with `top` mip levels (`top <= 10`),
/// in `f32` as the factor table of each level prescribes.
pub(crate) fn mip_offset_upto(mip: usize, len: usize, top: usize) -> (r: usize)
    requires
        top <= 10,
    ensures
        r == saturate(f32_mip_offset(mip as nat, len as nat, top as nat)),
{
    proof {
        lemma2_to64();
    }
    let (num, den): (u128, u128) = if mip == 0 || mip > top {
        (0, 1)
    } else {
        match mip {
            1 => (1, 1),
            2 => (3, 2),
            3 => (7, 4),
            4 => (15, 8),
            5 => (31, 16),
            6 => (63, 32),
            7 => (127, 64),
            8 => (255, 128),
            9 => (511, 256),
            _ => (1023, 512),
        }
    };
    let lf = f32_round_exec(len as u128);
    assert(lf * num <= 0x2_0000_0000_0000_0000u128 * 1023) by (nonlinear_arith)
        requires
            lf <= 0x2_0000_0000_0000_0000u128,
            num <= 1023,
    ;
    let y = f32_round_exec(lf * num);
    let v: u128 = y / den;
    proof {
        if mip == 0 || mip > top {
            assert(f32_round(0) == 0) by {
                lemma_f32_round_bound(0);
            }
        }
    }
    if v > usize::MAX as u128 {
        usize::MAX
    } else {
        v as usize
    }
}

/// Offset of mip level `mip` inside the mip-map buffer of a table of `len` samples:
/// 0 for level 0, then `len * (2 - 2^(1 - mip))` for levels 1 to 10, and 0 past level 10.
/// The product is formed in `f32`, so beyond 2^24 it is rounded (`f32_mip_offset`).
pub fn mip_offset(mip: usize, len: usize) -> (r: usize)
    ensures
        r == saturate(f32_mip_offset(mip as nat, len as nat, 10)),
{
    mip_offset_upto(mip, len, 10)
}

/// Mip levels are stored back to back: level 0 starts at 0, level 1 starts right after the
/// `len` samples of level 0, and each level `m` below `top` is followed directly by level
/// `m + 1`, `len / 2^m` samples later, whenever `len` is a multiple of `2^m`.
pub proof fn lemma_mip_levels_back_to_back(mip: nat, len: nat, top: nat)
    requires
        mip < top,
        len % pow2(mip) == 0,
    ensures
        exact_mip_offset(0, len, top) == 0,
        exact_mip_offset(1, len, top) == len,
        exact_mip_offset(mip + 1, len, top) == exact_mip_offset(mip, len, top) + len / pow2(mip),
        exact_mip_offset(mip, len, top) < exact_mip_offset(mip + 1, len, top) || len == 0,
{
    assert(pow2(0) == 1 && pow2(1) == 2) by {
        lemma2_to64();
    }
    assert(exact_mip_offset(1, len, top) == len) by {
        assert(len * 1 / 1 == len);
    }
    if mip == 0 {
        assert(len / 1 == len);
        return;
    }
    let p = pow2((mip - 1) as nat);
    let pp = pow2(mip);
    let ppp = pow2(mip + 1);
    assert(pp == 2 * p && ppp == 2 * pp && p > 0) by {
        vstd::arithmetic::power2::lemma_pow2_unfold(mip);
        vstd::arithmetic::power2::lemma_pow2_unfold(mip + 1);
        vstd::arithmetic::power2::lemma_pow2_pos((mip - 1) as nat);
    }
    let k = len / pp;
    assert(len == k * pp) by {
        vstd::arithmetic::div_mod::lemma_fundamental_div_mod(len as int, pp as int);
    }
    assert(exact_mip_offset(mip, len, top) == 2 * k * (pp - 1)) by {
        assert(len * ((pp - 1) as nat) == (2 * k * (pp - 1)) * p) by (nonlinear_arith)
            requires
                len == k * pp,
                pp == 2 * p,
                p >= 1,
        ;
        vstd::arithmetic::div_mod::lemma_div_multiples_vanish((2 * k * (pp - 1)) as int, p as int);
    }
    assert(exact_mip_offset(mip + 1, len, top) == k * (ppp - 1)) by {
        assert(len * ((ppp - 1) as nat) == (k * (ppp - 1)) * pp) by (nonlinear_arith)
            requires
                len == k * pp,
                ppp >= 1,
        ;
        vstd::arithmetic::div_mod::lemma_div_multiples_vanish((k * (ppp - 1)) as int, pp as int);
    }
    assert(k * (ppp - 1) == 2 * k * (pp - 1) + k) by (nonlinear_arith)
        requires
            ppp == 2 * pp,
            pp >= 1,
    ;
    assert(len == 0 || k > 0) by (nonlinear_arith)
        requires
            len == k * pp,
    ;
}


/// `2^e` for the small exponents used by mip levels.
fn pow2_small(e: usize) -> (r: usize)
    requires
        e <= 10,
    ensures
        r == pow2(e as nat),
        r >= 1,
{
    proof {
        lemma2_to64();
    }
    let mut r: usize = 1;
    let mut k: usize = 0;
    while k < e
        invariant
            k <= e <= 10,
            r == pow2(k as nat),
            r <= 1024,
        decreases e - k,
    {
        proof {
            vstd::arithmetic::power2::lemma_pow2_unfold((k + 1) as nat);
        }
        r = r * 2;
        k = k + 1;
        proof {
            lemma2_to64();
        }
    }
    r
}

/// If `x` is a multiple of `2^big`, it is a multiple of `2^small` for every `small <= big`,
/// and dividing `w * x` by `2^small` is multiplying `w` by `x / 2^small`.
proof fn lemma_divides_smaller_power(x: nat, big: nat, small: nat, w: nat)
    requires
        small <= big,
        x % pow2(big) == 0,
    ensures
        x % pow2(small) == 0,
        (w * x) / pow2(small) == w * (x / pow2(small)),
        x / pow2(big) <= x / pow2(small),
{
    let ps = pow2(small);
    let pd = pow2((big - small) as nat);
    vstd::arithmetic::power2::lemma_pow2_adds(small, (big - small) as nat);
    vstd::arithmetic::power2::lemma_pow2_pos(small);
    vstd::arithmetic::power2::lemma_pow2_pos((big - small) as nat);
    vstd::arithmetic::power2::lemma_pow2_pos(big);
    let q = x / pow2(big);
    vstd::arithmetic::div_mod::lemma_fundamental_div_mod(x as int, pow2(big) as int);
    assert(x == (q * pd) * ps) by (nonlinear_arith)
        requires
            x == q * pow2(big),
            pow2(big) == ps * pd,
    ;
    vstd::arithmetic::div_mod::lemma_mod_multiples_basic((q * pd) as int, ps as int);
    vstd::arithmetic::div_mod::lemma_div_multiples_vanish((q * pd) as int, ps as int);
    assert(w * x == (w * (q * pd)) * ps) by (nonlinear_arith)
        requires
            x == (q * pd) * ps,
    ;
    vstd::arithmetic::div_mod::lemma_div_multiples_vanish((w * (q * pd)) as int, ps as int);
    assert(q <= q * pd) by (nonlinear_arith)
        requires
            pd >= 1,
    ;
}

/// The exponent `mip as i32` stands for: the low 32 bits of `mip` in two's complement.
pub open spec fn i32_exponent(mip: nat) -> int {
    let w = mip % 0x1_0000_0000;
    if w < 0x8000_0000 {
        w as int
    } else {
        w - 0x1_0000_0000
    }
}

/// Length of mip level `mip` as `len as f32 / 2f32.powi(mip as i32)` cast to `usize`.
pub open spec fn f32_mip_len(len: nat, mip: nat) -> usize {
    let e = i32_exponent(mip);
    if e >= 0 {
        saturate(f32_round(len) / pow2(e as nat))
    } else {
        saturate(f32_round(len) * pow2((-e) as nat))
    }
}

/// `x` halved `e` times, rounded down.
fn halve_times(x: u128, e: u64) -> (r: u128)
    ensures
        r == x as nat / pow2(e as nat),
{
    let mut r: u128 = x;
    let mut k: u64 = 0;
    proof {
        lemma2_to64();
    }
    while k < e && r > 0
        invariant
            k <= e,
            r == x as nat / pow2(k as nat),
        decreases e - k,
    {
        proof {
            vstd::arithmetic::power2::lemma_pow2_unfold((k + 1) as nat);
            vstd::arithmetic::power2::lemma_pow2_pos(k as nat);
            vstd::arithmetic::div_mod::lemma_div_denominator(x as int, pow2(k as nat) as int, 2);
        }
        r = r / 2;
        k = k + 1;
    }
    proof {
        if k < e {
            vstd::arithmetic::power2::lemma_pow2_strictly_increases(k as nat, e as nat);
            vstd::arithmetic::power2::lemma_pow2_pos(k as nat);
            assert(x < pow2(k as nat)) by {
                let d = pow2(k as nat) as int;
                let xi = x as int;
                assert(xi / d == 0);
                vstd::arithmetic::div_mod::lemma_fundamental_div_mod(xi, d);
                vstd::arithmetic::div_mod::lemma_mod_pos_bound(xi, d);
                assert(d * (xi / d) == 0);
            }
            vstd::arithmetic::div_mod::lemma_basic_div(x as int, pow2(e as nat) as int);
        }
    }
    r
}

/// `x` doubled `e` times, clamped to `usize`.
fn scale_up(x: u128, e: u64) -> (r: usize)
    requires
        x <= 0x2_0000_0000_0000_0000,
    ensures
        r == saturate(x as nat * pow2(e as nat)),
{
    proof {
        lemma2_to64();
    }
    let mut v: u128 = x;
    let mut k: u64 = 0;
    while k < e && v <= usize::MAX as u128
        invariant
            k <= e,
            v == x as nat * pow2(k as nat),
            v <= 0x2_0000_0000_0000_0000,
        decreases e - k,
    {
        proof {
            vstd::arithmetic::power2::lemma_pow2_unfold((k + 1) as nat);
            assert(x as nat * pow2((k + 1) as nat) == 2 * (x as nat * pow2(k as nat))) by (nonlinear_arith)
                requires
                    pow2((k + 1) as nat) == 2 * pow2(k as nat),
            ;
        }
        v = v * 2;
        k = k + 1;
    }
    if v > usize::MAX as u128 {
        proof {
            if k < e {
                vstd::arithmetic::power2::lemma_pow2_strictly_increases(k as nat, e as nat);
            }
            assert(x as nat * pow2(k as nat) <= x as nat * pow2(e as nat)) by (nonlinear_arith)
                requires
                    pow2(k as nat) <= pow2(e as nat),
            ;
        }
        usize::MAX
    } else {
        v as usize
    }
}

/// The layout of a wavetable in memory: how many waveforms it holds, how long each is,
/// how far it was oversampled, and how many mip levels are derived from it.
///
/// Level 0 holds the `wave_number` waveforms of `wave_len` samples back to back, `len`
/// samples in all; level `m` holds the same waveforms at `wave_len / 2^m` samples each and
/// starts at `mip_offset(m, len)` in the mip buffer.
#[derive(Clone, Copy, Debug)]
pub struct WaveTable {
    /// The number of waveforms in the current wavetable.
    pub wave_number: usize,
    /// Samples per waveform at level 0.
    pub wave_len: usize,
    /// Samples of level 0.
    pub len: usize,
    /// Oversampling factor applied to the loaded waveforms.
    pub amt_oversample: usize,
    /// Number of levels derived from level 0 by halving.
    pub mip_levels: usize,
}

impl WaveTable {
    /// Samples per waveform at mip level `level`.
    pub open spec fn level_wave_len(self, level: nat) -> nat {
        self.wave_len as nat / pow2(level)
    }

    /// Where waveform `wave` of mip level `level` starts in the mip buffer.
    pub open spec fn wave_start(self, level: nat, wave: nat) -> nat {
        exact_mip_offset(level, self.len as nat, 10) + wave * self.level_wave_len(level)
    }

    /// Samples in the mip buffer: level 0 and the `mip_levels` levels derived from it.
    pub open spec fn mips_len_spec(self) -> nat {
        exact_mip_offset((self.mip_levels + 1) as nat, self.len as nat, 10)
    }

    /// A layout that every mip level can be derived from: every level halves the waveform
    /// exactly, the shortest derived waveform has at least two samples, level 0 is exactly
    /// the waveforms, the mip buffer's size fits in `usize`, and the mip offsets computed in
    /// `f32` are exact, so that the levels tile the mip buffer.
    pub open spec fn well_formed(self) -> bool {
        &&& self.mip_levels <= 9
        &&& self.wave_len as nat % pow2(self.mip_levels as nat) == 0
        &&& self.level_wave_len(self.mip_levels as nat) >= 2
        &&& self.len == self.wave_number * self.wave_len
        &&& 2 * self.len <= usize::MAX
        &&& forall|m: nat|
            m <= 10 ==> #[trigger] f32_mip_offset(m, self.len as nat, 10) == exact_mip_offset(
                m,
                self.len as nat,
                10,
            )
    }

    /// Loads the layout of a table of `source_len` samples: it is cut into waveforms of
    /// 2048 samples (a partial last waveform is dropped) and oversampled twice.
    pub fn change_table(&mut self, source_len: usize)
        requires
            source_len <= usize::MAX / 4,
        ensures
            final(self).wave_len == 4096,
            final(self).amt_oversample == 2,
            final(self).wave_number == source_len / 2048,
            final(self).len == final(self).wave_number * 4096,
            final(self).mip_levels == old(self).mip_levels,
            old(self).mip_levels <= 9 && source_len < 0x200_0000 ==> final(self).well_formed(),
    {
        self.len = source_len;
        self.wave_len = 2048;
        self.wave_number = self.len / self.wave_len;
        proof {
            vstd::arithmetic::div_mod::lemma_fundamental_div_mod(source_len as int, 2048);
            vstd::arithmetic::div_mod::lemma_mod_pos_bound(source_len as int, 2048);
            assert(self.wave_number * 2048 == 2048 * (source_len as int / 2048));
        }
        self.oversample(2);
        proof {
            lemma2_to64();
            if self.mip_levels <= 9 && source_len < 0x200_0000 {
                assert(self.wave_number * 1023 < pow2(24));
                assert(self.len == self.wave_number * pow2(12));
                assert forall|m: nat| m <= 10 implies #[trigger] f32_mip_offset(m, self.len as nat, 10)
                    == exact_mip_offset(m, self.len as nat, 10) by {
                    lemma_f32_mip_offset_exact(self.wave_number as nat, 12, m, 10);
                }
                lemma_divides_smaller_power(4096, 12, self.mip_levels as nat, 0);
                assert(4096nat / pow2(12) == 1);
                assert(self.level_wave_len(self.mip_levels as nat) >= 1);
                if self.mip_levels == 9 {
                    assert(4096nat / 512 == 8);
                } else {
                    assert(pow2(self.mip_levels as nat) <= 256) by {
                        vstd::arithmetic::power2::lemma_pow2_strictly_increases(self.mip_levels as nat, 9);
                    }
                    assert(4096nat / pow2(self.mip_levels as nat) >= 16) by {
                        vstd::arithmetic::div_mod::lemma_div_is_ordered_by_denominator(
                            4096,
                            pow2(self.mip_levels as nat) as int,
                            256,
                        );
                    }
                }
            }
        }
    }

    /// Oversamples the layout by `ratio`: every waveform gets `ratio` times the samples, and
    /// level 0 becomes exactly the waveforms.
    pub fn oversample(&mut self, ratio: usize)
        requires
            old(self).wave_number * old(self).wave_len <= old(self).len,
            old(self).len * ratio <= usize::MAX,
            old(self).wave_len * ratio <= usize::MAX,
        ensures
            final(self).amt_oversample == ratio,
            final(self).wave_len == old(self).wave_len * ratio,
            final(self).wave_number == old(self).wave_number,
            final(self).len == final(self).wave_number * final(self).wave_len,
            final(self).mip_levels == old(self).mip_levels,
    {
        self.amt_oversample = ratio;
        assert(self.wave_number * (self.wave_len * ratio) <= self.len * ratio) by (nonlinear_arith)
            requires
                self.wave_number * self.wave_len <= self.len,
        ;
        self.wave_len = self.wave_len * ratio;
        self.len = self.wave_number * self.wave_len;
    }

    /// Length of mip level `mip`: level 0 halved `mip` times, rounded down, computed as
    /// `len as f32 / 2f32.powi(mip as i32)`: the length is rounded to `f32`, and the exponent
    /// is `mip` taken as an `i32` (its low 32 bits, a negative exponent multiplying).
    pub fn mip_len(&self, mip: usize) -> (r: usize)
        ensures
            r == f32_mip_len(self.len as nat, mip as nat),
    {
        let lf = f32_round_exec(self.len as u128);
        let w: u64 = (mip as u64) % 0x1_0000_0000;
        if w < 0x8000_0000 {
            let v = halve_times(lf, w);
            if v > usize::MAX as u128 {
                usize::MAX
            } else {
                v as usize
            }
        } else {
            scale_up(lf, 0x1_0000_0000 - w)
        }
    }
}


/// Mip offsets never exceed twice the length of level 0.
pub proof fn lemma_mip_offset_bound(mip: nat, len: nat, top: nat)
    ensures
        exact_mip_offset(mip, len, top) <= 2 * len,
{
    if 1 <= mip <= top {
        let p = pow2((mip - 1) as nat);
        let pp = pow2(mip);
        vstd::arithmetic::power2::lemma_pow2_unfold(mip);
        vstd::arithmetic::power2::lemma_pow2_pos((mip - 1) as nat);
        assert(len * ((pp - 1) as nat) <= (2 * len) * p) by (nonlinear_arith)
            requires
                pp == 2 * p,
                p >= 1,
        ;
        vstd::arithmetic::div_mod::lemma_div_is_ordered(
            (len * ((pp - 1) as nat)) as int,
            ((2 * len) * p) as int,
            p as int,
        );
        vstd::arithmetic::div_mod::lemma_div_multiples_vanish((2 * len) as int, p as int);
    }
}

impl WaveTable {
    /// In a well-formed layout, every level up to `mip_levels` halves the waveforms exactly,
    /// level `level` holds `wave_number` waveforms of `level_wave_len(level)` samples, and
    /// the next level starts right after it.
    pub proof fn lemma_level(self, level: nat)
        requires
            self.well_formed(),
            level <= self.mip_levels,
        ensures
            self.wave_len as nat % pow2(level) == 0,
            self.len as nat % pow2(level) == 0,
            self.len as nat / pow2(level) == self.wave_number * self.level_wave_len(level),
            self.level_wave_len(level) >= 2,
            exact_mip_offset(level + 1, self.len as nat, 10) == exact_mip_offset(level, self.len as nat, 10)
                + self.wave_number * self.level_wave_len(level),
    {
        lemma_divides_smaller_power(self.wave_len as nat, self.mip_levels as nat, level, self.wave_number as nat);
        assert(self.len == self.wave_number * self.wave_len);
        assert(self.wave_number * self.wave_len == self.wave_len * self.wave_number) by (nonlinear_arith);
        assert(self.len as nat % pow2(self.mip_levels as nat) == 0) by {
            lemma_divides_smaller_power(self.wave_len as nat, self.mip_levels as nat, self.mip_levels as nat, self.wave_number as nat);
            vstd::arithmetic::power2::lemma_pow2_pos(self.mip_levels as nat);
            let q = self.wave_len as nat / pow2(self.mip_levels as nat);
            vstd::arithmetic::div_mod::lemma_fundamental_div_mod(self.wave_len as int, pow2(self.mip_levels as nat) as int);
            assert(self.len == (self.wave_number * q) * pow2(self.mip_levels as nat)) by (nonlinear_arith)
                requires
                    self.len == self.wave_number * self.wave_len,
                    self.wave_len == pow2(self.mip_levels as nat) * q,
            ;
            vstd::arithmetic::div_mod::lemma_mod_multiples_basic((self.wave_number * q) as int, pow2(self.mip_levels as nat) as int);
                }
        lemma_divides_smaller_power(self.len as nat, self.mip_levels as nat, level, 1);
        lemma_mip_levels_back_to_back(level, self.len as nat, 10);
    }

    /// Each derived level halves the waveforms exactly, so every level below the last one
    /// has waveforms of at least four samples.
    pub proof fn lemma_levels_halve(self, level: nat)
        requires
            self.well_formed(),
            level < self.mip_levels,
        ensures
            self.level_wave_len(level) == 2 * self.level_wave_len(level + 1),
            self.level_wave_len(level) >= 4,
        decreases self.mip_levels - level,
    {
        self.lemma_level(level + 1);
        let x = self.wave_len as nat;
        vstd::arithmetic::power2::lemma_pow2_unfold(level + 1);
        vstd::arithmetic::power2::lemma_pow2_pos(level);
        vstd::arithmetic::div_mod::lemma_div_denominator(x as int, pow2(level) as int, 2);
        let q = x / pow2(level + 1);
        vstd::arithmetic::div_mod::lemma_fundamental_div_mod(x as int, pow2(level + 1) as int);
        assert(x == (q * 2) * pow2(level)) by (nonlinear_arith)
            requires
                x == pow2(level + 1) * q,
                pow2(level + 1) == 2 * pow2(level),
        ;
        vstd::arithmetic::div_mod::lemma_div_multiples_vanish((q * 2) as int, pow2(level) as int);
        if level + 1 < self.mip_levels {
            self.lemma_levels_halve(level + 1);
        } else {
            self.lemma_level(level + 1);
        }
    }

    /// Offsets of the mip levels grow with the level.
    pub proof fn lemma_offsets_grow(self, lo: nat, hi: nat)
        requires
            self.well_formed(),
            lo <= hi <= self.mip_levels + 1,
        ensures
            exact_mip_offset(lo, self.len as nat, 10) <= exact_mip_offset(hi, self.len as nat, 10),
        decreases hi - lo,
    {
        if lo < hi {
            self.lemma_level(lo);
            self.lemma_offsets_grow(lo + 1, hi);
        }
    }

    /// The mip buffer is contiguous and in order: each waveform of a level ends where the
    /// next waveform of that level starts, and the last one ends where the next level starts.
    /// This is the order in which the mip map is built, one level after another.
    pub proof fn lemma_mip_buffer_contiguous(self, level: nat, wave: nat)
        requires
            self.well_formed(),
            level <= self.mip_levels,
            wave < self.wave_number,
        ensures
            self.wave_start(level, wave) + self.level_wave_len(level) == if wave + 1 < self.wave_number {
                self.wave_start(level, wave + 1)
            } else {
                self.wave_start(level + 1, 0)
            },
            self.wave_start(level, wave) + self.level_wave_len(level) <= self.mips_len_spec(),
    {
        self.lemma_level(level);
        assert(wave * self.level_wave_len(level) + self.level_wave_len(level) == (wave + 1)
            * self.level_wave_len(level)) by (nonlinear_arith);
        assert((wave + 1) * self.level_wave_len(level) <= self.wave_number * self.level_wave_len(level))
            by (nonlinear_arith)
            requires
                wave + 1 <= self.wave_number,
        ;
        self.lemma_offsets_grow(level + 1, (self.mip_levels + 1) as nat);
    }

    /// Samples in the mip buffer: level 0 and the `mip_levels` levels derived from it.
    pub fn mips_len(&self) -> (r: usize)
        requires
            self.well_formed(),
        ensures
            r == self.mips_len_spec(),
    {
        proof {
            lemma_mip_offset_bound((self.mip_levels + 1) as nat, self.len as nat, 10);
            assert(f32_mip_offset((self.mip_levels + 1) as nat, self.len as nat, 10) == exact_mip_offset(
                (self.mip_levels + 1) as nat,
                self.len as nat,
                10,
            ));
        }
        mip_offset(self.mip_levels + 1, self.len)
    }

    /// The samples of waveform `wave` at mip level `level` in the mip buffer, as a range
    /// `start..end`; the mip map reads level `level` from these ranges to derive the next.
    pub fn wave_range(&self, level: usize, wave: usize) -> (r: (usize, usize))
        requires
            self.well_formed(),
            level <= self.mip_levels,
            wave < self.wave_number,
        ensures
            r.0 == self.wave_start(level as nat, wave as nat),
            r.1 == r.0 + self.level_wave_len(level as nat),
            r.1 <= self.mips_len_spec(),
    {
        proof {
            self.lemma_level(level as nat);
            self.lemma_mip_buffer_contiguous(level as nat, wave as nat);
            lemma_mip_offset_bound(level as nat, self.len as nat, 10);
            lemma_divides_smaller_power(self.wave_len as nat, self.mip_levels as nat, level as nat, wave as nat);
            lemma_divides_smaller_power(self.wave_len as nat, self.mip_levels as nat, level as nat, (wave + 1) as nat);
            assert((wave + 1) * self.wave_len <= self.wave_number * self.wave_len) by (nonlinear_arith)
                requires
                    wave + 1 <= self.wave_number,
            ;
            assert((wave + 1) * self.wave_len == wave * self.wave_len + self.wave_len) by (nonlinear_arith);
            self.lemma_offsets_grow(level as nat, (self.mip_levels + 1) as nat);
            lemma_mip_offset_bound((self.mip_levels + 1) as nat, self.len as nat, 10);
            assert(f32_mip_offset(level as nat, self.len as nat, 10) == exact_mip_offset(
                level as nat,
                self.len as nat,
                10,
            ));
        }
        let p = pow2_small(level);
        let offset = mip_offset(level, self.len);
        let start = wave * self.wave_len / p + offset;
        let end = (wave + 1) * self.wave_len / p + offset;
        (start, end)
    }

    /// The four samples the interpolation coefficients at position `j` of waveform `wave`,
    /// mip level `level`, are computed from: the samples before, at, after and two after `j`,
    /// wrapping around within the waveform.
    pub fn coeff_taps(&self, level: usize, wave: usize, j: usize) -> (r: (usize, usize, usize, usize))
        requires
            self.well_formed(),
            level < self.mip_levels,
            wave < self.wave_number,
            j < self.level_wave_len(level as nat),
        ensures
            ({
                let s = self.wave_start(level as nat, wave as nat);
                let l = self.level_wave_len(level as nat);
                &&& r.0 == s + (j + l - 1) % (l as int)
                &&& r.1 == s + j
                &&& r.2 == s + (j + 1) % (l as int)
                &&& r.3 == s + (j + 2) % (l as int)
            }),
            r.0 < self.mips_len_spec(),
            r.1 < self.mips_len_spec(),
            r.2 < self.mips_len_spec(),
            r.3 < self.mips_len_spec(),
    {
        let (n_i, end) = self.wave_range(level, wave);
        let l = end - n_i;
        let ghost lg = l as int;
        proof {
            self.lemma_level(level as nat);
            self.lemma_levels_halve(level as nat);
            lemma_small_mods(j as int, lg);
        }
        if j == 0 {
            (n_i + l - 1, n_i, n_i + 1, n_i + 2)
        } else if j < l - 2 {
            (n_i + j - 1, n_i + j, n_i + j + 1, n_i + j + 2)
        } else if j == l - 2 {
            (n_i + j - 1, n_i + j, n_i + j + 1, n_i)
        } else {
            (n_i + j - 1, n_i + j, n_i, n_i + 1)
        }
    }
}

/// Indices one back, one and two ahead of `j`, wrapped into `0..l`.
proof fn lemma_small_mods(j: int, l: int)
    requires
        0 <= j < l,
        l >= 2,
    ensures
        (j + l - 1) % l == if j == 0 { l - 1 } else { j - 1 },
        (j + 1) % l == if j + 1 < l { j + 1 } else { 0 },
        (j + 2) % l == if j + 2 < l { j + 2 } else { j + 2 - l },
{
    if j == 0 {
        vstd::arithmetic::div_mod::lemma_small_mod((l - 1) as nat, l as nat);
    } else {
        vstd::arithmetic::div_mod::lemma_mod_add_multiples_vanish(j - 1, l);
        vstd::arithmetic::div_mod::lemma_small_mod((j - 1) as nat, l as nat);
    }
    if j + 1 < l {
        vstd::arithmetic::div_mod::lemma_small_mod((j + 1) as nat, l as nat);
    } else {
        vstd::arithmetic::div_mod::lemma_mod_add_multiples_vanish(0, l);
        vstd::arithmetic::div_mod::lemma_small_mod(0, l as nat);
    }
    if j + 2 < l {
        vstd::arithmetic::div_mod::lemma_small_mod((j + 2) as nat, l as nat);
    } else {
        vstd::arithmetic::div_mod::lemma_mod_add_multiples_vanish(j + 2 - l, l);
        vstd::arithmetic::div_mod::lemma_small_mod((j + 2 - l) as nat, l as nat);
    }
}


impl Default for WaveTable {
    /// An empty table of 2048-sample waveforms, not oversampled, with eight mip levels.
    fn default() -> (t: WaveTable)
        ensures
            t.wave_number == 0,
            t.wave_len == 2048,
            t.len == 0,
            t.amt_oversample == 1,
            t.mip_levels == 8,
    {
        WaveTable { wave_number: 0, wave_len: 2048, len: 0, amt_oversample: 1, mip_levels: 8 }
    }
}

} // verus!
