//! Host references for the NPU kernels: integer matrix products with
//! 32-bit accumulation, the deterministic input patterns they are fed,
//! and the tallies that compare a device result with a reference.

use vstd::prelude::*;
use crate::bf16::{ulp_distance, signed_ulp_delta, ulp_distance_spec, signed_ulp_delta_spec};

verus! {

/// The sum of `x[j] * y[j]` over the first `n` positions.
pub open spec fn dot_prefix(x: Seq<int>, y: Seq<int>, n: nat) -> int
    decreases n,
{
    if n == 0 {
        0
    } else {
        dot_prefix(x, y, (n - 1) as nat) + x[n - 1] * y[n - 1]
    }
}

/// The dot product of `x` and `y` over the positions of `x`.
pub open spec fn dot(x: Seq<int>, y: Seq<int>) -> int {
    dot_prefix(x, y, x.len())
}

/// The dot product does not depend on the order of its operands.
pub proof fn lemma_dot_commutes(x: Seq<int>, y: Seq<int>, n: nat)
    ensures
        dot_prefix(x, y, n) == dot_prefix(y, x, n),
    decreases n,
{
    if n > 0 {
        lemma_dot_commutes(x, y, (n - 1) as nat);
        assert(x[n - 1] * y[n - 1] == y[n - 1] * x[n - 1]) by (nonlinear_arith);
    }
}

/// Against a unit vector (1 at position `j`, 0 elsewhere) the dot product
/// picks out `x[j]`; against all zeros it is 0.
pub proof fn lemma_dot_unit(x: Seq<int>, y: Seq<int>, n: nat, j: int)
    requires
        forall|i: int| 0 <= i < n && i != j ==> y[i] == 0,
        0 <= j < n ==> y[j] == 1,
    ensures
        dot_prefix(x, y, n) == (if 0 <= j < n {
            x[j]
        } else {
            0
        }),
    decreases n,
{
    if n > 0 {
        lemma_dot_unit(x, y, (n - 1) as nat, j);
        if n - 1 == j {
            assert(x[j] * y[j] == x[j]) by (nonlinear_arith)
                requires
                    y[j] == 1,
            ;
        } else {
            assert(x[n - 1] * y[n - 1] == 0) by (nonlinear_arith)
                requires
                    y[n - 1] == 0,
            ;
        }
    }
}

/// The dot product is additive in each position: adding `c` to `x[j]`
/// adds `c * y[j]`.
pub proof fn lemma_dot_update(x: Seq<int>, y: Seq<int>, n: nat, j: int, c: int)
    requires
        0 <= j < n,
        n <= x.len(),
    ensures
        dot_prefix(x.update(j, x[j] + c), y, n) == dot_prefix(x, y, n) + c * y[j],
    decreases n,
{
    let x2 = x.update(j, x[j] + c);
    if n - 1 == j {
        lemma_dot_same_prefix(x, x2, y, (n - 1) as nat);
        assert((x[j] + c) * y[j] == x[j] * y[j] + c * y[j]) by (nonlinear_arith);
    } else {
        lemma_dot_update(x, y, (n - 1) as nat, j, c);
    }
}

/// The dot product over the first `n` positions reads only those.
proof fn lemma_dot_same_prefix(x: Seq<int>, x2: Seq<int>, y: Seq<int>, n: nat)
    requires
        forall|i: int| 0 <= i < n ==> x[i] == x2[i],
    ensures
        dot_prefix(x, y, n) == dot_prefix(x2, y, n),
    decreases n,
{
    if n > 0 {
        lemma_dot_same_prefix(x, x2, y, (n - 1) as nat);
    }
}

/// Whether `v` is an `i32`.
pub open spec fn fits_i32(v: int) -> bool {
    i32::MIN <= v <= i32::MAX
}

/// Whether every running sum of the dot product of `x` and `y` is an
/// `i32`: a 32-bit accumulator computes it without overflow.
pub open spec fn dot_fits_i32(x: Seq<int>, y: Seq<int>) -> bool {
    forall|j: nat| j <= x.len() ==> fits_i32(#[trigger] dot_prefix(x, y, j))
}

/// The values of `s` as integers.
pub open spec fn ints_i16(s: Seq<i16>) -> Seq<int> {
    s.map_values(|v: i16| v as int)
}

/// The values of `s` as integers.
pub open spec fn ints_i8(s: Seq<i8>) -> Seq<int> {
    s.map_values(|v: i8| v as int)
}

/// The values of `s` as integers.
pub open spec fn ints_i32(s: Seq<i32>) -> Seq<int> {
    s.map_values(|v: i32| v as int)
}

/// The dot product of two `i16` vectors.
pub open spec fn dot_i16(x: Seq<i16>, y: Seq<i16>) -> int {
    dot(ints_i16(x), ints_i16(y))
}

/// The `k` values of `s` at `off`, `off + stride`, `off + 2 * stride`, ...
pub open spec fn strided(s: Seq<int>, off: int, stride: int, k: nat) -> Seq<int> {
    Seq::new(k, |j: int| s[off + j * stride])
}

/// Row `r` of a row-major matrix with `k` columns.
pub open spec fn mat_row(a: Seq<int>, k: nat, r: int) -> Seq<int> {
    strided(a, r * k, 1, k)
}

/// Column `c` of a `k`-row matrix with `n` columns: stored row-major, or
/// column-major when `col_major`.
pub open spec fn mat_col(b: Seq<int>, k: nat, n: nat, c: int, col_major: bool) -> Seq<int> {
    if col_major {
        strided(b, c * k, 1, k)
    } else {
        strided(b, c, n as int, k)
    }
}

/// Whether every entry of the `m x n` product of `a` (`m x k`,
/// row-major) and `b` (`k x n`) is computed without overflow.
pub open spec fn gemm_fits_i32(
    a: Seq<int>,
    b: Seq<int>,
    m: nat,
    k: nat,
    n: nat,
    col_major: bool,
) -> bool {
    forall|i: int|
        0 <= i < m * n ==> #[trigger] dot_fits_i32(
            mat_row(a, k, i / n as int),
            mat_col(b, k, n, i % n as int, col_major),
        )
}

/// Entry `i` (row `i / n`, column `i % n`) of the product of `a` and `b`.
pub open spec fn gemm_entry(
    a: Seq<int>,
    b: Seq<int>,
    k: nat,
    n: nat,
    col_major: bool,
    i: int,
) -> int {
    dot(mat_row(a, k, i / n as int), mat_col(b, k, n, i % n as int, col_major))
}

/// Entry `r * n + c` of the product is row `r` of `a` (`a[r k + kk]`)
/// dotted with column `c` of `b` (`b[kk n + c]` row-major, `b[c k + kk]`
/// column-major), over `kk < k`.
pub proof fn lemma_gemm_entry_layout(a: Seq<int>, b: Seq<int>, k: nat, n: nat, r: int, c: int)
    requires
        0 <= r,
        0 <= c < n,
    ensures
        gemm_entry(a, b, k, n, false, r * n + c) == dot(
            Seq::new(k, |kk: int| a[r * k + kk]),
            Seq::new(k, |kk: int| b[kk * n + c]),
        ),
        gemm_entry(a, b, k, n, true, r * n + c) == dot(
            Seq::new(k, |kk: int| a[r * k + kk]),
            Seq::new(k, |kk: int| b[c * k + kk]),
        ),
{
    let i = r * n + c;
    assert(i / n as int == r && i % n as int == c) by (nonlinear_arith)
        requires
            i == r * n + c,
            0 <= c < n,
            0 <= r,
    ;
    assert(mat_row(a, k, r) =~= Seq::new(k, |kk: int| a[r * k + kk]));
    assert(mat_col(b, k, n, c, false) =~= Seq::new(k, |kk: int| b[kk * n + c]));
    assert(mat_col(b, k, n, c, true) =~= Seq::new(k, |kk: int| b[c * k + kk]));
}

/// The dot product of the strided windows of `a` and `b`, with an `i32`
/// accumulator: `None` when a running sum leaves the `i32` range.
fn dot_strided(
    a: &[i32],
    a_off: usize,
    a_stride: usize,
    b: &[i32],
    b_off: usize,
    b_stride: usize,
    k: usize,
) -> (r: Option<i32>)
    requires
        k > 0 ==> a_off + (k - 1) * a_stride < a@.len(),
        k > 0 ==> b_off + (k - 1) * b_stride < b@.len(),
        forall|i: int| 0 <= i < a@.len() ==> -32768 <= #[trigger] a@[i] <= 32768,
        forall|i: int| 0 <= i < b@.len() ==> -32768 <= #[trigger] b@[i] <= 32768,
    ensures
        r is Some <==> dot_fits_i32(
            strided(ints_i32(a@), a_off as int, a_stride as int, k as nat),
            strided(ints_i32(b@), b_off as int, b_stride as int, k as nat),
        ),
        r matches Some(v) ==> v == dot(
            strided(ints_i32(a@), a_off as int, a_stride as int, k as nat),
            strided(ints_i32(b@), b_off as int, b_stride as int, k as nat),
        ),
{
    let ghost x = strided(ints_i32(a@), a_off as int, a_stride as int, k as nat);
    let ghost y = strided(ints_i32(b@), b_off as int, b_stride as int, k as nat);
    let alen = a.len();
    let blen = b.len();
    let mut acc: i32 = 0;
    let mut j: usize = 0;
    while j < k
        invariant
            alen == a@.len(),
            blen == b@.len(),
            j <= k,
            x == strided(ints_i32(a@), a_off as int, a_stride as int, k as nat),
            y == strided(ints_i32(b@), b_off as int, b_stride as int, k as nat),
            k > 0 ==> a_off + (k - 1) * a_stride < a@.len(),
            k > 0 ==> b_off + (k - 1) * b_stride < b@.len(),
            forall|i: int| 0 <= i < a@.len() ==> -32768 <= #[trigger] a@[i] <= 32768,
            forall|i: int| 0 <= i < b@.len() ==> -32768 <= #[trigger] b@[i] <= 32768,
            acc == dot_prefix(x, y, j as nat),
            forall|jj: nat| jj <= j ==> fits_i32(#[trigger] dot_prefix(x, y, jj)),
        decreases k - j,
    {
        assert(j * a_stride <= (k - 1) * a_stride) by (nonlinear_arith)
            requires
                j < k,
        ;
        assert(j * b_stride <= (k - 1) * b_stride) by (nonlinear_arith)
            requires
                j < k,
        ;
        assert(a_off + j * a_stride < alen);
        assert(b_off + j * b_stride < blen);
        let ia = a_off + j * a_stride;
        let ib = b_off + j * b_stride;
        let xv = a[ia];
        let yv = b[ib];
        assert(x[j as int] == xv);
        assert(y[j as int] == yv);
        assert(-0x4000_0000 <= xv * yv <= 0x4000_0000) by (nonlinear_arith)
            requires
                -32768 <= xv <= 32768,
                -32768 <= yv <= 32768,
        ;
        let p = xv * yv;
        assert(dot_prefix(x, y, (j + 1) as nat) == acc + p);
        match acc.checked_add(p) {
            Some(s) => {
                acc = s;
            },
            None => {
                assert(!fits_i32(dot_prefix(x, y, (j + 1) as nat)));
                return None;
            },
        }
        j = j + 1;
    }
    Some(acc)
}

/// `s` widened to `i32`.
fn widen_i16(s: &[i16]) -> (r: Vec<i32>)
    ensures
        r@.len() == s@.len(),
        ints_i32(r@) == ints_i16(s@),
        forall|i: int| 0 <= i < r@.len() ==> -32768 <= #[trigger] r@[i] <= 32768,
{
    let mut v: Vec<i32> = Vec::new();
    let mut i: usize = 0;
    while i < s.len()
        invariant
            i <= s@.len(),
            v@.len() == i,
            forall|p: int| 0 <= p < i ==> #[trigger] v@[p] == s@[p] as i32,
        decreases s@.len() - i,
    {
        v.push(s[i] as i32);
        i = i + 1;
    }
    assert(ints_i32(v@) =~= ints_i16(s@));
    v
}

/// `s` widened to `i32`.
fn widen_i8(s: &[i8]) -> (r: Vec<i32>)
    ensures
        r@.len() == s@.len(),
        ints_i32(r@) == ints_i8(s@),
        forall|i: int| 0 <= i < r@.len() ==> -32768 <= #[trigger] r@[i] <= 32768,
{
    let mut v: Vec<i32> = Vec::new();
    let mut i: usize = 0;
    while i < s.len()
        invariant
            i <= s@.len(),
            v@.len() == i,
            forall|p: int| 0 <= p < i ==> #[trigger] v@[p] == s@[p] as i32,
        decreases s@.len() - i,
    {
        v.push(s[i] as i32);
        i = i + 1;
    }
    assert(ints_i32(v@) =~= ints_i8(s@));
    v
}

/// Facts on the flat index `i` of an `m x n` product, row `i / n` and
/// column `i % n`, that keep the strided reads inside the operands.
proof fn lemma_flat_index(i: int, m: int, k: int, n: int)
    requires
        0 <= i < m * n,
        k > 0,
        n > 0,
    ensures
        0 <= i / n < m,
        0 <= i % n < n,
        (i / n) * k + (k - 1) * 1 < m * k,
        (i % n) + (k - 1) * n < k * n,
        (i % n) * k + (k - 1) * 1 < k * n,
{
    let r = i / n;
    let c = i % n;
    assert(0 <= r < m && 0 <= c < n) by (nonlinear_arith)
        requires
            0 <= i < m * n,
            n > 0,
            r == i / n,
            c == i % n,
    ;
    assert(r * k + (k - 1) < m * k) by (nonlinear_arith)
        requires
            0 <= r < m,
            k > 0,
    ;
    assert(c + (k - 1) * n < k * n) by (nonlinear_arith)
        requires
            0 <= c < n,
            k > 0,
    ;
    assert(c * k + (k - 1) < k * n) by (nonlinear_arith)
        requires
            0 <= c < n,
            k > 0,
    ;
}

/// The `m x n` product of `a` (`m x k`, row-major) and `b` (`k x n`,
/// column-major when `col_major`), entries in row-major order, each
/// accumulated in an `i32` over `kk` ascending.
fn gemm_core(a: &[i32], b: &[i32], m: usize, k: usize, n: usize, col_major: bool) -> (r: Option<
    Vec<i32>,
>)
    requires
        a@.len() == m * k,
        b@.len() == k * n,
        m * n <= usize::MAX,
        forall|i: int| 0 <= i < a@.len() ==> -32768 <= #[trigger] a@[i] <= 32768,
        forall|i: int| 0 <= i < b@.len() ==> -32768 <= #[trigger] b@[i] <= 32768,
    ensures
        r is Some <==> gemm_fits_i32(ints_i32(a@), ints_i32(b@), m as nat, k as nat, n as nat, col_major),
        r matches Some(c) ==> c@.len() == m * n && forall|i: int|
            0 <= i < m * n ==> #[trigger] c@[i] == gemm_entry(
                ints_i32(a@),
                ints_i32(b@),
                k as nat,
                n as nat,
                col_major,
                i,
            ),
{
    let ghost ai = ints_i32(a@);
    let ghost bi = ints_i32(b@);
    let total = m * n;
    let alen = a.len();
    let blen = b.len();
    let mut out: Vec<i32> = Vec::new();
    let mut i: usize = 0;
    while i < total
        invariant
            alen == a@.len(),
            blen == b@.len(),
            total == m * n,
            a@.len() == m * k,
            b@.len() == k * n,
            ai == ints_i32(a@),
            bi == ints_i32(b@),
            forall|p: int| 0 <= p < a@.len() ==> -32768 <= #[trigger] a@[p] <= 32768,
            forall|p: int| 0 <= p < b@.len() ==> -32768 <= #[trigger] b@[p] <= 32768,
            i <= total,
            out@.len() == i,
            forall|p: int|
                0 <= p < i ==> #[trigger] out@[p] == gemm_entry(ai, bi, k as nat, n as nat, col_major, p),
            forall|p: int|
                0 <= p < i ==> #[trigger] dot_fits_i32(
                    mat_row(ai, k as nat, p / n as int),
                    mat_col(bi, k as nat, n as nat, p % n as int, col_major),
                ),
        decreases total - i,
    {
        let row = i / n;
        let c = i % n;
        assert(n > 0) by (nonlinear_arith)
            requires
                i < total,
                total == m * n,
        ;
        if k > 0 {
            proof {
                lemma_flat_index(i as int, m as int, k as int, n as int);
            }
        } else {
            assert(row * k == 0 && c * k == 0) by (nonlinear_arith)
                requires
                    k == 0,
            ;
        }
        let v = if col_major {
            dot_strided(a, row * k, 1, b, c * k, 1, k)
        } else {
            dot_strided(a, row * k, 1, b, c, n, k)
        };
        match v {
            Some(x) => {
                out.push(x);
            },
            None => {
                assert(!dot_fits_i32(
                    mat_row(ai, k as nat, i as int / n as int),
                    mat_col(bi, k as nat, n as nat, i as int % n as int, col_major),
                ));
                return None;
            },
        }
        i = i + 1;
    }
    Some(out)
}

/// The product `a * b` of the `i16` matrices `a` (`m x k`) and `b`
/// (`k x n`), both row-major, as `i32`s in row-major order: entry `i` is
/// the dot product of row `i / n` of `a` and column `i % n` of `b`.
/// `None` when an `i32` accumulator would overflow on some entry.
pub fn gemm_i16_reference(a: &[i16], b: &[i16], m: usize, k: usize, n: usize) -> (r: Option<
    Vec<i32>,
>)
    requires
        a@.len() == m * k,
        b@.len() == k * n,
        m * n <= usize::MAX,
    ensures
        r is Some <==> gemm_fits_i32(ints_i16(a@), ints_i16(b@), m as nat, k as nat, n as nat, false),
        r matches Some(c) ==> c@.len() == m * n && forall|i: int|
            0 <= i < m * n ==> #[trigger] c@[i] == gemm_entry(
                ints_i16(a@),
                ints_i16(b@),
                k as nat,
                n as nat,
                false,
                i,
            ),
{
    let aw = widen_i16(a);
    let bw = widen_i16(b);
    gemm_core(&aw, &bw, m, k, n, false)
}

/// The product of the `i8` matrices `a` (`m x k`) and `b` (`k x n`),
/// both row-major, as for `gemm_i16_reference`.
pub fn gemm_i8_reference(a: &[i8], b: &[i8], m: usize, k: usize, n: usize) -> (r: Option<
    Vec<i32>,
>)
    requires
        a@.len() == m * k,
        b@.len() == k * n,
        m * n <= usize::MAX,
    ensures
        r is Some <==> gemm_fits_i32(ints_i8(a@), ints_i8(b@), m as nat, k as nat, n as nat, false),
        r matches Some(c) ==> c@.len() == m * n && forall|i: int|
            0 <= i < m * n ==> #[trigger] c@[i] == gemm_entry(
                ints_i8(a@),
                ints_i8(b@),
                k as nat,
                n as nat,
                false,
                i,
            ),
{
    let aw = widen_i8(a);
    let bw = widen_i8(b);
    gemm_core(&aw, &bw, m, k, n, false)
}

/// The product of the `i8` matrices `a` (`m x k`, row-major) and `b`
/// (`k x n`) stored column-major (`b_cm[c * k + kk]` is row `kk`,
/// column `c`), as for `gemm_i16_reference`.
pub fn gemm_i8_col_major_reference(a: &[i8], b_cm: &[i8], m: usize, k: usize, n: usize) -> (r:
    Option<Vec<i32>>)
    requires
        a@.len() == m * k,
        b_cm@.len() == k * n,
        m * n <= usize::MAX,
    ensures
        r is Some <==> gemm_fits_i32(ints_i8(a@), ints_i8(b_cm@), m as nat, k as nat, n as nat, true),
        r matches Some(c) ==> c@.len() == m * n && forall|i: int|
            0 <= i < m * n ==> #[trigger] c@[i] == gemm_entry(
                ints_i8(a@),
                ints_i8(b_cm@),
                k as nat,
                n as nat,
                true,
                i,
            ),
{
    let aw = widen_i8(a);
    let bw = widen_i8(b_cm);
    gemm_core(&aw, &bw, m, k, n, true)
}

/// The matrix-vector product of `a` (`m x k`, row-major) and `b` (`k`
/// values): entry `i` is the dot product of row `i` of `a` and `b`,
/// accumulated in an `i32`. `None` when an accumulator would overflow.
pub fn gemv_i16_reference(a: &[i16], b: &[i16], m: usize, k: usize) -> (r: Option<Vec<i32>>)
    requires
        a@.len() == m * k,
        b@.len() == k,
    ensures
        r is Some <==> forall|i: int|
            0 <= i < m ==> #[trigger] dot_fits_i32(
                ints_i16(a@.subrange(i * k, i * k + k)),
                ints_i16(b@),
            ),
        r matches Some(c) ==> c@.len() == m && forall|i: int|
            0 <= i < m ==> #[trigger] c@[i] == dot_i16(a@.subrange(i * k, i * k + k), b@),
{
    assert(m * 1 == m);
    assert(k * 1 == k);
    let r = gemm_i16_reference(a, b, m, k, 1);
    let ghost ai = ints_i16(a@);
    let ghost bi = ints_i16(b@);
    assert forall|i: int| 0 <= i < m implies #[trigger] ints_i16(a@.subrange(i * k, i * k + k))
        == mat_row(ai, k as nat, i / 1int) && mat_col(bi, k as nat, 1, i % 1int, false)
        == ints_i16(b@) by {
        assert(i / 1int == i);
        assert(i % 1int == 0);
        assert(0 <= i * k && i * k + k <= m * k) by (nonlinear_arith)
            requires
                0 <= i < m,
        ;
        assert(mat_row(ai, k as nat, i) =~= ints_i16(a@.subrange(i * k, i * k + k)));
        assert(mat_col(bi, k as nat, 1, 0, false) =~= ints_i16(b@));
    }
    proof {
        if r is Some {
            assert forall|i: int| 0 <= i < m implies #[trigger] dot_fits_i32(
                ints_i16(a@.subrange(i * k, i * k + k)),
                ints_i16(b@),
            ) by {
                assert(dot_fits_i32(
                    mat_row(ai, k as nat, i / 1int),
                    mat_col(bi, k as nat, 1, i % 1int, false),
                ));
            }
        } else {
            let i = choose|i: int|
                0 <= i < m * 1 && !#[trigger] dot_fits_i32(
                    mat_row(ai, k as nat, i / 1int),
                    mat_col(bi, k as nat, 1, i % 1int, false),
                );
            assert(ints_i16(a@.subrange(i * k, i * k + k)) == mat_row(ai, k as nat, i / 1int));
            assert(!dot_fits_i32(ints_i16(a@.subrange(i * k, i * k + k)), ints_i16(b@)));
        }
    }
    r
}

/// The number of positions below `n` where `got` and `want` differ.
pub open spec fn mismatches_prefix<T>(got: Seq<T>, want: Seq<T>, n: nat) -> nat
    decreases n,
{
    if n == 0 {
        0
    } else {
        mismatches_prefix(got, want, (n - 1) as nat) + if got[n - 1] != want[n - 1] {
            1nat
        } else {
            0nat
        }
    }
}

/// The number of positions where `got` and `want` differ.
pub open spec fn mismatch_count<T>(got: Seq<T>, want: Seq<T>) -> nat {
    mismatches_prefix(got, want, got.len())
}

/// The prefix counts grow by at most one per position.
proof fn lemma_mismatches_bound<T>(got: Seq<T>, want: Seq<T>, n: nat)
    ensures
        mismatches_prefix(got, want, n) <= n,
    decreases n,
{
    if n > 0 {
        lemma_mismatches_bound(got, want, (n - 1) as nat);
    }
}

/// The positions below `n` where `got` and `want` differ.
pub open spec fn mismatch_positions<T>(got: Seq<T>, want: Seq<T>, n: int) -> Set<int> {
    Set::new(|i: int| 0 <= i < n && got[i] != want[i])
}

/// The mismatch count is the number of positions where the two differ.
pub proof fn lemma_mismatch_count_is_cardinality<T>(got: Seq<T>, want: Seq<T>, n: nat)
    ensures
        mismatch_positions(got, want, n as int).finite(),
        mismatches_prefix(got, want, n) == mismatch_positions(got, want, n as int).len(),
    decreases n,
{
    vstd::set_lib::lemma_int_range(0, n as int);
    assert(mismatch_positions(got, want, n as int).subset_of(vstd::set_lib::set_int_range(0, n as int)));
    vstd::set_lib::lemma_len_subset(
        mismatch_positions(got, want, n as int),
        vstd::set_lib::set_int_range(0, n as int),
    );
    if n > 0 {
        lemma_mismatch_count_is_cardinality(got, want, (n - 1) as nat);
        let prev = mismatch_positions(got, want, n - 1);
        if got[n - 1] != want[n - 1] {
            assert(mismatch_positions(got, want, n as int) =~= prev.insert(n - 1));
        } else {
            assert(mismatch_positions(got, want, n as int) =~= prev);
        }
    } else {
        assert(mismatch_positions(got, want, 0) =~= Set::<int>::empty());
    }
}

/// No mismatch in the first `n` positions means the first `n` agree.
proof fn lemma_mismatches_prefix_zero<T>(got: Seq<T>, want: Seq<T>, n: nat)
    requires
        n <= got.len(),
        n <= want.len(),
    ensures
        mismatches_prefix(got, want, n) == 0 <==> forall|i: int| 0 <= i < n ==> got[i] == want[i],
    decreases n,
{
    if n > 0 {
        lemma_mismatches_prefix_zero(got, want, (n - 1) as nat);
    }
}

/// A device result passes its check exactly when it equals the
/// reference: no position differs if and only if the two are equal.
pub proof fn lemma_no_mismatch_iff_equal<T>(got: Seq<T>, want: Seq<T>)
    requires
        got.len() == want.len(),
    ensures
        mismatch_count(got, want) == 0 <==> got == want,
{
    lemma_mismatches_prefix_zero(got, want, got.len());
    if mismatch_count(got, want) == 0 {
        assert(got =~= want);
    }
}

/// The number of positions where `got` and `want` differ.
pub fn count_mismatches_i32(got: &[i32], want: &[i32]) -> (n: usize)
    requires
        got@.len() == want@.len(),
    ensures
        n == mismatch_count(got@, want@),
        n <= got@.len(),
        n == 0 <==> got@ == want@,
        (exists|i: int| 0 <= i < got@.len() && got@[i] != want@[i]) ==> n >= 1,
        n == mismatch_positions(got@, want@, got@.len() as int).len(),
{
    proof {
        lemma_mismatch_count_is_cardinality(got@, want@, got@.len());
        lemma_no_mismatch_iff_equal(got@, want@);
        lemma_mismatches_bound(got@, want@, got@.len());
    }
    let mut count: usize = 0;
    let mut i: usize = 0;
    while i < got.len()
        invariant
            got@.len() == want@.len(),
            i <= got@.len(),
            count == mismatches_prefix(got@, want@, i as nat),
        decreases got@.len() - i,
    {
        proof {
            lemma_mismatches_bound(got@, want@, i as nat);
        }
        if got[i] != want[i] {
            count = count + 1;
        }
        i = i + 1;
    }
    count
}

/// The number of positions where `got` and `want` differ.
pub fn count_mismatches_i16(got: &[i16], want: &[i16]) -> (n: usize)
    requires
        got@.len() == want@.len(),
    ensures
        n == mismatch_count(got@, want@),
        n <= got@.len(),
        n == 0 <==> got@ == want@,
        (exists|i: int| 0 <= i < got@.len() && got@[i] != want@[i]) ==> n >= 1,
        n == mismatch_positions(got@, want@, got@.len() as int).len(),
{
    proof {
        lemma_mismatch_count_is_cardinality(got@, want@, got@.len());
        lemma_no_mismatch_iff_equal(got@, want@);
        lemma_mismatches_bound(got@, want@, got@.len());
    }
    let mut count: usize = 0;
    let mut i: usize = 0;
    while i < got.len()
        invariant
            got@.len() == want@.len(),
            i <= got@.len(),
            count == mismatches_prefix(got@, want@, i as nat),
        decreases got@.len() - i,
    {
        proof {
            lemma_mismatches_bound(got@, want@, i as nat);
        }
        if got[i] != want[i] {
            count = count + 1;
        }
        i = i + 1;
    }
    count
}

/// The number of positions where `got` and `want` differ.
pub fn count_mismatches_u8(got: &[u8], want: &[u8]) -> (n: usize)
    requires
        got@.len() == want@.len(),
    ensures
        n == mismatch_count(got@, want@),
        n <= got@.len(),
        n == 0 <==> got@ == want@,
        (exists|i: int| 0 <= i < got@.len() && got@[i] != want@[i]) ==> n >= 1,
        n == mismatch_positions(got@, want@, got@.len() as int).len(),
{
    proof {
        lemma_mismatch_count_is_cardinality(got@, want@, got@.len());
        lemma_no_mismatch_iff_equal(got@, want@);
        lemma_mismatches_bound(got@, want@, got@.len());
    }
    let mut count: usize = 0;
    let mut i: usize = 0;
    while i < got.len()
        invariant
            got@.len() == want@.len(),
            i <= got@.len(),
            count == mismatches_prefix(got@, want@, i as nat),
        decreases got@.len() - i,
    {
        proof {
            lemma_mismatches_bound(got@, want@, i as nat);
        }
        if got[i] != want[i] {
            count = count + 1;
        }
        i = i + 1;
    }
    count
}

/// The input value at flat index `idx` of the pseudo-random pattern: the
/// top three bits of `idx` times the 64-bit golden-ratio constant
/// (wrapping), shifted down to -4..=3.
pub open spec fn pseudo_i8_spec(idx: u64) -> int {
    ((idx as nat * 0x9E37_79B9_7F4A_7C15nat) % 0x1_0000_0000_0000_0000nat) as int
        / 0x2000_0000_0000_0000int - 4
}

/// The pseudo-random input value at flat index `idx`.
pub fn pseudo_i8(idx: u64) -> (r: i8)
    ensures
        r == pseudo_i8_spec(idx),
        -4 <= r <= 3,
{
    let h = idx.wrapping_mul(0x9E37_79B9_7F4A_7C15);
    assert(h >> 61u64 == h / 0x2000_0000_0000_0000u64 && h >> 61u64 < 8) by (bit_vector);
    let top = (h >> 61) as i8;
    top - 4
}

/// The small deterministic pattern value at row `r`, column `c`:
/// `(r + c) mod 8`.
pub open spec fn sum_mod8(r: int, c: int) -> int {
    (r + c) % 8
}

/// The `rows x cols` matrix, row-major, whose entry at row `r`, column
/// `c` is `(r + c) mod 8`, as `i16`s.
pub fn sum_mod8_matrix_i16(rows: usize, cols: usize) -> (v: Vec<i16>)
    requires
        rows * cols <= usize::MAX,
    ensures
        v@.len() == rows * cols,
        forall|i: int| 0 <= i < rows * cols ==> #[trigger] v@[i] == sum_mod8(i / cols as int, i % cols as int),
{
    let total = rows * cols;
    let mut v: Vec<i16> = Vec::new();
    let mut i: usize = 0;
    while i < total
        invariant
            total == rows * cols,
            i <= total,
            v@.len() == i,
            forall|p: int| 0 <= p < i ==> #[trigger] v@[p] == sum_mod8(p / cols as int, p % cols as int),
        decreases total - i,
    {
        assert(cols > 0) by (nonlinear_arith)
            requires
                i < total,
                total == rows * cols,
        ;
        let r = i / cols;
        let c = i % cols;
        let x = ((r % 8) + (c % 8)) % 8;
        assert(x as int == sum_mod8(r as int, c as int)) by (nonlinear_arith)
            requires
                x == ((r % 8) + (c % 8)) % 8,
        ;
        v.push(x as i16);
        i = i + 1;
    }
    v
}

/// The `rows x cols` matrix of `sum_mod8_matrix_i16`, as `i8`s.
pub fn sum_mod8_matrix_i8(rows: usize, cols: usize) -> (v: Vec<i8>)
    requires
        rows * cols <= usize::MAX,
    ensures
        v@.len() == rows * cols,
        forall|i: int| 0 <= i < rows * cols ==> #[trigger] v@[i] == sum_mod8(i / cols as int, i % cols as int),
{
    let total = rows * cols;
    let mut v: Vec<i8> = Vec::new();
    let mut i: usize = 0;
    while i < total
        invariant
            total == rows * cols,
            i <= total,
            v@.len() == i,
            forall|p: int| 0 <= p < i ==> #[trigger] v@[p] == sum_mod8(p / cols as int, p % cols as int),
        decreases total - i,
    {
        assert(cols > 0) by (nonlinear_arith)
            requires
                i < total,
                total == rows * cols,
        ;
        let r = i / cols;
        let c = i % cols;
        let x = ((r % 8) + (c % 8)) % 8;
        assert(x as int == sum_mod8(r as int, c as int)) by (nonlinear_arith)
            requires
                x == ((r % 8) + (c % 8)) % 8,
        ;
        v.push(x as i8);
        i = i + 1;
    }
    v
}

/// The largest ULP distance between `cpu[d]` and `npu[d]` for `d < n`.
pub open spec fn max_ulp_prefix(cpu: Seq<u16>, npu: Seq<u16>, n: nat) -> int
    decreases n,
{
    if n == 0 {
        0
    } else {
        let m = max_ulp_prefix(cpu, npu, (n - 1) as nat);
        let u = ulp_distance_spec(cpu[n - 1], npu[n - 1]);
        if u > m {
            u
        } else {
            m
        }
    }
}

/// The sum of the signed ULP distances from `cpu[d]` to `npu[d]` for `d < n`.
pub open spec fn signed_ulp_sum_prefix(cpu: Seq<u16>, npu: Seq<u16>, n: nat) -> int
    decreases n,
{
    if n == 0 {
        0
    } else {
        signed_ulp_sum_prefix(cpu, npu, (n - 1) as nat) + signed_ulp_delta_spec(
            cpu[n - 1],
            npu[n - 1],
        )
    }
}

/// The first `d < n` whose ULP distance exceeds `bound`.
pub open spec fn first_over_prefix(cpu: Seq<u16>, npu: Seq<u16>, bound: u32, n: nat) -> Option<int>
    decreases n,
{
    if n == 0 {
        None
    } else {
        match first_over_prefix(cpu, npu, bound, (n - 1) as nat) {
            Some(d) => Some(d),
            None => if ulp_distance_spec(cpu[n - 1], npu[n - 1]) > bound {
                Some(n - 1)
            } else {
                None
            },
        }
    }
}

/// The reported element over the bound is the earliest one: it lies
/// farther than `bound` ULPs, and every element before it lies within;
/// when none is reported, every element lies within.
pub proof fn lemma_first_over_is_earliest(cpu: Seq<u16>, npu: Seq<u16>, bound: u32, n: nat)
    requires
        n <= cpu.len(),
        n <= npu.len(),
    ensures
        first_over_prefix(cpu, npu, bound, n) matches Some(d) ==> 0 <= d < n
            && ulp_distance_spec(cpu[d], npu[d]) > bound && forall|j: int|
            0 <= j < d ==> ulp_distance_spec(cpu[j], npu[j]) <= bound,
        first_over_prefix(cpu, npu, bound, n) is None ==> forall|j: int|
            0 <= j < n ==> ulp_distance_spec(cpu[j], npu[j]) <= bound,
    decreases n,
{
    if n > 0 {
        lemma_first_over_is_earliest(cpu, npu, bound, (n - 1) as nat);
    }
}

/// The largest distance bounds every element's distance and is reached
/// by one of them (it is 0 for no elements).
pub proof fn lemma_max_ulp_is_maximum(cpu: Seq<u16>, npu: Seq<u16>, n: nat)
    requires
        n <= cpu.len(),
        n <= npu.len(),
    ensures
        forall|j: int| 0 <= j < n ==> ulp_distance_spec(cpu[j], npu[j]) <= max_ulp_prefix(cpu, npu, n),
        n == 0 ==> max_ulp_prefix(cpu, npu, n) == 0,
        n > 0 ==> exists|j: int|
            0 <= j < n && ulp_distance_spec(cpu[j], npu[j]) == max_ulp_prefix(cpu, npu, n),
    decreases n,
{
    if n > 0 {
        lemma_max_ulp_is_maximum(cpu, npu, (n - 1) as nat);
        let u = ulp_distance_spec(cpu[n - 1], npu[n - 1]);
        if n > 1 {
            let j = choose|j: int|
                0 <= j < n - 1 && ulp_distance_spec(cpu[j], npu[j]) == max_ulp_prefix(
                    cpu,
                    npu,
                    (n - 1) as nat,
                );
            if u <= max_ulp_prefix(cpu, npu, (n - 1) as nat) {
                assert(ulp_distance_spec(cpu[j], npu[j]) == max_ulp_prefix(cpu, npu, n));
            }
        } else {
            crate::bf16::lemma_ulp_distance_laws(cpu[0], npu[0]);
        }
    }
}

/// Where host and device agree element for element, nothing is over any
/// bound and the signed distances sum to zero.
pub proof fn lemma_equal_results_tally_zero(cpu: Seq<u16>, npu: Seq<u16>, n: nat)
    requires
        n <= cpu.len(),
        n <= npu.len(),
        forall|j: int| 0 <= j < n ==> cpu[j] == npu[j],
    ensures
        max_ulp_prefix(cpu, npu, n) == 0,
        signed_ulp_sum_prefix(cpu, npu, n) == 0,
        mismatches_prefix(cpu, npu, n) == 0,
    decreases n,
{
    if n > 0 {
        lemma_equal_results_tally_zero(cpu, npu, (n - 1) as nat);
        crate::bf16::lemma_ulp_distance_laws(cpu[n - 1], npu[n - 1]);
    }
}

/// How a device bf16 result compares with the host's, element by element.
pub struct UlpTally {
    /// The largest ULP distance.
    pub max_ulp: u32,
    /// The number of elements whose bits differ.
    pub n_diff: usize,
    /// The sum of the signed ULP distances (host to device).
    pub sum_signed: i64,
    /// The first element whose distance exceeds the bound.
    pub first_over_bound: Option<usize>,
}

/// The ULP and signed distances of one pair stay within the 15-bit
/// magnitudes.
proof fn lemma_ulp_bounds(a: u16, b: u16)
    ensures
        0 <= ulp_distance_spec(a, b) <= 0xfffe,
        -0x7fff <= signed_ulp_delta_spec(a, b) <= 0xfffe,
{
    assert((a & 0x7fff) <= 0x7fff && (b & 0x7fff) <= 0x7fff) by (bit_vector);
}

/// Compares the bf16 bit patterns `npu` against `cpu`: the largest ULP
/// distance, the number of differing elements, the sum of the signed
/// distances, and the first element farther than `bound` ULPs.
pub fn bf16_ulp_tally(cpu: &[u16], npu: &[u16], bound: u32) -> (t: UlpTally)
    requires
        cpu@.len() == npu@.len(),
        cpu@.len() <= 0x100_0000_0000,
    ensures
        t.max_ulp == max_ulp_prefix(cpu@, npu@, cpu@.len()),
        t.n_diff == mismatch_count(cpu@, npu@),
        t.sum_signed == signed_ulp_sum_prefix(cpu@, npu@, cpu@.len()),
        t.first_over_bound matches Some(d) ==> first_over_prefix(cpu@, npu@, bound, cpu@.len())
            == Some(d as int),
        t.first_over_bound is None <==> first_over_prefix(cpu@, npu@, bound, cpu@.len()) is None,
        t.first_over_bound matches Some(d) ==> d < cpu@.len() && ulp_distance_spec(
            cpu@[d as int],
            npu@[d as int],
        ) > bound && forall|j: int|
            0 <= j < d ==> ulp_distance_spec(cpu@[j], npu@[j]) <= bound,
        t.first_over_bound is None ==> forall|j: int|
            0 <= j < cpu@.len() ==> ulp_distance_spec(cpu@[j], npu@[j]) <= bound,
        forall|j: int| 0 <= j < cpu@.len() ==> ulp_distance_spec(cpu@[j], npu@[j]) <= t.max_ulp,
        cpu@.len() > 0 ==> exists|j: int|
            0 <= j < cpu@.len() && ulp_distance_spec(cpu@[j], npu@[j]) == t.max_ulp,
        cpu@ == npu@ ==> t.max_ulp == 0 && t.n_diff == 0 && t.sum_signed == 0
            && t.first_over_bound is None,
        t.n_diff == mismatch_positions(cpu@, npu@, cpu@.len() as int).len(),
{
    proof {
        lemma_mismatch_count_is_cardinality(cpu@, npu@, cpu@.len());
        lemma_first_over_is_earliest(cpu@, npu@, bound, cpu@.len());
        lemma_max_ulp_is_maximum(cpu@, npu@, cpu@.len());
        if cpu@ == npu@ {
            lemma_equal_results_tally_zero(cpu@, npu@, cpu@.len());
        }
    }
    let n = cpu.len();
    let mut max_ulp: u32 = 0;
    let mut n_diff: usize = 0;
    let mut sum_signed: i64 = 0;
    let mut first: Option<usize> = None;
    let mut d: usize = 0;
    while d < n
        invariant
            n == cpu@.len(),
            n == npu@.len(),
            n <= 0x100_0000_0000,
            d <= n,
            max_ulp == max_ulp_prefix(cpu@, npu@, d as nat),
            n_diff == mismatches_prefix(cpu@, npu@, d as nat),
            sum_signed == signed_ulp_sum_prefix(cpu@, npu@, d as nat),
            -0x7fff * d <= sum_signed <= 0xfffe * d,
            (first matches Some(x) && first_over_prefix(cpu@, npu@, bound, d as nat) == Some(
                x as int,
            )) || (first is None && first_over_prefix(cpu@, npu@, bound, d as nat) is None),
        decreases n - d,
    {
        proof {
            lemma_ulp_bounds(cpu@[d as int], npu@[d as int]);
            lemma_mismatches_bound(cpu@, npu@, d as nat);
        }
        let c = cpu[d];
        let p = npu[d];
        let u = ulp_distance(c, p);
        let sd = signed_ulp_delta(c, p);
        if u > max_ulp {
            max_ulp = u;
        }
        if c != p {
            n_diff = n_diff + 1;
        }
        assert(-0x7fff * (d + 1) <= sum_signed + sd <= 0xfffe * (d + 1));
        assert(0xfffe * (d + 1) <= 0xfffe * 0x100_0000_0000int && -0x7fff * (d + 1) >= -0x7fff
            * 0x100_0000_0000int) by (nonlinear_arith)
            requires
                d < 0x100_0000_0000int,
        ;
        sum_signed = sum_signed + sd as i64;
        if first.is_none() && u > bound {
            first = Some(d);
        }
        d = d + 1;
    }
    UlpTally { max_ulp, n_diff, sum_signed, first_over_bound: first }
}

/// `v` wrapped into the `i16` range (two's complement).
pub open spec fn wrap_i16(v: int) -> int {
    if v % 0x1_0000 > 0x7fff {
        v % 0x1_0000 - 0x1_0000
    } else {
        v % 0x1_0000
    }
}

/// The byte ramp `0, 1, ..., 255, 0, 1, ...` of `n` values, as `i16`s.
pub fn byte_ramp_i16(n: usize) -> (v: Vec<i16>)
    ensures
        v@.len() == n,
        forall|i: int| 0 <= i < n ==> #[trigger] v@[i] == i % 256,
{
    let mut v: Vec<i16> = Vec::new();
    let mut i: usize = 0;
    while i < n
        invariant
            i <= n,
            v@.len() == i,
            forall|p: int| 0 <= p < i ==> #[trigger] v@[p] == p % 256,
        decreases n - i,
    {
        assert(i & 0xff == i % 256 && i & 0xff <= 0xff) by (bit_vector);
        v.push((i & 0xff) as i16);
        i = i + 1;
    }
    v
}

/// What the scalar-multiply kernel computes on the byte ramp of `n`
/// values: each `i % 256` times `scale`, wrapped to 16 bits.
pub fn scale_reference_i16(n: usize, scale: i16) -> (v: Vec<i16>)
    ensures
        v@.len() == n,
        forall|i: int| 0 <= i < n ==> #[trigger] v@[i] == wrap_i16((i % 256) * scale),
{
    let mut v: Vec<i16> = Vec::new();
    let mut i: usize = 0;
    while i < n
        invariant
            i <= n,
            v@.len() == i,
            forall|p: int| 0 <= p < i ==> #[trigger] v@[p] == wrap_i16((p % 256) * scale),
        decreases n - i,
    {
        assert(i & 0xff == i % 256 && i & 0xff <= 0xff) by (bit_vector);
        let x = (i & 0xff) as i16;
        v.push(x.wrapping_mul(scale));
        i = i + 1;
    }
    v
}

/// The byte ramp `0, 1, ..., 255, 0, 1, ...` of `n` bytes.
pub fn byte_ramp_u8(n: usize) -> (v: Vec<u8>)
    ensures
        v@.len() == n,
        forall|i: int| 0 <= i < n ==> #[trigger] v@[i] == i % 256,
{
    let mut v: Vec<u8> = Vec::new();
    let mut i: usize = 0;
    while i < n
        invariant
            i <= n,
            v@.len() == i,
            forall|p: int| 0 <= p < i ==> #[trigger] v@[p] == p % 256,
        decreases n - i,
    {
        assert(i & 0xff == i % 256 && i & 0xff <= 0xff) by (bit_vector);
        v.push((i & 0xff) as u8);
        i = i + 1;
    }
    v
}

/// The `rows x cols` matrix, row-major, whose entry at flat index `i` is
/// the pseudo-random value at index `offset + i`.
pub fn pseudo_i8_matrix(rows: usize, cols: usize, offset: u64) -> (v: Vec<i8>)
    requires
        rows * cols <= usize::MAX,
        offset + rows * cols <= u64::MAX,
    ensures
        v@.len() == rows * cols,
        forall|i: int| 0 <= i < rows * cols ==> #[trigger] v@[i] == pseudo_i8_spec((offset + i) as u64),
{
    let total = rows * cols;
    let mut v: Vec<i8> = Vec::new();
    let mut i: usize = 0;
    while i < total
        invariant
            total == rows * cols,
            offset + total <= u64::MAX,
            i <= total,
            v@.len() == i,
            forall|p: int| 0 <= p < i ==> #[trigger] v@[p] == pseudo_i8_spec((offset + p) as u64),
        decreases total - i,
    {
        v.push(pseudo_i8(offset + i as u64));
        i = i + 1;
    }
    v
}

/// The `k x n` row-major matrix `b` stored column-major: entry `i` of the
/// result is row `i % k`, column `i / k` of `b`.
pub fn to_col_major_i8(b: &[i8], k: usize, n: usize) -> (v: Vec<i8>)
    requires
        b@.len() == k * n,
    ensures
        v@.len() == k * n,
        forall|i: int| 0 <= i < k * n ==> #[trigger] v@[i] == b@[(i % k as int) * n + i / k as int],
{
    let blen = b.len();
    let total = k * n;
    let mut v: Vec<i8> = Vec::new();
    let mut i: usize = 0;
    while i < total
        invariant
            total == k * n,
            blen == b@.len(),
            b@.len() == k * n,
            i <= total,
            v@.len() == i,
            forall|p: int| 0 <= p < i ==> #[trigger] v@[p] == b@[(p % k as int) * n + p / k as int],
        decreases total - i,
    {
        assert(k > 0) by (nonlinear_arith)
            requires
                i < total,
                total == k * n,
        ;
        let kk = i % k;
        let c = i / k;
        assert(c < n && kk * n + c < k * n) by (nonlinear_arith)
            requires
                i < k * n,
                k > 0,
                kk == i % k,
                c == i / k,
        ;
        v.push(b[kk * n + c]);
        i = i + 1;
    }
    v
}

/// Storing B column-major does not change the product: when `b_cm`
/// holds the `k x n` matrix `b` column-major, every column of `b_cm` read
/// column-major is the column of `b` read row-major, so every entry of
/// the product of `a` with either is the same.
pub proof fn lemma_col_major_same_product(
    a: Seq<int>,
    b: Seq<int>,
    b_cm: Seq<int>,
    k: nat,
    n: nat,
    i: int,
)
    requires
        b.len() == k * n,
        b_cm.len() == k * n,
        forall|x: int| 0 <= x < k * n ==> #[trigger] b_cm[x] == b[(x % k as int) * n + x / k as int],
        n > 0,
        0 <= i,
    ensures
        gemm_entry(a, b_cm, k, n, true, i) == gemm_entry(a, b, k, n, false, i),
{
    let c = i % n as int;
    assert(0 <= c < n) by (nonlinear_arith)
        requires
            n > 0,
            c == i % n as int,
    ;
    let col_cm = mat_col(b_cm, k, n, c, true);
    let col_rm = mat_col(b, k, n, c, false);
    assert forall|j: int| 0 <= j < k implies col_cm[j] == col_rm[j] by {
        let x = c * k + j;
        assert(0 <= x < k * n && x % k as int == j && x / k as int == c) by (nonlinear_arith)
            requires
                0 <= c < n,
                0 <= j < k,
                x == c * k + j,
        ;
        assert(col_cm[j] == b_cm[x]);
        assert(col_rm[j] == b[c + j * n]);
        assert(j * n + c == c + j * n);
    }
    assert(col_cm =~= col_rm);
}

/// The first position below `n` where `cpu` and `npu` differ, with the
/// two values there.
pub open spec fn first_diff_prefix(cpu: Seq<u16>, npu: Seq<u16>, n: nat) -> Option<(int, u16, u16)>
    decreases n,
{
    if n == 0 {
        None
    } else {
        match first_diff_prefix(cpu, npu, (n - 1) as nat) {
            Some(f) => Some(f),
            None => if cpu[n - 1] != npu[n - 1] {
                Some(((n - 1) as int, cpu[n - 1], npu[n - 1]))
            } else {
                None
            },
        }
    }
}

/// The first difference reported is the earliest: the words differ
/// there and agree everywhere before it; none is reported only when the
/// two agree everywhere.
pub proof fn lemma_first_diff_is_earliest(cpu: Seq<u16>, npu: Seq<u16>, n: nat)
    requires
        n <= cpu.len(),
        n <= npu.len(),
    ensures
        first_diff_prefix(cpu, npu, n) matches Some((d, c, p)) ==> 0 <= d < n && c == cpu[d]
            && p == npu[d] && c != p && forall|j: int| 0 <= j < d ==> cpu[j] == npu[j],
        first_diff_prefix(cpu, npu, n) is None <==> forall|j: int| 0 <= j < n ==> cpu[j] == npu[j],
    decreases n,
{
    if n > 0 {
        lemma_first_diff_is_earliest(cpu, npu, (n - 1) as nat);
    }
}

/// Compares two bf16 results bit for bit: the number of words that
/// differ, and the first difference as (position, host word, device word).
pub fn compare_bits_u16(cpu: &[u16], npu: &[u16]) -> (r: (usize, Option<(usize, u16, u16)>))
    requires
        cpu@.len() == npu@.len(),
    ensures
        r.0 == mismatch_count(cpu@, npu@),
        r.1 matches Some((d, c, p)) ==> first_diff_prefix(cpu@, npu@, cpu@.len()) == Some(
            (d as int, c, p),
        ),
        r.1 is None <==> first_diff_prefix(cpu@, npu@, cpu@.len()) is None,
        r.1 matches Some((d, c, p)) ==> d < cpu@.len() && c == cpu@[d as int] && p == npu@[d as int]
            && c != p && forall|j: int| 0 <= j < d ==> cpu@[j] == npu@[j],
        r.1 is None <==> cpu@ == npu@,
        r.0 == 0 <==> cpu@ == npu@,
{
    proof {
        lemma_first_diff_is_earliest(cpu@, npu@, cpu@.len());
        lemma_no_mismatch_iff_equal(cpu@, npu@);
    }
    let n = cpu.len();
    let mut count: usize = 0;
    let mut first: Option<(usize, u16, u16)> = None;
    let mut d: usize = 0;
    while d < n
        invariant
            n == cpu@.len(),
            n == npu@.len(),
            d <= n,
            count == mismatches_prefix(cpu@, npu@, d as nat),
            (first matches Some((x, c, p)) && first_diff_prefix(cpu@, npu@, d as nat) == Some(
                (x as int, c, p),
            )) || (first is None && first_diff_prefix(cpu@, npu@, d as nat) is None),
        decreases n - d,
    {
        proof {
            lemma_mismatches_bound(cpu@, npu@, d as nat);
        }
        let c = cpu[d];
        let p = npu[d];
        if c != p {
            count = count + 1;
            if first.is_none() {
                first = Some((d, c, p));
            }
        }
        d = d + 1;
    }
    proof {
        if first is None {
            assert(cpu@ =~= npu@);
        }
    }
    (count, first)
}

/// Byte `i` of the pattern written from the iGPU side in the dmabuf
/// round trip: `(31 i + 7) mod 256`.
pub open spec fn forward_pattern(i: int) -> u8 {
    ((i * 31 + 7) % 256) as u8
}

/// Byte `i` of the pattern written back from the NPU side:
/// `(17 i mod 256) xor 0xa5`.
pub open spec fn reverse_pattern(i: int) -> u8 {
    (((i * 17) % 256) as u8) ^ 0xa5u8
}

/// The two directions of the dmabuf round trip.
#[derive(Debug, Clone, Copy, PartialEq, Eq, Structural)]
pub enum RoundtripPattern {
    Forward,
    Reverse,
}

/// Byte `i` of `pattern`.
pub open spec fn pattern_byte_spec(pattern: RoundtripPattern, i: int) -> u8 {
    match pattern {
        RoundtripPattern::Forward => forward_pattern(i),
        RoundtripPattern::Reverse => reverse_pattern(i),
    }
}

/// Byte `i` of `pattern`.
pub fn pattern_byte(pattern: RoundtripPattern, i: usize) -> (b: u8)
    ensures
        b == pattern_byte_spec(pattern, i as int),
{
    let r = i % 256;
    proof {
        vstd::arithmetic::div_mod::lemma_mul_mod_noop_left(i as int, 31, 256);
        vstd::arithmetic::div_mod::lemma_mul_mod_noop_left(i as int, 17, 256);
        vstd::arithmetic::div_mod::lemma_add_mod_noop(i * 31, 7, 256);
        vstd::arithmetic::div_mod::lemma_add_mod_noop(r * 31, 7, 256);
        assert((r * 31) % 256 == (i * 31) % 256);
    }
    match pattern {
        RoundtripPattern::Forward => ((r * 31 + 7) % 256) as u8,
        RoundtripPattern::Reverse => (((r * 17) % 256) as u8) ^ 0xa5,
    }
}

/// The `n` bytes of `pattern`.
pub fn fill_pattern(pattern: RoundtripPattern, n: usize) -> (v: Vec<u8>)
    ensures
        v@.len() == n,
        forall|i: int| 0 <= i < n ==> #[trigger] v@[i] == pattern_byte_spec(pattern, i),
{
    let mut v: Vec<u8> = Vec::new();
    let mut i: usize = 0;
    while i < n
        invariant
            i <= n,
            v@.len() == i,
            forall|p: int| 0 <= p < i ==> #[trigger] v@[p] == pattern_byte_spec(pattern, p),
        decreases n - i,
    {
        v.push(pattern_byte(pattern, i));
        i = i + 1;
    }
    v
}

/// The offsets sampled in a view of `size` bytes: both ends, byte 1024,
/// the middle and the start of the last page.
pub open spec fn sample_offsets_spec(size: int) -> Seq<int> {
    seq![0, 1, 1024, size / 2, size - 4096, size - 1]
}

/// Checks the sampled offsets of `view` against `pattern`: the first
/// sampled offset whose byte differs, as (offset, expected, found), or
/// `None` when all six match.
pub fn check_samples(view: &[u8], pattern: RoundtripPattern) -> (r: Option<(usize, u8, u8)>)
    requires
        view@.len() >= 4096,
    ensures
        r is None <==> forall|j: int|
            0 <= j < 6 ==> view@[#[trigger] sample_offsets_spec(view@.len() as int)[j]]
                == pattern_byte_spec(pattern, sample_offsets_spec(view@.len() as int)[j]),
        r matches Some((off, want, got)) ==> exists|j: int|
            0 <= j < 6 && #[trigger] sample_offsets_spec(view@.len() as int)[j] == off as int
                && want == pattern_byte_spec(pattern, off as int) && got == view@[off as int]
                && (forall|q: int|
                0 <= q < j ==> view@[sample_offsets_spec(view@.len() as int)[q]]
                    == pattern_byte_spec(pattern, sample_offsets_spec(view@.len() as int)[q])),
{
    let size = view.len();
    let offs: [usize; 6] = [0, 1, 1024, size / 2, size - 4096, size - 1];
    let ghost s = sample_offsets_spec(size as int);
    assert(forall|j: int| 0 <= j < 6 ==> offs@[j] as int == s[j]);
    let mut j: usize = 0;
    while j < 6
        invariant
            size == view@.len(),
            size >= 4096,
            s == sample_offsets_spec(size as int),
            forall|q: int| 0 <= q < 6 ==> offs@[q] as int == s[q],
            j <= 6,
            forall|q: int| 0 <= q < j ==> view@[s[q]] == pattern_byte_spec(pattern, s[q]),
        decreases 6 - j,
    {
        let off = offs[j];
        let want = pattern_byte(pattern, off);
        let got = view[off];
        if got != want {
            assert(s[j as int] == off as int);
            return Some((off, want, got));
        }
        j = j + 1;
    }
    None
}

} // verus!
