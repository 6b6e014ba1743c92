use crate::partial::{all_dimensions, all_partials, all_variables, Dimension, Variable};
use vstd::arithmetic::div_mod::lemma_fundamental_div_mod_converse;
use vstd::prelude::*;

verus! {

/// Index arithmetic: entry `q * k + c` of a row-major matrix with `k` columns lies in row
/// `q` and column `c`.
proof fn lemma_row_col(q: int, k: int, c: int)
    requires
        0 <= q,
        0 <= c < k,
    ensures
        (q * k + c) / k == q,
        (q * k + c) % k == c,
{
    lemma_fundamental_div_mod_converse(q * k + c, k, q, c);
}

/// Assembles a solver's Jacobian row-major, as a flat vector: three rows per measurement
/// (its X, Y and Z), one column per variable of `variables`. Entry `n` lies in row
/// `n / k` and column `n % k`, where `k` is the number of variables; row `r` belongs to
/// measurement `r / 3` and dimension `r % 3`; the entry is what `partial` returns for
/// that measurement, dimension and variable.
pub fn jacobian<T, F: Fn(usize, Dimension, Variable) -> T>(
    count: usize,
    variables: &[Variable],
    partial: F,
) -> (r: Vec<T>)
    requires
        3 * count * variables@.len() <= usize::MAX,
        forall|i: usize, d: Dimension, v: Variable| partial.requires((i, d, v)),
    ensures
        r@.len() == 3 * count * variables@.len(),
        forall|n: int|
            0 <= n < r@.len() ==> partial.ensures(
                (
                    (n / variables@.len() as int / 3) as usize,
                    all_dimensions()[n / variables@.len() as int % 3],
                    variables@[n % variables@.len() as int],
                ),
                #[trigger] r@[n],
            ),
{
    let k = variables.len();
    let ghost kk = k as int;
    let mut r: Vec<T> = Vec::new();
    let mut i: usize = 0;
    while i < count
        invariant
            k == variables@.len(),
            kk == k,
            3 * count * k <= usize::MAX,
            i <= count,
            r@.len() == 3 * i * k,
            forall|i: usize, d: Dimension, v: Variable| partial.requires((i, d, v)),
            forall|n: int|
                0 <= n < r@.len() ==> partial.ensures(
                    ((n / kk / 3) as usize, all_dimensions()[n / kk % 3], variables@[n % kk]),
                    #[trigger] r@[n],
                ),
        decreases count - i,
    {
        let mut j: usize = 0;
        while j < 3
            invariant
                k == variables@.len(),
                kk == k,
                3 * count * k <= usize::MAX,
                i < count,
                j <= 3,
                r@.len() == (3 * i + j) * k,
                forall|i: usize, d: Dimension, v: Variable| partial.requires((i, d, v)),
                forall|n: int|
                    0 <= n < r@.len() ==> partial.ensures(
                        ((n / kk / 3) as usize, all_dimensions()[n / kk % 3], variables@[n % kk]),
                        #[trigger] r@[n],
                    ),
            decreases 3 - j,
        {
            let d = Dimension::at(j);
            let mut c: usize = 0;
            while c < k
                invariant
                    k == variables@.len(),
                    kk == k,
                    3 * count * k <= usize::MAX,
                    i < count,
                    j < 3,
                    c <= k,
                    d == all_dimensions()[j as int],
                    r@.len() == (3 * i + j) * k + c,
                    forall|i: usize, d: Dimension, v: Variable| partial.requires((i, d, v)),
                    forall|n: int|
                        0 <= n < r@.len() ==> partial.ensures(
                            (
                                (n / kk / 3) as usize,
                                all_dimensions()[n / kk % 3],
                                variables@[n % kk],
                            ),
                            #[trigger] r@[n],
                        ),
                decreases k - c,
            {
                proof {
                    assert((3 * i + j) * k + c < 3 * count * k) by (nonlinear_arith)
                        requires
                            i < count,
                            j < 3,
                            c < k,
                    ;
                }
                let x = partial(i, d, variables[c]);
                let ghost n = r@.len() as int;
                r.push(x);
                proof {
                    lemma_row_col(3 * i + j, kk, c as int);
                    lemma_row_col(i as int, 3, j as int);
                    assert(r@[n] == x);
                }
                c = c + 1;
            }
            proof {
                assert((3 * i + j) * k + k == (3 * i + j + 1) * k) by (nonlinear_arith);
            }
            j = j + 1;
        }
        proof {
            assert((3 * i + 3) * k == 3 * (i + 1) * k) by (nonlinear_arith);
        }
        i = i + 1;
    }
    r
}

/// Assembles the sensitivity matrix of one measurement row-major, as a flat vector of 42
/// entries: one row per variable in the fixed order, one column per dimension. Entry `n`
/// is what `partial` returns for the `n`-th partial of the fixed order.
pub fn sensitivity<T, F: Fn(Variable, Dimension) -> T>(partial: F) -> (r: Vec<T>)
    requires
        forall|v: Variable, d: Dimension| partial.requires((v, d)),
    ensures
        r@.len() == 42,
        forall|n: int|
            0 <= n < 42 ==> partial.ensures(
                (all_partials()[n].1, all_partials()[n].0),
                #[trigger] r@[n],
            ),
{
    let mut r: Vec<T> = Vec::new();
    let mut i: usize = 0;
    while i < 14
        invariant
            i <= 14,
            r@.len() == 3 * i,
            forall|v: Variable, d: Dimension| partial.requires((v, d)),
            forall|n: int|
                0 <= n < r@.len() ==> partial.ensures(
                    (all_partials()[n].1, all_partials()[n].0),
                    #[trigger] r@[n],
                ),
        decreases 14 - i,
    {
        let v = Variable::at(i);
        let mut j: usize = 0;
        while j < 3
            invariant
                i < 14,
                j <= 3,
                v == all_variables()[i as int],
                r@.len() == 3 * i + j,
                forall|v: Variable, d: Dimension| partial.requires((v, d)),
                forall|n: int|
                    0 <= n < r@.len() ==> partial.ensures(
                        (all_partials()[n].1, all_partials()[n].0),
                        #[trigger] r@[n],
                    ),
            decreases 3 - j,
        {
            let d = Dimension::at(j);
            let x = partial(v, d);
            let ghost n = r@.len() as int;
            r.push(x);
            proof {
                lemma_row_col(i as int, 3, j as int);
                assert(r@[n] == x);
            }
            j = j + 1;
        }
        i = i + 1;
    }
    r
}

/// Stacks per-measurement residuals (X, Y, Z each) into one vector: entry `n` is
/// component `n % 3` of the residual of measurement `n / 3`.
pub fn stack<T: Copy>(parts: &[[T; 3]]) -> (r: Vec<T>)
    requires
        3 * parts@.len() <= usize::MAX,
    ensures
        r@.len() == 3 * parts@.len(),
        forall|n: int| 0 <= n < r@.len() ==> #[trigger] r@[n] == parts@[n / 3]@[n % 3],
{
    let mut r: Vec<T> = Vec::new();
    let mut i: usize = 0;
    while i < parts.len()
        invariant
            3 * parts@.len() <= usize::MAX,
            i <= parts@.len(),
            r@.len() == 3 * i,
            forall|n: int| 0 <= n < r@.len() ==> #[trigger] r@[n] == parts@[n / 3]@[n % 3],
        decreases parts@.len() - i,
    {
        let p = parts[i];
        let mut j: usize = 0;
        while j < 3
            invariant
                i < parts@.len(),
                p == parts@[i as int],
                j <= 3,
                r@.len() == 3 * i + j,
                forall|n: int| 0 <= n < r@.len() ==> #[trigger] r@[n] == parts@[n / 3]@[n % 3],
            decreases 3 - j,
        {
            let ghost n = r@.len() as int;
            r.push(p[j]);
            proof {
                lemma_row_col(i as int, 3, j as int);
            }
            j = j + 1;
        }
        i = i + 1;
    }
    r
}

/// A square matrix, row-major as a flat vector, with `values` on its diagonal and `zero`
/// everywhere else.
pub fn diagonal<T: Copy>(values: &[T], zero: T) -> (r: Vec<T>)
    requires
        values@.len() * values@.len() <= usize::MAX,
    ensures
        r@.len() == values@.len() * values@.len(),
        forall|n: int|
            0 <= n < r@.len() ==> #[trigger] r@[n] == if n / values@.len() as int == n
                % values@.len() as int {
                values@[n / values@.len() as int]
            } else {
                zero
            },
{
    let k = values.len();
    let ghost kk = k as int;
    let mut r: Vec<T> = Vec::new();
    let mut i: usize = 0;
    while i < k
        invariant
            k == values@.len(),
            kk == k,
            k * k <= usize::MAX,
            i <= k,
            r@.len() == i * k,
            forall|n: int|
                0 <= n < r@.len() ==> #[trigger] r@[n] == if n / kk == n % kk {
                    values@[n / kk]
                } else {
                    zero
                },
        decreases k - i,
    {
        let mut c: usize = 0;
        while c < k
            invariant
                k == values@.len(),
                kk == k,
                k * k <= usize::MAX,
                i < k,
                c <= k,
                r@.len() == i * k + c,
                forall|n: int|
                    0 <= n < r@.len() ==> #[trigger] r@[n] == if n / kk == n % kk {
                        values@[n / kk]
                    } else {
                        zero
                    },
            decreases k - c,
        {
            proof {
                assert(i * k + c < k * k) by (nonlinear_arith)
                    requires
                        i < k,
                        c < k,
                ;
            }
            let x = if i == c {
                values[i]
            } else {
                zero
            };
            let ghost n = r@.len() as int;
            r.push(x);
            proof {
                lemma_row_col(i as int, kk, c as int);
            }
            c = c + 1;
        }
        proof {
            assert(i * k + k == (i + 1) * k) by (nonlinear_arith);
        }
        i = i + 1;
    }
    r
}

} // verus!
