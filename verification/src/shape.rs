//! Shape resolution: turning a partial shape specification plus a flat data
//! length into a fully resolved, non-negative dimension sequence.
//!
//! A shape entry of `-1` is a wildcard whose size is inferred from the data
//! length; at most one wildcard is permitted. Entries below `-1` are invalid.
//! Without a shape the data is treated as one flat dimension.

use vstd::arithmetic::div_mod::{lemma_div_is_ordered_by_denominator, lemma_fundamental_div_mod};
use vstd::arithmetic::mul::{lemma_mul_is_commutative, lemma_mul_nonnegative};
use vstd::prelude::*;

use crate::errors::TensorError;

verus! {

/// How many wildcard (`-1`) entries a shape holds.
pub open spec fn wildcard_count(s: Seq<i64>) -> nat
    decreases s.len(),
{
    if s.len() == 0 {
        0
    } else {
        wildcard_count(s.drop_last()) + if s.last() == -1 {
            1nat
        } else {
            0nat
        }
    }
}

/// The product of the known (non-negative) entries of a shape; wildcard and
/// invalid entries contribute nothing.
pub open spec fn known_product(s: Seq<i64>) -> int
    decreases s.len(),
{
    if s.len() == 0 {
        1
    } else {
        known_product(s.drop_last()) * if s.last() >= 0 {
            s.last() as int
        } else {
            1
        }
    }
}

/// The product of every entry of a shape.
pub open spec fn dims_product(s: Seq<i64>) -> int
    decreases s.len(),
{
    if s.len() == 0 {
        1
    } else {
        dims_product(s.drop_last()) * s.last() as int
    }
}

/// Every entry is a dimension size or the wildcard: nothing below `-1`.
pub open spec fn all_dims_valid(s: Seq<i64>) -> bool {
    forall|i: int| 0 <= i < s.len() ==> s[i] >= -1
}

/// The position of the wildcard, meaningful when the shape holds exactly one.
pub open spec fn wildcard_index(s: Seq<i64>) -> int {
    choose|i: int| 0 <= i < s.len() && s[i] == -1
}

/// Whether a shape can be resolved against a data length: every entry at
/// least `-1`, at most one wildcard, and the data length matched by the known
/// product — divisibly when a wildcard is present, exactly when not.
pub open spec fn shape_ok(s: Seq<i64>, len: int) -> bool {
    &&& all_dims_valid(s)
    &&& wildcard_count(s) <= 1
    &&& (wildcard_count(s) == 1 ==> len % known_product(s) == 0)
    &&& (wildcard_count(s) == 0 ==> known_product(s) == len)
}

/// The resolved dimensions: the shape itself, with the wildcard (if any)
/// replaced by the data length divided by the product of the known entries.
pub open spec fn spec_resolved(s: Seq<i64>, len: int) -> Seq<i64> {
    if wildcard_count(s) == 0 {
        s
    } else {
        s.update(wildcard_index(s), (len / known_product(s)) as i64)
    }
}

/// The first failure of a left-to-right scan of the shape: a second wildcard
/// or an entry below `-1`, whichever comes first.
pub open spec fn spec_scan_error(s: Seq<i64>, seen_wildcard: bool) -> Option<TensorError>
    decreases s.len(),
{
    if s.len() == 0 {
        None
    } else if s[0] == -1 {
        if seen_wildcard {
            Some(TensorError::MultipleWildcards)
        } else {
            spec_scan_error(s.drop_first(), true)
        }
    } else if s[0] < -1 {
        Some(TensorError::InvalidDimension(s[0]))
    } else {
        spec_scan_error(s.drop_first(), seen_wildcard)
    }
}

/// The error a failing resolution reports: the first scan failure, or else
/// the mismatch between the known product and the data length.
pub open spec fn spec_resolve_error(s: Seq<i64>, len: usize) -> TensorError {
    match spec_scan_error(s, false) {
        Some(e) => e,
        None => if wildcard_count(s) == 1 {
            TensorError::IndivisibleRemainder(len, known_product(s) as i64)
        } else {
            TensorError::ShapeDataMismatch(known_product(s) as i64, len)
        },
    }
}

/// No prefix of the shape has a known product beyond `i64`: the bound the
/// running product needs to stay representable.
pub open spec fn prefix_products_fit(s: Seq<i64>) -> bool {
    forall|k: int| 0 <= k <= s.len() ==> #[trigger] known_product(s.take(k)) <= i64::MAX as int
}

/// A shape may not combine a single wildcard with a zero known product:
/// no data length divides into nothing.
pub open spec fn wildcard_product_nonzero(s: Seq<i64>) -> bool {
    (all_dims_valid(s) && wildcard_count(s) == 1) ==> known_product(s) != 0
}

/// An entry equal to `-1` forces the wildcard count up to at least one.
pub proof fn lemma_wildcard_present(s: Seq<i64>, j: int)
    requires
        0 <= j < s.len(),
        s[j] == -1,
    ensures
        wildcard_count(s) >= 1,
    decreases s.len(),
{
    if j == s.len() - 1 {
    } else {
        lemma_wildcard_present(s.drop_last(), j);
    }
}

/// Two distinct wildcard entries force the count up to at least two.
pub proof fn lemma_two_wildcards(s: Seq<i64>, j: int, k: int)
    requires
        0 <= j < k < s.len(),
        s[j] == -1,
        s[k] == -1,
    ensures
        wildcard_count(s) >= 2,
    decreases s.len(),
{
    if k == s.len() - 1 {
        lemma_wildcard_present(s.drop_last(), j);
    } else {
        lemma_two_wildcards(s.drop_last(), j, k);
    }
}

/// A shape without wildcard entries has wildcard count zero.
pub proof fn lemma_no_wildcard(s: Seq<i64>)
    requires
        forall|i: int| 0 <= i < s.len() ==> s[i] != -1,
    ensures
        wildcard_count(s) == 0,
    decreases s.len(),
{
    if s.len() > 0 {
        lemma_no_wildcard(s.drop_last());
    }
}

/// A wildcard count of at most one makes the wildcard entry unique.
pub proof fn lemma_wildcard_unique(s: Seq<i64>, j: int, k: int)
    requires
        wildcard_count(s) <= 1,
        0 <= j < s.len(),
        0 <= k < s.len(),
        s[j] == -1,
        s[k] == -1,
    ensures
        j == k,
{
    if j < k {
        lemma_two_wildcards(s, j, k);
    } else if k < j {
        lemma_two_wildcards(s, k, j);
    }
}

/// The wildcard count splits off the first entry.
pub proof fn lemma_wildcard_count_drop_first(s: Seq<i64>)
    requires
        s.len() > 0,
    ensures
        s[0] == -1 ==> wildcard_count(s) == wildcard_count(s.drop_first()) + 1,
        s[0] != -1 ==> wildcard_count(s) == wildcard_count(s.drop_first()),
    decreases s.len(),
{
    if s.len() == 1 {
        assert(s.drop_first() =~= Seq::<i64>::empty());
        assert(s.drop_last() =~= Seq::<i64>::empty());
        assert(wildcard_count(Seq::<i64>::empty()) == 0);
        assert(s.last() == s[0]);
    } else {
        assert(s.drop_first().drop_last() =~= s.drop_last().drop_first());
        assert(s.drop_first().last() == s.last());
        assert(s.drop_last()[0] == s[0]);
        lemma_wildcard_count_drop_first(s.drop_last());
        let head: nat = if s[0] == -1 {
            1nat
        } else {
            0nat
        };
        let tail: nat = if s.last() == -1 {
            1nat
        } else {
            0nat
        };
        assert(wildcard_count(s) == wildcard_count(s.drop_last()) + tail);
        assert(wildcard_count(s.drop_last()) == wildcard_count(s.drop_last().drop_first()) + head);
        assert(wildcard_count(s.drop_first()) == wildcard_count(s.drop_first().drop_last()) + tail);
        assert(wildcard_count(s) == wildcard_count(s.drop_first()) + head);
    }
}

/// The known product is never negative.
pub proof fn lemma_known_product_nonneg(s: Seq<i64>)
    ensures
        known_product(s) >= 0,
    decreases s.len(),
{
    if s.len() > 0 {
        lemma_known_product_nonneg(s.drop_last());
        let factor: int = if s.last() >= 0 {
            s.last() as int
        } else {
            1
        };
        lemma_mul_nonnegative(known_product(s.drop_last()), factor);
    }
}

/// On a shape of non-negative entries the two products agree.
pub proof fn lemma_products_agree(s: Seq<i64>)
    requires
        forall|i: int| 0 <= i < s.len() ==> s[i] >= 0,
    ensures
        dims_product(s) == known_product(s),
    decreases s.len(),
{
    if s.len() > 0 {
        assert(forall|i: int| 0 <= i < s.drop_last().len() ==> s.drop_last()[i] == s[i]);
        lemma_products_agree(s.drop_last());
    }
}

/// The known product is zero exactly when some known entry is zero.
pub proof fn lemma_known_product_zero(s: Seq<i64>)
    ensures
        known_product(s) == 0 <==> exists|i: int| 0 <= i < s.len() && s[i] == 0,
    decreases s.len(),
{
    if s.len() > 0 {
        lemma_known_product_zero(s.drop_last());
        let factor: int = if s.last() >= 0 {
            s.last() as int
        } else {
            1
        };
        let rest = known_product(s.drop_last());
        assert(known_product(s) == rest * factor);
        assert(rest * factor == 0 <==> rest == 0 || factor == 0) by (nonlinear_arith);
        if s.last() == 0 {
            assert(s[s.len() - 1] == 0);
        }
        if rest == 0 {
            let j = choose|i: int| 0 <= i < s.drop_last().len() && s.drop_last()[i] == 0;
            assert(s[j] == 0);
        }
        if known_product(s) != 0 {
            assert(forall|i: int| 0 <= i < s.drop_last().len() ==> s.drop_last()[i] == s[i]);
        }
    }
}

/// Replacing the single wildcard by `q` scales the full product of the shape
/// to the known product times `q`.
pub proof fn lemma_update_product(s: Seq<i64>, j: int, q: i64)
    requires
        0 <= j < s.len(),
        s[j] == -1,
        forall|i: int| 0 <= i < s.len() && i != j ==> s[i] >= 0,
        q >= 0,
    ensures
        dims_product(s.update(j, q)) == known_product(s) * q as int,
    decreases s.len(),
{
    let t = s.update(j, q);
    if j == s.len() - 1 {
        assert(t.drop_last() =~= s.drop_last());
        assert(t.last() == q);
        assert(forall|i: int| 0 <= i < s.drop_last().len() ==> s.drop_last()[i] == s[i]);
        lemma_products_agree(s.drop_last());
        assert(known_product(s) == known_product(s.drop_last()) * 1);
    } else {
        assert(t.drop_last() =~= s.drop_last().update(j, q));
        assert(t.last() == s.last());
        assert(s.drop_last()[j] == s[j]);
        assert(forall|i: int|
            0 <= i < s.drop_last().len() && i != j ==> s.drop_last()[i] == s[i]);
        lemma_update_product(s.drop_last(), j, q);
        let kp = known_product(s.drop_last());
        let last = s.last() as int;
        assert(s[s.len() - 1] >= 0);
        assert(known_product(s) == kp * last);
        assert(dims_product(t) == (kp * q as int) * last);
        assert((kp * q as int) * last == (kp * last) * q as int) by (nonlinear_arith);
    }
}

/// A zero entry anywhere forces the full product of a shape to zero.
pub proof fn lemma_dims_product_zero(s: Seq<i64>, j: int)
    requires
        0 <= j < s.len(),
        s[j] == 0,
    ensures
        dims_product(s) == 0,
    decreases s.len(),
{
    if j == s.len() - 1 {
    } else {
        assert(s.drop_last()[j] == s[j]);
        lemma_dims_product_zero(s.drop_last(), j);
    }
}

/// A resolvable shape resolves to non-negative dimensions whose full product
/// is the data length.
pub proof fn lemma_resolved_wf(s: Seq<i64>, len: int)
    requires
        shape_ok(s, len),
        wildcard_product_nonzero(s),
        0 <= len <= i64::MAX as int,
    ensures
        forall|i: int| 0 <= i < spec_resolved(s, len).len() ==> spec_resolved(s, len)[i] >= 0,
        spec_resolved(s, len).len() == s.len(),
        dims_product(spec_resolved(s, len)) == len,
{
    let r = spec_resolved(s, len);
    if wildcard_count(s) == 0 {
        lemma_wildcard_present_contra(s);
        lemma_products_agree(s);
    } else {
        let p = known_product(s);
        lemma_known_product_nonneg(s);
        assert(p > 0);
        let j = wildcard_index(s);
        assert(exists|i: int| 0 <= i < s.len() && s[i] == -1) by {
            if forall|i: int| 0 <= i < s.len() ==> s[i] != -1 {
                lemma_no_wildcard(s);
            }
        }
        assert(0 <= j < s.len() && s[j] == -1);
        assert(forall|i: int| 0 <= i < s.len() && i != j ==> s[i] >= 0) by {
            assert forall|i: int| 0 <= i < s.len() && i != j implies s[i] >= 0 by {
                if s[i] == -1 {
                    lemma_wildcard_unique(s, i, j);
                }
            }
        }
        let q = len / p;
        assert(q >= 0) by {
            lemma_div_is_ordered_by_denominator(len, 1, p);
        }
        assert(q <= len) by {
            lemma_div_is_ordered_by_denominator(len, 1, p);
        }
        assert(0 <= q <= i64::MAX as int);
        assert((q as i64) as int == q);
        lemma_update_product(s, j, q as i64);
        lemma_fundamental_div_mod(len, p);
        assert(p * q == len);
        assert(known_product(s) * (q as i64) as int == len) by {
            lemma_mul_is_commutative(p, q);
        }
    }
}

/// A shape with no wildcard entry at all.
proof fn lemma_wildcard_present_contra(s: Seq<i64>)
    requires
        wildcard_count(s) == 0,
    ensures
        forall|i: int| 0 <= i < s.len() ==> s[i] != -1,
{
    assert forall|i: int| 0 <= i < s.len() implies s[i] != -1 by {
        if s[i] == -1 {
            lemma_wildcard_present(s, i);
        }
    }
}

/// A scan of a valid shape with at most one wildcard reports no error.
pub proof fn lemma_scan_error_none(s: Seq<i64>, seen_wildcard: bool)
    requires
        all_dims_valid(s),
        wildcard_count(s) + (if seen_wildcard { 1int } else { 0int }) <= 1,
    ensures
        spec_scan_error(s, seen_wildcard) == None::<TensorError>,
    decreases s.len(),
{
    if s.len() > 0 {
        lemma_wildcard_count_drop_first(s);
        assert(forall|i: int| 0 <= i < s.drop_first().len() ==> s.drop_first()[i] == s[i + 1]);
        if s[0] == -1 {
            lemma_scan_error_none(s.drop_first(), true);
        } else {
            lemma_scan_error_none(s.drop_first(), seen_wildcard);
        }
    }
}

/// Resolves an optional shape specification against a flat data length.
///
/// Without a shape the data is a single flat dimension, `[data_len]`. With a
/// shape, the known dimensions are copied verbatim and a single `-1` wildcard
/// is replaced by `data_len` divided by their product; a second wildcard, an
/// entry below `-1`, indivisible data or a plain length mismatch each fail
/// with the error of [`spec_resolve_error`].
///
/// The requirements only keep the running product representable and exclude
/// the shapes that pair a wildcard with a zero dimension, for which no
/// quotient is defined.
pub fn resolve_shape(shape: Option<Vec<i64>>, data_len: usize) -> (r: Result<
    Vec<i64>,
    TensorError,
>)
    requires
        data_len as int <= i64::MAX as int,
        shape matches Some(s) ==> prefix_products_fit(s@),
        shape matches Some(s) ==> wildcard_product_nonzero(s@),
    ensures
        shape is None ==> (r matches Ok(v) && v@ == seq![data_len as i64]),
        shape matches Some(s) ==> (r is Ok <==> shape_ok(s@, data_len as int)),
        shape matches Some(s) ==> r matches Ok(v) ==> v@ == spec_resolved(s@, data_len as int),
        shape matches Some(s) ==> r matches Err(e) ==> e == spec_resolve_error(s@, data_len),
{
    let shape_vec = if let Some(shape_vec) = shape {
        shape_vec
    } else {
        let mut flat: Vec<i64> = Vec::new();
        flat.push(data_len as i64);
        proof {
            assert(flat@ =~= seq![data_len as i64]);
        }
        return Ok(flat);
    };
    let ghost s = shape_vec@;
    let n = shape_vec.len();
    let mut inferred: Vec<i64> = Vec::new();
    let mut product: i64 = 1;
    let mut unknown_dim_idx: Option<usize> = None;
    let mut i: usize = 0;

    proof {
        assert(s.take(0) =~= Seq::<i64>::empty());
        assert(s.skip(0) =~= s);
    }

    while i < n
        invariant
            shape == Some(shape_vec),
            n == s.len(),
            i <= n,
            shape_vec@ == s,
            inferred@.len() == i,
            forall|k: int| 0 <= k < i ==> s[k] >= -1,
            product as int == known_product(s.take(i as int)),
            product >= 0,
            prefix_products_fit(s),
            wildcard_product_nonzero(s),
            data_len as int <= i64::MAX as int,
            match unknown_dim_idx {
                None => wildcard_count(s.take(i as int)) == 0 && (forall|k: int|
                    0 <= k < i ==> inferred@[k] == s[k]),
                Some(j) => j < i && s[j as int] == -1 && wildcard_count(s.take(i as int)) == 1
                    && inferred@[j as int] == 1 && (forall|k: int|
                    0 <= k < i && k != j ==> inferred@[k] == s[k]),
            },
            spec_scan_error(s, false) == spec_scan_error(
                s.skip(i as int),
                unknown_dim_idx is Some,
            ),
        decreases n - i,
    {
        let dim = shape_vec[i];
        proof {
            assert(s.skip(i as int)[0] == s[i as int]);
            assert(s.skip(i as int).drop_first() =~= s.skip(i as int + 1));
            assert(s.take(i as int + 1).drop_last() =~= s.take(i as int));
            assert(s.take(i as int + 1).last() == s[i as int]);
        }
        if dim == -1 {
            if let Some(j) = unknown_dim_idx {
                proof {
                    lemma_two_wildcards(s, j as int, i as int);
                }
                return Err(TensorError::MultipleWildcards);
            }
            unknown_dim_idx = Some(i);
            inferred.push(1);
        } else if dim < -1 {
            proof {
                assert(!all_dims_valid(s)) by {
                    assert(s[i as int] < -1);
                }
            }
            return Err(TensorError::InvalidDimension(dim));
        } else {
            inferred.push(dim);
            proof {
                assert(known_product(s.take(i as int + 1)) == product as int * dim as int);
                assert(known_product(s.take(i as int + 1)) <= i64::MAX as int);
                lemma_mul_nonnegative(product as int, dim as int);
            }
            product = product * dim;
        }
        i = i + 1;
    }
    proof {
        assert(s.take(n as int) =~= s);
        assert(s.skip(n as int) =~= Seq::<i64>::empty());
    }
    if let Some(idx) = unknown_dim_idx {
        proof {
            lemma_known_product_nonneg(s);
            assert(known_product(s) != 0);
            assert(product > 0);
        }
        let len_i64 = data_len as i64;
        if len_i64 % product != 0 {
            return Err(TensorError::IndivisibleRemainder(data_len, product));
        }
        let quotient = len_i64 / product;
        inferred[idx] = quotient;
        proof {
            let len = data_len as int;
            let p = known_product(s);
            lemma_div_is_ordered_by_denominator(len, 1, p);
            assert(0 <= len / p <= len);
            assert((len / p) as i64 == quotient);
            assert(0 <= idx < s.len() && s[idx as int] == -1);
            let c = wildcard_index(s);
            assert(0 <= c < s.len() && s[c] == -1);
            lemma_wildcard_unique(s, c, idx as int);
            assert(inferred@ =~= s.update(idx as int, quotient));
        }
        Ok(inferred)
    } else {
        if product != data_len as i64 {
            return Err(TensorError::ShapeDataMismatch(product, data_len));
        }
        proof {
            assert(inferred@ =~= s);
        }
        Ok(inferred)
    }
}

/// A scan that has already passed a wildcard, and is owed a second one before
/// any invalid entry, stops at that second wildcard.
proof fn lemma_scan_second_wildcard(s: Seq<i64>, seen_wildcard: bool)
    requires
        wildcard_count(s) + (if seen_wildcard { 1int } else { 0int }) >= 2,
        forall|i: int|
            0 <= i < s.len() && s[i] < -1 ==> wildcard_count(s.take(i)) + (if seen_wildcard {
                1int
            } else {
                0int
            }) >= 2,
    ensures
        spec_scan_error(s, seen_wildcard) == Some(TensorError::MultipleWildcards),
    decreases s.len(),
{
    let bonus: int = if seen_wildcard {
        1int
    } else {
        0int
    };
    if s.len() == 0 {
        assert(false);
    } else if s[0] == -1 {
        if !seen_wildcard {
            lemma_wildcard_count_drop_first(s);
            assert forall|i: int|
                0 <= i < s.drop_first().len() && s.drop_first()[i] < -1 implies wildcard_count(
                s.drop_first().take(i),
            ) + 1int >= 2 by {
                assert(s.drop_first()[i] == s[i + 1]);
                assert(s.take(i + 1).drop_first() =~= s.drop_first().take(i));
                assert(s.take(i + 1)[0] == -1);
                lemma_wildcard_count_drop_first(s.take(i + 1));
            }
            lemma_scan_second_wildcard(s.drop_first(), true);
        }
    } else if s[0] < -1 {
        assert(s.take(0) =~= Seq::<i64>::empty());
        assert(wildcard_count(Seq::<i64>::empty()) == 0);
        assert(false);
    } else {
        lemma_wildcard_count_drop_first(s);
        assert forall|i: int|
            0 <= i < s.drop_first().len() && s.drop_first()[i] < -1 implies wildcard_count(
            s.drop_first().take(i),
        ) + bonus >= 2 by {
            assert(s.drop_first()[i] == s[i + 1]);
            assert(s.take(i + 1).drop_first() =~= s.drop_first().take(i));
            assert(s.take(i + 1)[0] == s[0]);
            lemma_wildcard_count_drop_first(s.take(i + 1));
        }
        lemma_scan_second_wildcard(s.drop_first(), seen_wildcard);
    }
}

/// A shape with two or more wildcards never resolves, whatever the data
/// length and whatever its other entries hold.
pub proof fn lemma_multiple_wildcards_never_resolve(s: Seq<i64>, len: int)
    requires
        wildcard_count(s) >= 2,
    ensures
        !shape_ok(s, len),
{
}

/// A shape with two or more wildcards, none of them preceded by an invalid
/// entry, fails with the multiple-wildcard error, whatever the data length.
/// (An entry below `-1` standing before the second wildcard is reported
/// first instead.)
pub proof fn lemma_multiple_wildcards_error(s: Seq<i64>, len: usize)
    requires
        wildcard_count(s) >= 2,
        forall|i: int| 0 <= i < s.len() && s[i] < -1 ==> wildcard_count(#[trigger] s.take(i)) >= 2,
    ensures
        !shape_ok(s, len as int),
        spec_resolve_error(s, len) == TensorError::MultipleWildcards,
{
    lemma_scan_second_wildcard(s, false);
}

/// A shape with exactly one wildcard and otherwise valid entries resolves
/// exactly when the data length is divisible by the product of the known
/// dimensions; the wildcard becomes the quotient, and indivisible data is
/// reported with both the length and the product.
pub proof fn lemma_single_wildcard_resolution(s: Seq<i64>, len: usize)
    requires
        wildcard_count(s) == 1,
        all_dims_valid(s),
        known_product(s) != 0,
    ensures
        shape_ok(s, len as int) <==> len as int % known_product(s) == 0,
        len as int % known_product(s) == 0 ==> spec_resolved(s, len as int) == s.update(
            wildcard_index(s),
            ((len as int) / known_product(s)) as i64,
        ),
        len as int % known_product(s) != 0 ==> spec_resolve_error(s, len)
            == TensorError::IndivisibleRemainder(len, known_product(s) as i64),
{
    lemma_scan_error_none(s, false);
}

/// A fully specified shape (no wildcard, only dimension sizes) resolves to
/// itself exactly when its product is the data length, and otherwise fails
/// with both the product and the length.
pub proof fn lemma_fully_specified(s: Seq<i64>, len: usize)
    requires
        forall|i: int| 0 <= i < s.len() ==> s[i] >= 0,
    ensures
        shape_ok(s, len as int) <==> known_product(s) == len as int,
        known_product(s) == len as int ==> spec_resolved(s, len as int) == s,
        known_product(s) != len as int ==> spec_resolve_error(s, len)
            == TensorError::ShapeDataMismatch(known_product(s) as i64, len),
{
    lemma_no_wildcard(s);
    lemma_scan_error_none(s, false);
}

} // verus!
