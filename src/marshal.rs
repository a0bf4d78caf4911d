use vstd::prelude::*;

verus! {

/// Alternates items of `a` and `b`, starting with `a`; once either runs out,
/// the rest of the other follows.
pub open spec fn alternate<T>(a: Seq<T>, b: Seq<T>) -> Seq<T>
    decreases a.len() + b.len(),
{
    if a.len() == 0 {
        b
    } else {
        seq![a[0]] + alternate(b, a.drop_first())
    }
}

/// Complex values, each an `(re, im)` pair, laid out as the engine reads them:
/// the real part of element `k` at `2k` and its imaginary part at `2k + 1`.
pub open spec fn interleaved<T>(z: Seq<(T, T)>) -> Seq<T> {
    Seq::new(2 * z.len(), |i: int| if i % 2 == 0 { z[i / 2].0 } else { z[i / 2].1 })
}

/// Consecutive `(re, im)` pairs read back from an interleaved buffer.
pub open spec fn paired<T>(s: Seq<T>) -> Seq<(T, T)> {
    Seq::new(s.len() / 2, |k: int| (s[2 * k], s[2 * k + 1]))
}

/// Relies on itertools::interleave: it yields from its two iterators in
/// turn, first from the first, and when one is exhausted yields the rest of
/// the other.
#[verifier::external_body]
fn interleave_parts<T: Copy>(first: &Vec<T>, second: &Vec<T>) -> (r: Vec<T>)
    ensures
        r@ == alternate(first@, second@),
{
    itertools::interleave(first.iter().copied(), second.iter().copied()).collect()
}

proof fn lemma_alternate_equal_len<T>(a: Seq<T>, b: Seq<T>)
    requires
        a.len() == b.len(),
    ensures
        alternate(a, b).len() == 2 * a.len(),
        forall|k: int| 0 <= k < a.len() ==> #[trigger] alternate(a, b)[2 * k] == a[k],
        forall|k: int| 0 <= k < a.len() ==> #[trigger] alternate(a, b)[2 * k + 1] == b[k],
    decreases a.len(),
{
    if a.len() > 0 {
        let a1 = a.drop_first();
        let b1 = b.drop_first();
        lemma_alternate_equal_len(a1, b1);
        assert(alternate(b, a1) == seq![b[0]] + alternate(a1, b1));
        let rest = alternate(a1, b1);
        assert(alternate(a, b) == seq![a[0], b[0]] + rest);
        assert forall|k: int| 0 <= k < a.len() implies #[trigger] alternate(a, b)[2 * k] == a[k] by {
            if k > 0 {
                assert(alternate(a, b)[2 * k] == rest[2 * (k - 1)]);
            }
        }
        assert forall|k: int| 0 <= k < a.len() implies #[trigger] alternate(a, b)[2 * k + 1]
            == b[k] by {
            if k > 0 {
                assert(alternate(a, b)[2 * k + 1] == rest[2 * (k - 1) + 1]);
            }
        }
    }
}

/// Lays complex values out as one real buffer for the engine's complex entry
/// points, real and imaginary parts of each element side by side.
pub fn marshal<T: Copy>(z: &[(T, T)]) -> (r: Vec<T>)
    ensures
        r@ == interleaved(z@),
{
    let mut re: Vec<T> = Vec::new();
    let mut im: Vec<T> = Vec::new();
    let mut k: usize = 0;
    while k < z.len()
        invariant
            k <= z.len(),
            re.len() == k,
            im.len() == k,
            forall|j: int| 0 <= j < k ==> re@[j] == z@[j].0 && im@[j] == z@[j].1,
        decreases z.len() - k,
    {
        let (x, y) = z[k];
        re.push(x);
        im.push(y);
        k += 1;
    }
    let r = interleave_parts(&re, &im);
    proof {
        lemma_alternate_equal_len(re@, im@);
        assert forall|i: int| 0 <= i < r@.len() implies r@[i] == interleaved(z@)[i] by {
            let k = i / 2;
            if i % 2 == 0 {
                assert(i == 2 * k);
            } else {
                assert(i == 2 * k + 1);
            }
        }
        assert(r@ == interleaved(z@));
    }
    r
}

/// Reads an interleaved real buffer back as complex values, one per
/// consecutive `(re, im)` pair, in order.
pub fn unmarshal<T: Copy>(buf: &[T]) -> (r: Vec<(T, T)>)
    requires
        buf@.len() % 2 == 0,
    ensures
        r@ == paired(buf@),
        r@.len() * 2 == buf@.len(),
{
    let mut r: Vec<(T, T)> = Vec::new();
    let half: usize = buf.len() / 2;
    let mut k: usize = 0;
    while k < half
        invariant
            half == buf.len() / 2,
            buf.len() == buf@.len(),
            k <= half,
            r.len() == k,
            forall|j: int| 0 <= j < k ==> r@[j] == (buf@[2 * j], buf@[2 * j + 1]),
        decreases half - k,
    {
        r.push((buf[2 * k], buf[2 * k + 1]));
        k += 1;
    }
    assert(r@ == paired(buf@));
    r
}

/// Marshaling loses nothing and keeps order: reading an interleaved buffer
/// back gives exactly the complex values it was made from.
pub proof fn lemma_round_trip<T>(z: Seq<(T, T)>)
    ensures
        paired(interleaved(z)) == z,
{
    let s = interleaved(z);
    assert forall|k: int| 0 <= k < z.len() implies #[trigger] paired(s)[k] == z[k] by {
        assert((2 * k) % 2 == 0 && (2 * k) / 2 == k);
        assert((2 * k + 1) % 2 == 1 && (2 * k + 1) / 2 == k);
    }
    assert(paired(s) =~= z);
}

/// Every even-length real buffer is the interleaved form of the complex
/// values read back from it.
pub proof fn lemma_unmarshal_marshal<T>(s: Seq<T>)
    requires
        s.len() % 2 == 0,
    ensures
        interleaved(paired(s)) == s,
{
    let z = paired(s);
    assert forall|i: int| 0 <= i < s.len() implies #[trigger] interleaved(z)[i] == s[i] by {
        let k = i / 2;
        if i % 2 == 0 {
            assert(i == 2 * k);
        } else {
            assert(i == 2 * k + 1);
        }
    }
    assert(interleaved(z) =~= s);
}

/// Marshaling stacked right-hand sides is the same as marshaling each one
/// and stacking the results.
pub proof fn lemma_marshal_stacked<T>(a: Seq<(T, T)>, b: Seq<(T, T)>)
    ensures
        interleaved(a + b) == interleaved(a) + interleaved(b),
{
    let l = interleaved(a + b);
    let r = interleaved(a) + interleaved(b);
    assert forall|i: int| 0 <= i < l.len() implies #[trigger] l[i] == r[i] by {
        if i >= 2 * a.len() {
            let j = i - 2 * a.len();
            assert(j / 2 == i / 2 - a.len());
            assert(j % 2 == i % 2);
        }
    }
    assert(l =~= r);
}

} // verus!
