//! The static split of requested projects between concurrent workers.

use vstd::prelude::*;
use vstd::arithmetic::div_mod::lemma_fundamental_div_mod_converse;

verus! {

/// Number of workers that install requested projects side by side.
pub const WORKER_COUNT: usize = 5;

/// The items of `s` at positions `w`, `w + n`, `w + 2n`, ...
pub open spec fn share<T>(s: Seq<T>, w: int, n: int) -> Seq<T>
    decreases if w < s.len() {
        s.len() - w
    } else {
        0
    },
{
    if n <= 0 || w < 0 || w >= s.len() {
        Seq::empty()
    } else {
        seq![s[w]] + share(s, w + n, n)
    }
}

/// Splits `mods` round-robin between `workers` workers: worker `w` gets the
/// items at positions `w`, `w + workers`, `w + 2 * workers`, ... in order.
pub fn partition(mods: &Vec<String>, workers: usize) -> (r: Vec<Vec<String>>)
    requires
        workers > 0,
    ensures
        r@.len() == workers,
        forall|w: int| 0 <= w < workers ==> (#[trigger] r@[w])@ == share(mods@, w, workers as int),
{
    let len = mods.len();
    let mut r: Vec<Vec<String>> = Vec::new();
    let mut w: usize = 0;
    while w < workers
        invariant
            len == mods@.len(),
            w <= workers,
            r@.len() == w,
            forall|k: int| 0 <= k < w ==> (#[trigger] r@[k])@ == share(mods@, k, workers as int),
        decreases workers - w,
    {
        let mut part: Vec<String> = Vec::new();
        let mut i: usize = w;
        while i < len
            invariant
                len == mods@.len(),
                workers > 0,
                part@ + share(mods@, i as int, workers as int) == share(mods@, w as int, workers as int),
            decreases len - i,
        {
            let ghost before = part@;
            part.push(mods[i].clone());
            assert(share(mods@, i as int, workers as int) == seq![mods@[i as int]] + share(mods@, i + workers, workers as int));
            assert(part@ + share(mods@, i + workers, workers as int) =~= before + share(mods@, i as int, workers as int));
            if len - i <= workers {
                assert(share(mods@, i + workers, workers as int) =~= Seq::<String>::empty());
                assert(share(mods@, len as int, workers as int) =~= Seq::<String>::empty());
                i = len;
            } else {
                i = i + workers;
            }
        }
        assert(share(mods@, i as int, workers as int) =~= Seq::<String>::empty());
        assert(part@ =~= share(mods@, w as int, workers as int));
        r.push(part);
        w = w + 1;
    }
    r
}

proof fn lemma_share_index<T>(s: Seq<T>, w: int, n: int, j: int)
    requires
        n > 0,
        w >= 0,
        j >= 0,
    ensures
        j < share(s, w, n).len() <==> w + j * n < s.len(),
        w + j * n < s.len() ==> share(s, w, n)[j] == s[w + j * n],
    decreases j,
{
    reveal_with_fuel(share, 2);
    assert(j * n >= 0) by (nonlinear_arith)
        requires
            j >= 0,
            n > 0,
    ;
    if w < s.len() {
        let rest = share(s, w + n, n);
        assert(share(s, w, n) == seq![s[w]] + rest);
        assert(share(s, w, n).len() == rest.len() + 1);
        if j > 0 {
            assert((j - 1) * n + n == j * n) by (nonlinear_arith);
            lemma_share_index(s, w + n, n, j - 1);
            if j < share(s, w, n).len() {
                assert(share(s, w, n)[j] == rest[j - 1]);
            }
        } else {
            assert(j * n == 0) by (nonlinear_arith)
                requires
                    j == 0,
            ;
            assert(share(s, w, n)[0] == s[w]);
        }
    } else {
        assert(share(s, w, n).len() == 0);
    }
}

/// Every requested position `i` lands with worker `i % n`, as its
/// `(i / n)`-th item, and in no other slot of any worker.
pub proof fn lemma_partition_exact<T>(s: Seq<T>, n: int, i: int)
    requires
        n > 0,
        0 <= i < s.len(),
    ensures
        i / n < share(s, i % n, n).len(),
        share(s, i % n, n)[i / n] == s[i],
        forall|w: int, j: int|
            0 <= w < n && 0 <= j < share(s, w, n).len() ==> share(s, w, n)[j] == s[w + j * n] && (w + j
                * n == i <==> w == i % n && j == i / n),
{
    vstd::arithmetic::div_mod::lemma_fundamental_div_mod(i, n);
    assert(i == (i / n) * n + i % n) by (nonlinear_arith)
        requires
            i == n * (i / n) + i % n,
    ;
    assert(i / n >= 0) by {
        vstd::arithmetic::div_mod::lemma_div_pos_is_pos(i, n);
    }
    assert((i / n) * n == i / n * n);
    assert(i % n + (i / n) * n == i);
    lemma_share_index(s, i % n, n, i / n);
    assert forall|w: int, j: int|
        0 <= w < n && 0 <= j < share(s, w, n).len() implies share(s, w, n)[j] == s[w + j * n] && (w
            + j * n == i <==> w == i % n && j == i / n) by {
        lemma_share_index(s, w, n, j);
        if w + j * n == i {
            assert(i == j * n + w) by (nonlinear_arith)
                requires
                    w + j * n == i,
            ;
            lemma_fundamental_div_mod_converse(i, n, j, w);
        }
    }
}

} // verus!
