use vstd::prelude::*;

use crate::text::chars_of;

verus! {

pub open spec fn min3(x: nat, y: nat, z: nat) -> nat {
    if x <= y && x <= z {
        x
    } else if y <= z {
        y
    } else {
        z
    }
}

/// Levenshtein distance: the least number of single-character insertions,
/// deletions and substitutions that turn `a` into `b`.
pub open spec fn edit_distance(a: Seq<char>, b: Seq<char>) -> nat
    decreases a.len() + b.len(),
{
    if a.len() == 0 {
        b.len()
    } else if b.len() == 0 {
        a.len()
    } else {
        let cost: nat = if a.last() == b.last() {
            0
        } else {
            1
        };
        min3(
            edit_distance(a.drop_last(), b) + 1,
            edit_distance(a, b.drop_last()) + 1,
            edit_distance(a.drop_last(), b.drop_last()) + cost,
        )
    }
}

/// The distance never exceeds the longer of the two lengths.
pub proof fn lemma_edit_distance_bound(a: Seq<char>, b: Seq<char>)
    ensures
        edit_distance(a, b) <= if a.len() >= b.len() {
            a.len()
        } else {
            b.len()
        },
    decreases a.len() + b.len(),
{
    if a.len() > 0 && b.len() > 0 {
        lemma_edit_distance_bound(a.drop_last(), b.drop_last());
    }
}

/// Row `i` of the distance table between `a` and `b`.
spec fn is_row(row: Seq<usize>, a: Seq<char>, b: Seq<char>, i: int) -> bool {
    &&& row.len() == b.len() + 1
    &&& forall|j: int| 0 <= j <= b.len() ==> row[j] == edit_distance(a.take(i), b.take(j))
}

/// Classic dynamic-programming Levenshtein distance over characters.
///
/// Fills a `(len(s1) + 1) x (len(s2) + 1)` table, in O(len(s1) * len(s2))
/// time and space.
pub fn levenshtein_distance(s1: &str, s2: &str) -> (r: usize)
    ensures
        r == edit_distance(s1@, s2@),
{
    let a = chars_of(s1);
    let b = chars_of(s2);
    let n = a.len();
    let m = b.len();

    let mut matrix: Vec<Vec<usize>> = Vec::new();
    let mut first: Vec<usize> = Vec::new();
    let mut j: usize = 0;
    while j < m
        invariant
            j <= m,
            m == b@.len(),
            first@.len() == j,
            forall|k: int| 0 <= k < j ==> first@[k] == k,
        decreases m - j,
    {
        first.push(j);
        j = j + 1;
    }
    first.push(m);
    assert forall|k: int| 0 <= k <= m implies first@[k] == edit_distance(
        a@.take(0),
        b@.take(k),
    ) by {
        assert(a@.take(0).len() == 0);
    }
    matrix.push(first);

    let mut i: usize = 0;
    while i < n
        invariant
            i <= n,
            n == a@.len(),
            m == b@.len(),
            matrix@.len() == i + 1,
            forall|r: int| 0 <= r <= i ==> is_row(#[trigger] matrix@[r]@, a@, b@, r),
        decreases n - i,
    {
        let prev = &matrix[i];
        let mut cur: Vec<usize> = Vec::new();
        cur.push(i + 1);
        proof {
            assert(b@.take(0).len() == 0);
            assert(a@.take(i + 1).len() == i + 1);
        }
        let mut j: usize = 0;
        while j < m
            invariant
                i < n,
                j <= m,
                n == a@.len(),
                m == b@.len(),
                is_row(prev@, a@, b@, i as int),
                cur@.len() == j + 1,
                forall|k: int|
                    0 <= k <= j ==> cur@[k] == edit_distance(a@.take(i + 1), b@.take(k)),
            decreases m - j,
        {
            let cost: usize = if a[i] == b[j] {
                0
            } else {
                1
            };
            let del = prev[j + 1].saturating_add(1);
            let ins = cur[j].saturating_add(1);
            let sub = prev[j].saturating_add(cost);
            let mut best = del;
            if ins < best {
                best = ins;
            }
            if sub < best {
                best = sub;
            }
            proof {
                let x = a@.take(i + 1);
                let y = b@.take(j + 1);
                assert(x.drop_last() =~= a@.take(i as int));
                assert(y.drop_last() =~= b@.take(j as int));
                assert(x.last() == a@[i as int]);
                assert(y.last() == b@[j as int]);
                lemma_edit_distance_bound(x, y);
            }
            cur.push(best);
            j = j + 1;
        }
        matrix.push(cur);
        i = i + 1;
    }
    proof {
        assert(a@.take(n as int) =~= a@);
        assert(b@.take(m as int) =~= b@);
    }
    matrix[n][m]
}

} // verus!
