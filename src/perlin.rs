use vstd::prelude::*;
use rand::Rng;

verus! {

/// Number of lattice cells along each axis before the noise repeats.
pub const POINT_COUNT: usize = 256;

/// `s` with the elements at `i` and `j` exchanged.
pub open spec fn swapped(s: Seq<usize>, i: int, j: int) -> Seq<usize> {
    s.update(i, s[j]).update(j, s[i])
}

/// Fisher-Yates shuffle of the first `n` positions of `s`: for `i` from
/// `n - 1` down to `0`, exchange position `i` with position `targets[i]`.
pub open spec fn shuffled(s: Seq<usize>, targets: Seq<usize>, n: nat) -> Seq<usize>
    decreases n,
{
    if n == 0 {
        s
    } else {
        shuffled(swapped(s, n - 1, targets[n - 1] as int), targets, (n - 1) as nat)
    }
}

/// Each `targets[i]` names a position at or below `i`.
pub open spec fn valid_targets(targets: Seq<usize>) -> bool {
    forall|i: int| 0 <= i < targets.len() ==> #[trigger] targets[i] <= i
}

/// `s` is a permutation of `0..n`.
pub open spec fn is_permutation(s: Seq<usize>, n: nat) -> bool {
    &&& s.len() == n
    &&& forall|i: int| 0 <= i < n ==> #[trigger] s[i] < n
    &&& forall|i: int, j: int| 0 <= i < n && 0 <= j < n && i != j ==> s[i] != s[j]
}

/// The sequence `0, 1, ..., n - 1`.
pub open spec fn identity(n: nat) -> Seq<usize> {
    Seq::new(n, |i: int| i as usize)
}

pub proof fn lemma_swapped_keeps_permutation(s: Seq<usize>, n: nat, i: int, j: int)
    requires
        is_permutation(s, n),
        0 <= i < n,
        0 <= j < n,
    ensures
        is_permutation(swapped(s, i, j), n),
{
    let t = swapped(s, i, j);
    assert forall|x: int, y: int| 0 <= x < n && 0 <= y < n && x != y implies t[x] != t[y] by {
        let sx = if x == j { i } else if x == i { j } else { x };
        let sy = if y == j { i } else if y == i { j } else { y };
        assert(t[x] == s[sx]);
        assert(t[y] == s[sy]);
    }
}

pub proof fn lemma_shuffled_keeps_permutation(s: Seq<usize>, targets: Seq<usize>, n: nat)
    requires
        is_permutation(s, s.len()),
        valid_targets(targets),
        n <= targets.len(),
        n <= s.len(),
    ensures
        is_permutation(shuffled(s, targets, n), s.len()),
    decreases n,
{
    if n > 0 {
        let k = n - 1;
        assert(targets[k] <= k);
        lemma_swapped_keeps_permutation(s, s.len(), k, targets[k] as int);
        lemma_shuffled_keeps_permutation(swapped(s, k, targets[k] as int), targets, k as nat);
    }
}

/// Relies on rand::thread_rng and Rng::gen_range: a draw from `0..bound`,
/// which lies below `bound`; gen_range panics on an empty range.
#[verifier::external_body]
fn random_below(bound: usize) -> (r: usize)
    requires
        bound > 0,
    ensures
        r < bound,
{
    rand::thread_rng().gen_range(0..bound)
}

/// Shuffles the first `targets.len()` positions of `p`, exchanging position
/// `i` with `targets[i]` for `i` from the last down to `0`.
pub fn permute_with(p: &mut Vec<usize>, targets: &Vec<usize>)
    requires
        targets.len() <= old(p).len(),
        valid_targets(targets@),
    ensures
        final(p)@ == shuffled(old(p)@, targets@, targets.len() as nat),
{
    let ghost t = targets@;
    let n = targets.len();
    let mut i = n;
    while i > 0
        invariant
            i <= n,
            n == t.len(),
            t == targets@,
            n <= p.len(),
            valid_targets(t),
            shuffled(old(p)@, t, n as nat) == shuffled(p@, t, i as nat),
        decreases i,
    {
        i = i - 1;
        let target = targets[i];
        assert(t[i as int] <= i);
        let a = p[i];
        let b = p[target];
        p.set(i, b);
        p.set(target, a);
    }
}

/// Shuffles the first `n` positions of `p` at random (Fisher-Yates): the
/// result is `p` shuffled by some valid choice of targets.
pub fn permute(p: &mut Vec<usize>, n: usize)
    requires
        n <= old(p).len(),
    ensures
        exists|t: Seq<usize>|
            t.len() == n && valid_targets(t) && final(p)@ == #[trigger] shuffled(old(p)@, t, n as nat),
{
    let mut targets: Vec<usize> = Vec::new();
    let mut i: usize = 0;
    while i < n
        invariant
            i <= n,
            targets.len() == i,
            valid_targets(targets@),
        decreases n - i,
    {
        targets.push(0);
        i = i + 1;
    }
    // Draw from the last position down, as the shuffle visits them.
    let mut k = n;
    while k > 0
        invariant
            k <= n,
            targets.len() == n,
            valid_targets(targets@),
        decreases k,
    {
        k = k - 1;
        let target = random_below(k + 1);
        targets.set(k, target);
    }
    permute_with(p, &targets);
}

/// A random permutation of `0..POINT_COUNT`.
pub fn perlin_generate_perm() -> (r: Vec<usize>)
    ensures
        is_permutation(r@, POINT_COUNT as nat),
        exists|t: Seq<usize>|
            t.len() == POINT_COUNT && valid_targets(t) && r@ == #[trigger] shuffled(
                identity(POINT_COUNT as nat),
                t,
                POINT_COUNT as nat,
            ),
{
    let mut p: Vec<usize> = Vec::with_capacity(POINT_COUNT);
    let mut i: usize = 0;
    while i < POINT_COUNT
        invariant
            i <= POINT_COUNT,
            p@ == identity(i as nat),
        decreases POINT_COUNT - i,
    {
        p.push(i);
        i = i + 1;
        assert(p@ =~= identity(i as nat));
    }
    let ghost start = p@;
    assert(is_permutation(start, POINT_COUNT as nat));
    permute(&mut p, POINT_COUNT);
    proof {
        let t = choose|t: Seq<usize>|
            t.len() == POINT_COUNT && valid_targets(t) && p@ == #[trigger] shuffled(
                start,
                t,
                POINT_COUNT as nat,
            );
        lemma_shuffled_keeps_permutation(start, t, POINT_COUNT as nat);
    }
    p
}

/// Whether `s` is a permutation of `0..POINT_COUNT`.
pub fn check_permutation(s: &Vec<usize>) -> (r: bool)
    ensures
        r == is_permutation(s@, POINT_COUNT as nat),
{
    if s.len() != POINT_COUNT {
        return false;
    }
    let mut seen: Vec<bool> = Vec::new();
    let mut v: usize = 0;
    while v < POINT_COUNT
        invariant
            v <= POINT_COUNT,
            seen.len() == v,
            forall|x: int| 0 <= x < v ==> !seen@[x],
        decreases POINT_COUNT - v,
    {
        seen.push(false);
        v = v + 1;
    }
    let mut i: usize = 0;
    while i < POINT_COUNT
        invariant
            i <= POINT_COUNT,
            s.len() == POINT_COUNT,
            seen.len() == POINT_COUNT,
            forall|a: int| 0 <= a < i ==> #[trigger] s@[a] < POINT_COUNT,
            forall|a: int, b: int| 0 <= a < i && 0 <= b < i && a != b ==> s@[a] != s@[b],
            forall|x: int|
                0 <= x < POINT_COUNT ==> (#[trigger] seen@[x] <==> exists|a: int|
                    0 <= a < i && s@[a] == x),
        decreases POINT_COUNT - i,
    {
        let x = s[i];
        if x >= POINT_COUNT {
            return false;
        }
        if seen[x] {
            let ghost a = choose|a: int| 0 <= a < i && s@[a] == x;
            assert(s@[a] == s@[i as int]);
            return false;
        }
        seen.set(x, true);
        i = i + 1;
        assert forall|y: int|
            0 <= y < POINT_COUNT implies (#[trigger] seen@[y] <==> exists|a: int|
                0 <= a < i && s@[a] == y) by {
            if y == x {
                assert(s@[i - 1] == y);
            }
        }
    }
    true
}

/// The three permutation tables that hash an integer lattice point of Perlin
/// noise to one of `POINT_COUNT` gradient slots.
#[derive(Clone)]
pub struct PerlinLattice {
    perm_x: Vec<usize>,
    perm_y: Vec<usize>,
    perm_z: Vec<usize>,
}

impl PerlinLattice {
    pub closed spec fn perm_x_view(&self) -> Seq<usize> {
        self.perm_x@
    }

    pub closed spec fn perm_y_view(&self) -> Seq<usize> {
        self.perm_y@
    }

    pub closed spec fn perm_z_view(&self) -> Seq<usize> {
        self.perm_z@
    }

    /// Each table is a permutation of `0..POINT_COUNT`.
    pub open spec fn wf(&self) -> bool {
        &&& is_permutation(self.perm_x_view(), POINT_COUNT as nat)
        &&& is_permutation(self.perm_y_view(), POINT_COUNT as nat)
        &&& is_permutation(self.perm_z_view(), POINT_COUNT as nat)
    }

    /// The slot of lattice point `(i, j, k)`; each coordinate wraps modulo
    /// `POINT_COUNT`.
    pub open spec fn slot(&self, i: usize, j: usize, k: usize) -> usize {
        self.perm_x_view()[(i % 256) as int] ^ self.perm_y_view()[(j % 256) as int]
            ^ self.perm_z_view()[(k % 256) as int]
    }

    /// Three fresh random tables.
    pub fn new() -> (r: Self)
        ensures
            r.wf(),
    {
        Self {
            perm_x: perlin_generate_perm(),
            perm_y: perlin_generate_perm(),
            perm_z: perlin_generate_perm(),
        }
    }

    /// Builds the lattice from given tables; `None` unless each is a
    /// permutation of `0..POINT_COUNT`.
    pub fn from_tables(perm_x: Vec<usize>, perm_y: Vec<usize>, perm_z: Vec<usize>) -> (r: Option<
        Self,
    >)
        ensures
            r is Some <==> (is_permutation(perm_x@, POINT_COUNT as nat) && is_permutation(
                perm_y@,
                POINT_COUNT as nat,
            ) && is_permutation(perm_z@, POINT_COUNT as nat)),
            r matches Some(l) ==> l.perm_x_view() == perm_x@ && l.perm_y_view() == perm_y@
                && l.perm_z_view() == perm_z@,
    {
        if check_permutation(&perm_x) && check_permutation(&perm_y) && check_permutation(&perm_z) {
            Some(Self { perm_x, perm_y, perm_z })
        } else {
            None
        }
    }

    /// The gradient slot of lattice point `(i, j, k)`.
    pub fn corner(&self, i: usize, j: usize, k: usize) -> (r: usize)
        requires
            self.wf(),
        ensures
            r == self.slot(i, j, k),
            r < POINT_COUNT,
    {
        assert(i & 255 == i % 256) by (bit_vector);
        assert(j & 255 == j % 256) by (bit_vector);
        assert(k & 255 == k % 256) by (bit_vector);
        let a = self.perm_x[i & 255];
        let b = self.perm_y[j & 255];
        let c = self.perm_z[k & 255];
        assert(a ^ b ^ c < 256) by (bit_vector)
            requires
                a < 256,
                b < 256,
                c < 256,
        ;
        a ^ b ^ c
    }
}

} // verus!
