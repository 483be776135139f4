use vstd::prelude::*;

verus! {

/// Number of entries in a permutation table.
pub const TABLE_SIZE: usize = 256;

/// The table before shuffling: entry `i` holds `i`.
pub open spec fn identity_table() -> Seq<u8> {
    Seq::new(256, |i: int| i as u8)
}

/// Every value `0..=255` appears exactly once among 256 entries.
pub open spec fn is_permutation(s: Seq<u8>) -> bool {
    &&& s.len() == 256
    &&& forall|i: int, j: int|
        0 <= i < 256 && 0 <= j < 256 && i != j ==> #[trigger] s[i] != #[trigger] s[j]
    &&& forall|v: u8| #[trigger] s.contains(v)
}

/// Draw `i` of a shuffle lies in `[0, 256 - i)`.
pub open spec fn valid_draws(draws: Seq<i32>) -> bool {
    &&& draws.len() == 256
    &&& forall|i: int| 0 <= i < 256 ==> 0 <= #[trigger] draws[i] < 256 - i
}

/// `s` with the entries at `a` and `b` exchanged.
pub open spec fn swap_entries(s: Seq<u8>, a: int, b: int) -> Seq<u8> {
    s.update(a, s[b]).update(b, s[a])
}

/// The identity table after the first `n` Fisher-Yates steps: step `i`
/// exchanges entries `i` and `i + draws[i]`.
pub open spec fn shuffle_prefix(draws: Seq<i32>, n: nat) -> Seq<u8>
    decreases n,
{
    if n == 0 {
        identity_table()
    } else {
        let i = n - 1;
        swap_entries(shuffle_prefix(draws, i as nat), i, i + draws[i])
    }
}

/// The table that a full shuffle driven by `draws` produces.
pub open spec fn shuffled(draws: Seq<i32>) -> Seq<u8> {
    shuffle_prefix(draws, 256)
}

/// Table lookup with the index reduced modulo 256, so that the table repeats
/// with period 256 over all integers.
pub open spec fn lookup(p: Seq<u8>, v: int) -> int {
    p[v % 256] as int
}

proof fn lemma_identity_is_permutation()
    ensures
        is_permutation(identity_table()),
{
    let s = identity_table();
    assert forall|v: u8| #[trigger] s.contains(v) by {
        assert(s[v as int] == v);
    }
}

/// For every sequence of in-bound draws, each prefix of the shuffle, and so
/// the finished table, is a permutation of `0..=255`.
pub proof fn lemma_shuffle_prefix_is_permutation(draws: Seq<i32>, n: nat)
    requires
        valid_draws(draws),
        n <= 256,
    ensures
        is_permutation(shuffle_prefix(draws, n)),
    decreases n,
{
    if n == 0 {
        lemma_identity_is_permutation();
    } else {
        let i = n - 1;
        lemma_shuffle_prefix_is_permutation(draws, i as nat);
        assert(0 <= draws[i] < 256 - i);
        lemma_swap_keeps_permutation(shuffle_prefix(draws, i as nat), i, i + draws[i]);
    }
}

/// A table shuffled by in-bound draws holds each value `0..=255` exactly once.
pub proof fn lemma_shuffled_is_permutation(draws: Seq<i32>)
    requires
        valid_draws(draws),
    ensures
        is_permutation(shuffled(draws)),
{
    lemma_shuffle_prefix_is_permutation(draws, 256);
}

/// The first `n` shuffle steps depend on the first `n` draws alone.
pub proof fn lemma_shuffle_prefix_deterministic(a: Seq<i32>, b: Seq<i32>, n: nat)
    requires
        n <= a.len(),
        n <= b.len(),
        forall|i: int| 0 <= i < n ==> #[trigger] a[i] == b[i],
    ensures
        shuffle_prefix(a, n) == shuffle_prefix(b, n),
    decreases n,
{
    if n > 0 {
        lemma_shuffle_prefix_deterministic(a, b, (n - 1) as nat);
    }
}

/// The table is a function of the draws alone: two sources seeded alike hand
/// out the same draws and so build the same table, entry for entry.
pub proof fn lemma_shuffle_deterministic(a: Seq<i32>, b: Seq<i32>)
    requires
        a.len() == 256,
        b.len() == 256,
        forall|i: int| 0 <= i < 256 ==> #[trigger] a[i] == b[i],
    ensures
        shuffled(a) == shuffled(b),
{
    lemma_shuffle_prefix_deterministic(a, b, 256);
}

proof fn lemma_swap_keeps_permutation(s: Seq<u8>, a: int, b: int)
    requires
        is_permutation(s),
        0 <= a < 256,
        0 <= b < 256,
    ensures
        is_permutation(swap_entries(s, a, b)),
{
    let t = swap_entries(s, a, b);
    assert forall|i: int, j: int| 0 <= i < 256 && 0 <= j < 256 && i != j implies #[trigger] t[i]
        != #[trigger] t[j] by {
        let si = if i == b { a } else if i == a { b } else { i };
        let sj = if j == b { a } else if j == a { b } else { j };
        assert(t[i] == s[si]);
        assert(t[j] == s[sj]);
    }
    assert forall|v: u8| #[trigger] t.contains(v) by {
        assert(s.contains(v));
        let w = choose|w: int| 0 <= w < s.len() && s[w] == v;
        if w == a {
            assert(t[b] == v);
        } else if w == b {
            assert(t[a] == v);
        } else {
            assert(t[w] == v);
        }
    }
}

/// `v mod 256` for an `i32`, as the low byte of its two's-complement form.
pub fn low_byte(v: i32) -> (r: i32)
    ensures
        0 <= r < 256,
        r as int == v as int % 256,
{
    // Shifting by 2^31, a multiple of 256, makes the value non-negative
    // without changing its residue.
    let w: i64 = v as i64 + 0x8000_0000;
    let r = w % 256;
    assert(r as int == v as int % 256) by {
        vstd::arithmetic::div_mod::lemma_mod_multiples_vanish(0x80_0000, v as int, 256);
    }
    r as i32
}

/// The bound handed to the random source for shuffle step `step`.
pub fn shuffle_draw_bound(step: usize) -> (r: i32)
    requires
        step < TABLE_SIZE,
    ensures
        r == 256 - step,
        1 <= r <= 256,
{
    (TABLE_SIZE - step) as i32
}

/// A permutation of `0..=255`, built once by a seeded shuffle and read-only
/// afterwards.
pub struct PermutationTable {
    table: Vec<u8>,
}

impl View for PermutationTable {
    type V = Seq<u8>;

    closed spec fn view(&self) -> Seq<u8> {
        self.table@
    }
}

impl PermutationTable {
    #[verifier::type_invariant]
    spec fn inv(&self) -> bool {
        is_permutation(self.table@)
    }

    /// Shuffles the identity table with the bounded draws of a random source:
    /// step `i` exchanges entries `i` and `i + draws[i]`. Fails exactly when a
    /// draw lies outside its bound or the number of draws is not 256.
    pub fn from_draws(draws: &Vec<i32>) -> (r: Option<PermutationTable>)
        ensures
            r.is_some() <==> valid_draws(draws@),
            r matches Some(t) ==> t@ == shuffled(draws@) && is_permutation(t@),
    {
        if draws.len() != TABLE_SIZE {
            return None;
        }
        let mut i: usize = 0;
        while i < TABLE_SIZE
            invariant
                draws@.len() == 256,
                i <= 256,
                forall|k: int| 0 <= k < i ==> 0 <= #[trigger] draws@[k] < 256 - k,
            decreases 256 - i,
        {
            let d = draws[i];
            if d < 0 || d >= shuffle_draw_bound(i) {
                return None;
            }
            i = i + 1;
        }
        let mut table: Vec<u8> = Vec::new();
        let mut i: usize = 0;
        while i < TABLE_SIZE
            invariant
                i <= 256,
                table@ == identity_table().subrange(0, i as int),
            decreases 256 - i,
        {
            table.push(i as u8);
            i = i + 1;
            assert(table@ =~= identity_table().subrange(0, i as int));
        }
        assert(table@ =~= identity_table());
        let mut i: usize = 0;
        while i < TABLE_SIZE
            invariant
                valid_draws(draws@),
                i <= 256,
                table@.len() == 256,
                table@ == shuffle_prefix(draws@, i as nat),
            decreases 256 - i,
        {
            let j = i + draws[i] as usize;
            let a = table[i];
            let b = table[j];
            table.set(i, b);
            table.set(j, a);
            assert(table@ =~= swap_entries(shuffle_prefix(draws@, i as nat), i as int, j as int));
            i = i + 1;
        }
        proof {
            lemma_shuffled_is_permutation(draws@);
        }
        Some(PermutationTable { table })
    }

    /// The entry at `input mod 256`.
    pub fn map(&self, input: i32) -> (r: i32)
        ensures
            r == lookup(self@, input as int),
            0 <= r < 256,
    {
        proof {
            use_type_invariant(self);
        }
        let idx = low_byte(input);
        self.table[idx as usize] as i32
    }

    /// The 256 entries in order.
    pub fn entries(&self) -> (r: Vec<u8>)
        ensures
            r@ == self@,
    {
        self.table.clone()
    }
}

} // verus!
