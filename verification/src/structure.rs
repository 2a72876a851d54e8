//! What holds of an arena that the engine has analysed in full: its chunks lay
//! out its tokens, and its links form a forest.

use super::sys::cabocha_tree_t;
use vstd::prelude::*;

verus! {

impl cabocha_tree_t {
    /// Index of the first token of chunk `k`.
    pub open spec fn chunk_first(&self, k: int) -> int {
        self.chunks@[k].token_pos as int
    }

    /// Index behind the last token of chunk `k`.
    pub open spec fn chunk_end(&self, k: int) -> int {
        self.chunks@[k].token_pos + self.chunks@[k].token_size
    }

    /// Whether `k` is a chunk whose range of tokens holds the index `i`.
    pub open spec fn chunk_holds(&self, k: int, i: int) -> bool {
        &&& 0 <= k < self.chunks@.len()
        &&& self.chunk_first(k) <= i < self.chunk_end(k)
    }

    /// Whether chunking is complete. The ranges of the chunks, taken in the
    /// order of the chunks, follow one another from the first token to the
    /// last: the first range starts at token 0, each later one starts where
    /// the one before it ends, and the last ends behind the last token. And
    /// every token names a chunk whose range holds it.
    pub open spec fn fully_chunked(&self) -> bool {
        let count = self.chunks@.len() as int;
        &&& count == 0 ==> self.tokens@.len() == 0
        &&& count > 0 ==> self.chunk_first(0) == 0 && self.chunk_end(count - 1)
            == self.tokens@.len()
        &&& forall|k: int|
            0 <= k < count - 1 ==> self.chunk_end(k) == #[trigger] self.chunk_first(k + 1)
        &&& forall|i: int|
            0 <= i < self.tokens@.len() ==> match (#[trigger] self.tokens@[i]).chunk {
                Some(k) => self.chunk_holds(k as int, i),
                None => false,
            }
    }

    /// The chunk that is reached from chunk `c` over `steps` links: `c` itself
    /// for no step, and -1 once the walk has passed a chunk without governor
    /// or has left the arena.
    pub open spec fn governor(&self, c: int, steps: nat) -> int
        decreases steps,
    {
        if steps == 0 {
            c
        } else {
            let before = self.governor(c, (steps - 1) as nat);
            if 0 <= before < self.chunks@.len() {
                self.chunks@[before].link as int
            } else {
                -1
            }
        }
    }

    /// Whether the links form a forest: every link is -1 or the index of a
    /// chunk, and no walk of one or more links leads from a chunk back to it.
    pub open spec fn links_form_forest(&self) -> bool {
        &&& forall|c: int|
            0 <= c < self.chunks@.len() ==> {
                let link = (#[trigger] self.chunks@[c]).link;
                link == -1 || 0 <= link < self.chunks@.len()
            }
        &&& forall|c: int, steps: nat|
            0 <= c < self.chunks@.len() && steps >= 1 ==> #[trigger] self.governor(c, steps) != c
    }

    /// Chunks partition tokens. In an arena whose chunking is complete, no
    /// range of a chunk reaches behind the last token, and every token lies in
    /// the range of exactly one chunk: the chunk that the token names.
    pub proof fn lemma_chunks_partition_tokens(&self, i: int)
        requires
            self.fully_chunked(),
            0 <= i < self.tokens@.len(),
        ensures
            forall|k: int|
                0 <= k < self.chunks@.len() ==> #[trigger] self.chunk_end(k) <= self.tokens@.len(),
            exists|k: int|
                #![trigger self.chunk_holds(k, i)]
                {
                    &&& self.chunk_holds(k, i)
                    &&& self.tokens@[i].chunk == Some(k as usize)
                    &&& forall|j: int| self.chunk_holds(j, i) ==> j == k
                },
    {
        let count = self.chunks@.len() as int;
        let k = self.tokens@[i].chunk->Some_0 as int;
        assert(self.chunk_holds(k, i));
        assert forall|j: int| self.chunk_holds(j, i) implies j == k by {
            if j < k {
                self.lemma_ranges_in_order(j, k);
            }
            if k < j {
                self.lemma_ranges_in_order(k, j);
            }
        }
        assert forall|j: int| 0 <= j < count implies #[trigger] self.chunk_end(j)
            <= self.tokens@.len() by {
            if j < count - 1 {
                self.lemma_ranges_in_order(j, count - 1);
            }
        }
    }

    /// In an arena whose chunking is complete, an earlier chunk ends before a
    /// later one starts, or where it starts.
    proof fn lemma_ranges_in_order(&self, a: int, b: int)
        requires
            self.fully_chunked(),
            0 <= a < b < self.chunks@.len(),
        ensures
            self.chunk_end(a) <= self.chunk_first(b),
            self.chunk_end(a) <= self.chunk_end(b),
        decreases b - a,
    {
        assert(self.chunk_end(b - 1) == self.chunk_first(b - 1 + 1));
        if a < b - 1 {
            self.lemma_ranges_in_order(a, b - 1);
        }
    }

    /// Links lead to a root. In an arena whose links form a forest, the walk
    /// along the links from any chunk reaches a chunk without governor, one
    /// whose link is -1, in fewer steps than there are chunks.
    pub proof fn lemma_links_reach_root(&self, c: int)
        requires
            self.links_form_forest(),
            0 <= c < self.chunks@.len(),
        ensures
            exists|steps: nat|
                #![trigger self.governor(c, steps)]
                {
                    &&& steps < self.chunks@.len()
                    &&& 0 <= self.governor(c, steps) < self.chunks@.len()
                    &&& self.chunks@[self.governor(c, steps)].link == -1
                },
    {
        let count = self.chunks@.len();
        if !self.reaches_root_within(c, count) {
            self.lemma_walk_stays(c, count);
            let walk = Seq::new(count + 1, |k: int| self.governor(c, k as nat));
            lemma_pigeonhole(walk, count);
            let (i, j) = choose|i: int, j: int| 0 <= i < j < walk.len() && walk[i] == walk[j];
            self.lemma_governor_adds(c, i as nat, (j - i) as nat);
            assert(self.governor(walk[i], (j - i) as nat) == walk[i]);
        } else {
            let steps = choose|steps: nat| steps < count && self.is_root(self.governor(c, steps));
            assert(self.is_root(self.governor(c, steps)));
        }
    }

    /// Whether `c` is a chunk without governor.
    spec fn is_root(&self, c: int) -> bool {
        0 <= c < self.chunks@.len() && self.chunks@[c].link == -1
    }

    /// Whether the walk from `c` meets a chunk without governor in fewer than
    /// `bound` steps.
    spec fn reaches_root_within(&self, c: int, bound: nat) -> bool {
        exists|steps: nat| steps < bound && #[trigger] self.is_root(self.governor(c, steps))
    }

    /// A walk that meets no chunk without governor in fewer than `bound` steps
    /// is at a chunk after each of its first `bound` steps.
    proof fn lemma_walk_stays(&self, c: int, bound: nat)
        requires
            self.links_form_forest(),
            0 <= c < self.chunks@.len(),
            !self.reaches_root_within(c, bound),
        ensures
            forall|k: int|
                0 <= k <= bound ==> 0 <= #[trigger] self.governor(c, k as nat)
                    < self.chunks@.len(),
        decreases bound,
    {
        if bound > 0 {
            let shorter = (bound - 1) as nat;
            assert forall|steps: nat| steps < shorter implies !#[trigger] self.is_root(
                self.governor(c, steps),
            ) by {
                assert(steps < bound);
            }
            self.lemma_walk_stays(c, shorter);
            let before = self.governor(c, shorter);
            assert(0 <= before < self.chunks@.len());
            assert(!self.is_root(self.governor(c, shorter)));
            assert(self.chunks@[before].link != -1);
            assert(self.governor(c, bound) == self.chunks@[before].link);
            assert forall|k: int| 0 <= k <= bound implies 0 <= #[trigger] self.governor(
                c,
                k as nat,
            ) < self.chunks@.len() by {
                if k < bound {
                    assert(k <= shorter);
                }
            }
        }
    }

    /// A walk of `a` steps and then `b` steps is a walk of `a + b` steps.
    proof fn lemma_governor_adds(&self, c: int, a: nat, b: nat)
        ensures
            self.governor(c, a + b) == self.governor(self.governor(c, a), b),
        decreases b,
    {
        if b > 0 {
            self.lemma_governor_adds(c, a, (b - 1) as nat);
            assert((a + b - 1) as nat == a + (b - 1) as nat);
        }
    }
}

/// Of more than `n` numbers below `n`, two are equal.
proof fn lemma_pigeonhole(s: Seq<int>, n: nat)
    requires
        s.len() > n,
        forall|i: int| 0 <= i < s.len() ==> 0 <= #[trigger] s[i] < n,
    ensures
        exists|i: int, j: int| 0 <= i < j < s.len() && s[i] == s[j],
    decreases n,
{
    if n == 0 {
        let first = s[0];
        assert(0 <= first < n);
    } else {
        let last = s.len() - 1;
        let v = s[last];
        if exists|i: int| 0 <= i < last && s[i] == v {
            let i = choose|i: int| 0 <= i < last && s[i] == v;
            assert(0 <= i < last < s.len() && s[i] == s[last]);
        } else {
            let t = Seq::new(
                last as nat,
                |i: int|
                    if s[i] > v {
                        s[i] - 1
                    } else {
                        s[i]
                    },
            );
            assert forall|i: int| 0 <= i < t.len() implies 0 <= #[trigger] t[i] < n - 1 by {
                assert(0 <= s[i] < n);
                assert(s[i] != v);
            }
            lemma_pigeonhole(t, (n - 1) as nat);
            let (i, j) = choose|i: int, j: int| 0 <= i < j < t.len() && t[i] == t[j];
            assert(s[i] != v && s[j] != v);
            assert(0 <= i < j < s.len() && s[i] == s[j]);
        }
    }
}

} // verus!
