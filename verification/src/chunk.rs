//! Read-only views of the chunks of a tree, and the cursor that walks them.

use super::sys::cabocha_chunk_t;
use super::tree::Tree;
use super::utils::{buffer_ptr, c_text, ptr_to_string, ptr_to_vec_string, vec_bytes};
use vstd::prelude::*;

verus! {

/// A view of one chunk. It borrows the record from the tree that owns it, so
/// it cannot outlive that tree.
#[derive(Debug, Clone, Copy)]
pub struct Chunk<'a> {
    self_ptr: &'a cabocha_chunk_t,
}

impl<'a> Chunk<'a> {
    /// The record that this view shows.
    pub closed spec fn record(self) -> cabocha_chunk_t {
        *self.self_ptr
    }

    /// The view of a given record.
    pub closed spec fn spec_new(raw: &cabocha_chunk_t) -> Chunk<'_> {
        Chunk { self_ptr: raw }
    }

    /// A view shows the record that it was made of.
    pub broadcast proof fn lemma_record_of_new(raw: &cabocha_chunk_t)
        ensures
            (#[trigger] Chunk::spec_new(raw)).record() == *raw,
    {
    }

    /// The view of the record `raw`.
    pub fn new(raw: &'a cabocha_chunk_t) -> (out: Chunk<'a>)
        ensures
            out == Chunk::spec_new(raw),
            out.record() == *raw,
    {
        Chunk { self_ptr: raw }
    }

    /// Index of the chunk that governs this one; -1 where none does.
    pub fn link(&self) -> (out: i32)
        ensures
            out == self.record().link,
    {
        self.self_ptr.link
    }

    /// Offset of the head token, counted from the chunk's first token.
    pub fn head_pos(&self) -> (out: usize)
        ensures
            out == self.record().head_pos,
    {
        self.self_ptr.head_pos
    }

    /// Offset of the function word, counted from the chunk's first token.
    pub fn func_pos(&self) -> (out: usize)
        ensures
            out == self.record().func_pos,
    {
        self.self_ptr.func_pos
    }

    /// Number of tokens in the chunk.
    pub fn token_size(&self) -> (out: usize)
        ensures
            out == self.record().token_size,
    {
        self.self_ptr.token_size
    }

    /// Index of the chunk's first token in the tree.
    pub fn token_pos(&self) -> (out: usize)
        ensures
            out == self.record().token_pos,
    {
        self.self_ptr.token_pos
    }

    /// The dependency score, a single-precision number, as its IEEE 754 bits.
    pub fn score(&self) -> (out: u32)
        ensures
            out == self.record().score,
    {
        self.self_ptr.score
    }

    /// The chunk's features in order, each read as text.
    pub fn feature_list(&self) -> (out: Vec<String>)
        ensures
            out@.len() == self.record().feature_count(),
            forall|i: int|
                0 <= i < out@.len() ==> (#[trigger] out@[i])@ == c_text(
                    vec_bytes(self.record().feature_list@[i]),
                ),
    {
        let chunk = self.self_ptr;
        let held = chunk.feature_list.len();
        let counted = chunk.feature_list_size as usize;
        let size = if counted <= held {
            counted
        } else {
            held
        };
        ptr_to_vec_string(chunk.feature_list.as_slice(), size)
    }

    /// The chunk's free-form annotation; empty where it has none.
    pub fn additional_info(&self) -> (out: String)
        ensures
            out@ == c_text(vec_bytes(self.record().additional_info)),
    {
        ptr_to_string(buffer_ptr(&self.self_ptr.additional_info))
    }

    /// The number of features that the record counts.
    pub fn feature_list_size(&self) -> (out: u16)
        ensures
            out == self.record().feature_list_size,
    {
        self.self_ptr.feature_list_size
    }
}

/// A cursor over the chunks of a tree, from the first on.
pub struct ChunkIter<'a> {
    tree: &'a Tree,
    pos: usize,
}

impl<'a> ChunkIter<'a> {
    /// The tree that the cursor walks.
    pub closed spec fn tree(self) -> Tree {
        *self.tree
    }

    /// Index of the chunk that the next step looks up.
    pub closed spec fn pos(self) -> int {
        self.pos as int
    }

    /// What one step yields, and the cursor after it: the chunk at the
    /// cursor's index, or `None` behind the last one, and the index one on.
    pub closed spec fn spec_next(self) -> (Option<Chunk<'a>>, ChunkIter<'a>) {
        (
            self.tree.spec_chunk(self.pos as int),
            ChunkIter {
                tree: self.tree,
                pos: if self.pos < usize::MAX {
                    (self.pos + 1) as usize
                } else {
                    self.pos
                },
            },
        )
    }

    /// The cursor after `n` steps.
    pub open spec fn spec_advance(self, n: nat) -> ChunkIter<'a>
        decreases n,
    {
        if n == 0 {
            self
        } else {
            self.spec_advance((n - 1) as nat).spec_next().1
        }
    }

    /// A cursor at the first chunk of `tree`.
    pub closed spec fn spec_new(tree: &Tree) -> ChunkIter<'_> {
        ChunkIter { tree, pos: 0 }
    }

    /// A cursor at the first chunk of `tree`.
    pub fn new(tree: &Tree) -> (out: ChunkIter<'_>)
        ensures
            out == ChunkIter::spec_new(tree),
            out.tree() == *tree,
            out.pos() == 0,
    {
        ChunkIter { tree, pos: 0 }
    }

    /// One step: looks up the chunk at the cursor's index and moves the cursor
    /// one on. `None` marks the end of the chunks.
    pub fn next(&mut self) -> (out: Option<Chunk<'a>>)
        ensures
            (out, *final(self)) == old(self).spec_next(),
            old(self).tree().shows_chunk(out, old(self).pos()),
            final(self).tree() == old(self).tree(),
            final(self).pos() == if old(self).pos() < usize::MAX {
                old(self).pos() + 1
            } else {
                old(self).pos()
            },
    {
        let chunk = self.tree.chunk(self.pos);
        if self.pos < usize::MAX {
            self.pos += 1;
        }
        chunk
    }

    /// A cursor yields the chunks in order, and nothing after them. What a
    /// cursor yields in its step number `i`, counted from zero, is what its
    /// tree gives at index `i`: the chunk there, or `None` behind the last one.
    pub proof fn lemma_yields_in_order(tree: &Tree, i: nat)
        ensures
            tree.shows_chunk(ChunkIter::spec_new(tree).spec_advance(i).spec_next().0, i as int),
    {
        assert(tree@.arena.chunks.len() == tree@.arena.chunks@.len());
        Self::lemma_advance(tree, i);
        if i < tree@.arena.chunks@.len() {
            Chunk::lemma_record_of_new(&tree@.arena.chunks@[i as int]);
        }
    }

    /// After `n` steps a cursor stands at index `n`, or at the largest index
    /// where `n` is beyond it.
    proof fn lemma_advance(tree: &Tree, n: nat)
        ensures
            ChunkIter::spec_new(tree).spec_advance(n) == (ChunkIter {
                tree,
                pos: if n < usize::MAX {
                    n as usize
                } else {
                    usize::MAX
                },
            }),
        decreases n,
    {
        if n > 0 {
            Self::lemma_advance(tree, (n - 1) as nat);
        }
    }
}

} // verus!
