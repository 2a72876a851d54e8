//! Read-only views of the tokens of a tree, and the cursor that walks them.

use super::chunk::Chunk;
use super::sys::cabocha_token_t;
use super::tree::Tree;
use super::utils::{buffer_ptr, c_text, ptr_to_string, ptr_to_vec_string, vec_bytes};
use vstd::prelude::*;

verus! {

/// A view of one token. It borrows the record and the tree that owns it, so it
/// cannot outlive that tree.
#[derive(Debug, Clone, Copy)]
pub struct Token<'a> {
    self_ptr: &'a cabocha_token_t,
    tree: &'a Tree,
}

impl<'a> Token<'a> {
    /// The record that this view shows.
    pub closed spec fn record(self) -> cabocha_token_t {
        *self.self_ptr
    }

    /// The tree in which the token's chunk is looked up.
    pub closed spec fn owner(self) -> Tree {
        *self.tree
    }

    /// The view of a given record in a given tree.
    pub closed spec fn spec_new(raw: &'a cabocha_token_t, tree: &'a Tree) -> Token<'a> {
        Token { self_ptr: raw, tree }
    }

    /// A view shows the record and the tree that it was made of.
    pub broadcast proof fn lemma_parts_of_new(raw: &'a cabocha_token_t, tree: &'a Tree)
        ensures
            (#[trigger] Token::spec_new(raw, tree)).record() == *raw,
            Token::spec_new(raw, tree).owner() == *tree,
    {
    }

    /// The view of the record `raw`, whose chunk is looked up in `tree`.
    pub fn new(raw: &'a cabocha_token_t, tree: &'a Tree) -> (out: Token<'a>)
        ensures
            out == Token::spec_new(raw, tree),
            out.record() == *raw,
            out.owner() == *tree,
    {
        Token { self_ptr: raw, tree }
    }

    /// The token as it stands in the sentence.
    pub fn surface(&self) -> (out: String)
        ensures
            out@ == c_text(vec_bytes(self.record().surface)),
    {
        ptr_to_string(buffer_ptr(&self.self_ptr.surface))
    }

    /// The token's surface in normalized form.
    pub fn normalized_surface(&self) -> (out: String)
        ensures
            out@ == c_text(vec_bytes(self.record().normalized_surface)),
    {
        ptr_to_string(buffer_ptr(&self.self_ptr.normalized_surface))
    }

    /// The token's features as one comma-joined string.
    pub fn feature(&self) -> (out: String)
        ensures
            out@ == c_text(vec_bytes(self.record().feature)),
    {
        ptr_to_string(buffer_ptr(&self.self_ptr.feature))
    }

    /// The token's features in order, each read as text.
    pub fn feature_list(&self) -> (out: Vec<String>)
        ensures
            out@.len() == self.record().feature_count(),
            forall|i: int|
                0 <= i < out@.len() ==> (#[trigger] out@[i])@ == c_text(
                    vec_bytes(self.record().feature_list@[i]),
                ),
    {
        let token = self.self_ptr;
        let held = token.feature_list.len();
        let counted = token.feature_list_size as usize;
        let size = if counted <= held {
            counted
        } else {
            held
        };
        ptr_to_vec_string(token.feature_list.as_slice(), size)
    }

    /// The number of features that the record counts.
    pub fn feature_list_size(&self) -> (out: u16)
        ensures
            out == self.record().feature_list_size,
    {
        self.self_ptr.feature_list_size
    }

    /// The token's named-entity tag; empty where it has none.
    pub fn ne(&self) -> (out: String)
        ensures
            out@ == c_text(vec_bytes(self.record().ne)),
    {
        ptr_to_string(buffer_ptr(&self.self_ptr.ne))
    }

    /// The token's free-form annotation; empty where it has none.
    pub fn additional_info(&self) -> (out: String)
        ensures
            out@ == c_text(vec_bytes(self.record().additional_info)),
    {
        ptr_to_string(buffer_ptr(&self.self_ptr.additional_info))
    }

    /// The chunk that owns this token: the chunk of the tree at the index that
    /// the record names. `None` where the record names none, or names an index
    /// at which the tree holds no chunk.
    pub fn chunk(&self) -> (out: Option<Chunk<'a>>)
        ensures
            match self.record().chunk {
                None => out is None,
                Some(index) => self.owner().shows_chunk(out, index as int),
            },
    {
        match self.self_ptr.chunk {
            None => None,
            Some(index) => self.tree.chunk(index),
        }
    }
}

/// A cursor over the tokens of a tree, from the first on.
pub struct TokenIter<'a> {
    tree: &'a Tree,
    pos: usize,
}

impl<'a> TokenIter<'a> {
    /// The tree that the cursor walks.
    pub closed spec fn tree(self) -> Tree {
        *self.tree
    }

    /// Index of the token that the next step looks up.
    pub closed spec fn pos(self) -> int {
        self.pos as int
    }

    /// What one step yields, and the cursor after it: the token at the
    /// cursor's index, or `None` behind the last one, and the index one on.
    pub closed spec fn spec_next(self) -> (Option<Token<'a>>, TokenIter<'a>) {
        (
            self.tree.spec_token(self.pos as int),
            TokenIter {
                tree: self.tree,
                pos: if self.pos < usize::MAX {
                    (self.pos + 1) as usize
                } else {
                    self.pos
                },
            },
        )
    }

    /// The cursor after `n` steps.
    pub open spec fn spec_advance(self, n: nat) -> TokenIter<'a>
        decreases n,
    {
        if n == 0 {
            self
        } else {
            self.spec_advance((n - 1) as nat).spec_next().1
        }
    }

    /// A cursor at the first token of `tree`.
    pub closed spec fn spec_new(tree: &Tree) -> TokenIter<'_> {
        TokenIter { tree, pos: 0 }
    }

    /// A cursor at the first token of `tree`.
    pub fn new(tree: &Tree) -> (out: TokenIter<'_>)
        ensures
            out == TokenIter::spec_new(tree),
            out.tree() == *tree,
            out.pos() == 0,
    {
        TokenIter { tree, pos: 0 }
    }

    /// One step: looks up the token at the cursor's index and moves the cursor
    /// one on. `None` marks the end of the tokens.
    pub fn next(&mut self) -> (out: Option<Token<'a>>)
        ensures
            (out, *final(self)) == old(self).spec_next(),
            old(self).tree().shows_token(out, old(self).pos()),
            final(self).tree() == old(self).tree(),
            final(self).pos() == if old(self).pos() < usize::MAX {
                old(self).pos() + 1
            } else {
                old(self).pos()
            },
    {
        let token = self.tree.token(self.pos);
        if self.pos < usize::MAX {
            self.pos += 1;
        }
        token
    }

    /// A cursor yields the tokens in order, and nothing after them. What a
    /// cursor yields in its step number `i`, counted from zero, is what its
    /// tree gives at index `i`: the token there, or `None` behind the last one.
    pub proof fn lemma_yields_in_order(tree: &Tree, i: nat)
        ensures
            tree.shows_token(TokenIter::spec_new(tree).spec_advance(i).spec_next().0, i as int),
    {
        assert(tree@.arena.tokens.len() == tree@.arena.tokens@.len());
        Self::lemma_advance(tree, i);
        if i < tree@.arena.tokens@.len() {
            Token::lemma_parts_of_new(&tree@.arena.tokens@[i as int], tree);
        }
    }

    /// After `n` steps a cursor stands at index `n`, or at the largest index
    /// where `n` is beyond it.
    proof fn lemma_advance(tree: &Tree, n: nat)
        ensures
            TokenIter::spec_new(tree).spec_advance(n) == (TokenIter {
                tree,
                pos: if n < usize::MAX {
                    n as usize
                } else {
                    usize::MAX
                },
            }),
        decreases n,
    {
        if n > 0 {
            Self::lemma_advance(tree, (n - 1) as nat);
        }
    }
}

} // verus!
