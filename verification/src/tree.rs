//! The parse tree: an arena of tokens and chunks, the sentence that it was
//! built from, and the buffer that carries that sentence to the engine.

use super::chunk::{Chunk, ChunkIter};
use super::consts::{
    CABOCHA_ASCII, CABOCHA_CHARSET_TYPE, CABOCHA_CP932, CABOCHA_EUC_JP, CABOCHA_FORMAT,
    CABOCHA_INPUT, CABOCHA_IPA, CABOCHA_JUMAN, CABOCHA_OUTPUT, CABOCHA_OUTPUT_CHUNK,
    CABOCHA_OUTPUT_DEP, CABOCHA_OUTPUT_POS, CABOCHA_OUTPUT_RAW_SENTENCE, CABOCHA_OUTPUT_SELECTION,
    CABOCHA_POSSET_TYPE, CABOCHA_UNIDIC, CABOCHA_UTF8,
};
use super::sys::{cabocha_chunk_t, cabocha_token_t, cabocha_tree_t};
use super::token::{Token, TokenIter};
use super::utils::{
    buffer_ptr, c_buffer, c_text, ptr_to_string, slice_bytes, str_to_heap_ptr, text_of,
    utf8_to_string, vec_bytes,
};
use vstd::prelude::*;
use vstd::slice::*;
use vstd::string::*;
use vstd::utf8::*;

verus! {

/// A parse tree. It owns its arena and at most one input buffer: the sentence
/// that was set last, closed by a zero byte, for the engine to read.
#[derive(Debug)]
pub struct Tree {
    pub inner: cabocha_tree_t,
    input: Option<Vec<u8>>,
}

/// What a tree is made of: its arena, and what its input buffer holds, `None`
/// where it owns no buffer.
pub struct TreeView {
    pub arena: cabocha_tree_t,
    pub input: Option<Seq<u8>>,
}

impl Default for Tree {
    fn default() -> (out: Self)
        ensures
            out@.arena.is_zeroed(),
            out@.input is None,
    {
        Self::new()
    }
}

/// The length that `read` passes to the engine for an input buffer: the number
/// of bytes of the text that the buffer holds.
pub open spec fn read_length(input: Option<Seq<u8>>) -> usize {
    encode_utf8(c_text(input)).len() as usize
}

impl View for Tree {
    type V = TreeView;

    closed spec fn view(&self) -> TreeView {
        TreeView { arena: self.inner, input: vec_bytes(self.input) }
    }
}

impl Tree {
    /// The sentence of the tree, as text.
    pub open spec fn spec_sentence(&self) -> Seq<char> {
        text_of(self@.arena.sentence@)
    }

    /// The view of the token at index `i`; `None` where the tree has none there.
    pub open spec fn spec_token(&self, i: int) -> Option<Token<'_>> {
        if 0 <= i < self@.arena.tokens@.len() {
            Some(Token::spec_new(&self@.arena.tokens@[i], self))
        } else {
            None
        }
    }

    /// The view of the chunk at index `i`; `None` where the tree has none there.
    pub open spec fn spec_chunk(&self, i: int) -> Option<Chunk<'_>> {
        if 0 <= i < self@.arena.chunks@.len() {
            Some(Chunk::spec_new(&self@.arena.chunks@[i]))
        } else {
            None
        }
    }

    /// Whether `out` is what a lookup of the token at index `i` gives: the
    /// view of the record at `i`, with this tree as its owner, or `None` where
    /// the tree has no token there.
    pub open spec fn shows_token(&self, out: Option<Token<'_>>, i: int) -> bool {
        &&& out == self.spec_token(i)
        &&& out is Some <==> 0 <= i < self@.arena.tokens@.len()
        &&& out is Some ==> out->Some_0.record() == self@.arena.tokens@[i] && out->Some_0.owner()
            == *self
    }

    /// Whether `out` is what a lookup of the chunk at index `i` gives: the
    /// view of the record at `i`, or `None` where the tree has no chunk there.
    pub open spec fn shows_chunk(&self, out: Option<Chunk<'_>>, i: int) -> bool {
        &&& out == self.spec_chunk(i)
        &&& out is Some <==> 0 <= i < self@.arena.chunks@.len()
        &&& out is Some ==> out->Some_0.record() == self@.arena.chunks@[i]
    }

    /// Whether `other` has the configuration of this tree.
    pub open spec fn same_config(&self, other: &Tree) -> bool {
        &&& self@.arena.charset == other@.arena.charset
        &&& self@.arena.posset == other@.arena.posset
        &&& self@.arena.output_layer == other@.arena.output_layer
    }

    /// Whether `out` can be what `to_string` returns for the renderer `render`:
    /// the text of something that `render` may answer with when handed this
    /// tree and the code of the format.
    pub open spec fn rendered_by<F: FnOnce(&Tree, i32) -> Option<Vec<u8>>>(
        &self,
        render: F,
        format_type: CABOCHA_FORMAT,
        out: Seq<char>,
    ) -> bool {
        exists|raw: Option<Vec<u8>>| #[trigger]
            call_ensures(render, (self, format_type.spec_code()), raw) && out == c_text(
                vec_bytes(raw),
            )
    }

    /// Whether `read` can end with the arena `arena` and the result `out` for
    /// the parser `parse`: handed this tree, the length of the text in its input
    /// buffer and the code of `input_layer`, `parse` may answer with `arena`
    /// and with a status that is non-zero exactly if `out` holds.
    pub open spec fn parsed_by<F: FnOnce(&Tree, usize, i32) -> (i32, cabocha_tree_t)>(
        &self,
        parse: F,
        input_layer: CABOCHA_INPUT,
        arena: cabocha_tree_t,
        out: bool,
    ) -> bool {
        exists|status: i32|
            out == (status != 0) && #[trigger] call_ensures(
                parse,
                (self, read_length(self@.input), input_layer.spec_code()),
                (status, arena),
            )
    }

    /// A tree over a given arena. It owns no input buffer.
    pub fn new_from_ptr(inner: cabocha_tree_t) -> (out: Tree)
        ensures
            out@.arena == inner,
            out@.input is None,
    {
        Tree { inner, input: None }
    }

    /// A tree without sentence, tokens or chunks, and without an input buffer.
    pub fn new() -> (out: Tree)
        ensures
            out@.arena.is_zeroed(),
            out@.input is None,
    {
        Tree {
            inner: cabocha_tree_t {
                sentence: Vec::new(),
                tokens: Vec::new(),
                chunks: Vec::new(),
                charset: 0,
                posset: 0,
                output_layer: 0,
            },
            input: None,
        }
    }

    /// The input buffer, for the engine to read; `None` where the tree owns none.
    pub fn input(&self) -> (out: Option<&[u8]>)
        ensures
            slice_bytes(out) == self@.input,
    {
        buffer_ptr(&self.input)
    }

    /// The sentence of the tree; empty where its bytes are not valid UTF-8.
    pub fn sentence(&self) -> (out: String)
        ensures
            out@ == self.spec_sentence(),
    {
        utf8_to_string(self.inner.sentence.as_slice())
    }

    /// Number of bytes of the sentence.
    pub fn sentence_size(&self) -> (out: usize)
        ensures
            out == self@.arena.sentence@.len(),
    {
        self.inner.sentence.len()
    }

    /// Makes `sentence` the sentence of the tree. The tree takes a fresh input
    /// buffer that holds it and lets go of the one it had; tokens, chunks and
    /// configuration stay.
    pub fn set_sentence(&mut self, sentence: &str)
        ensures
            final(self).spec_sentence() == sentence@,
            final(self)@.arena.sentence@ == encode_utf8(sentence@),
            final(self)@.input == Some(c_buffer(sentence@)),
            final(self)@.arena.tokens == old(self)@.arena.tokens,
            final(self)@.arena.chunks == old(self)@.arena.chunks,
            final(self).same_config(old(self)),
    {
        let len = sentence.as_bytes().len();
        let buffer = str_to_heap_ptr(sentence);
        proof {
            broadcast use encode_utf8_valid_utf8, encode_utf8_decode_utf8;

            assert(buffer@.subrange(0, len as int) =~= encode_utf8(sentence@));
            assert(decode_utf8(encode_utf8(sentence@)) == sentence@);
        }
        self.inner.sentence = slice_to_vec(slice_subrange(buffer.as_slice(), 0, len));
        self.input = Some(buffer);
    }

    /// The token at `index`; `None` where the tree has none there.
    pub fn token(&self, index: usize) -> (out: Option<Token<'_>>)
        ensures
            self.shows_token(out, index as int),
    {
        if index < self.inner.tokens.len() {
            Some(Token::new(&self.inner.tokens[index], self))
        } else {
            None
        }
    }

    /// The chunk at `index`; `None` where the tree has none there.
    pub fn chunk(&self, index: usize) -> (out: Option<Chunk<'_>>)
        ensures
            self.shows_chunk(out, index as int),
    {
        if index < self.inner.chunks.len() {
            Some(Chunk::new(&self.inner.chunks[index]))
        } else {
            None
        }
    }

    /// Appends a zeroed token and returns its view.
    pub fn add_token(&mut self) -> (out: Option<Token<'_>>)
        ensures
            final(self)@.arena.tokens@.len() == old(self)@.arena.tokens@.len() + 1,
            final(self)@.arena.tokens@.drop_last() == old(self)@.arena.tokens@,
            final(self)@.arena.tokens@.last().is_zeroed(),
            final(self).shows_token(out, old(self)@.arena.tokens@.len() as int),
            final(self)@.arena.chunks == old(self)@.arena.chunks,
            final(self)@.arena.sentence == old(self)@.arena.sentence,
            final(self).same_config(old(self)),
            final(self)@.input == old(self)@.input,
    {
        let index = self.inner.tokens.len();
        self.inner.tokens.push(
            cabocha_token_t {
                surface: None,
                normalized_surface: None,
                feature: None,
                feature_list: Vec::new(),
                feature_list_size: 0,
                ne: None,
                additional_info: None,
                chunk: None,
            },
        );
        assert(self@.arena.tokens@.drop_last() =~= old(self)@.arena.tokens@);
        self.token(index)
    }

    /// Appends a zeroed chunk and returns its view.
    pub fn add_chunk(&mut self) -> (out: Option<Chunk<'_>>)
        ensures
            final(self)@.arena.chunks@.len() == old(self)@.arena.chunks@.len() + 1,
            final(self)@.arena.chunks@.drop_last() == old(self)@.arena.chunks@,
            final(self)@.arena.chunks@.last().is_zeroed(),
            final(self).shows_chunk(out, old(self)@.arena.chunks@.len() as int),
            final(self)@.arena.tokens == old(self)@.arena.tokens,
            final(self)@.arena.sentence == old(self)@.arena.sentence,
            final(self).same_config(old(self)),
            final(self)@.input == old(self)@.input,
    {
        let index = self.inner.chunks.len();
        self.inner.chunks.push(
            cabocha_chunk_t {
                link: 0,
                head_pos: 0,
                func_pos: 0,
                token_size: 0,
                token_pos: 0,
                score: 0,
                feature_list: Vec::new(),
                additional_info: None,
                feature_list_size: 0,
            },
        );
        assert(self@.arena.chunks@.drop_last() =~= old(self)@.arena.chunks@);
        self.chunk(index)
    }

    /// Replaces the arena by one that the engine has built. The input buffer
    /// stays.
    pub fn populate(&mut self, inner: cabocha_tree_t)
        ensures
            final(self)@.arena == inner,
            final(self)@.input == old(self)@.input,
    {
        self.inner = inner;
    }

    /// Has the engine read the input buffer anew at the layer `input_layer`.
    /// `parse` stands for the engine: it is handed the tree, the number of
    /// bytes of the text in its input buffer and the layer's code, and answers
    /// with a status and the arena that it built. The tree takes that arena
    /// whatever the status, and the result tells whether the status reports
    /// success. The input buffer stays.
    pub fn read<F: FnOnce(&Tree, usize, i32) -> (i32, cabocha_tree_t)>(
        &mut self,
        input_layer: CABOCHA_INPUT,
        parse: F,
    ) -> (out: bool)
        requires
            call_requires(
                parse,
                (&*old(self), read_length(old(self)@.input), input_layer.spec_code()),
            ),
        ensures
            old(self).parsed_by(parse, input_layer, final(self)@.arena, out),
            final(self)@.input == old(self)@.input,
    {
        let len = ptr_to_string(self.input()).as_str().len();
        let (status, arena) = parse(&*self, len, input_layer.code());
        self.inner = arena;
        status != 0
    }

    /// Whether the tree has no token.
    pub fn empty(&self) -> (out: bool)
        ensures
            out == (self@.arena.tokens@.len() == 0),
    {
        self.inner.tokens.len() == 0
    }

    /// Removes sentence, tokens and chunks, and lets go of the input buffer.
    /// The configuration stays.
    pub fn clear(&mut self)
        ensures
            final(self)@.arena.tokens@.len() == 0,
            final(self)@.arena.chunks@.len() == 0,
            final(self)@.arena.sentence@.len() == 0,
            final(self).same_config(old(self)),
            final(self)@.input is None,
    {
        self.inner.tokens.clear();
        self.inner.chunks.clear();
        self.inner.sentence.clear();
        self.input = None;
    }

    /// Removes the chunks and lets go of the input buffer. Every token stays
    /// as it is, but for its chunk: it has none afterwards. Sentence and
    /// configuration stay.
    pub fn clear_chunk(&mut self)
        ensures
            final(self)@.arena.chunks@.len() == 0,
            final(self)@.arena.tokens@.len() == old(self)@.arena.tokens@.len(),
            forall|i: int|
                0 <= i < old(self)@.arena.tokens@.len() ==> #[trigger] final(self)@.arena.tokens@[i]
                    == (cabocha_token_t { chunk: None, ..old(self)@.arena.tokens@[i] }),
            final(self)@.arena.sentence == old(self)@.arena.sentence,
            final(self).same_config(old(self)),
            final(self)@.input is None,
    {
        self.inner.chunks.clear();
        let size = self.inner.tokens.len();
        let mut k: usize = 0;
        while k < size
            invariant
                k <= size == self@.arena.tokens@.len() == old(self)@.arena.tokens@.len(),
                forall|i: int|
                    0 <= i < k ==> #[trigger] self@.arena.tokens@[i] == (cabocha_token_t {
                        chunk: None,
                        ..old(self)@.arena.tokens@[i]
                    }),
                forall|i: int|
                    k <= i < size ==> #[trigger] self@.arena.tokens@[i] == old(self)@.arena.tokens@[i],
                self@.arena.chunks@.len() == 0,
                self@.arena.sentence == old(self)@.arena.sentence,
                self.same_config(old(self)),
            decreases size - k,
        {
            self.inner.tokens[k].chunk = None;
            k += 1;
        }
        self.input = None;
    }

    /// Number of chunks.
    pub fn chunk_size(&self) -> (out: usize)
        ensures
            out == self@.arena.chunks@.len(),
    {
        self.inner.chunks.len()
    }

    /// Number of tokens.
    pub fn token_size(&self) -> (out: usize)
        ensures
            out == self@.arena.tokens@.len(),
    {
        self.inner.tokens.len()
    }

    /// The size of the tree: the number of its tokens.
    pub fn size(&self) -> (out: usize)
        ensures
            out == self@.arena.tokens@.len(),
    {
        self.inner.tokens.len()
    }

    /// The tree as text in the format `format_type`. `render` stands for the
    /// engine: it is handed the tree and the format's code, and answers with
    /// the rendering, or with `None` for a null pointer.
    pub fn to_string<F: FnOnce(&Tree, i32) -> Option<Vec<u8>>>(
        &self,
        format_type: CABOCHA_FORMAT,
        render: F,
    ) -> (out: String)
        requires
            call_requires(render, (self, format_type.spec_code())),
        ensures
            self.rendered_by(render, format_type, out@),
    {
        let raw = render(self, format_type.code());
        ptr_to_string(buffer_ptr(&raw))
    }

    /// Rendering is stable. Where the renderer has one answer only for a tree
    /// and the code of a format, any two results of `to_string` for that tree
    /// in that format are the same text.
    pub proof fn lemma_to_string_stable<F: FnOnce(&Tree, i32) -> Option<Vec<u8>>>(
        &self,
        render: F,
        format_type: CABOCHA_FORMAT,
        first: Seq<char>,
        second: Seq<char>,
    )
        requires
            forall|a: Option<Vec<u8>>, b: Option<Vec<u8>>|
                call_ensures(render, (self, format_type.spec_code()), a) && call_ensures(
                    render,
                    (self, format_type.spec_code()),
                    b,
                ) ==> vec_bytes(a) == vec_bytes(b),
            self.rendered_by(render, format_type, first),
            self.rendered_by(render, format_type, second),
        ensures
            first == second,
    {
    }

    /// The character set of the tree; `None` where its code stands for none.
    pub fn charset(&self) -> (out: Option<CABOCHA_CHARSET_TYPE>)
        ensures
            out == CABOCHA_CHARSET_TYPE::spec_from_code(self@.arena.charset),
    {
        let val = self.inner.charset;
        if val == CABOCHA_EUC_JP {
            Some(CABOCHA_CHARSET_TYPE::EUC_JP)
        } else if val == CABOCHA_CP932 {
            Some(CABOCHA_CHARSET_TYPE::CP932)
        } else if val == CABOCHA_UTF8 {
            Some(CABOCHA_CHARSET_TYPE::UTF8)
        } else if val == CABOCHA_ASCII {
            Some(CABOCHA_CHARSET_TYPE::ASCII)
        } else {
            None
        }
    }

    /// Sets the character set. Nothing else changes.
    pub fn set_charset(&mut self, charset: CABOCHA_CHARSET_TYPE)
        ensures
            final(self)@.arena.charset == charset.spec_code(),
            CABOCHA_CHARSET_TYPE::spec_from_code(final(self)@.arena.charset) == Some(charset),
            final(self)@.arena.posset == old(self)@.arena.posset,
            final(self)@.arena.output_layer == old(self)@.arena.output_layer,
            final(self)@.arena.tokens == old(self)@.arena.tokens,
            final(self)@.arena.chunks == old(self)@.arena.chunks,
            final(self)@.arena.sentence == old(self)@.arena.sentence,
            final(self)@.input == old(self)@.input,
    {
        self.inner.charset = charset.code();
    }

    /// The part-of-speech scheme of the tree; `None` where its code stands for
    /// none.
    pub fn posset(&self) -> (out: Option<CABOCHA_POSSET_TYPE>)
        ensures
            out == CABOCHA_POSSET_TYPE::spec_from_code(self@.arena.posset),
    {
        let val = self.inner.posset;
        if val == CABOCHA_IPA {
            Some(CABOCHA_POSSET_TYPE::IPA)
        } else if val == CABOCHA_JUMAN {
            Some(CABOCHA_POSSET_TYPE::JUMAN)
        } else if val == CABOCHA_UNIDIC {
            Some(CABOCHA_POSSET_TYPE::UNIDIC)
        } else {
            None
        }
    }

    /// Sets the part-of-speech scheme. Nothing else changes.
    pub fn set_posset(&mut self, posset: CABOCHA_POSSET_TYPE)
        ensures
            final(self)@.arena.posset == posset.spec_code(),
            CABOCHA_POSSET_TYPE::spec_from_code(final(self)@.arena.posset) == Some(posset),
            final(self)@.arena.charset == old(self)@.arena.charset,
            final(self)@.arena.output_layer == old(self)@.arena.output_layer,
            final(self)@.arena.tokens == old(self)@.arena.tokens,
            final(self)@.arena.chunks == old(self)@.arena.chunks,
            final(self)@.arena.sentence == old(self)@.arena.sentence,
            final(self)@.input == old(self)@.input,
    {
        self.inner.posset = posset.code();
    }

    /// The output layer of the tree; `None` where its code stands for none.
    pub fn output_layer(&self) -> (out: Option<CABOCHA_OUTPUT>)
        ensures
            out == CABOCHA_OUTPUT::spec_from_code(self@.arena.output_layer),
    {
        let val = self.inner.output_layer;
        if val == CABOCHA_OUTPUT_RAW_SENTENCE {
            Some(CABOCHA_OUTPUT::RAW_SENTENCE)
        } else if val == CABOCHA_OUTPUT_POS {
            Some(CABOCHA_OUTPUT::POS)
        } else if val == CABOCHA_OUTPUT_CHUNK {
            Some(CABOCHA_OUTPUT::CHUNK)
        } else if val == CABOCHA_OUTPUT_SELECTION {
            Some(CABOCHA_OUTPUT::SELECTION)
        } else if val == CABOCHA_OUTPUT_DEP {
            Some(CABOCHA_OUTPUT::DEP)
        } else {
            None
        }
    }

    /// Sets the output layer. Nothing else changes.
    pub fn set_output_layer(&mut self, output_layer: CABOCHA_OUTPUT)
        ensures
            final(self)@.arena.output_layer == output_layer.spec_code(),
            CABOCHA_OUTPUT::spec_from_code(final(self)@.arena.output_layer) == Some(output_layer),
            final(self)@.arena.charset == old(self)@.arena.charset,
            final(self)@.arena.posset == old(self)@.arena.posset,
            final(self)@.arena.tokens == old(self)@.arena.tokens,
            final(self)@.arena.chunks == old(self)@.arena.chunks,
            final(self)@.arena.sentence == old(self)@.arena.sentence,
            final(self)@.input == old(self)@.input,
    {
        self.inner.output_layer = output_layer.code();
    }

    /// The views of all tokens, in order.
    pub fn tokens(&self) -> (out: Vec<Token<'_>>)
        ensures
            out@.len() == self@.arena.tokens@.len(),
            forall|i: int| 0 <= i < out@.len() ==> self.shows_token(Some(#[trigger] out@[i]), i),
    {
        let mut out: Vec<Token<'_>> = Vec::new();
        let mut iter = self.token_iter();
        loop
            invariant_except_break
                iter.pos() == out@.len(),
            invariant
                iter.tree() == *self,
                out@.len() <= self@.arena.tokens@.len() == self.inner.tokens.len(),
                forall|i: int|
                    0 <= i < out@.len() ==> self.shows_token(Some(#[trigger] out@[i]), i),
            ensures
                out@.len() == self@.arena.tokens@.len(),
            decreases self@.arena.tokens@.len() - out@.len(),
        {
            match iter.next() {
                Some(token) => {
                    out.push(token);
                },
                None => {
                    break ;
                },
            }
        }
        out
    }

    /// The views of all chunks, in order.
    pub fn chunks(&self) -> (out: Vec<Chunk<'_>>)
        ensures
            out@.len() == self@.arena.chunks@.len(),
            forall|i: int| 0 <= i < out@.len() ==> self.shows_chunk(Some(#[trigger] out@[i]), i),
    {
        let mut out: Vec<Chunk<'_>> = Vec::new();
        let mut iter = self.chunk_iter();
        loop
            invariant_except_break
                iter.pos() == out@.len(),
            invariant
                iter.tree() == *self,
                out@.len() <= self@.arena.chunks@.len() == self.inner.chunks.len(),
                forall|i: int|
                    0 <= i < out@.len() ==> self.shows_chunk(Some(#[trigger] out@[i]), i),
            ensures
                out@.len() == self@.arena.chunks@.len(),
            decreases self@.arena.chunks@.len() - out@.len(),
        {
            match iter.next() {
                Some(chunk) => {
                    out.push(chunk);
                },
                None => {
                    break ;
                },
            }
        }
        out
    }

    /// A cursor at the first chunk.
    pub fn chunk_iter(&self) -> (out: ChunkIter<'_>)
        ensures
            out == ChunkIter::spec_new(self),
            out.tree() == *self,
            out.pos() == 0,
    {
        ChunkIter::new(self)
    }

    /// A cursor at the first token.
    pub fn token_iter(&self) -> (out: TokenIter<'_>)
        ensures
            out == TokenIter::spec_new(self),
            out.tree() == *self,
            out.pos() == 0,
    {
        TokenIter::new(self)
    }
}

} // verus!
