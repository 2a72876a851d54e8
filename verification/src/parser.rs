//! The engine handle: the buffers that an analysis hands to the engine, and
//! the reading of what the engine hands back.
//!
//! The engine itself is not part of this library. Each operation that needs it
//! takes it as a function: the operation decides what the engine is handed and
//! what becomes of its answer, and holds for every answer.

use super::sys::cabocha_tree_t;
use super::tree::Tree;
use super::utils::{buffer_ptr, c_buffer, c_text, ptr_to_string, str_to_heap_ptr, vec_bytes};
use vstd::prelude::*;
use vstd::utf8::*;

verus! {

/// The handle of one engine. It owns the buffer of the arguments that the
/// engine was made with, and at most one input buffer: the text that was
/// analysed to a string last, closed by a zero byte.
#[derive(Debug)]
pub struct Parser {
    arg: Vec<u8>,
    input: Option<Vec<u8>>,
}

/// What a handle is made of: what its argument buffer holds, and what its
/// input buffer holds, `None` where it owns none.
pub struct ParserView {
    pub arg: Seq<u8>,
    pub input: Option<Seq<u8>>,
}

impl View for Parser {
    type V = ParserView;

    closed spec fn view(&self) -> ParserView {
        ParserView { arg: self.arg@, input: vec_bytes(self.input) }
    }
}

impl Parser {
    /// Whether `tree` is a tree as `parse_to_tree` hands it to the engine for
    /// `text`: `text` is its sentence and fills its input buffer, and it has
    /// no tokens, no chunks and a zeroed configuration.
    pub open spec fn ready_for(tree: &Tree, text: Seq<char>) -> bool {
        &&& tree@.input == Some(c_buffer(text))
        &&& tree@.arena.sentence@ == encode_utf8(text)
        &&& tree@.arena.tokens@.len() == 0
        &&& tree@.arena.chunks@.len() == 0
        &&& tree@.arena.charset == 0
        &&& tree@.arena.posset == 0
        &&& tree@.arena.output_layer == 0
    }

    /// Whether `arena` can be the arena of the tree that `parse_to_tree`
    /// returns for `text`: something that `analyze` may answer with when
    /// handed a tree that is ready for `text`.
    pub open spec fn populated_by<F: FnOnce(&Tree) -> cabocha_tree_t>(
        analyze: F,
        text: Seq<char>,
        arena: cabocha_tree_t,
    ) -> bool {
        exists|tree: &Tree|
            Parser::ready_for(tree, text) && #[trigger] call_ensures(analyze, (tree,), arena)
    }

    /// Whether `out` can be what `parse_to_str` returns for `text`: the text
    /// of something that `analyze` may answer with when handed the buffer of
    /// `text`.
    pub open spec fn analyzed_by<F: FnOnce(&[u8]) -> Option<Vec<u8>>>(
        analyze: F,
        text: Seq<char>,
        out: Seq<char>,
    ) -> bool {
        exists|buf: &[u8], raw: Option<Vec<u8>>|
            buf@ == c_buffer(text) && out == c_text(vec_bytes(raw)) && #[trigger] call_ensures(
                analyze,
                (buf,),
                raw,
            )
    }

    /// Whether `out` can be what `get_last_error` returns: the text of
    /// something that `strerror` may answer with.
    pub open spec fn reported_by<F: FnOnce() -> Option<Vec<u8>>>(
        strerror: F,
        out: Seq<char>,
    ) -> bool {
        exists|raw: Option<Vec<u8>>| #[trigger]
            call_ensures(strerror, (), raw) && out == c_text(vec_bytes(raw))
    }

    /// A handle for an engine that is made with the arguments `arg`. It owns
    /// the buffer that carries them and no input buffer.
    pub fn new(arg: &str) -> (out: Parser)
        ensures
            out@.arg == c_buffer(arg@),
            out@.input is None,
    {
        Parser { arg: str_to_heap_ptr(arg), input: None }
    }

    /// The buffer of the arguments, for the engine to read.
    pub fn arg(&self) -> (out: &[u8])
        ensures
            out@ == self@.arg,
    {
        self.arg.as_slice()
    }

    /// Analyses `text` to a tree. `analyze` stands for the engine: it is
    /// handed a fresh tree whose sentence and input buffer hold `text`, and
    /// answers with the arena that it built for it. The tree that is returned
    /// has that arena and keeps the input buffer. The handle does not change.
    pub fn parse_to_tree<F: FnOnce(&Tree) -> cabocha_tree_t>(
        &mut self,
        text: &str,
        analyze: F,
    ) -> (out: Tree)
        requires
            forall|tree: &Tree| Parser::ready_for(tree, text@) ==> call_requires(analyze, (tree,)),
        ensures
            Parser::populated_by(analyze, text@, out@.arena),
            out@.input == Some(c_buffer(text@)),
            final(self)@ == old(self)@,
    {
        let mut tree = Tree::new();
        tree.set_sentence(text);
        assert(Parser::ready_for(&tree, text@));
        let arena = analyze(&tree);
        tree.populate(arena);
        tree
    }

    /// Analyses `text` to a string. The handle takes a fresh input buffer that
    /// holds `text` and lets go of the one it had. `analyze` stands for the
    /// engine: it is handed that buffer and answers with the rendering, or
    /// with `None` for a null pointer.
    pub fn parse_to_str<F: FnOnce(&[u8]) -> Option<Vec<u8>>>(
        &mut self,
        text: &str,
        analyze: F,
    ) -> (out: String)
        requires
            forall|buf: &[u8]| buf@ == c_buffer(text@) ==> call_requires(analyze, (buf,)),
        ensures
            Parser::analyzed_by(analyze, text@, out@),
            final(self)@.input == Some(c_buffer(text@)),
            final(self)@.arg == old(self)@.arg,
    {
        self.input = Some(str_to_heap_ptr(text));
        let buf = self.input.as_ref().unwrap().as_slice();
        let raw = analyze(buf);
        ptr_to_string(buffer_ptr(&raw))
    }

    /// The engine's account of what went wrong last. `strerror` stands for the
    /// engine: it answers with the message, or with `None` for a null pointer.
    pub fn get_last_error<F: FnOnce() -> Option<Vec<u8>>>(&self, strerror: F) -> (out: String)
        requires
            call_requires(strerror, ()),
        ensures
            Parser::reported_by(strerror, out@),
    {
        let raw = strerror();
        ptr_to_string(buffer_ptr(&raw))
    }
}

} // verus!
