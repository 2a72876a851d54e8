//! The records of the engine's arena, held as plain values.
//!
//! A string of the engine is an owned buffer, `None` where the engine holds a
//! null pointer; an array of strings is a vector of such buffers beside the
//! count that the engine keeps for it. A reference from one record to another
//! is the index of the other in its arena.

use libc::size_t;
use vstd::prelude::*;

verus! {

/// One token: the smallest lexical unit, with its surface form and features.
#[derive(Debug, Clone, Default, PartialEq, Eq)]
pub struct cabocha_token_t {
    pub surface: Option<Vec<u8>>,
    pub normalized_surface: Option<Vec<u8>>,
    pub feature: Option<Vec<u8>>,
    pub feature_list: Vec<Option<Vec<u8>>>,
    pub feature_list_size: u16,
    pub ne: Option<Vec<u8>>,
    pub additional_info: Option<Vec<u8>>,
    /// Index of the chunk that owns this token; `None` until it has one.
    pub chunk: Option<usize>,
}

/// One chunk: a contiguous run of tokens with one link to a governing chunk.
#[derive(Debug, Clone, Default, PartialEq, Eq)]
pub struct cabocha_chunk_t {
    /// Index of the governing chunk, or -1 where there is none.
    pub link: i32,
    pub head_pos: size_t,
    pub func_pos: size_t,
    pub token_size: size_t,
    pub token_pos: size_t,
    /// The dependency score, a single-precision number, as its IEEE 754 bits.
    pub score: u32,
    pub feature_list: Vec<Option<Vec<u8>>>,
    pub additional_info: Option<Vec<u8>>,
    pub feature_list_size: u16,
}

/// The arena of one tree: its sentence, its tokens and chunks in order, and the
/// codes of its configuration.
#[derive(Debug, Clone, Default, PartialEq, Eq)]
pub struct cabocha_tree_t {
    /// The bytes of the sentence, without a closing zero byte.
    pub sentence: Vec<u8>,
    pub tokens: Vec<cabocha_token_t>,
    pub chunks: Vec<cabocha_chunk_t>,
    pub charset: i32,
    pub posset: i32,
    pub output_layer: i32,
}

impl cabocha_token_t {
    /// A token as the arena makes it: no strings, no features, no chunk.
    pub open spec fn is_zeroed(&self) -> bool {
        &&& self.surface is None
        &&& self.normalized_surface is None
        &&& self.feature is None
        &&& self.feature_list@.len() == 0
        &&& self.feature_list_size == 0
        &&& self.ne is None
        &&& self.additional_info is None
        &&& self.chunk is None
    }

    /// Number of features that can be read: those that the record counts, as
    /// far as its list holds them.
    pub open spec fn feature_count(&self) -> int {
        if self.feature_list_size <= self.feature_list@.len() {
            self.feature_list_size as int
        } else {
            self.feature_list@.len() as int
        }
    }
}

impl cabocha_chunk_t {
    /// A chunk as the arena makes it: every number zero, no strings, no features.
    pub open spec fn is_zeroed(&self) -> bool {
        &&& self.link == 0
        &&& self.head_pos == 0
        &&& self.func_pos == 0
        &&& self.token_size == 0
        &&& self.token_pos == 0
        &&& self.score == 0
        &&& self.feature_list@.len() == 0
        &&& self.additional_info is None
        &&& self.feature_list_size == 0
    }

    /// Number of features that can be read: those that the record counts, as
    /// far as its list holds them.
    pub open spec fn feature_count(&self) -> int {
        if self.feature_list_size <= self.feature_list@.len() {
            self.feature_list_size as int
        } else {
            self.feature_list@.len() as int
        }
    }
}

impl cabocha_tree_t {
    /// An arena as the engine makes it: no sentence, no tokens, no chunks, and
    /// every configuration code zero.
    pub open spec fn is_zeroed(&self) -> bool {
        &&& self.sentence@.len() == 0
        &&& self.tokens@.len() == 0
        &&& self.chunks@.len() == 0
        &&& self.charset == 0
        &&& self.posset == 0
        &&& self.output_layer == 0
    }
}

} // verus!
