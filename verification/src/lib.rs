#![allow(non_camel_case_types)]
#![allow(non_upper_case_globals)]

pub mod chunk;
pub mod consts;
pub mod parser;
pub mod structure;
pub mod sys;
pub mod token;
pub mod tree;
pub mod utils;
