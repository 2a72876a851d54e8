//! The integer codes that the engine and this library exchange, and the
//! enumerations that stand for them.

use vstd::prelude::*;

verus! {

pub const CABOCHA_EUC_JP: i32 = 0;

pub const CABOCHA_CP932: i32 = 1;

pub const CABOCHA_UTF8: i32 = 2;

pub const CABOCHA_ASCII: i32 = 3;

pub const CABOCHA_IPA: i32 = 0;

pub const CABOCHA_JUMAN: i32 = 1;

pub const CABOCHA_UNIDIC: i32 = 2;

pub const CABOCHA_FORMAT_TREE: i32 = 0;

pub const CABOCHA_FORMAT_LATTICE: i32 = 1;

pub const CABOCHA_FORMAT_TREE_LATTICE: i32 = 2;

pub const CABOCHA_FORMAT_XML: i32 = 3;

pub const CABOCHA_FORMAT_CONLL: i32 = 4;

pub const CABOCHA_FORMAT_NONE: i32 = 5;

pub const CABOCHA_INPUT_RAW_SENTENCE: i32 = 0;

pub const CABOCHA_INPUT_POS: i32 = 1;

pub const CABOCHA_INPUT_CHUNK: i32 = 2;

pub const CABOCHA_INPUT_SELECTION: i32 = 3;

pub const CABOCHA_INPUT_DEP: i32 = 4;

pub const CABOCHA_OUTPUT_RAW_SENTENCE: i32 = 0;

pub const CABOCHA_OUTPUT_POS: i32 = 1;

pub const CABOCHA_OUTPUT_CHUNK: i32 = 2;

pub const CABOCHA_OUTPUT_SELECTION: i32 = 3;

pub const CABOCHA_OUTPUT_DEP: i32 = 4;

pub const CABOCHA_TRAIN_NE: i32 = 0;

pub const CABOCHA_TRAIN_CHUNK: i32 = 1;

pub const CABOCHA_TRAIN_DEP: i32 = 2;

/// Character sets in which the engine reads and writes text.
#[derive(Debug, Clone, Copy, PartialEq, Eq, Structural)]
pub enum CABOCHA_CHARSET_TYPE {
    EUC_JP,
    CP932,
    UTF8,
    ASCII,
}

impl CABOCHA_CHARSET_TYPE {
    /// The integer by which the engine knows this character set.
    pub open spec fn spec_code(self) -> i32 {
        match self {
            CABOCHA_CHARSET_TYPE::EUC_JP => CABOCHA_EUC_JP,
            CABOCHA_CHARSET_TYPE::CP932 => CABOCHA_CP932,
            CABOCHA_CHARSET_TYPE::UTF8 => CABOCHA_UTF8,
            CABOCHA_CHARSET_TYPE::ASCII => CABOCHA_ASCII,
        }
    }

    /// The character set that the engine knows by `code`, if there is one.
    pub open spec fn spec_from_code(code: i32) -> Option<Self> {
        if code == CABOCHA_EUC_JP {
            Some(CABOCHA_CHARSET_TYPE::EUC_JP)
        } else if code == CABOCHA_CP932 {
            Some(CABOCHA_CHARSET_TYPE::CP932)
        } else if code == CABOCHA_UTF8 {
            Some(CABOCHA_CHARSET_TYPE::UTF8)
        } else if code == CABOCHA_ASCII {
            Some(CABOCHA_CHARSET_TYPE::ASCII)
        } else {
            None
        }
    }

    /// The integer by which the engine knows this character set.
    #[verifier::when_used_as_spec(spec_code)]
    pub fn code(self) -> (out: i32)
        ensures
            out == self.spec_code(),
    {
        match self {
            CABOCHA_CHARSET_TYPE::EUC_JP => CABOCHA_EUC_JP,
            CABOCHA_CHARSET_TYPE::CP932 => CABOCHA_CP932,
            CABOCHA_CHARSET_TYPE::UTF8 => CABOCHA_UTF8,
            CABOCHA_CHARSET_TYPE::ASCII => CABOCHA_ASCII,
        }
    }
}

/// Part-of-speech schemes of the dictionaries that the engine works with.
#[derive(Debug, Clone, Copy, PartialEq, Eq, Structural)]
pub enum CABOCHA_POSSET_TYPE {
    IPA,
    JUMAN,
    UNIDIC,
}

impl CABOCHA_POSSET_TYPE {
    /// The integer by which the engine knows this part-of-speech scheme.
    pub open spec fn spec_code(self) -> i32 {
        match self {
            CABOCHA_POSSET_TYPE::IPA => CABOCHA_IPA,
            CABOCHA_POSSET_TYPE::JUMAN => CABOCHA_JUMAN,
            CABOCHA_POSSET_TYPE::UNIDIC => CABOCHA_UNIDIC,
        }
    }

    /// The part-of-speech scheme that the engine knows by `code`, if there is one.
    pub open spec fn spec_from_code(code: i32) -> Option<Self> {
        if code == CABOCHA_IPA {
            Some(CABOCHA_POSSET_TYPE::IPA)
        } else if code == CABOCHA_JUMAN {
            Some(CABOCHA_POSSET_TYPE::JUMAN)
        } else if code == CABOCHA_UNIDIC {
            Some(CABOCHA_POSSET_TYPE::UNIDIC)
        } else {
            None
        }
    }

    /// The integer by which the engine knows this part-of-speech scheme.
    #[verifier::when_used_as_spec(spec_code)]
    pub fn code(self) -> (out: i32)
        ensures
            out == self.spec_code(),
    {
        match self {
            CABOCHA_POSSET_TYPE::IPA => CABOCHA_IPA,
            CABOCHA_POSSET_TYPE::JUMAN => CABOCHA_JUMAN,
            CABOCHA_POSSET_TYPE::UNIDIC => CABOCHA_UNIDIC,
        }
    }
}

/// Textual formats in which the engine renders a tree.
#[derive(Debug, Clone, Copy, PartialEq, Eq, Structural)]
pub enum CABOCHA_FORMAT {
    TREE,
    LATTICE,
    TREE_LATTICE,
    XML,
    CONLL,
    NONE,
}

impl CABOCHA_FORMAT {
    /// The integer by which the engine knows this output format.
    pub open spec fn spec_code(self) -> i32 {
        match self {
            CABOCHA_FORMAT::TREE => CABOCHA_FORMAT_TREE,
            CABOCHA_FORMAT::LATTICE => CABOCHA_FORMAT_LATTICE,
            CABOCHA_FORMAT::TREE_LATTICE => CABOCHA_FORMAT_TREE_LATTICE,
            CABOCHA_FORMAT::XML => CABOCHA_FORMAT_XML,
            CABOCHA_FORMAT::CONLL => CABOCHA_FORMAT_CONLL,
            CABOCHA_FORMAT::NONE => CABOCHA_FORMAT_NONE,
        }
    }

    /// The integer by which the engine knows this output format.
    #[verifier::when_used_as_spec(spec_code)]
    pub fn code(self) -> (out: i32)
        ensures
            out == self.spec_code(),
    {
        match self {
            CABOCHA_FORMAT::TREE => CABOCHA_FORMAT_TREE,
            CABOCHA_FORMAT::LATTICE => CABOCHA_FORMAT_LATTICE,
            CABOCHA_FORMAT::TREE_LATTICE => CABOCHA_FORMAT_TREE_LATTICE,
            CABOCHA_FORMAT::XML => CABOCHA_FORMAT_XML,
            CABOCHA_FORMAT::CONLL => CABOCHA_FORMAT_CONLL,
            CABOCHA_FORMAT::NONE => CABOCHA_FORMAT_NONE,
        }
    }
}

/// Stages of analysis that a text handed to the engine may already have.
#[derive(Debug, Clone, Copy, PartialEq, Eq, Structural)]
pub enum CABOCHA_INPUT {
    RAW_SENTENCE,
    POS,
    CHUNK,
    SELECTION,
    DEP,
}

impl CABOCHA_INPUT {
    /// The integer by which the engine knows this input layer.
    pub open spec fn spec_code(self) -> i32 {
        match self {
            CABOCHA_INPUT::RAW_SENTENCE => CABOCHA_INPUT_RAW_SENTENCE,
            CABOCHA_INPUT::POS => CABOCHA_INPUT_POS,
            CABOCHA_INPUT::CHUNK => CABOCHA_INPUT_CHUNK,
            CABOCHA_INPUT::SELECTION => CABOCHA_INPUT_SELECTION,
            CABOCHA_INPUT::DEP => CABOCHA_INPUT_DEP,
        }
    }

    /// The integer by which the engine knows this input layer.
    #[verifier::when_used_as_spec(spec_code)]
    pub fn code(self) -> (out: i32)
        ensures
            out == self.spec_code(),
    {
        match self {
            CABOCHA_INPUT::RAW_SENTENCE => CABOCHA_INPUT_RAW_SENTENCE,
            CABOCHA_INPUT::POS => CABOCHA_INPUT_POS,
            CABOCHA_INPUT::CHUNK => CABOCHA_INPUT_CHUNK,
            CABOCHA_INPUT::SELECTION => CABOCHA_INPUT_SELECTION,
            CABOCHA_INPUT::DEP => CABOCHA_INPUT_DEP,
        }
    }
}

/// Stages of analysis up to which the engine is asked to work.
#[derive(Debug, Clone, Copy, PartialEq, Eq, Structural)]
pub enum CABOCHA_OUTPUT {
    RAW_SENTENCE,
    POS,
    CHUNK,
    SELECTION,
    DEP,
}

impl CABOCHA_OUTPUT {
    /// The integer by which the engine knows this output layer.
    pub open spec fn spec_code(self) -> i32 {
        match self {
            CABOCHA_OUTPUT::RAW_SENTENCE => CABOCHA_OUTPUT_RAW_SENTENCE,
            CABOCHA_OUTPUT::POS => CABOCHA_OUTPUT_POS,
            CABOCHA_OUTPUT::CHUNK => CABOCHA_OUTPUT_CHUNK,
            CABOCHA_OUTPUT::SELECTION => CABOCHA_OUTPUT_SELECTION,
            CABOCHA_OUTPUT::DEP => CABOCHA_OUTPUT_DEP,
        }
    }

    /// The output layer that the engine knows by `code`, if there is one.
    pub open spec fn spec_from_code(code: i32) -> Option<Self> {
        if code == CABOCHA_OUTPUT_RAW_SENTENCE {
            Some(CABOCHA_OUTPUT::RAW_SENTENCE)
        } else if code == CABOCHA_OUTPUT_POS {
            Some(CABOCHA_OUTPUT::POS)
        } else if code == CABOCHA_OUTPUT_CHUNK {
            Some(CABOCHA_OUTPUT::CHUNK)
        } else if code == CABOCHA_OUTPUT_SELECTION {
            Some(CABOCHA_OUTPUT::SELECTION)
        } else if code == CABOCHA_OUTPUT_DEP {
            Some(CABOCHA_OUTPUT::DEP)
        } else {
            None
        }
    }

    /// The integer by which the engine knows this output layer.
    #[verifier::when_used_as_spec(spec_code)]
    pub fn code(self) -> (out: i32)
        ensures
            out == self.spec_code(),
    {
        match self {
            CABOCHA_OUTPUT::RAW_SENTENCE => CABOCHA_OUTPUT_RAW_SENTENCE,
            CABOCHA_OUTPUT::POS => CABOCHA_OUTPUT_POS,
            CABOCHA_OUTPUT::CHUNK => CABOCHA_OUTPUT_CHUNK,
            CABOCHA_OUTPUT::SELECTION => CABOCHA_OUTPUT_SELECTION,
            CABOCHA_OUTPUT::DEP => CABOCHA_OUTPUT_DEP,
        }
    }
}

} // verus!
