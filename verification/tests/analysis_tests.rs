use cabocha::chunk::{Chunk, ChunkIter};
use cabocha::consts::{
    CABOCHA_CHARSET_TYPE, CABOCHA_FORMAT, CABOCHA_INPUT, CABOCHA_OUTPUT, CABOCHA_POSSET_TYPE,
};
use cabocha::parser::Parser;
use cabocha::sys::{cabocha_chunk_t, cabocha_token_t, cabocha_tree_t};
use cabocha::token::{Token, TokenIter};
use cabocha::tree::Tree;
use cabocha::utils::str_to_heap_ptr;

const SENTENCE: &str = "一郎は二郎が描いた絵を三郎に贈った。";

const TREE_TEXT: &str = r#"  一郎は---------D
    二郎が-D     |
      描いた-D   |
          絵を---D
          三郎に-D
          贈った。
EOS
"#;

const LATTICE_TEXT: &str = r#"* 0 5D 0/1 -1.663431
一郎	名詞,固有名詞,人名,名,*,*,一郎,イチロウ,イチロー
は	助詞,係助詞,*,*,*,*,は,ハ,ワ
* 1 2D 0/1 0.916559
二郎	名詞,固有名詞,人名,名,*,*,二郎,ジロウ,ジロー
が	助詞,格助詞,一般,*,*,*,が,ガ,ガ
* 2 3D 0/1 1.678682
描い	動詞,自立,*,*,五段・カ行イ音便,連用タ接続,描く,エガイ,エガイ
た	助動詞,*,*,*,特殊・タ,基本形,た,タ,タ
* 3 5D 0/1 -1.663431
絵	名詞,一般,*,*,*,*,絵,エ,エ
を	助詞,格助詞,一般,*,*,*,を,ヲ,ヲ
* 4 5D 0/1 -1.663431
三郎	名詞,固有名詞,地域,一般,*,*,三郎,サブロウ,サブロー
に	助詞,格助詞,一般,*,*,*,に,ニ,ニ
* 5 -1D 0/1 0.000000
贈っ	動詞,自立,*,*,五段・ラ行,連用タ接続,贈る,オクッ,オクッ
た	助動詞,*,*,*,特殊・タ,基本形,た,タ,タ
。	記号,句点,*,*,*,*,。,。,。
EOS
"#;

const LAST_CHUNK_FEATURES: [&str; 22] = [
    "GPUNC:。",
    "FPUNC:。",
    "FHS:贈っ",
    "FHP0:動詞",
    "FHP1:自立",
    "FHF:連用タ接続",
    "FFS:た",
    "FFP0:助動詞",
    "FFF:基本形",
    "FLS:贈っ",
    "FLP0:動詞",
    "FLP1:自立",
    "FLF:連用タ接続",
    "FRS:。",
    "FRP0:記号",
    "FRP1:句点",
    "LF:た",
    "RL:贈っ",
    "RH:贈っ",
    "RF:た",
    "FEOS:1",
    "A:基本形",
];

/// The arena that the engine builds for `SENTENCE`, written out from its
/// lattice rendering.
fn example_arena() -> cabocha_tree_t {
    let mut arena = cabocha_tree_t::default();
    arena.sentence = SENTENCE.as_bytes().to_vec();
    arena.charset = 2;
    arena.posset = 0;
    arena.output_layer = 4;
    for line in LATTICE_TEXT.lines() {
        if line == "EOS" {
            break;
        }
        if let Some(header) = line.strip_prefix("* ") {
            let fields: Vec<&str> = header.split(' ').collect();
            let (head, func) = fields[2].split_once('/').unwrap();
            let score: f32 = fields[3].parse().unwrap();
            arena.chunks.push(cabocha_chunk_t {
                link: fields[1].trim_end_matches('D').parse().unwrap(),
                head_pos: head.parse().unwrap(),
                func_pos: func.parse().unwrap(),
                token_size: 0,
                token_pos: arena.tokens.len(),
                score: score.to_bits(),
                feature_list: Vec::new(),
                additional_info: None,
                feature_list_size: 0,
            });
        } else {
            let (surface, feature) = line.split_once('\t').unwrap();
            let feature_list: Vec<Option<Vec<u8>>> =
                feature.split(',').map(|f| Some(str_to_heap_ptr(f))).collect();
            arena.tokens.push(cabocha_token_t {
                surface: Some(str_to_heap_ptr(surface)),
                normalized_surface: Some(str_to_heap_ptr(surface)),
                feature: Some(str_to_heap_ptr(feature)),
                feature_list_size: feature_list.len() as u16,
                feature_list,
                ne: None,
                additional_info: None,
                chunk: Some(arena.chunks.len() - 1),
            });
            arena.chunks.last_mut().unwrap().token_size += 1;
        }
    }
    let last = arena.chunks.last_mut().unwrap();
    last.feature_list = LAST_CHUNK_FEATURES.iter().map(|f| Some(str_to_heap_ptr(f))).collect();
    last.feature_list_size = 22;
    arena
}

/// An engine for `parse_to_tree` that knows `SENTENCE` only.
fn analyze_example(tree: &Tree) -> cabocha_tree_t {
    assert_eq!(tree.input(), Some(str_to_heap_ptr(SENTENCE).as_slice()));
    assert_eq!(tree.sentence(), SENTENCE);
    example_arena()
}

/// An engine for `to_string` that renders the example.
fn render_example(tree: &Tree, format: i32) -> Option<Vec<u8>> {
    assert_eq!(tree.inner, example_arena());
    match format {
        0 => Some(str_to_heap_ptr(TREE_TEXT)),
        1 => Some(str_to_heap_ptr(LATTICE_TEXT)),
        _ => None,
    }
}

fn example_tree() -> Tree {
    Parser::new("").parse_to_tree(SENTENCE, analyze_example)
}

fn approx(left: f32, right: f32, tol: f32) -> bool {
    (left - right).abs() <= tol
}

#[test]
fn test_parse_to_str() {
    let mut parser = Parser::new("");
    assert_eq!(
        r#"  一郎は---------D
    二郎が-D     |
      描いた-D   |
          絵を---D
          三郎に-D
          贈った。
EOS
"#,
        parser.parse_to_str("一郎は二郎が描いた絵を三郎に贈った。", |buf: &[u8]| {
            assert_eq!(buf, str_to_heap_ptr(SENTENCE).as_slice());
            Some(str_to_heap_ptr(TREE_TEXT))
        })
    );
}

#[test]
fn test_parse_to_tree_to_string() {
    let mut parser = Parser::new("");
    let tree = parser.parse_to_tree("一郎は二郎が描いた絵を三郎に贈った。", analyze_example);
    let result = r#"* 0 5D 0/1 -1.663431
一郎	名詞,固有名詞,人名,名,*,*,一郎,イチロウ,イチロー
は	助詞,係助詞,*,*,*,*,は,ハ,ワ
* 1 2D 0/1 0.916559
二郎	名詞,固有名詞,人名,名,*,*,二郎,ジロウ,ジロー
が	助詞,格助詞,一般,*,*,*,が,ガ,ガ
* 2 3D 0/1 1.678682
描い	動詞,自立,*,*,五段・カ行イ音便,連用タ接続,描く,エガイ,エガイ
た	助動詞,*,*,*,特殊・タ,基本形,た,タ,タ
* 3 5D 0/1 -1.663431
絵	名詞,一般,*,*,*,*,絵,エ,エ
を	助詞,格助詞,一般,*,*,*,を,ヲ,ヲ
* 4 5D 0/1 -1.663431
三郎	名詞,固有名詞,地域,一般,*,*,三郎,サブロウ,サブロー
に	助詞,格助詞,一般,*,*,*,に,ニ,ニ
* 5 -1D 0/1 0.000000
贈っ	動詞,自立,*,*,五段・ラ行,連用タ接続,贈る,オクッ,オクッ
た	助動詞,*,*,*,特殊・タ,基本形,た,タ,タ
。	記号,句点,*,*,*,*,。,。,。
EOS
"#;

    assert_eq!(result, tree.to_string(CABOCHA_FORMAT::LATTICE, render_example));
}

#[test]
fn test_parse_to_tree_chunks() {
    let mut parser = Parser::new("");
    let tree = parser.parse_to_tree("一郎は二郎が描いた絵を三郎に贈った。", analyze_example);
    let chunks = tree.chunks();
    assert_eq!(6, chunks.len());

    assert_eq!(5, chunks[0].link());
    assert_eq!(0, chunks[0].head_pos());
    assert_eq!(1, chunks[0].func_pos());
    assert!(approx(-1.663_430_8, f32::from_bits(chunks[0].score()), 4.0e-7));
    assert_eq!("", chunks[0].additional_info());

    assert_eq!(2, chunks[1].link());
    assert_eq!(0, chunks[1].head_pos());
    assert_eq!(1, chunks[1].func_pos());
    assert!(approx(0.916_559, f32::from_bits(chunks[1].score()), 4.0e-7));
    assert_eq!("", chunks[1].additional_info());

    assert_eq!(3, chunks[2].link());
    assert_eq!(0, chunks[2].head_pos());
    assert_eq!(1, chunks[2].func_pos());
    assert!(approx(1.678_682, f32::from_bits(chunks[2].score()), 4.0e-7));
    assert_eq!("", chunks[2].additional_info());

    assert_eq!(5, chunks[3].link());
    assert_eq!(0, chunks[3].head_pos());
    assert_eq!(1, chunks[3].func_pos());
    assert!(approx(-1.663_431, f32::from_bits(chunks[3].score()), 4.0e-7));
    assert_eq!("", chunks[3].additional_info());

    assert_eq!(5, chunks[4].link());
    assert_eq!(0, chunks[4].head_pos());
    assert_eq!(1, chunks[4].func_pos());
    assert!(approx(-1.663_431, f32::from_bits(chunks[4].score()), 4.0e-7));
    assert_eq!("", chunks[4].additional_info());

    assert_eq!(-1, chunks[5].link());
    assert_eq!(0, chunks[5].head_pos());
    assert_eq!(1, chunks[5].func_pos());
    assert!(approx(0.0, f32::from_bits(chunks[5].score()), 4.0e-7));
    assert_eq!(
        vec![
            "GPUNC:。",
            "FPUNC:。",
            "FHS:贈っ",
            "FHP0:動詞",
            "FHP1:自立",
            "FHF:連用タ接続",
            "FFS:た",
            "FFP0:助動詞",
            "FFF:基本形",
            "FLS:贈っ",
            "FLP0:動詞",
            "FLP1:自立",
            "FLF:連用タ接続",
            "FRS:。",
            "FRP0:記号",
            "FRP1:句点",
            "LF:た",
            "RL:贈っ",
            "RH:贈っ",
            "RF:た",
            "FEOS:1",
            "A:基本形"
        ],
        chunks[5].feature_list()
    );
    assert_eq!(22, chunks[5].feature_list_size());
    assert_eq!("", chunks[5].additional_info());
}

#[test]
fn test_parse_to_tree_sentence() {
    let mut parser = Parser::new("");
    let tree = parser.parse_to_tree("一郎は二郎が描いた絵を三郎に贈った。", analyze_example);
    assert_eq!("一郎は二郎が描いた絵を三郎に贈った。", tree.sentence());
}

#[test]
fn test_parse_to_tree_tokens() {
    let mut parser = Parser::new("");
    let tree = parser.parse_to_tree("一郎は二郎が描いた絵を三郎に贈った。", analyze_example);
    let tokens = tree.tokens();
    assert_eq!(13, tokens.len());

    assert_eq!("一郎", tokens[0].surface());
    assert_eq!("一郎", tokens[0].normalized_surface());
    let feature_list = vec![
        "名詞",
        "固有名詞",
        "人名",
        "名",
        "*",
        "*",
        "一郎",
        "イチロウ",
        "イチロー",
    ];
    assert_eq!(feature_list.join(","), tokens[0].feature());
    assert_eq!(feature_list, tokens[0].feature_list());
    assert_eq!(9, tokens[0].feature_list_size());
    assert_eq!("", tokens[0].ne());
    assert_eq!("", tokens[0].additional_info());

    assert_eq!("は", tokens[1].surface());
    assert_eq!("は", tokens[1].normalized_surface());
    let feature_list = vec!["助詞", "係助詞", "*", "*", "*", "*", "は", "ハ", "ワ"];
    assert_eq!(feature_list.join(","), tokens[1].feature());
    assert_eq!(feature_list, tokens[1].feature_list());
    assert_eq!(9, tokens[1].feature_list_size());
    assert_eq!("", tokens[1].ne());
    assert_eq!("", tokens[1].additional_info());

    assert_eq!("二郎", tokens[2].surface());
    assert_eq!("二郎", tokens[2].normalized_surface());
    let feature_list = vec![
        "名詞",
        "固有名詞",
        "人名",
        "名",
        "*",
        "*",
        "二郎",
        "ジロウ",
        "ジロー",
    ];
    assert_eq!(feature_list.join(","), tokens[2].feature());
    assert_eq!(feature_list, tokens[2].feature_list());
    assert_eq!(9, tokens[2].feature_list_size());
    assert_eq!("", tokens[2].ne());
    assert_eq!("", tokens[2].additional_info());
}

#[test]
fn example_has_six_chunks_and_thirteen_tokens() {
    let tree = example_tree();
    assert_eq!(tree.chunk_size(), 6);
    assert_eq!(tree.token_size(), 13);
    assert_eq!(tree.size(), 13);
    assert!(!tree.empty());
    let first = tree.chunk(0).unwrap();
    assert_eq!(first.link(), 5);
    assert_eq!(first.head_pos(), 0);
    assert_eq!(first.func_pos(), 1);
    assert_eq!(first.token_pos(), 0);
    assert_eq!(first.token_size(), 2);
    let last = tree.chunk(5).unwrap();
    assert_eq!(last.link(), -1);
    assert_eq!(last.token_pos(), 10);
    assert_eq!(last.token_size(), 3);
    let token = tree.token(0).unwrap();
    assert_eq!(token.surface(), "一郎");
    assert_eq!(token.feature_list().len(), 9);
    assert_eq!(tree.to_string(CABOCHA_FORMAT::LATTICE, render_example), LATTICE_TEXT);
    assert_eq!(tree.to_string(CABOCHA_FORMAT::TREE, render_example), TREE_TEXT);
}

#[test]
fn set_sentence_then_sentence_gives_the_text_back() {
    let mut tree = Tree::new();
    for text in ["", "a", SENTENCE, "line\nbreak", "a\0b", "\u{1f600}"] {
        tree.set_sentence(text);
        assert_eq!(tree.sentence(), text);
        assert_eq!(tree.sentence_size(), text.len());
        assert_eq!(tree.input(), Some(str_to_heap_ptr(text).as_slice()));
    }
}

#[test]
fn set_sentence_keeps_tokens_chunks_and_configuration() {
    let mut tree = example_tree();
    tree.set_sentence("絵");
    assert_eq!(tree.sentence(), "絵");
    assert_eq!(tree.sentence_size(), 3);
    assert_eq!(tree.token_size(), 13);
    assert_eq!(tree.chunk_size(), 6);
    assert_eq!(tree.charset(), Some(CABOCHA_CHARSET_TYPE::UTF8));
    assert_eq!(tree.output_layer(), Some(CABOCHA_OUTPUT::DEP));
    assert_eq!(tree.inner.tokens, example_arena().tokens);
    assert_eq!(tree.inner.chunks, example_arena().chunks);
}

#[test]
fn sentence_of_invalid_utf8_is_empty() {
    let mut arena = cabocha_tree_t::default();
    arena.sentence = vec![b'a', 0xff, b'b'];
    let tree = Tree::new_from_ptr(arena);
    assert_eq!(tree.sentence(), "");
    assert_eq!(tree.sentence_size(), 3);
}

#[test]
fn tokens_and_chunks_have_as_many_elements_as_the_counts_say() {
    let tree = example_tree();
    assert_eq!(tree.tokens().len(), tree.token_size());
    assert_eq!(tree.chunks().len(), tree.chunk_size());
    let empty = Tree::new();
    assert_eq!(empty.tokens().len(), 0);
    assert_eq!(empty.chunks().len(), 0);
    assert_eq!(empty.token_size(), 0);
    assert_eq!(empty.chunk_size(), 0);
}

#[test]
fn cursor_yields_what_the_index_gives() {
    let tree = example_tree();
    let mut tokens = tree.token_iter();
    for i in 0..tree.token_size() {
        let yielded = tokens.next().unwrap();
        let indexed = tree.token(i).unwrap();
        assert_eq!(yielded.surface(), indexed.surface());
        assert_eq!(yielded.normalized_surface(), indexed.normalized_surface());
        assert_eq!(yielded.feature(), indexed.feature());
        assert_eq!(yielded.feature_list(), indexed.feature_list());
        assert_eq!(yielded.feature_list_size(), indexed.feature_list_size());
        assert_eq!(yielded.ne(), indexed.ne());
        assert_eq!(yielded.additional_info(), indexed.additional_info());
        assert_eq!(
            yielded.chunk().map(|c| c.token_pos()),
            indexed.chunk().map(|c| c.token_pos())
        );
    }
    assert!(tokens.next().is_none());
    assert!(tokens.next().is_none());

    let mut chunks = tree.chunk_iter();
    for i in 0..tree.chunk_size() {
        let yielded = chunks.next().unwrap();
        let indexed = tree.chunk(i).unwrap();
        assert_eq!(yielded.link(), indexed.link());
        assert_eq!(yielded.head_pos(), indexed.head_pos());
        assert_eq!(yielded.func_pos(), indexed.func_pos());
        assert_eq!(yielded.token_size(), indexed.token_size());
        assert_eq!(yielded.token_pos(), indexed.token_pos());
        assert_eq!(yielded.score(), indexed.score());
        assert_eq!(yielded.feature_list(), indexed.feature_list());
        assert_eq!(yielded.feature_list_size(), indexed.feature_list_size());
        assert_eq!(yielded.additional_info(), indexed.additional_info());
    }
    assert!(chunks.next().is_none());
    assert!(chunks.next().is_none());
}

#[test]
fn cursors_start_anew_with_each_call() {
    let tree = example_tree();
    let mut first = tree.token_iter();
    assert_eq!(first.next().unwrap().surface(), "一郎");
    assert_eq!(first.next().unwrap().surface(), "は");
    let mut second = TokenIter::new(&tree);
    assert_eq!(second.next().unwrap().surface(), "一郎");
    let mut chunks = ChunkIter::new(&tree);
    assert_eq!(chunks.next().unwrap().link(), 5);
    assert_eq!(tree.chunk_iter().next().unwrap().link(), 5);
}

#[test]
fn chunks_of_the_example_partition_its_tokens() {
    let tree = example_tree();
    let mut next = 0;
    for chunk in tree.chunks() {
        assert_eq!(chunk.token_pos(), next);
        next += chunk.token_size();
    }
    assert_eq!(next, tree.token_size());
    for (i, token) in tree.tokens().iter().enumerate() {
        let owner = token.chunk().unwrap();
        assert!(owner.token_pos() <= i && i < owner.token_pos() + owner.token_size());
        let holding = tree
            .chunks()
            .iter()
            .filter(|c| c.token_pos() <= i && i < c.token_pos() + c.token_size())
            .count();
        assert_eq!(holding, 1);
    }
}

#[test]
fn links_of_the_example_lead_to_a_root() {
    let tree = example_tree();
    let expected_steps = [1, 3, 2, 1, 1, 0];
    for start in 0..tree.chunk_size() {
        let mut at = start;
        let mut steps = 0;
        while tree.chunk(at).unwrap().link() != -1 {
            at = tree.chunk(at).unwrap().link() as usize;
            steps += 1;
            assert!(steps <= tree.chunk_size());
        }
        assert_eq!(at, 5);
        assert_eq!(steps, expected_steps[start]);
    }
}

#[test]
fn lookup_behind_the_last_element_is_absent() {
    let tree = example_tree();
    assert!(tree.token(tree.token_size()).is_none());
    assert!(tree.chunk(tree.chunk_size()).is_none());
    assert!(tree.token(tree.token_size() - 1).is_some());
    assert!(tree.chunk(tree.chunk_size() - 1).is_some());
    assert!(tree.token(usize::MAX).is_none());
    assert!(tree.chunk(usize::MAX).is_none());
    let empty = Tree::new();
    assert!(empty.token(0).is_none());
    assert!(empty.chunk(0).is_none());
}

#[test]
fn to_string_twice_gives_the_same_text() {
    let tree = example_tree();
    for format in [
        CABOCHA_FORMAT::TREE,
        CABOCHA_FORMAT::LATTICE,
        CABOCHA_FORMAT::TREE_LATTICE,
        CABOCHA_FORMAT::XML,
        CABOCHA_FORMAT::CONLL,
        CABOCHA_FORMAT::NONE,
    ] {
        let first = tree.to_string(format, render_example);
        let second = tree.to_string(format, render_example);
        assert_eq!(first, second);
    }
    assert_eq!(tree.token_size(), 13);
    assert_eq!(tree.chunk_size(), 6);
}

#[test]
fn to_string_hands_the_code_of_the_format_to_the_engine() {
    let tree = Tree::new();
    let echo = |_: &Tree, format: i32| Some(str_to_heap_ptr(&format.to_string()));
    assert_eq!(tree.to_string(CABOCHA_FORMAT::TREE, echo), "0");
    assert_eq!(tree.to_string(CABOCHA_FORMAT::LATTICE, echo), "1");
    assert_eq!(tree.to_string(CABOCHA_FORMAT::TREE_LATTICE, echo), "2");
    assert_eq!(tree.to_string(CABOCHA_FORMAT::XML, echo), "3");
    assert_eq!(tree.to_string(CABOCHA_FORMAT::CONLL, echo), "4");
    assert_eq!(tree.to_string(CABOCHA_FORMAT::NONE, echo), "5");
}

#[test]
fn to_string_of_a_null_or_invalid_rendering_is_empty() {
    let tree = example_tree();
    assert_eq!(tree.to_string(CABOCHA_FORMAT::XML, |_: &Tree, _: i32| None), "");
    assert_eq!(
        tree.to_string(CABOCHA_FORMAT::XML, |_: &Tree, _: i32| Some(vec![0xc3u8, 0x28, 0])),
        ""
    );
}

#[test]
fn token_names_its_chunk() {
    let tree = example_tree();
    let token = tree.token(4).unwrap();
    assert_eq!(token.surface(), "描い");
    let chunk = token.chunk().unwrap();
    assert_eq!(chunk.link(), 3);
    assert_eq!(chunk.token_pos(), 4);
}

#[test]
fn token_without_chunk_has_none() {
    let mut arena = example_arena();
    arena.tokens[0].chunk = None;
    arena.tokens[1].chunk = Some(6);
    arena.tokens[2].chunk = Some(usize::MAX);
    let tree = Tree::new_from_ptr(arena);
    assert!(tree.token(0).unwrap().chunk().is_none());
    assert!(tree.token(1).unwrap().chunk().is_none());
    assert!(tree.token(2).unwrap().chunk().is_none());
    assert_eq!(tree.token(3).unwrap().chunk().unwrap().link(), 2);
}

#[test]
fn views_made_of_records_show_them() {
    let arena = example_arena();
    let tree = Tree::new_from_ptr(example_arena());
    let chunk = Chunk::new(&arena.chunks[2]);
    assert_eq!(chunk.link(), 3);
    assert_eq!(chunk.token_pos(), 4);
    assert_eq!(chunk.token_size(), 2);
    assert_eq!(f32::from_bits(chunk.score()), 1.678682);
    let token = Token::new(&arena.tokens[12], &tree);
    assert_eq!(token.surface(), "。");
    assert_eq!(token.feature(), "記号,句点,*,*,*,*,。,。,。");
    assert_eq!(token.chunk().unwrap().link(), -1);
}

#[test]
fn feature_list_reads_no_more_than_the_list_holds() {
    let mut arena = example_arena();
    arena.tokens[0].feature_list_size = 3;
    arena.tokens[1].feature_list_size = 12;
    arena.chunks[5].feature_list_size = 2;
    arena.chunks[4].feature_list_size = 7;
    let tree = Tree::new_from_ptr(arena);
    assert_eq!(tree.token(0).unwrap().feature_list(), vec!["名詞", "固有名詞", "人名"]);
    assert_eq!(tree.token(0).unwrap().feature_list_size(), 3);
    assert_eq!(tree.token(1).unwrap().feature_list().len(), 9);
    assert_eq!(tree.token(1).unwrap().feature_list_size(), 12);
    assert_eq!(tree.chunk(5).unwrap().feature_list(), vec!["GPUNC:。", "FPUNC:。"]);
    assert_eq!(tree.chunk(4).unwrap().feature_list(), Vec::<String>::new());
    assert_eq!(tree.chunk(4).unwrap().feature_list_size(), 7);
}

#[test]
fn strings_of_a_record_that_are_null_or_invalid_read_as_empty() {
    let mut arena = cabocha_tree_t::default();
    arena.tokens.push(cabocha_token_t {
        surface: Some(vec![0xffu8, 0]),
        normalized_surface: None,
        feature: Some(vec![b'x', 0, b'y']),
        feature_list: vec![None, Some(vec![0x80u8, 0])],
        feature_list_size: 2,
        ne: Some(str_to_heap_ptr("B-PERSON")),
        additional_info: Some(str_to_heap_ptr("info")),
        chunk: None,
    });
    arena.chunks.push(cabocha_chunk_t {
        additional_info: Some(str_to_heap_ptr("note")),
        ..cabocha_chunk_t::default()
    });
    let tree = Tree::new_from_ptr(arena);
    let token = tree.token(0).unwrap();
    assert_eq!(token.surface(), "");
    assert_eq!(token.normalized_surface(), "");
    assert_eq!(token.feature(), "x");
    assert_eq!(token.feature_list(), vec!["", ""]);
    assert_eq!(token.ne(), "B-PERSON");
    assert_eq!(token.additional_info(), "info");
    assert_eq!(tree.chunk(0).unwrap().additional_info(), "note");
}

#[test]
fn new_tree_is_empty() {
    let tree = Tree::new();
    assert!(tree.empty());
    assert_eq!(tree.size(), 0);
    assert_eq!(tree.token_size(), 0);
    assert_eq!(tree.chunk_size(), 0);
    assert_eq!(tree.sentence(), "");
    assert_eq!(tree.sentence_size(), 0);
    assert_eq!(tree.input(), None);
    assert_eq!(tree.inner, cabocha_tree_t::default());
    let tree = Tree::default();
    assert!(tree.empty());
    assert_eq!(tree.input(), None);
    assert_eq!(tree.inner, cabocha_tree_t::default());
}

#[test]
fn new_from_ptr_takes_the_arena_and_no_buffer() {
    let tree = Tree::new_from_ptr(example_arena());
    assert_eq!(tree.inner, example_arena());
    assert_eq!(tree.input(), None);
    assert_eq!(tree.sentence(), SENTENCE);
    assert_eq!(tree.sentence_size(), 54);
}

#[test]
fn add_token_appends_a_zeroed_token() {
    let mut tree = example_tree();
    {
        let token = tree.add_token().unwrap();
        assert_eq!(token.surface(), "");
        assert_eq!(token.normalized_surface(), "");
        assert_eq!(token.feature(), "");
        assert_eq!(token.feature_list(), Vec::<String>::new());
        assert_eq!(token.feature_list_size(), 0);
        assert_eq!(token.ne(), "");
        assert_eq!(token.additional_info(), "");
        assert!(token.chunk().is_none());
    }
    assert_eq!(tree.token_size(), 14);
    assert_eq!(tree.chunk_size(), 6);
    assert_eq!(tree.inner.tokens[13], cabocha_token_t::default());
    assert_eq!(tree.inner.tokens[..13], example_arena().tokens[..]);
    assert_eq!(tree.token(0).unwrap().surface(), "一郎");
    assert_eq!(tree.sentence(), SENTENCE);
    assert_eq!(tree.input(), Some(str_to_heap_ptr(SENTENCE).as_slice()));
}

#[test]
fn add_chunk_appends_a_zeroed_chunk() {
    let mut tree = example_tree();
    {
        let chunk = tree.add_chunk().unwrap();
        assert_eq!(chunk.link(), 0);
        assert_eq!(chunk.head_pos(), 0);
        assert_eq!(chunk.func_pos(), 0);
        assert_eq!(chunk.token_size(), 0);
        assert_eq!(chunk.token_pos(), 0);
        assert_eq!(chunk.score(), 0);
        assert_eq!(chunk.feature_list(), Vec::<String>::new());
        assert_eq!(chunk.feature_list_size(), 0);
        assert_eq!(chunk.additional_info(), "");
    }
    assert_eq!(tree.chunk_size(), 7);
    assert_eq!(tree.token_size(), 13);
    assert_eq!(tree.inner.chunks[6], cabocha_chunk_t::default());
    assert_eq!(tree.inner.chunks[..6], example_arena().chunks[..]);
}

#[test]
fn clear_removes_everything_but_the_configuration() {
    let mut tree = example_tree();
    tree.clear();
    assert!(tree.empty());
    assert_eq!(tree.token_size(), 0);
    assert_eq!(tree.chunk_size(), 0);
    assert_eq!(tree.size(), 0);
    assert_eq!(tree.sentence(), "");
    assert_eq!(tree.sentence_size(), 0);
    assert_eq!(tree.input(), None);
    assert_eq!(tree.charset(), Some(CABOCHA_CHARSET_TYPE::UTF8));
    assert_eq!(tree.posset(), Some(CABOCHA_POSSET_TYPE::IPA));
    assert_eq!(tree.output_layer(), Some(CABOCHA_OUTPUT::DEP));
}

#[test]
fn clear_chunk_keeps_the_tokens_without_their_chunks() {
    let mut tree = example_tree();
    tree.clear_chunk();
    assert_eq!(tree.chunk_size(), 0);
    assert_eq!(tree.token_size(), 13);
    assert!(!tree.empty());
    assert_eq!(tree.input(), None);
    assert_eq!(tree.sentence(), SENTENCE);
    assert_eq!(tree.charset(), Some(CABOCHA_CHARSET_TYPE::UTF8));
    let expected = example_arena();
    for (i, token) in tree.tokens().iter().enumerate() {
        assert!(token.chunk().is_none());
        assert_eq!(tree.inner.tokens[i].chunk, None);
        assert_eq!(token.surface(), ptr_text(&expected.tokens[i].surface));
        assert_eq!(token.feature(), ptr_text(&expected.tokens[i].feature));
        assert_eq!(token.feature_list().len(), 9);
    }
}

fn ptr_text(buffer: &Option<Vec<u8>>) -> String {
    cabocha::utils::ptr_to_string(cabocha::utils::buffer_ptr(buffer))
}

#[test]
fn configuration_is_read_back_as_it_was_set() {
    let mut tree = Tree::new();
    for charset in [
        CABOCHA_CHARSET_TYPE::EUC_JP,
        CABOCHA_CHARSET_TYPE::CP932,
        CABOCHA_CHARSET_TYPE::UTF8,
        CABOCHA_CHARSET_TYPE::ASCII,
    ] {
        tree.set_charset(charset);
        assert_eq!(tree.charset(), Some(charset));
        assert_eq!(tree.inner.charset, charset.code());
    }
    for posset in [
        CABOCHA_POSSET_TYPE::IPA,
        CABOCHA_POSSET_TYPE::JUMAN,
        CABOCHA_POSSET_TYPE::UNIDIC,
    ] {
        tree.set_posset(posset);
        assert_eq!(tree.posset(), Some(posset));
        assert_eq!(tree.inner.posset, posset.code());
    }
    for layer in [
        CABOCHA_OUTPUT::RAW_SENTENCE,
        CABOCHA_OUTPUT::POS,
        CABOCHA_OUTPUT::CHUNK,
        CABOCHA_OUTPUT::SELECTION,
        CABOCHA_OUTPUT::DEP,
    ] {
        tree.set_output_layer(layer);
        assert_eq!(tree.output_layer(), Some(layer));
        assert_eq!(tree.inner.output_layer, layer.code());
    }
    assert_eq!(tree.charset(), Some(CABOCHA_CHARSET_TYPE::ASCII));
    assert_eq!(tree.posset(), Some(CABOCHA_POSSET_TYPE::UNIDIC));
}

#[test]
fn configuration_codes_that_stand_for_nothing_are_unrecognized() {
    let mut arena = cabocha_tree_t::default();
    arena.charset = 4;
    arena.posset = 3;
    arena.output_layer = 5;
    let tree = Tree::new_from_ptr(arena);
    assert_eq!(tree.charset(), None);
    assert_eq!(tree.posset(), None);
    assert_eq!(tree.output_layer(), None);
    let mut arena = cabocha_tree_t::default();
    arena.charset = -1;
    arena.posset = -1;
    arena.output_layer = -1;
    let tree = Tree::new_from_ptr(arena);
    assert_eq!(tree.charset(), None);
    assert_eq!(tree.posset(), None);
    assert_eq!(tree.output_layer(), None);
    let tree = Tree::new();
    assert_eq!(tree.charset(), Some(CABOCHA_CHARSET_TYPE::EUC_JP));
    assert_eq!(tree.posset(), Some(CABOCHA_POSSET_TYPE::IPA));
    assert_eq!(tree.output_layer(), Some(CABOCHA_OUTPUT::RAW_SENTENCE));
}

#[test]
fn read_hands_buffer_length_and_layer_to_the_engine() {
    let mut tree = Tree::new();
    tree.set_sentence("絵を");
    let done = tree.read(CABOCHA_INPUT::CHUNK, |tree: &Tree, len: usize, layer: i32| {
        assert_eq!(tree.input(), Some(str_to_heap_ptr("絵を").as_slice()));
        assert!(tree.empty());
        assert_eq!(len, 6);
        assert_eq!(layer, 2);
        (1, example_arena())
    });
    assert!(done);
    assert_eq!(tree.token_size(), 13);
    assert_eq!(tree.chunk_size(), 6);
    assert_eq!(tree.input(), Some(str_to_heap_ptr("絵を").as_slice()));
    assert_eq!(tree.inner, example_arena());
}

#[test]
fn read_reports_failure_and_takes_the_arena_all_the_same() {
    let mut tree = example_tree();
    let done = tree.read(CABOCHA_INPUT::DEP, |tree: &Tree, len: usize, layer: i32| {
        assert_eq!(tree.inner, example_arena());
        assert_eq!(len, 54);
        assert_eq!(layer, 4);
        (0, cabocha_tree_t::default())
    });
    assert!(!done);
    assert!(tree.empty());
    assert_eq!(tree.input(), Some(str_to_heap_ptr(SENTENCE).as_slice()));
    let done = tree.read(CABOCHA_INPUT::RAW_SENTENCE, |_: &Tree, _: usize, layer: i32| {
        assert_eq!(layer, 0);
        (-7, example_arena())
    });
    assert!(done);
    assert_eq!(tree.token_size(), 13);
}

#[test]
fn read_without_buffer_hands_a_null_pointer_and_length_zero() {
    let mut tree = Tree::new_from_ptr(example_arena());
    let done = tree.read(CABOCHA_INPUT::POS, |tree: &Tree, len: usize, layer: i32| {
        assert_eq!(tree.input(), None);
        assert_eq!(len, 0);
        assert_eq!(layer, 1);
        (1, cabocha_tree_t::default())
    });
    assert!(done);
    let mut tree = Tree::new();
    tree.set_sentence("a\0b");
    tree.read(CABOCHA_INPUT::SELECTION, |tree: &Tree, len: usize, layer: i32| {
        assert_eq!(tree.input(), Some(&[b'a', 0u8, b'b', 0u8][..]));
        assert_eq!(len, 1);
        assert_eq!(layer, 3);
        (1, cabocha_tree_t::default())
    });
}

#[test]
fn populate_replaces_the_arena_and_keeps_the_buffer() {
    let mut tree = Tree::new();
    tree.set_sentence("絵");
    tree.populate(example_arena());
    assert_eq!(tree.inner, example_arena());
    assert_eq!(tree.input(), Some(str_to_heap_ptr("絵").as_slice()));
}

#[test]
fn parser_owns_the_buffer_of_its_arguments() {
    assert_eq!(Parser::new("").arg(), &[0u8][..]);
    assert_eq!(Parser::new("-f1 -n0").arg(), str_to_heap_ptr("-f1 -n0").as_slice());
}

#[test]
fn parse_to_tree_hands_a_fresh_tree_with_the_sentence_to_the_engine() {
    let mut parser = Parser::new("");
    let tree = parser.parse_to_tree("絵を", |tree: &Tree| {
        assert_eq!(tree.sentence(), "絵を");
        assert_eq!(tree.input(), Some(str_to_heap_ptr("絵を").as_slice()));
        assert!(tree.empty());
        assert_eq!(tree.chunk_size(), 0);
        assert_eq!(tree.inner.charset, 0);
        assert_eq!(tree.inner.posset, 0);
        assert_eq!(tree.inner.output_layer, 0);
        example_arena()
    });
    assert_eq!(tree.inner, example_arena());
    assert_eq!(tree.input(), Some(str_to_heap_ptr("絵を").as_slice()));
    assert_eq!(parser.arg(), &[0u8][..]);
}

#[test]
fn parse_to_str_of_a_null_or_invalid_answer_is_empty() {
    let mut parser = Parser::new("");
    assert_eq!(parser.parse_to_str("絵", |_: &[u8]| None), "");
    assert_eq!(parser.parse_to_str("絵", |_: &[u8]| Some(vec![0xe7u8, 0xb5, 0])), "");
    assert_eq!(
        parser.parse_to_str("を", |buf: &[u8]| Some(buf.to_vec())),
        "を"
    );
}

#[test]
fn get_last_error_reads_the_message_of_the_engine() {
    let parser = Parser::new("");
    assert_eq!(parser.get_last_error(|| None), "");
    assert_eq!(
        parser.get_last_error(|| Some(str_to_heap_ptr("no such file"))),
        "no such file"
    );
    assert_eq!(parser.get_last_error(|| Some(vec![0xffu8, 0])), "");
}
