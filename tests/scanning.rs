use hs_tags::category::{pattern_for, primitive_at, slot, Category, Primitive};
use hs_tags::record::{push_decimal, records_of, render, Record, ScanError};
use hs_tags::resolve::Catalog;
use hs_tags::scan::{scan, scan_parsed};
use hs_tags::syntax::{parse_haskell, Span};

const ALL_PRIMITIVES: [Primitive; 10] = [
    Primitive::Imports,
    Primitive::ExplicitExports,
    Primitive::DataType,
    Primitive::Newtype,
    Primitive::TypeSynonym,
    Primitive::Class,
    Primitive::TypeFamily,
    Primitive::Function,
    Primitive::FunctionInfix,
    Primitive::Bind,
];

const DECLARATION_KINDS: [Category; 8] = [
    Category::DataType,
    Category::Newtype,
    Category::TypeSynonym,
    Category::Class,
    Category::TypeFamily,
    Category::Function,
    Category::FunctionInfix,
    Category::Bind,
];

fn catalog() -> Catalog {
    Catalog::new().expect("every catalog pattern compiles")
}

fn run(source: &str, category: Category) -> String {
    let out = scan(&catalog(), b"M.hs", source.as_bytes().to_vec(), category).expect("scan succeeds");
    String::from_utf8(out).unwrap()
}

fn texts(output: &str) -> Vec<String> {
    output
        .lines()
        .map(|line| line.splitn(4, ':').nth(3).unwrap().to_string())
        .collect()
}

fn positions(output: &str) -> Vec<(usize, usize)> {
    output
        .lines()
        .map(|line| {
            let fields: Vec<&str> = line.splitn(4, ':').collect();
            (fields[1].parse().unwrap(), fields[2].parse().unwrap())
        })
        .collect()
}

#[test]
fn every_pattern_is_nonempty() {
    for p in ALL_PRIMITIVES {
        assert!(!pattern_for(p).is_empty());
    }
}

#[test]
fn slots_round_trip() {
    for (i, p) in ALL_PRIMITIVES.iter().enumerate() {
        assert_eq!(slot(*p), i);
        assert_eq!(primitive_at(i), *p);
    }
}

#[test]
fn composite_categories_have_no_single_pattern() {
    assert_eq!(Category::Exports.primitive(), None);
    assert_eq!(Category::Declarations.primitive(), None);
    assert_eq!(Category::Bind.primitive(), Some(Primitive::Bind));
    assert_eq!(Category::Imports.primitive(), Some(Primitive::Imports));
}

#[test]
fn catalog_compiles() {
    assert!(Catalog::new().is_ok());
}

#[test]
fn decimal_digits() {
    let mut out = Vec::new();
    push_decimal(&mut out, 0);
    assert_eq!(out, b"0".to_vec());
    let mut out = b"x".to_vec();
    push_decimal(&mut out, 1204);
    assert_eq!(out, b"x1204".to_vec());
    let mut out = Vec::new();
    push_decimal(&mut out, usize::MAX);
    assert_eq!(out, usize::MAX.to_string().into_bytes());
}

#[test]
fn record_from_span_slices_source() {
    let source = b"foo = 1\nbar = 2\n";
    let span = Span { start_byte: 8, end_byte: 11, row: 1, column: 0 };
    let rec = Record::from_span(source, span).unwrap();
    assert_eq!((rec.line, rec.column, rec.text), (1, 0, b"bar".to_vec()));
}

#[test]
fn record_from_span_rejects_out_of_range() {
    let source = b"foo";
    let past_end = Span { start_byte: 1, end_byte: 4, row: 0, column: 1 };
    assert_eq!(Record::from_span(source, past_end).unwrap_err(), ScanError::TextOutOfRange(past_end));
    let reversed = Span { start_byte: 2, end_byte: 1, row: 0, column: 2 };
    assert_eq!(Record::from_span(source, reversed).unwrap_err(), ScanError::TextOutOfRange(reversed));
}

#[test]
fn record_from_span_rejects_split_character() {
    let source = "\u{e9}x".as_bytes();
    assert_eq!(source, &[0xC3, 0xA9, b'x']);
    let cuts_end = Span { start_byte: 0, end_byte: 1, row: 0, column: 0 };
    assert_eq!(Record::from_span(source, cuts_end).unwrap_err(), ScanError::TextSplitsCharacter(cuts_end));
    let cuts_start = Span { start_byte: 1, end_byte: 3, row: 0, column: 1 };
    assert_eq!(Record::from_span(source, cuts_start).unwrap_err(), ScanError::TextSplitsCharacter(cuts_start));
    let whole = Span { start_byte: 0, end_byte: 2, row: 0, column: 0 };
    assert_eq!(Record::from_span(source, whole).unwrap().text, "\u{e9}".as_bytes().to_vec());
    let to_end = Span { start_byte: 2, end_byte: 3, row: 0, column: 2 };
    assert_eq!(Record::from_span(source, to_end).unwrap().text, b"x".to_vec());
}

#[test]
fn records_of_reports_split_character() {
    let source = "a\u{e9}".as_bytes();
    let good = Span { start_byte: 0, end_byte: 1, row: 0, column: 0 };
    let split = Span { start_byte: 1, end_byte: 2, row: 0, column: 1 };
    assert_eq!(records_of(source, &vec![good, split]).unwrap_err(), ScanError::TextSplitsCharacter(split));
}

#[test]
fn multi_byte_names_are_whole() {
    assert_eq!(run("caf\u{e9} = 1
\u{e9}t\u{e9} = 2
", Category::Bind), "M.hs:0:0:caf\u{e9}\nM.hs:1:0:\u{e9}t\u{e9}\n");
}

#[test]
fn records_of_names_first_bad_span() {
    let source = b"abc";
    let good = Span { start_byte: 0, end_byte: 1, row: 0, column: 0 };
    let bad = Span { start_byte: 2, end_byte: 9, row: 0, column: 2 };
    assert_eq!(records_of(source, &vec![good, bad]).unwrap_err(), ScanError::TextOutOfRange(bad));
    assert_eq!(records_of(source, &vec![good]).unwrap().len(), 1);
}

#[test]
fn render_writes_exact_lines() {
    let records = vec![
        Record { line: 0, column: 10, text: b"foo".to_vec() },
        Record { line: 12, column: 3, text: b"a\nb".to_vec() },
    ];
    assert_eq!(render(b"<stdin>", &records), b"<stdin>:0:10:foo\n<stdin>:12:3:a\nb\n".to_vec());
    assert_eq!(render(b"p", &Vec::new()), Vec::<u8>::new());
}

#[test]
fn parse_keeps_source() {
    let unit = parse_haskell(b"foo = 1\n".to_vec()).unwrap();
    assert_eq!(unit.source(), b"foo = 1\n");
}

#[test]
fn run_finds_imports() {
    let unit = parse_haskell(b"import Data.List\n".to_vec()).unwrap();
    let spans = catalog().run(&unit, Primitive::Imports);
    assert_eq!(spans.len(), 1);
    assert_eq!(&unit.source()[spans[0].start_byte..spans[0].end_byte], b"Data.List");
}

#[test]
fn explicit_exports_take_precedence() {
    let source = "module M (foo) where\nfoo = 1\nbar = 2\n";
    assert_eq!(texts(&run(source, Category::Exports)), vec!["foo"]);
    assert_eq!(run(source, Category::Exports), "M.hs:0:10:foo\n");
    assert_eq!(run(source, Category::Declarations), "M.hs:1:0:foo\nM.hs:2:0:bar\n");
}

#[test]
fn exports_fall_back_without_header_list() {
    let source = "module M where\nfoo = 1\n";
    assert_eq!(run(source, Category::Exports), "M.hs:1:0:foo\n");
    assert_eq!(run(source, Category::ExplicitExports), "");
}

#[test]
fn exports_fall_back_without_header() {
    let source = "foo = 1\nbar x = x\n";
    assert_eq!(run(source, Category::Exports), run(source, Category::Declarations));
    assert_eq!(texts(&run(source, Category::Exports)), vec!["bar", "foo"]);
}

#[test]
fn exports_fall_back_on_empty_list() {
    let source = "module M () where\nfoo = 1\n";
    assert_eq!(run(source, Category::Exports), run(source, Category::Declarations));
    assert_eq!(texts(&run(source, Category::Exports)), vec!["foo"]);
}

#[test]
fn imports_in_source_order() {
    let source = "import Data.List\nimport Data.Map as M\n";
    assert_eq!(run(source, Category::Imports), "M.hs:0:7:Data.List\nM.hs:1:7:Data.Map\n");
}

#[test]
fn declarations_are_sub_kinds_concatenated() {
    let source = "module M where\n\
                  data T = T\n\
                  newtype N = N Int\n\
                  type S = Int\n\
                  class C a where\n  m :: a -> a\n\
                  type family F a\n\
                  f x = x\n\
                  a <+> b = a\n\
                  v = 1\n\
                  data U = U\n";
    let whole = run(source, Category::Declarations);
    let mut joined = String::new();
    for kind in DECLARATION_KINDS {
        joined.push_str(&run(source, kind));
    }
    assert_eq!(whole, joined);
    assert_eq!(texts(&run(source, Category::DataType)), vec!["T", "U"]);
    assert_eq!(texts(&run(source, Category::Newtype)), vec!["N"]);
    assert_eq!(texts(&run(source, Category::TypeSynonym)), vec!["S"]);
    assert_eq!(texts(&run(source, Category::Class)), vec!["C"]);
    assert_eq!(texts(&run(source, Category::TypeFamily)), vec!["F"]);
    assert_eq!(texts(&run(source, Category::Function)), vec!["f"]);
    assert_eq!(texts(&run(source, Category::FunctionInfix)), vec!["<+>"]);
    assert_eq!(texts(&run(source, Category::Bind)), vec!["v"]);
}

#[test]
fn single_category_records_in_source_order() {
    let source = "a = 1\nb = 2\nc = 3\nf x = x\ng y = y\n";
    for category in [Category::Bind, Category::Function, Category::Imports] {
        let found = positions(&run(source, category));
        let mut sorted = found.clone();
        sorted.sort();
        assert_eq!(found, sorted);
    }
    assert_eq!(texts(&run(source, Category::Bind)), vec!["a", "b", "c"]);
}

#[test]
fn scanning_twice_is_identical() {
    let source = "module M (x, y) where\nimport A\nx = 1\ny = 2\n";
    for category in [Category::Exports, Category::Imports, Category::Declarations] {
        assert_eq!(run(source, category), run(source, category));
    }
}

#[test]
fn two_files_union_of_records() {
    let cat = catalog();
    let first = scan(&cat, b"a.hs", b"x = 1\ny = 2\n".to_vec(), Category::Declarations).unwrap();
    let second = scan(&cat, b"b.hs", b"data D = D\nz = 3\n".to_vec(), Category::Declarations).unwrap();
    let mut combined = second.clone();
    combined.extend_from_slice(&first);
    let combined = String::from_utf8(combined).unwrap();
    let lines: Vec<&str> = combined.lines().collect();
    let from_a: Vec<&str> = lines.iter().copied().filter(|l| l.starts_with("a.hs:")).collect();
    let from_b: Vec<&str> = lines.iter().copied().filter(|l| l.starts_with("b.hs:")).collect();
    assert_eq!(from_a, vec!["a.hs:0:0:x", "a.hs:1:0:y"]);
    assert_eq!(from_b, vec!["b.hs:0:5:D", "b.hs:1:0:z"]);
    assert_eq!(lines.len(), 4);
}

#[test]
fn scan_parsed_matches_scan() {
    let cat = catalog();
    let unit = parse_haskell(b"import X\n".to_vec()).unwrap();
    let parsed = scan_parsed(&cat, b"<stdin>", &unit, Category::Imports).unwrap();
    assert_eq!(parsed, b"<stdin>:0:7:X\n".to_vec());
    assert_eq!(scan(&cat, b"<stdin>", b"import X\n".to_vec(), Category::Imports).unwrap(), parsed);
}

#[test]
fn empty_source_gives_no_records() {
    for category in [Category::Exports, Category::Imports, Category::Declarations] {
        assert_eq!(run("", category), "");
    }
}
