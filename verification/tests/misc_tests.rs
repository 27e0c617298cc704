use cacherch::cli::{Cli, Commands, DEFAULT_TTL};
use cacherch::errors::CacherchError;
use cacherch::indexer::{IndexStats, INDEX_DIR};
use cacherch::log::{LogStyle, TagColor};
use cacherch::types::{duplicate_results, SearchResult};

#[test]
fn search_result_keeps_its_fields() {
    let bits = 1.25f32.to_bits();
    let r = SearchResult::new("a.txt".to_string(), "/d/a.txt".to_string(), bits);
    assert_eq!(r.title(), "a.txt");
    assert_eq!(r.path(), "/d/a.txt");
    assert_eq!(r.score(), bits);
    assert_eq!(f32::from_bits(r.score()), 1.25);
}

#[test]
fn duplicate_is_equal() {
    let r = SearchResult::new("a".to_string(), "p".to_string(), 3);
    assert_eq!(r.duplicate(), r);
    let list = vec![r, SearchResult::new("b".to_string(), "q".to_string(), 4)];
    assert_eq!(duplicate_results(&list), list);
    assert_eq!(duplicate_results(&Vec::new()), Vec::new());
}

#[test]
fn cli_hands_out_its_command() {
    let cli = Cli::new(Commands::Index { path: "/docs".to_string(), flush_cache: true });
    assert_eq!(cli.cmd(), &Commands::Index { path: "/docs".to_string(), flush_cache: true });
    let cli = Cli::new(Commands::Search { query: "banana".to_string(), ttl: DEFAULT_TTL, flush_cache: false });
    assert_eq!(
        cli.cmd(),
        &Commands::Search { query: "banana".to_string(), ttl: 30, flush_cache: false }
    );
}

#[test]
fn defaults_are_as_documented() {
    assert_eq!(DEFAULT_TTL, 30);
    assert_eq!(INDEX_DIR, "./index");
    assert_eq!(IndexStats { indexed: 2 }.indexed, 2);
}

#[test]
fn error_messages_name_their_cause() {
    assert_eq!(CacherchError::Io("denied".to_string()).message(), "IO error: denied");
    assert_eq!(
        CacherchError::UnsupportedExtension("csv".to_string()).message(),
        "Unsupported file extension: csv"
    );
    assert_eq!(
        CacherchError::PdfExtraction("/d/a.pdf".to_string()).message(),
        "PDF extraction failed for: /d/a.pdf"
    );
    assert_eq!(
        CacherchError::IndexStorage("lock busy".to_string()).message(),
        "Index storage error: lock busy"
    );
    assert_eq!(
        CacherchError::QueryParse("unbalanced".to_string()).message(),
        "Query parsing error: unbalanced"
    );
    assert_eq!(
        CacherchError::IndexNotFound.message(),
        "Index not found: run the index command first"
    );
    assert_eq!(
        CacherchError::CacheStore("timeout".to_string()).message(),
        "Cache store error: timeout"
    );
}

#[test]
fn only_cache_failures_are_not_fatal() {
    assert!(CacherchError::Io(String::new()).is_fatal());
    assert!(CacherchError::UnsupportedExtension(String::new()).is_fatal());
    assert!(CacherchError::PdfExtraction(String::new()).is_fatal());
    assert!(CacherchError::IndexStorage(String::new()).is_fatal());
    assert!(CacherchError::QueryParse(String::new()).is_fatal());
    assert!(CacherchError::IndexNotFound.is_fatal());
    assert!(!CacherchError::CacheStore(String::new()).is_fatal());
}

#[test]
fn error_duplicate_is_equal() {
    let e = CacherchError::QueryParse("x".to_string());
    assert_eq!(e.duplicate(), e);
    assert_eq!(CacherchError::IndexNotFound.duplicate(), CacherchError::IndexNotFound);
}

fn is_line(got: &str, digit: char, label: &str, msg: &str) -> bool {
    let plain = format!("{} {}", label, msg);
    let painted = format!("\x1b[3{}m\x1b[1m{}\x1b[0m {}", digit, label, msg);
    got == plain || got == painted
}

#[test]
fn log_lines_carry_tag_and_message() {
    assert!(is_line(&LogStyle::info("Indexing directory: /d"), '4', "[Info]", "Indexing directory: /d"));
    assert!(is_line(&LogStyle::success("Indexing complete."), '2', "[Success]", "Indexing complete."));
    assert!(is_line(&LogStyle::warning("careful"), '3', "[Warning]", "careful"));
    assert!(is_line(&LogStyle::error("broken"), '1', "[Error]", "broken"));
    assert!(is_line(&LogStyle::info(""), '4', "[Info]", ""));
}

#[test]
fn tagged_line_takes_any_label() {
    assert!(is_line(&LogStyle::tagged(TagColor::Red, "[Fatal]", "stop"), '1', "[Fatal]", "stop"));
    assert!(LogStyle::tagged(TagColor::Green, "ok", "done").ends_with(" done"));
}

#[test]
fn tag_is_painted_where_colours_are_on() {
    console::set_colors_enabled(true);
    assert_eq!(LogStyle::info("ready"), "\x1b[34m\x1b[1m[Info]\x1b[0m ready");
    assert_eq!(LogStyle::success("done"), "\x1b[32m\x1b[1m[Success]\x1b[0m done");
    assert_eq!(LogStyle::warning("hm"), "\x1b[33m\x1b[1m[Warning]\x1b[0m hm");
    assert_eq!(LogStyle::error("no"), "\x1b[31m\x1b[1m[Error]\x1b[0m no");
}

#[test]
fn tag_is_plain_where_colours_are_off() {
    console::set_colors_enabled(false);
    assert_eq!(LogStyle::info("ready"), "[Info] ready");
    assert_eq!(LogStyle::error(""), "[Error] ");
}
