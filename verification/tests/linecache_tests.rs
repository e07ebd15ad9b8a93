//! Line cache behavior under update ops, driven through the wire form.

use xi_win::linecache::{Line, LineCache, Op, Update};

fn parse_update(text: &str) -> Update {
    let v: serde_json::Value = serde_json::from_str(text).unwrap();
    Update::from_json(&v).unwrap()
}

fn cache_with_lines(texts: &[&str]) -> LineCache {
    let mut cache = LineCache::new();
    let mut lines: Vec<Line> = Vec::new();
    for t in texts {
        lines.push(Line::new((*t).to_string(), Vec::new()));
    }
    cache.apply_update(Update { ops: vec![Op::Insert(lines)] });
    assert_eq!(cache.height(), texts.len());
    cache
}

#[test]
fn insert_into_empty_cache() {
    let mut cache = LineCache::new();
    assert_eq!(cache.height(), 0);
    let update = parse_update(
        "{\"ops\":[{\"op\":\"ins\",\"lines\":[{\"text\":\"hello\",\"cursor\":[0]}]}]}",
    );
    cache.apply_update(update);
    assert_eq!(cache.height(), 1);
    let line = cache.get_line(0).unwrap();
    assert_eq!(line.text(), "hello");
    assert_eq!(line.cursor(), &[0usize]);
}

#[test]
fn copy_skip_copy_reorders() {
    let mut cache = cache_with_lines(&["one", "two", "three"]);
    let update = parse_update(
        "{\"ops\":[{\"op\":\"copy\",\"n\":1},{\"op\":\"skip\",\"n\":1},{\"op\":\"copy\",\"n\":1}]}",
    );
    cache.apply_update(update);
    assert_eq!(cache.height(), 2);
    assert_eq!(cache.get_line(0).unwrap().text(), "one");
    assert_eq!(cache.get_line(1).unwrap().text(), "three");
}

#[test]
fn invalidate_all_keeps_height() {
    let mut cache = cache_with_lines(&["a", "b", "c", "d", "e"]);
    let update = parse_update("{\"ops\":[{\"op\":\"invalid\",\"n\":5}]}");
    cache.apply_update(update);
    assert_eq!(cache.height(), 5);
    for i in 0..5 {
        assert!(cache.get_line(i).is_none());
    }
}

#[test]
fn height_sums_ins_copy_invalid_never_skip() {
    let mut cache = cache_with_lines(&["a", "b", "c"]);
    let update = parse_update(
        "{\"ops\":[{\"op\":\"ins\",\"lines\":[{\"text\":\"x\"},{\"text\":\"y\"}]},\
         {\"op\":\"copy\",\"n\":1},{\"op\":\"skip\",\"n\":2},{\"op\":\"invalid\",\"n\":3}]}",
    );
    cache.apply_update(update);
    assert_eq!(cache.height(), 2 + 1 + 3);
}

#[test]
fn copy_whole_cache_round_trips() {
    let mut cache = cache_with_lines(&["alpha", "beta", "gamma"]);
    let n = cache.height();
    let update = parse_update(&format!("{{\"ops\":[{{\"op\":\"copy\",\"n\":{}}}]}}", n));
    cache.apply_update(update);
    assert_eq!(cache.height(), 3);
    assert_eq!(cache.get_line(0).unwrap().text(), "alpha");
    assert_eq!(cache.get_line(1).unwrap().text(), "beta");
    assert_eq!(cache.get_line(2).unwrap().text(), "gamma");
}

#[test]
fn empty_update_clears_cache() {
    let mut cache = cache_with_lines(&["a", "b"]);
    cache.apply_update(parse_update("{\"ops\":[]}"));
    assert_eq!(cache.height(), 0);
    assert!(cache.get_line(0).is_none());
}

#[test]
fn copy_past_end_fills_placeholders() {
    let mut cache = cache_with_lines(&["a", "b"]);
    cache.apply_update(parse_update("{\"ops\":[{\"op\":\"copy\",\"n\":4}]}"));
    assert_eq!(cache.height(), 4);
    assert_eq!(cache.get_line(0).unwrap().text(), "a");
    assert_eq!(cache.get_line(1).unwrap().text(), "b");
    assert!(cache.get_line(2).is_none());
    assert!(cache.get_line(3).is_none());
}

#[test]
fn get_line_out_of_range_is_none() {
    let cache = cache_with_lines(&["a"]);
    assert!(cache.get_line(1).is_none());
    assert!(cache.get_line(100).is_none());
}

#[test]
fn malformed_copy_without_count_is_rejected() {
    let v: serde_json::Value = serde_json::from_str("{\"ops\":[{\"op\":\"copy\"}]}").unwrap();
    assert!(Update::from_json(&v).is_none());
}

#[test]
fn update_without_ops_is_rejected() {
    let v: serde_json::Value = serde_json::from_str("{\"nonsense\":1}").unwrap();
    assert!(Update::from_json(&v).is_none());
}

#[test]
fn unknown_op_is_skipped() {
    let mut cache = LineCache::new();
    let update = parse_update(
        "{\"ops\":[{\"op\":\"sparkle\",\"n\":2},{\"op\":\"invalid\",\"n\":1}]}",
    );
    cache.apply_update(update);
    assert_eq!(cache.height(), 1);
}

#[test]
fn line_without_text_is_rejected() {
    let v: serde_json::Value = serde_json::from_str("{\"cursor\":[0]}").unwrap();
    assert!(Line::from_json(&v).is_none());
}

#[test]
fn line_with_bad_cursor_is_rejected() {
    let v: serde_json::Value =
        serde_json::from_str("{\"text\":\"x\",\"cursor\":[\"zero\"]}").unwrap();
    assert!(Line::from_json(&v).is_none());
}

#[test]
fn line_without_cursor_has_no_carets() {
    let v: serde_json::Value = serde_json::from_str("{\"text\":\"x\"}").unwrap();
    let line = Line::from_json(&v).unwrap();
    assert_eq!(line.text(), "x");
    assert!(line.cursor().is_empty());
}
