use pmgr::text::strip_ansi;
use pmgr::text::fit_line;
use pmgr::filter::{filter_entries, rank_matches};
use pmgr::text::{substitute_item, with_count};

fn strings(v: &[&str]) -> Vec<String> {
    v.iter().map(|s| s.to_string()).collect()
}

#[test]
fn empty_query_keeps_every_item_in_order_with_score_zero() {
    let items = strings(&["core/vim", "extra/emacs", "extra/nano"]);
    let rows = filter_entries(&items, "");
    assert_eq!(
        rows,
        vec![
            ("core/vim".to_string(), 0),
            ("extra/emacs".to_string(), 0),
            ("extra/nano".to_string(), 0)
        ]
    );
}

#[test]
fn query_drops_non_matching_items_and_sorts_by_score() {
    let items = strings(&["extra/emacs", "extra/neovim", "core/vim", "extra/nano"]);
    let rows = filter_entries(&items, "vim");
    let names: Vec<&str> = rows.iter().map(|(s, _)| s.as_str()).collect();
    assert_eq!(rows.len(), 2);
    assert!(names.contains(&"extra/neovim"));
    assert!(names.contains(&"core/vim"));
    assert!(rows[0].1 >= rows[1].1);
    assert!(rows.iter().all(|(_, score)| *score > 0));
}

#[test]
fn query_without_match_gives_nothing() {
    let items = strings(&["core/vim", "extra/emacs"]);
    assert!(filter_entries(&items, "zzz").is_empty());
}

#[test]
fn ranking_is_descending_and_stable() {
    let items = strings(&["a", "b", "c", "d", "e"]);
    let scores = vec![Some(5), None, Some(7), Some(5), Some(7)];
    let rows = rank_matches(&items, &scores);
    assert_eq!(
        rows,
        vec![
            ("c".to_string(), 7),
            ("e".to_string(), 7),
            ("a".to_string(), 5),
            ("d".to_string(), 5)
        ]
    );
}

#[test]
fn ranking_of_nothing_is_empty() {
    assert!(rank_matches(&vec![], &vec![]).is_empty());
    assert!(rank_matches(&strings(&["a"]), &vec![None]).is_empty());
}

#[test]
fn preview_command_substitutes_every_placeholder() {
    assert_eq!(substitute_item("echo {} | xargs yay -Qi", "vim"), "echo vim | xargs yay -Qi");
    assert_eq!(substitute_item("{}{}", "x"), "xx");
    assert_eq!(substitute_item("{ } {", "x"), "{ } {");
    assert_eq!(substitute_item("", "x"), "");
}

#[test]
fn counts_are_written_in_decimal() {
    assert_eq!(with_count("remove_", 0, ""), "remove_0");
    assert_eq!(with_count("Installing ", 12, " package(s)..."), "Installing 12 package(s)...");
    assert_eq!(with_count("", 1050, ""), "1050");
}

#[test]
fn escape_sequences_are_removed() {
    assert_eq!(strip_ansi("\x1b[1;32m:: Synchronizing\x1b[0m"), ":: Synchronizing");
    assert_eq!(strip_ansi("a\x1bXb"), "ab");
    assert_eq!(strip_ansi("plain"), "plain");
    assert_eq!(strip_ansi("\x1b[12"), "");
}

#[test]
fn long_lines_are_cut_with_an_ellipsis() {
    assert_eq!(fit_line("abcdefgh", 6), "abc...");
    assert_eq!(fit_line("abcdef", 6), "abcdef");
    assert_eq!(fit_line("abcd", 2), "...");
}
