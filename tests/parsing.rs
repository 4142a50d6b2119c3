use pmgr::package::{parse_available, parse_installed, parse_search, qualified_names, PackageManager};
use pmgr::text::base_name;

#[test]
fn available_lines_become_packages() {
    let out = "core linux 6.9.1.arch1-1 [installed]\nextra vim 9.1.0-1\nbroken line\n";
    let pkgs = parse_available(out);
    assert_eq!(pkgs.len(), 2);
    assert_eq!(pkgs[0].repository, "core");
    assert_eq!(pkgs[0].name, "linux");
    assert_eq!(pkgs[0].version, "6.9.1.arch1-1");
    assert_eq!(pkgs[0].description, "[installed]");
    assert_eq!(pkgs[1].repository, "extra");
    assert_eq!(pkgs[1].name, "vim");
    assert_eq!(pkgs[1].version, "9.1.0-1");
    assert_eq!(pkgs[1].description, "");
}

#[test]
fn available_description_words_are_joined_by_single_spaces() {
    let pkgs = parse_available("extra  foo\t1.0   a   b\r\n");
    assert_eq!(pkgs.len(), 1);
    assert_eq!(pkgs[0].name, "foo");
    assert_eq!(pkgs[0].description, "a b");
}

#[test]
fn available_of_empty_output_is_empty() {
    assert!(parse_available("").is_empty());
    assert!(parse_available("\n\n").is_empty());
}

#[test]
fn installed_is_one_name_per_line() {
    let names = parse_installed("base\nlinux\r\nvim");
    assert_eq!(names, vec!["base".to_string(), "linux".to_string(), "vim".to_string()]);
}

#[test]
fn installed_keeps_inner_empty_lines_but_no_final_one() {
    let names = parse_installed("a\n\nb\n");
    assert_eq!(names, vec!["a".to_string(), String::new(), "b".to_string()]);
    assert!(parse_installed("").is_empty());
}

#[test]
fn search_pairs_headers_with_descriptions() {
    let out = "extra/vim 9.1.0-1 [installed]\n    Vi Improved, a highly configurable text editor\n\
               extra/neovim 0.10.0-1\n    Fork of Vim  \n";
    let pkgs = parse_search(out);
    assert_eq!(pkgs.len(), 2);
    assert_eq!(pkgs[0].repository, "extra");
    assert_eq!(pkgs[0].name, "vim");
    assert_eq!(pkgs[0].version, "9.1.0-1");
    assert_eq!(pkgs[0].description, "Vi Improved, a highly configurable text editor");
    assert_eq!(pkgs[1].name, "neovim");
    assert_eq!(pkgs[1].description, "Fork of Vim");
}

#[test]
fn search_skips_descriptions_without_header_and_headers_without_slash() {
    let out = "    orphan description\nnot-a-header 1.0\n    still orphan\naur/foo\n    Foo\n";
    let pkgs = parse_search(out);
    assert_eq!(pkgs.len(), 1);
    assert_eq!(pkgs[0].repository, "aur");
    assert_eq!(pkgs[0].name, "foo");
    assert_eq!(pkgs[0].version, "");
    assert_eq!(pkgs[0].description, "Foo");
}

#[test]
fn base_name_drops_the_repository() {
    assert_eq!(base_name("extra/vim"), "vim");
    assert_eq!(base_name("vim"), "vim");
    assert_eq!(base_name("a/b/c"), "c");
    assert_eq!(base_name("repo/"), "");
}

#[test]
fn qualified_names_join_repository_and_name() {
    let pkgs = parse_available("core linux 6.9\nextra vim 9.1\n");
    assert_eq!(qualified_names(&pkgs), vec!["core/linux".to_string(), "extra/vim".to_string()]);
}

#[test]
fn command_follows_yay_presence() {
    assert_eq!(PackageManager::new(true).get_cmd(), "yay");
    assert_eq!(PackageManager::new(false).get_cmd(), "pacman");
}

#[test]
fn separate_packages_follows_flags() {
    let pm = PackageManager::new(false);
    let pkgs = vec!["aur/a".to_string(), "core/b".to_string(), "aur/c".to_string()];
    let (aur, official) = pm.separate_packages(&pkgs, &vec![true, false, true]);
    assert_eq!(aur, vec!["aur/a".to_string(), "aur/c".to_string()]);
    assert_eq!(official, vec!["core/b".to_string()]);
}

#[test]
fn mutation_arguments() {
    let pm = PackageManager::new(true);
    assert_eq!(pm.install_args(&vec![]), None);
    assert_eq!(
        pm.install_args(&vec!["vim".to_string(), "git".to_string()]),
        Some(vec!["-S".to_string(), "vim".to_string(), "git".to_string()])
    );
    assert_eq!(pm.remove_args(&vec![]), None);
    assert_eq!(
        pm.remove_args(&vec!["vim".to_string()]),
        Some(vec!["-Rns".to_string(), "vim".to_string()])
    );
    assert_eq!(pm.info_args("vim", true), vec!["-Qi".to_string(), "vim".to_string()]);
    assert_eq!(pm.info_args("vim", false), vec!["-Si".to_string(), "vim".to_string()]);
    assert_eq!(pm.search_args("editor"), vec!["-Ss".to_string(), "editor".to_string()]);
}
