use cmt::strutil::{find_char, join, replace_char, split_char, split_words, trim, u64_to_string};
use cmt::args::parse_image;

#[test]
fn decimal_rendering() {
    assert_eq!(u64_to_string(0), "0");
    assert_eq!(u64_to_string(7), "7");
    assert_eq!(u64_to_string(10), "10");
    assert_eq!(u64_to_string(90210), "90210");
    assert_eq!(u64_to_string(u64::MAX), "18446744073709551615");
}

#[test]
fn join_strings() {
    let empty: Vec<String> = Vec::new();
    assert_eq!(join(&empty, ","), "");
    assert_eq!(join(&vec!["a".to_string()], ","), "a");
    assert_eq!(join(&vec!["a".to_string(), "b".to_string(), "c".to_string()], ", "), "a, b, c");
}

#[test]
fn split_words_on_blanks() {
    let words = split_words("  lxc-start   --name=web \t\n");
    assert_eq!(words, vec!["lxc-start".to_string(), "--name=web".to_string()]);
    let none = split_words("   \t ");
    assert!(none.is_empty());
}

#[test]
fn split_on_separator() {
    assert_eq!(split_char("a:b:c", ':'), vec!["a", "b", "c"]);
    assert_eq!(split_char("", ':'), vec![""]);
    assert_eq!(split_char("a:", ':'), vec!["a", ""]);
    assert_eq!(split_char("one\ntwo\n", '\n'), vec!["one", "two", ""]);
}

#[test]
fn trim_blanks() {
    assert_eq!(trim("  x  "), "x");
    assert_eq!(trim("\t a b \r"), "a b");
    assert_eq!(trim("   "), "");
    assert_eq!(trim(""), "");
    assert_eq!(trim("kein"), "kein");
}

#[test]
fn replace_underscores() {
    assert_eq!(replace_char("cpuset_cpus", '_', '.'), "cpuset.cpus");
    assert_eq!(replace_char("memory", '_', '.'), "memory");
    assert_eq!(replace_char("a_b_c_", '_', '.'), "a.b.c.");
}

#[test]
fn find_first_char() {
    assert_eq!(find_char("web:/srv", ':'), Some(3));
    assert_eq!(find_char("a:b:c", ':'), Some(1));
    assert_eq!(find_char("/data", ':'), None);
}

#[test]
fn image_triple() {
    let img = parse_image("alpine:3.19:amd64").unwrap();
    assert_eq!(img.distro, "alpine");
    assert_eq!(img.release, "3.19");
    assert_eq!(img.arch, "amd64");
    assert!(parse_image("alpine:3.19").is_none());
    assert!(parse_image("").is_none());
    let extra = parse_image("a:b:c:d").unwrap();
    assert_eq!(extra.arch, "c");
}
