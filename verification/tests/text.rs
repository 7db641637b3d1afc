use luajit_src::text::{
    chars_of, chain, chain3, contains, copy_texts, ends_with, join, same_text, without_tail,
};

#[test]
fn chars_of_keeps_every_character() {
    assert_eq!(chars_of("a-ü"), vec!['a', '-', 'ü']);
    assert_eq!(chars_of(""), Vec::<char>::new());
}

#[test]
fn same_text_compares_characters() {
    assert!(same_text("make", "make"));
    assert!(!same_text("make", "gmake"));
    assert!(!same_text("make", "mak"));
    assert!(!same_text("make", "maKe"));
    assert!(same_text("", ""));
}

#[test]
fn ends_with_looks_at_the_tail() {
    assert!(ends_with("arm-linux-gnueabihf-gcc", "-gcc"));
    assert!(!ends_with("arm-linux-gnueabihf-gcc", "-clang"));
    assert!(!ends_with("gcc", "-gcc"));
    assert!(ends_with("-gcc", "-gcc"));
    assert!(ends_with("anything", ""));
    assert!(!ends_with("-gcc-12", "-gcc"));
}

#[test]
fn contains_finds_a_needle_anywhere() {
    assert!(contains("x86_64-pc-windows-msvc", "msvc"));
    assert!(contains("msvc-first", "msvc"));
    assert!(contains("x86_64-unknown-linux-gnu", "linux"));
    assert!(!contains("x86_64-unknown-linux-gnu", "msvc"));
    assert!(!contains("msv", "msvc"));
    assert!(!contains("ms-vc", "msvc"));
    assert!(contains("abc", ""));
    assert!(contains("", ""));
    assert!(!contains("", "a"));
}

#[test]
fn without_tail_drops_the_last_characters() {
    assert_eq!(without_tail("arm-linux-gnueabihf-gcc", 3), "arm-linux-gnueabihf-");
    assert_eq!(without_tail("x-clang", 5), "x-");
    assert_eq!(without_tail("abc", 0), "abc");
    assert_eq!(without_tail("abc", 3), "");
    assert_eq!(without_tail("abc", 4), "");
    assert_eq!(without_tail("büß", 1), "bü");
}

#[test]
fn chain_puts_texts_in_a_row() {
    assert_eq!(chain("llvm-", "ar"), "llvm-ar");
    assert_eq!(chain("", "ar"), "ar");
    assert_eq!(chain3("/usr/bin/cc", " ", "-O2 -fPIC"), "/usr/bin/cc -O2 -fPIC");
}

#[test]
fn join_separates_neighbours_only() {
    let none: Vec<String> = Vec::new();
    assert_eq!(join(&none, " "), "");
    assert_eq!(join(&vec![String::from("-fPIC")], " "), "-fPIC");
    assert_eq!(
        join(&vec![String::from("-fPIC"), String::from("-DX"), String::from("-DY")], " "),
        "-fPIC -DX -DY"
    );
    assert_eq!(join(&vec![String::from(""), String::from("")], "/"), "/");
}

#[test]
fn copy_texts_copies_all() {
    let texts = vec![String::from("a"), String::from("b")];
    assert_eq!(copy_texts(&texts), texts);
}
