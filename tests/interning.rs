use dust::intern::Interner;
use dust::span::{SourceFile, Symbol, Tables};

#[test]
fn intern_twice_gives_same_handle() {
    let mut t: Interner<String> = Interner::new();
    let a = t.intern("main".to_string());
    let b = t.intern("main".to_string());
    assert_eq!(a, b);
    assert_eq!(t.len(), 1);
    assert_eq!(t.get(a), "main");
}

#[test]
fn intern_handles_are_dense_in_first_insertion_order() {
    let mut t: Interner<String> = Interner::new();
    let words = ["x", "y", "z", "w"];
    for (i, w) in words.iter().enumerate() {
        assert_eq!(t.intern(w.to_string()), i);
    }
    assert_eq!(t.intern("y".to_string()), 1);
    assert_eq!(t.len(), 4);
    for (i, w) in words.iter().enumerate() {
        assert_eq!(t.get(i), w);
    }
}

#[test]
fn empty_string_is_interned_like_any_other() {
    let mut t: Interner<String> = Interner::new();
    assert_eq!(t.intern(String::new()), 0);
    assert_eq!(t.intern("a".to_string()), 1);
    assert_eq!(t.intern(String::new()), 0);
}

#[test]
fn symbol_resolves_to_its_text() {
    let mut t = Tables::new();
    let a = Symbol::new(&mut t, "alpha");
    let b = Symbol::new(&mut t, "beta");
    let c = Symbol::new(&mut t, "alpha");
    assert_eq!(a, c);
    assert_ne!(a, b);
    assert_eq!(a.ident(&t), "alpha");
    assert_eq!(b.ident(&t), "beta");
}

#[test]
fn source_file_resolves_to_its_path() {
    let mut t = Tables::new();
    let f = SourceFile::new(&mut t, "src/a.dust".to_string());
    let g = SourceFile::new(&mut t, "src/b.dust".to_string());
    let h = SourceFile::new(&mut t, "src/a.dust".to_string());
    assert_eq!(f, h);
    assert_ne!(f, g);
    assert_eq!(f.path(&t), "src/a.dust");
    assert_eq!(g.path(&t), "src/b.dust");
}

#[test]
fn symbols_and_files_use_separate_tables() {
    let mut t = Tables::new();
    let f = SourceFile::new(&mut t, "same".to_string());
    let s = Symbol::new(&mut t, "other");
    let s2 = Symbol::new(&mut t, "same");
    assert_eq!(t.files.len(), 1);
    assert_eq!(t.symbols.len(), 2);
    assert_eq!(f.path(&t), "same");
    assert_eq!(s.ident(&t), "other");
    assert_eq!(s2.ident(&t), "same");
}
