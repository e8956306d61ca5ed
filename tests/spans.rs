use dust::span::{Span, Spanned, Tables};

fn span(t: &mut Tables, start: usize, end: usize) -> Span {
    Span::file(t, "a.dust".to_string(), 100).within(start, end)
}

#[test]
fn file_span_covers_whole_file() {
    let mut t = Tables::new();
    let s = Span::file(&mut t, "a.dust".to_string(), 42);
    let f = dust::span::SourceFile::new(&mut t, "a.dust".to_string());
    assert_eq!(s.source, f);
    assert_eq!(s.start, 0);
    assert_eq!(s.end, 42);
    assert_eq!(s.render(&t), "a.dust:0..42");
}

#[test]
fn render_writes_multi_digit_offsets() {
    let mut t = Tables::new();
    let s = Span::file(&mut t, "dir/m.dust".to_string(), 12345).within(907, 1000);
    assert_eq!(s.render(&t), "dir/m.dust:907..1000");
}

#[test]
fn within_clamps_end_to_enclosing_span() {
    let mut t = Tables::new();
    let outer = span(&mut t, 10, 20);
    assert_eq!((outer.start, outer.end), (10, 20));
    let r = outer.within(5, 100);
    assert_eq!((r.start, r.end), (15, 20));
    assert_eq!(r.source, outer.source);
}

#[test]
fn within_clamp_boundary_at_enclosing_end() {
    let mut t = Tables::new();
    let outer = span(&mut t, 10, 20);
    let exact = outer.within(5, 10);
    assert_eq!((exact.start, exact.end), (15, 20));
    let inside = outer.within(5, 9);
    assert_eq!((inside.start, inside.end), (15, 19));
    let past = outer.within(5, 11);
    assert_eq!((past.start, past.end), (15, 20));
}

#[test]
fn within_does_not_clamp_start() {
    let mut t = Tables::new();
    let outer = span(&mut t, 10, 20);
    let r = outer.within(30, 40);
    assert_eq!((r.start, r.end), (40, 20));
}

#[test]
fn union_is_commutative_and_spans_min_to_max() {
    let mut t = Tables::new();
    let a = span(&mut t, 3, 9);
    let b = span(&mut t, 5, 20);
    let ab = a.union(b);
    let ba = b.union(a);
    assert_eq!(ab, ba);
    assert_eq!((ab.start, ab.end), (3, 20));
    assert_eq!(ab.source, a.source);
}

#[test]
fn union_is_associative() {
    let mut t = Tables::new();
    let a = span(&mut t, 7, 9);
    let b = span(&mut t, 1, 4);
    let c = span(&mut t, 12, 15);
    assert_eq!(a.union(b).union(c), a.union(b.union(c)));
    assert_eq!((a.union(b).union(c).start, a.union(b).union(c).end), (1, 15));
}

#[test]
fn union_of_nested_spans_is_outer() {
    let mut t = Tables::new();
    let outer = span(&mut t, 2, 30);
    let inner = span(&mut t, 5, 6);
    assert_eq!(outer.union(inner), outer);
    assert_eq!(inner.union(outer), outer);
}

#[test]
fn spanned_map_keeps_span() {
    let mut t = Tables::new();
    let s = span(&mut t, 4, 8);
    let n: Spanned<u32> = s.on(21);
    let m = n.map(|x| x * 2);
    assert_eq!(m.span, s);
    assert_eq!(m.node, 42);
}

#[test]
fn spanned_on_replaces_node_only() {
    let mut t = Tables::new();
    let s = span(&mut t, 4, 8);
    let n = s.on(1u8);
    let m = n.on("text");
    assert_eq!(m.span, s);
    assert_eq!(m.node, "text");
}

#[test]
fn spanned_derefs_to_node() {
    let mut t = Tables::new();
    let s = span(&mut t, 0, 3);
    let mut n = s.on(String::from("abc"));
    assert_eq!(n.len(), 3);
    n.push('d');
    assert_eq!(n.node, "abcd");
    assert_eq!(n.span, s);
}
