use crate::intern::{interned, interned_handle, Interner};
use vstd::prelude::*;

verus! {

/// The two tables that handles point into: file paths and identifiers.
pub struct Tables {
    pub files: Interner<String>,
    pub symbols: Interner<String>,
}

impl Tables {
    pub open spec fn wf(&self) -> bool {
        self.files.wf() && self.symbols.wf()
    }

    pub fn new() -> (r: Tables)
        ensures
            r.wf(),
            r.files@ == Seq::<Seq<char>>::empty(),
            r.symbols@ == Seq::<Seq<char>>::empty(),
    {
        Tables { files: Interner::new(), symbols: Interner::new() }
    }
}

/// A handle to an interned file path.
#[derive(Copy, Clone, PartialEq, Eq, Structural, Debug)]
pub struct SourceFile(usize);

impl SourceFile {
    /// The position of the path in the file table.
    pub closed spec fn id(self) -> int {
        self.0 as int
    }

    pub fn new(tables: &mut Tables, path: String) -> (r: SourceFile)
        requires
            old(tables).wf(),
            old(tables).files@.len() < usize::MAX,
        ensures
            final(tables).wf(),
            final(tables).symbols == old(tables).symbols,
            final(tables).files@ == interned(old(tables).files@, path@),
            r.id() == interned_handle(old(tables).files@, path@),
            0 <= r.id() < final(tables).files@.len(),
            final(tables).files@[r.id()] == path@,
    {
        SourceFile(tables.files.intern(path))
    }

    pub fn path(self, tables: &Tables) -> (r: String)
        requires
            0 <= self.id() < tables.files@.len(),
        ensures
            r@ == tables.files@[self.id()],
    {
        tables.files.get(self.0).clone()
    }
}

/// Two file handles are equal exactly when they point at the same entry.
pub broadcast proof fn lemma_source_file_eq(a: SourceFile, b: SourceFile)
    ensures
        #![trigger a.id(), b.id()]
        (a.id() == b.id()) == (a == b),
{
}

/// A handle to an interned identifier.
#[derive(Copy, Clone, PartialEq, Eq, Structural, Debug)]
pub struct Symbol(usize);

impl Symbol {
    /// The position of the identifier in the symbol table.
    pub closed spec fn id(self) -> int {
        self.0 as int
    }

    pub fn new(tables: &mut Tables, ident: &str) -> (r: Symbol)
        requires
            old(tables).wf(),
            old(tables).symbols@.len() < usize::MAX,
        ensures
            final(tables).wf(),
            final(tables).files == old(tables).files,
            final(tables).symbols@ == interned(old(tables).symbols@, ident@),
            r.id() == interned_handle(old(tables).symbols@, ident@),
            0 <= r.id() < final(tables).symbols@.len(),
            final(tables).symbols@[r.id()] == ident@,
    {
        Symbol(tables.symbols.intern(ident.to_owned()))
    }

    pub fn ident(self, tables: &Tables) -> (r: String)
        requires
            0 <= self.id() < tables.symbols@.len(),
        ensures
            r@ == tables.symbols@[self.id()],
    {
        tables.symbols.get(self.0).clone()
    }
}

/// Two symbols are equal exactly when they point at the same entry.
pub broadcast proof fn lemma_symbol_eq(a: Symbol, b: Symbol)
    ensures
        #![trigger a.id(), b.id()]
        (a.id() == b.id()) == (a == b),
{
}

/// A half-open byte range `[start, end)` of one source file.
#[derive(Copy, Clone, PartialEq, Eq, Structural, Debug)]
pub struct Span {
    pub source: SourceFile,
    pub start: usize,
    pub end: usize,
}

pub open spec fn min(a: usize, b: usize) -> usize {
    if a <= b {
        a
    } else {
        b
    }
}

pub open spec fn max(a: usize, b: usize) -> usize {
    if a >= b {
        a
    } else {
        b
    }
}

/// The decimal digits of `n`, most significant first.
pub open spec fn decimal(n: nat) -> Seq<char>
    decreases n,
{
    if n < 10 {
        seq![digit(n)]
    } else {
        decimal(n / 10) + seq![digit(n % 10)]
    }
}

pub open spec fn digit(d: nat) -> char {
    if d == 0 { '0' }
    else if d == 1 { '1' }
    else if d == 2 { '2' }
    else if d == 3 { '3' }
    else if d == 4 { '4' }
    else if d == 5 { '5' }
    else if d == 6 { '6' }
    else if d == 7 { '7' }
    else if d == 8 { '8' }
    else { '9' }
}

/// Relies on `usize`'s `ToString` (through `Display`): an unsigned integer
/// is written as its decimal digits, with no sign and no leading zeros.
#[verifier::external_body]
fn decimal_text(n: usize) -> (r: String)
    ensures
        r@ == decimal(n as nat),
{
    n.to_string()
}

impl Span {
    /// The smallest span covering both `self` and `other`.
    pub open spec fn joined(self, other: Span) -> Span {
        Span { source: self.source, start: min(self.start, other.start), end: max(self.end, other.end) }
    }

    /// The text `path:start..end`, given the path of the source file.
    pub open spec fn rendered(self, path: Seq<char>) -> Seq<char> {
        path + seq![':'] + decimal(self.start as nat) + seq!['.', '.'] + decimal(self.end as nat)
    }

    /// The span of a whole file of `len` bytes, `[0, len)`.
    pub fn file(tables: &mut Tables, path: String, len: usize) -> (r: Span)
        requires
            old(tables).wf(),
            old(tables).files@.len() < usize::MAX,
        ensures
            final(tables).wf(),
            final(tables).symbols == old(tables).symbols,
            final(tables).files@ == interned(old(tables).files@, path@),
            r.source.id() == interned_handle(old(tables).files@, path@),
            0 <= r.source.id() < final(tables).files@.len(),
            final(tables).files@[r.source.id()] == path@,
            r.start == 0,
            r.end == len,
    {
        Span { source: SourceFile::new(tables, path), start: 0, end: len }
    }

    pub fn on<T>(self, node: T) -> (r: Spanned<T>)
        ensures
            r.span == self,
            r.node == node,
    {
        Spanned { span: self, node }
    }

    /// The sub-range `[start, end)` counted from this span's start, with its
    /// end kept within this span. The start is not clamped.
    pub fn within(self, start: usize, end: usize) -> (r: Span)
        requires
            self.start + start <= usize::MAX,
            self.start + end <= usize::MAX,
        ensures
            r.source == self.source,
            r.start == self.start + start,
            r.end == min((self.start + end) as usize, self.end),
    {
        let e = self.start + end;
        Span { source: self.source, start: self.start + start, end: if e <= self.end { e } else { self.end } }
    }

    /// The smallest span covering both spans, which lie in the same file.
    pub fn union(self, other: Span) -> (r: Span)
        requires
            self.source == other.source,
        ensures
            r == self.joined(other),
            r.source == self.source,
            r.start == min(self.start, other.start),
            r.end == max(self.end, other.end),
    {
        Span {
            source: self.source,
            start: if self.start <= other.start { self.start } else { other.start },
            end: if self.end >= other.end { self.end } else { other.end },
        }
    }

    /// The text `path:start..end`.
    pub fn render(&self, tables: &Tables) -> (r: String)
        requires
            0 <= self.source.id() < tables.files@.len(),
        ensures
            r@ == self.rendered(tables.files@[self.source.id()]),
    {
        let mut r = self.source.path(tables);
        r.append(":");
        let s = decimal_text(self.start);
        r.append(s.as_str());
        r.append("..");
        let e = decimal_text(self.end);
        r.append(e.as_str());
        proof {
            reveal_strlit(":");
            reveal_strlit("..");
        }
        assert(r@ =~= self.rendered(tables.files@[self.source.id()]));
        r
    }
}

/// Unioning spans is commutative and associative, and the union runs from
/// the smaller start to the larger end.
pub proof fn lemma_union_laws(a: Span, b: Span, c: Span)
    requires
        a.source == b.source,
        b.source == c.source,
    ensures
        a.joined(b) == b.joined(a),
        a.joined(b).joined(c) == a.joined(b.joined(c)),
        a.joined(b).source == a.source,
        a.joined(b).start == min(a.start, b.start),
        a.joined(b).end == max(a.end, b.end),
{
}

/// A node together with the span of source text it came from.
#[derive(PartialEq, Eq, Debug)]
pub struct Spanned<T> {
    pub span: Span,
    pub node: T,
}

impl<T> Spanned<T> {
    /// Applies `f` to the node and keeps the span.
    pub fn map<U, F: FnOnce(T) -> U>(self, f: F) -> (r: Spanned<U>)
        requires
            f.requires((self.node,)),
        ensures
            r.span == self.span,
            f.ensures((self.node,), r.node),
    {
        let span = self.span;
        span.on(f(self.node))
    }

    /// Replaces the node and keeps the span.
    pub fn on<U>(self, node: U) -> (r: Spanned<U>)
        ensures
            r.span == self.span,
            r.node == node,
    {
        self.span.on(node)
    }
}

impl<T> core::ops::Deref for Spanned<T> {
    type Target = T;

    fn deref(&self) -> &T {
        &self.node
    }
}

impl<T> core::ops::DerefMut for Spanned<T> {
    fn deref_mut(&mut self) -> &mut T {
        &mut self.node
    }
}

} // verus!
