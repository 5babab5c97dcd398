//! Writing a token stream back out as one string.
use vstd::prelude::*;

use crate::tokens::{
    Delimiter, Group, Literal, TokenStream, TokenTree, close_char, decimal, escaped, literal_text,
    open_char, stream_text, tree_text, trees_text,
};

verus! {

broadcast use vstd::std_specs::vec::axiom_vec_index_decreases;

/// The pieces written one after the other.
pub open spec fn joined(pieces: Seq<String>) -> Seq<char> {
    pieces.map_values(|p: String| p@).flatten()
}

/// Relies on itertools::join: with an empty separator it writes every piece,
/// in order, with nothing between them.
#[verifier::external_body]
fn join_pieces(pieces: &Vec<String>) -> (r: String)
    ensures
        r@ == joined(pieces@),
{
    itertools::join(pieces, "")
}

/// Relies on String::push: the character is appended at the end.
#[verifier::external_body]
fn push_char(s: &mut String, c: char)
    ensures
        final(s)@ == old(s)@.push(c),
{
    s.push(c)
}

fn push_decimal(out: &mut String, n: u32)
    ensures
        final(out)@ == old(out)@ + decimal(n as nat),
    decreases n,
{
    if n >= 10 {
        push_decimal(out, n / 10);
    }
    let d: u8 = (n % 10) as u8;
    push_char(out, (d + 48) as char);
    assert(final(out)@ =~= old(out)@ + decimal(n as nat));
}

fn push_escaped(out: &mut String, s: &String)
    ensures
        final(out)@ == old(out)@ + escaped(s@),
{
    let t: &str = s.as_str();
    let n: usize = t.unicode_len();
    let mut i: usize = 0;
    while i < n
        invariant
            t@ == s@,
            n == s@.len(),
            i <= n,
            out@ == old(out)@ + escaped(s@.subrange(0, i as int)),
        decreases n - i,
    {
        let c: char = t.get_char(i);
        if c == '"' || c == '\\' {
            push_char(out, '\\');
        }
        push_char(out, c);
        proof {
            let next = s@.subrange(0, i + 1);
            assert(next.drop_last() =~= s@.subrange(0, i as int));
            assert(next.last() == c);
        }
        i = i + 1;
        assert(out@ =~= old(out)@ + escaped(s@.subrange(0, i as int)));
    }
    assert(s@.subrange(0, n as int) =~= s@);
}

fn literal_string(l: &Literal) -> (r: String)
    ensures
        r@ == literal_text(*l),
{
    let mut out = String::new();
    match l {
        Literal::Text(s) => {
            out = s.clone();
        },
        Literal::U8(v) => {
            push_decimal(&mut out, *v as u32);
            push_char(&mut out, 'u');
            push_char(&mut out, '8');
        },
        Literal::U16(v) => {
            push_decimal(&mut out, *v as u32);
            push_char(&mut out, 'u');
            push_char(&mut out, '1');
            push_char(&mut out, '6');
        },
        Literal::U32(v) => {
            push_decimal(&mut out, *v);
            push_char(&mut out, 'u');
            push_char(&mut out, '3');
            push_char(&mut out, '2');
        },
        Literal::Str(s) => {
            push_char(&mut out, '"');
            push_escaped(&mut out, s);
            push_char(&mut out, '"');
        },
    }
    assert(out@ =~= literal_text(*l));
    out
}

fn delimited(d: Delimiter, inner: String) -> (r: String)
    ensures
        r@ == open_char(d) + inner@ + close_char(d),
{
    let mut out = String::new();
    match d {
        Delimiter::Parenthesis => push_char(&mut out, '('),
        Delimiter::Brace => push_char(&mut out, '{'),
        Delimiter::Bracket => push_char(&mut out, '['),
        Delimiter::NoDelimiter => {},
    }
    out.append(inner.as_str());
    match d {
        Delimiter::Parenthesis => push_char(&mut out, ')'),
        Delimiter::Brace => push_char(&mut out, '}'),
        Delimiter::Bracket => push_char(&mut out, ']'),
        Delimiter::NoDelimiter => {},
    }
    assert(out@ =~= open_char(d) + inner@ + close_char(d));
    out
}

fn tree_string(t: &TokenTree) -> (r: String)
    ensures
        r@ == tree_text(*t),
    decreases t,
{
    match t {
        TokenTree::Group(g) => {
            let inner = trees_string(&g.stream.trees);
            delimited(g.delimiter, inner)
        },
        TokenTree::Ident(s) => s.clone(),
        TokenTree::Punct(c, _) => {
            let mut out = String::new();
            push_char(&mut out, *c);
            assert(out@ =~= seq![*c]);
            out
        },
        TokenTree::Literal(l) => literal_string(l),
    }
}

fn trees_string(v: &Vec<TokenTree>) -> (r: String)
    ensures
        r@ == trees_text(v@),
    decreases v,
{
    let mut pieces: Vec<String> = Vec::new();
    let mut i: usize = 0;
    while i < v.len()
        invariant
            i <= v@.len(),
            pieces@.len() == i,
            joined(pieces@) == trees_text(v@.subrange(0, i as int)),
        decreases v@.len() - i,
    {
        let piece = tree_string(&v[i]);
        proof {
            let before = pieces@.map_values(|p: String| p@);
            assert(pieces@.push(piece).map_values(|p: String| p@) =~= before.push(piece@));
            before.lemma_flatten_push(piece@);
            let next = v@.subrange(0, i + 1);
            assert(next.drop_last() =~= v@.subrange(0, i as int));
        }
        pieces.push(piece);
        i = i + 1;
    }
    assert(v@.subrange(0, i as int) =~= v@);
    join_pieces(&pieces)
}

/// Reconstructs the source text of tokens, without adding any whitespace.
pub trait Stringify {
    spec fn text(&self) -> Seq<char>;

    fn stringify(&self) -> (r: String)
        ensures
            r@ == self.text(),
    ;
}

impl Stringify for TokenStream {
    open spec fn text(&self) -> Seq<char> {
        stream_text(*self)
    }

    fn stringify(&self) -> (r: String) {
        trees_string(&self.trees)
    }
}

impl Stringify for TokenTree {
    open spec fn text(&self) -> Seq<char> {
        tree_text(*self)
    }

    fn stringify(&self) -> (r: String) {
        tree_string(self)
    }
}

impl Stringify for Group {
    open spec fn text(&self) -> Seq<char> {
        open_char(self.delimiter) + stream_text(self.stream)
            + close_char(self.delimiter)
    }

    fn stringify(&self) -> (r: String) {
        let inner = trees_string(&self.stream.trees);
        delimited(self.delimiter, inner)
    }
}

impl Stringify for Literal {
    open spec fn text(&self) -> Seq<char> {
        literal_text(*self)
    }

    fn stringify(&self) -> (r: String) {
        literal_string(self)
    }
}

} // verus!
