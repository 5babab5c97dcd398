//! A plain model of a token stream: identifiers, punctuation, literals and
//! delimited groups, together with the text that each of them stands for.
use vstd::prelude::*;

verus! {

/// The characters that open and close a group.
#[derive(Clone, Copy, PartialEq, Eq, Structural, Debug)]
pub enum Delimiter {
    Parenthesis,
    Brace,
    Bracket,
    /// An invisible group: nothing is written around its contents.
    NoDelimiter,
}

/// Whether a punctuation mark is glued to the one that follows it (`::`).
#[derive(Clone, Copy, PartialEq, Eq, Structural, Debug)]
pub enum Spacing {
    Joint,
    Alone,
}

#[derive(Debug)]
pub enum Literal {
    /// A literal as it was written in the source, e.g. `1.1` or `0x2606`.
    Text(String),
    /// An integer literal with an `u8` suffix.
    U8(u8),
    /// An integer literal with an `u16` suffix.
    U16(u16),
    /// An integer literal with an `u32` suffix.
    U32(u32),
    /// A string literal holding the given characters.
    Str(String),
}

#[derive(Debug)]
pub enum TokenTree {
    Group(Group),
    Ident(String),
    Punct(char, Spacing),
    Literal(Literal),
}

#[derive(Debug)]
pub struct Group {
    pub delimiter: Delimiter,
    pub stream: TokenStream,
}

#[derive(Debug)]
pub struct TokenStream {
    pub trees: Vec<TokenTree>,
}

pub open spec fn digit_char(d: nat) -> char
    recommends
        d < 10,
{
    ((d + 48) as u8) as char
}

/// The decimal digits of `n`, most significant first, without leading zeros.
pub open spec fn decimal(n: nat) -> Seq<char>
    decreases n,
{
    if n < 10 {
        seq![digit_char(n)]
    } else {
        decimal(n / 10).push(digit_char(n % 10))
    }
}

/// The body of a string literal: `"` and `\` are preceded by a backslash.
pub open spec fn escaped(s: Seq<char>) -> Seq<char>
    decreases s.len(),
{
    if s.len() == 0 {
        Seq::empty()
    } else {
        let c = s.last();
        let tail = if c == '"' || c == '\\' {
            seq!['\\', c]
        } else {
            seq![c]
        };
        escaped(s.drop_last()) + tail
    }
}

pub open spec fn literal_text(l: Literal) -> Seq<char> {
    match l {
        Literal::Text(s) => s@,
        Literal::U8(v) => decimal(v as nat) + seq!['u', '8'],
        Literal::U16(v) => decimal(v as nat) + seq!['u', '1', '6'],
        Literal::U32(v) => decimal(v as nat) + seq!['u', '3', '2'],
        Literal::Str(s) => seq!['"'] + escaped(s@) + seq!['"'],
    }
}

pub open spec fn open_char(d: Delimiter) -> Seq<char> {
    match d {
        Delimiter::Parenthesis => seq!['('],
        Delimiter::Brace => seq!['{'],
        Delimiter::Bracket => seq!['['],
        Delimiter::NoDelimiter => Seq::empty(),
    }
}

pub open spec fn close_char(d: Delimiter) -> Seq<char> {
    match d {
        Delimiter::Parenthesis => seq![')'],
        Delimiter::Brace => seq!['}'],
        Delimiter::Bracket => seq![']'],
        Delimiter::NoDelimiter => Seq::empty(),
    }
}

/// The text of one token tree: a group is its contents inside its delimiters.
pub open spec fn tree_text(t: TokenTree) -> Seq<char>
    decreases t,
{
    match t {
        TokenTree::Group(g) => open_char(g.delimiter) + trees_text(g.stream.trees@) + close_char(
            g.delimiter,
        ),
        TokenTree::Ident(s) => s@,
        TokenTree::Punct(c, _) => seq![c],
        TokenTree::Literal(l) => literal_text(l),
    }
}

/// The texts of the trees, one after the other, with nothing between them.
pub open spec fn trees_text(s: Seq<TokenTree>) -> Seq<char>
    decreases s,
{
    if s.len() == 0 {
        Seq::empty()
    } else {
        trees_text(s.drop_last()) + tree_text(s.last())
    }
}

pub open spec fn stream_text(s: TokenStream) -> Seq<char> {
    trees_text(s.trees@)
}


pub proof fn lemma_trees_text_push(s: Seq<TokenTree>, t: TokenTree)
    ensures
        trees_text(s.push(t)) == trees_text(s) + tree_text(t),
{
    assert(s.push(t).drop_last() =~= s);
}


pub open spec fn is_digit(c: char) -> bool {
    '0' <= c && c <= '9'
}

proof fn lemma_digit_char(d: nat)
    requires
        d < 10,
    ensures
        is_digit(digit_char(d)),
        forall|e: nat| e < 10 && digit_char(e) == digit_char(d) ==> e == d,
{
    assert(is_digit(digit_char(d)));
}


proof fn lemma_decimal_digits(n: nat)
    ensures
        decimal(n).len() >= 1,
        n >= 10 ==> decimal(n).len() >= 2,
        forall|i: int| 0 <= i < decimal(n).len() ==> is_digit(#[trigger] decimal(n)[i]),
    decreases n,
{
    lemma_digit_char(n % 10);
    if n >= 10 {
        lemma_decimal_digits(n / 10);
    }
}

proof fn lemma_decimal_injective(x: nat, y: nat)
    requires
        decimal(x) == decimal(y),
    ensures
        x == y,
    decreases x,
{
    lemma_decimal_digits(x);
    lemma_decimal_digits(y);
    lemma_digit_char(x % 10);
    if x >= 10 && y >= 10 {
        assert(decimal(x).last() == digit_char(x % 10));
        assert(decimal(y).last() == digit_char(y % 10));
        assert(decimal(x).drop_last() =~= decimal(x / 10));
        assert(decimal(y).drop_last() =~= decimal(y / 10));
        lemma_decimal_injective(x / 10, y / 10);
    } else if x < 10 && y < 10 {
        assert(decimal(x)[0] == digit_char(x));
        assert(decimal(y)[0] == digit_char(y));
    }
}

/// A number's digits followed by a text that starts with something other than
/// a digit can be read back: the number and the text are both recovered.
pub proof fn lemma_decimal_prefix(x: nat, y: nat, r1: Seq<char>, r2: Seq<char>)
    requires
        decimal(x) + r1 == decimal(y) + r2,
        r1.len() > 0 && !is_digit(r1[0]),
        r2.len() > 0 && !is_digit(r2[0]),
    ensures
        x == y,
        r1 == r2,
{
    lemma_decimal_digits(x);
    lemma_decimal_digits(y);
    let dx = decimal(x);
    let dy = decimal(y);
    if dx.len() < dy.len() {
        assert((dx + r1)[dx.len() as int] == r1[0]);
        assert((dy + r2)[dx.len() as int] == dy[dx.len() as int]);
    } else if dy.len() < dx.len() {
        assert((dy + r2)[dy.len() as int] == r2[0]);
        assert((dx + r1)[dy.len() as int] == dx[dy.len() as int]);
    } else {
        assert(dx =~= (dx + r1).subrange(0, dx.len() as int));
        assert(dy =~= (dy + r2).subrange(0, dy.len() as int));
        assert(r1 =~= (dx + r1).subrange(dx.len() as int, (dx + r1).len() as int));
        assert(r2 =~= (dy + r2).subrange(dy.len() as int, (dy + r2).len() as int));
        lemma_decimal_injective(x, y);
    }
}

/// Numbers in decimal, each followed by its own text.
pub open spec fn fields_text(nums: Seq<nat>, after: Seq<Seq<char>>) -> Seq<char>
    decreases nums.len(),
{
    if nums.len() == 0 {
        Seq::empty()
    } else {
        decimal(nums[0]) + after[0] + fields_text(nums.drop_first(), after.drop_first())
    }
}

/// Where every number is followed by a text that starts with a letter, the
/// whole text determines the numbers.
pub proof fn lemma_fields_text_injective(n1: Seq<nat>, n2: Seq<nat>, after: Seq<Seq<char>>)
    requires
        n1.len() == after.len(),
        n2.len() == after.len(),
        forall|i: int| 0 <= i < after.len() ==> (#[trigger] after[i]).len() > 0 && after[i][0] == 'u',
        fields_text(n1, after) == fields_text(n2, after),
    ensures
        n1 == n2,
    decreases after.len(),
{
    if after.len() > 0 {
        let r1 = after[0] + fields_text(n1.drop_first(), after.drop_first());
        let r2 = after[0] + fields_text(n2.drop_first(), after.drop_first());
        assert(fields_text(n1, after) =~= decimal(n1[0]) + r1);
        assert(fields_text(n2, after) =~= decimal(n2[0]) + r2);
        assert(r1[0] == 'u');
        assert(r2[0] == 'u');
        lemma_decimal_prefix(n1[0], n2[0], r1, r2);
        let k = after[0].len() as int;
        assert(fields_text(n1.drop_first(), after.drop_first()) =~= r1.subrange(k, r1.len() as int));
        assert(fields_text(n2.drop_first(), after.drop_first()) =~= r2.subrange(k, r2.len() as int));
        lemma_fields_text_injective(n1.drop_first(), n2.drop_first(), after.drop_first());
        assert(n1 =~= seq![n1[0]] + n1.drop_first());
        assert(n2 =~= seq![n2[0]] + n2.drop_first());
    } else {
        assert(n1 =~= n2);
    }
}


pub open spec fn is_joint(t: TokenTree) -> bool {
    t matches TokenTree::Punct(_, Spacing::Joint)
}

pub open spec fn is_colon(t: TokenTree) -> bool {
    t matches TokenTree::Punct(':', _)
}

/// How `t` may follow `prev`: only a colon is joint, and never right after a
/// joint mark; a joint colon is followed by an alone colon; two adjacent colons
/// are glued, the first joint.
pub open spec fn follows_well(prev: Seq<TokenTree>, t: TokenTree) -> bool {
    &&& is_joint(t) ==> is_colon(t) && !(prev.len() > 0 && is_joint(prev.last()))
    &&& prev.len() > 0 && is_joint(prev.last()) ==> t == TokenTree::Punct(':', Spacing::Alone)
    &&& prev.len() > 0 && is_colon(prev.last()) && is_colon(t) ==> is_joint(prev.last())
}

/// Every `::` in the tree, at any depth, is one joint colon and one alone colon,
/// and no other mark is joint.
pub open spec fn tree_spaced(t: TokenTree) -> bool
    decreases t,
{
    match t {
        TokenTree::Group(g) => trees_spaced(g.stream.trees@) && !(g.stream.trees@.len() > 0
            && is_joint(g.stream.trees@.last())),
        _ => true,
    }
}

pub open spec fn trees_spaced(s: Seq<TokenTree>) -> bool
    decreases s,
{
    if s.len() == 0 {
        true
    } else {
        trees_spaced(s.drop_last()) && tree_spaced(s.last()) && follows_well(s.drop_last(), s.last())
    }
}

/// A stream whose marks are spaced as in written code, ending in no joint mark.
pub open spec fn well_spaced(s: Seq<TokenTree>) -> bool {
    trees_spaced(s) && !(s.len() > 0 && is_joint(s.last()))
}

pub proof fn lemma_trees_spaced_push(s: Seq<TokenTree>, t: TokenTree)
    ensures
        trees_spaced(s.push(t)) == (trees_spaced(s) && tree_spaced(t) && follows_well(s, t)),
{
    assert(s.push(t).drop_last() =~= s);
}

} // verus!
