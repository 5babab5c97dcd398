//! Turning a socket address into the tokens of an expression that constructs it.
use vstd::prelude::*;

use crate::addr::{Ipv4Addr, Ipv6Addr, SocketAddr, SocketAddrV4, SocketAddrV6};
use crate::tokens::{
    Delimiter, Group, Literal, Spacing, TokenStream, TokenTree, decimal, fields_text,
    lemma_fields_text_injective, lemma_trees_spaced_push, lemma_trees_text_push, literal_text,
    stream_text, tree_text, trees_text, well_spaced,
};

verus! {

/// One path segment: `::name`.
pub open spec fn seg(name: Seq<char>) -> Seq<char> {
    seq![':', ':'] + name
}

/// The literals separated by commas, with no comma after the last one.
pub open spec fn list_text(lits: Seq<Literal>) -> Seq<char>
    decreases lits.len(),
{
    if lits.len() == 0 {
        Seq::empty()
    } else if lits.len() == 1 {
        literal_text(lits[0])
    } else {
        list_text(lits.drop_last()) + seq![','] + literal_text(lits.last())
    }
}

/// `::std::net::<ty>::<ctor>`
pub open spec fn net_path(ty: Seq<char>, ctor: Seq<char>) -> Seq<char> {
    seg("std"@) + seg("net"@) + seg(ty) + seg(ctor)
}

pub open spec fn parenthesized(inner: Seq<char>) -> Seq<char> {
    seq!['('] + inner + seq![')']
}

pub open spec fn octet_literals(a: Ipv4Addr) -> Seq<Literal> {
    a.octets@.map_values(|o: u8| Literal::U8(o))
}

pub open spec fn segment_literals(a: Ipv6Addr) -> Seq<Literal> {
    a.segments@.map_values(|s: u16| Literal::U16(s))
}

/// `::std::net::Ipv4Addr::new(a, b, c, d)` with `u8` literals.
pub open spec fn ipv4_code(a: Ipv4Addr) -> Seq<char> {
    net_path("Ipv4Addr"@, "new"@) + parenthesized(list_text(octet_literals(a)))
}

/// `::std::net::Ipv6Addr::new(...)` with eight `u16` literals.
pub open spec fn ipv6_code(a: Ipv6Addr) -> Seq<char> {
    net_path("Ipv6Addr"@, "new"@) + parenthesized(list_text(segment_literals(a)))
}

/// `::std::net::SocketAddrV4::new(ip, port,)`
pub open spec fn socket_v4_code(s: SocketAddrV4) -> Seq<char> {
    net_path("SocketAddrV4"@, "new"@) + parenthesized(
        ipv4_code(s.ip) + seq![','] + literal_text(Literal::U16(s.port)) + seq![','],
    )
}

/// `::std::net::SocketAddrV6::new(ip, port, flowinfo, scope_id,)`
pub open spec fn socket_v6_code(s: SocketAddrV6) -> Seq<char> {
    net_path("SocketAddrV6"@, "new"@) + parenthesized(
        ipv6_code(s.ip) + seq![','] + literal_text(Literal::U16(s.port)) + seq![','] + literal_text(
            Literal::U32(s.flowinfo),
        ) + seq![','] + literal_text(Literal::U32(s.scope_id)) + seq![','],
    )
}

/// The family-specific constructor call wrapped in the matching `SocketAddr` variant.
pub open spec fn socket_code(s: SocketAddr) -> Seq<char> {
    match s {
        SocketAddr::V4(a) => net_path("SocketAddr"@, "V4"@) + parenthesized(socket_v4_code(a)),
        SocketAddr::V6(a) => net_path("SocketAddr"@, "V6"@) + parenthesized(socket_v6_code(a)),
    }
}

/// The family-specific constructor call alone.
pub open spec fn specific_code(s: SocketAddr) -> Seq<char> {
    match s {
        SocketAddr::V4(a) => socket_v4_code(a),
        SocketAddr::V6(a) => socket_v6_code(a),
    }
}

fn push_tree(out: &mut Vec<TokenTree>, t: TokenTree)
    ensures
        final(out)@ == old(out)@.push(t),
        trees_text(final(out)@) == trees_text(old(out)@) + tree_text(t),
        crate::tokens::trees_spaced(final(out)@) == (crate::tokens::trees_spaced(old(out)@)
            && crate::tokens::tree_spaced(t) && crate::tokens::follows_well(old(out)@, t)),
{
    let ghost g = t;
    out.push(t);
    proof {
        lemma_trees_text_push(old(out)@, g);
        lemma_trees_spaced_push(old(out)@, g);
    }
}

fn push_segment(out: &mut Vec<TokenTree>, name: &str)
    requires
        well_spaced(old(out)@),
        old(out)@.len() == 0 || !crate::tokens::is_colon(old(out)@.last()),
    ensures
        well_spaced(final(out)@),
        final(out)@.len() > 0 && !crate::tokens::is_colon(final(out)@.last()),
        trees_text(final(out)@) == trees_text(old(out)@) + seg(name@),
{
    push_tree(out, TokenTree::Punct(':', Spacing::Joint));
    assert(out@.last() == TokenTree::Punct(':', Spacing::Joint));
    push_tree(out, TokenTree::Punct(':', Spacing::Alone));
    assert(out@.last() == TokenTree::Punct(':', Spacing::Alone));
    push_tree(out, TokenTree::Ident(String::from_str(name)));
    assert(trees_text(out@) =~= trees_text(old(out)@) + seg(name@));
}

fn push_net_path(out: &mut Vec<TokenTree>, ty: &str, ctor: &str)
    requires
        well_spaced(old(out)@),
        old(out)@.len() == 0 || !crate::tokens::is_colon(old(out)@.last()),
    ensures
        well_spaced(final(out)@),
        final(out)@.len() > 0 && !crate::tokens::is_colon(final(out)@.last()),
        trees_text(final(out)@) == trees_text(old(out)@) + net_path(ty@, ctor@),
{
    push_segment(out, "std");
    push_segment(out, "net");
    push_segment(out, ty);
    push_segment(out, ctor);
    assert(trees_text(out@) =~= trees_text(old(out)@) + net_path(ty@, ctor@));
}

fn push_parenthesized(out: &mut Vec<TokenTree>, inner: Vec<TokenTree>)
    requires
        well_spaced(old(out)@),
        well_spaced(inner@),
    ensures
        well_spaced(final(out)@),
        trees_text(final(out)@) == trees_text(old(out)@) + parenthesized(trees_text(inner@)),
{
    let ghost g = inner@;
    let group = Group { delimiter: Delimiter::Parenthesis, stream: TokenStream { trees: inner } };
    push_tree(out, TokenTree::Group(group));
    assert(trees_text(out@) =~= trees_text(old(out)@) + parenthesized(trees_text(g)));
}

fn push_comma(out: &mut Vec<TokenTree>)
    requires
        well_spaced(old(out)@),
    ensures
        well_spaced(final(out)@),
        trees_text(final(out)@) == trees_text(old(out)@) + seq![','],
{
    push_tree(out, TokenTree::Punct(',', Spacing::Alone));
}

fn push_literal(out: &mut Vec<TokenTree>, l: Literal)
    requires
        well_spaced(old(out)@),
    ensures
        well_spaced(final(out)@),
        trees_text(final(out)@) == trees_text(old(out)@) + literal_text(l),
{
    let ghost g = l;
    push_tree(out, TokenTree::Literal(l));
}

/// Produces tokens that construct a value equal to `self`, with no parsing left
/// for run time.
pub trait ToConstLiteral {
    /// The text of the constructor expression.
    spec fn code(&self) -> Seq<char>;

    fn to_const_literal(&self) -> (r: TokenStream)
        ensures
            stream_text(r) == self.code(),
            well_spaced(r.trees@),
    ;
}

impl ToConstLiteral for Ipv4Addr {
    open spec fn code(&self) -> Seq<char> {
        ipv4_code(*self)
    }

    fn to_const_literal(&self) -> (r: TokenStream) {
        let ghost lits = octet_literals(*self);
        let mut args: Vec<TokenTree> = Vec::new();
        let mut i: usize = 0;
        while i < 4
            invariant
                i <= 4,
                lits == octet_literals(*self),
                trees_text(args@) == list_text(lits.subrange(0, i as int)),
                well_spaced(args@),
            decreases 4 - i,
        {
            if i > 0 {
                push_comma(&mut args);
            }
            push_literal(&mut args, Literal::U8(self.octets[i]));
            proof {
                let next = lits.subrange(0, i + 1);
                assert(next.drop_last() =~= lits.subrange(0, i as int));
                assert(next.last() == Literal::U8(self.octets[i as int]));
                if i == 0 {
                    assert(trees_text(args@) =~= list_text(next));
                }
            }
            i = i + 1;
        }
        assert(lits.subrange(0, 4) =~= lits);
        let mut out: Vec<TokenTree> = Vec::new();
        push_net_path(&mut out, "Ipv4Addr", "new");
        push_parenthesized(&mut out, args);
        assert(trees_text(out@) =~= ipv4_code(*self));
        TokenStream { trees: out }
    }
}

impl ToConstLiteral for Ipv6Addr {
    open spec fn code(&self) -> Seq<char> {
        ipv6_code(*self)
    }

    fn to_const_literal(&self) -> (r: TokenStream) {
        let ghost lits = segment_literals(*self);
        let mut args: Vec<TokenTree> = Vec::new();
        let mut i: usize = 0;
        while i < 8
            invariant
                i <= 8,
                lits == segment_literals(*self),
                trees_text(args@) == list_text(lits.subrange(0, i as int)),
                well_spaced(args@),
            decreases 8 - i,
        {
            if i > 0 {
                push_comma(&mut args);
            }
            push_literal(&mut args, Literal::U16(self.segments[i]));
            proof {
                let next = lits.subrange(0, i + 1);
                assert(next.drop_last() =~= lits.subrange(0, i as int));
                assert(next.last() == Literal::U16(self.segments[i as int]));
                if i == 0 {
                    assert(trees_text(args@) =~= list_text(next));
                }
            }
            i = i + 1;
        }
        assert(lits.subrange(0, 8) =~= lits);
        let mut out: Vec<TokenTree> = Vec::new();
        push_net_path(&mut out, "Ipv6Addr", "new");
        push_parenthesized(&mut out, args);
        assert(trees_text(out@) =~= ipv6_code(*self));
        TokenStream { trees: out }
    }
}

impl ToConstLiteral for SocketAddrV4 {
    open spec fn code(&self) -> Seq<char> {
        socket_v4_code(*self)
    }

    fn to_const_literal(&self) -> (r: TokenStream) {
        let addr = self.ip.to_const_literal();
        let mut args = addr.trees;
        push_comma(&mut args);
        push_literal(&mut args, Literal::U16(self.port));
        push_comma(&mut args);
        let mut out: Vec<TokenTree> = Vec::new();
        push_net_path(&mut out, "SocketAddrV4", "new");
        push_parenthesized(&mut out, args);
        assert(trees_text(out@) =~= socket_v4_code(*self));
        TokenStream { trees: out }
    }
}

impl ToConstLiteral for SocketAddrV6 {
    open spec fn code(&self) -> Seq<char> {
        socket_v6_code(*self)
    }

    fn to_const_literal(&self) -> (r: TokenStream) {
        let addr = self.ip.to_const_literal();
        let mut args = addr.trees;
        push_comma(&mut args);
        push_literal(&mut args, Literal::U16(self.port));
        push_comma(&mut args);
        push_literal(&mut args, Literal::U32(self.flowinfo));
        push_comma(&mut args);
        push_literal(&mut args, Literal::U32(self.scope_id));
        push_comma(&mut args);
        let mut out: Vec<TokenTree> = Vec::new();
        push_net_path(&mut out, "SocketAddrV6", "new");
        push_parenthesized(&mut out, args);
        assert(trees_text(out@) =~= socket_v6_code(*self));
        TokenStream { trees: out }
    }
}

impl ToConstLiteral for SocketAddr {
    open spec fn code(&self) -> Seq<char> {
        socket_code(*self)
    }

    fn to_const_literal(&self) -> (r: TokenStream) {
        let mut out: Vec<TokenTree> = Vec::new();
        match self {
            SocketAddr::V4(a) => {
                let addr = a.to_const_literal();
                push_net_path(&mut out, "SocketAddr", "V4");
                push_parenthesized(&mut out, addr.trees);
            },
            SocketAddr::V6(a) => {
                let addr = a.to_const_literal();
                push_net_path(&mut out, "SocketAddr", "V6");
                push_parenthesized(&mut out, addr.trees);
            },
        }
        assert(trees_text(out@) =~= socket_code(*self));
        TokenStream { trees: out }
    }
}

/// The text that precedes the first number in the code of a `SocketAddrV4`.
pub open spec fn v4_head() -> Seq<char> {
    net_path("SocketAddrV4"@, "new"@) + seq!['('] + net_path("Ipv4Addr"@, "new"@) + seq!['(']
}

/// The text that precedes the first number in the code of a `SocketAddrV6`.
pub open spec fn v6_head() -> Seq<char> {
    net_path("SocketAddrV6"@, "new"@) + seq!['('] + net_path("Ipv6Addr"@, "new"@) + seq!['(']
}

pub open spec fn v4_numbers(a: SocketAddrV4) -> Seq<nat> {
    a.ip.octets@.map_values(|o: u8| o as nat).push(a.port as nat)
}

pub open spec fn v6_numbers(a: SocketAddrV6) -> Seq<nat> {
    a.ip.segments@.map_values(|s: u16| s as nat).push(a.port as nat).push(a.flowinfo as nat).push(
        a.scope_id as nat,
    )
}

/// What follows each number in the code of a `SocketAddrV4`.
pub open spec fn v4_after() -> Seq<Seq<char>> {
    let octet = seq!['u', '8', ','];
    seq![octet, octet, octet, seq!['u', '8', ')', ','], seq!['u', '1', '6', ',', ')']]
}

/// What follows each number in the code of a `SocketAddrV6`.
pub open spec fn v6_after() -> Seq<Seq<char>> {
    let segment = seq!['u', '1', '6', ','];
    seq![
        segment,
        segment,
        segment,
        segment,
        segment,
        segment,
        segment,
        seq!['u', '1', '6', ')', ','],
        segment,
        seq!['u', '3', '2', ','],
        seq!['u', '3', '2', ',', ')'],
    ]
}

proof fn lemma_fields_text_push(n: Seq<nat>, after: Seq<Seq<char>>, x: nat, s: Seq<char>)
    requires
        n.len() == after.len(),
    ensures
        fields_text(n.push(x), after.push(s)) == fields_text(n, after) + decimal(x) + s,
    decreases n.len(),
{
    if n.len() == 0 {
        assert(n.push(x).drop_first() =~= n);
        assert(after.push(s).drop_first() =~= after);
        assert(fields_text(n, after) =~= Seq::<char>::empty());
        assert(n.push(x)[0] == x);
        assert(after.push(s)[0] == s);
        assert(fields_text(n.push(x), after.push(s)) =~= decimal(x) + s);
    } else {
        lemma_fields_text_push(n.drop_first(), after.drop_first(), x, s);
        assert(n.push(x).drop_first() =~= n.drop_first().push(x));
        assert(after.push(s).drop_first() =~= after.drop_first().push(s));
        assert(fields_text(n.push(x), after.push(s)) =~= fields_text(n, after) + decimal(x) + s);
    }
}

proof fn lemma_list_text_push(lits: Seq<Literal>, l: Literal)
    requires
        lits.len() >= 1,
    ensures
        list_text(lits.push(l)) == list_text(lits) + seq![','] + literal_text(l),
{
    assert(lits.push(l).drop_last() =~= lits);
}

/// The first `k` literals of a list, each a number with suffix `sfx`, followed
/// by a comma, are the numbers each followed by `sfx` and a comma.
proof fn lemma_list_as_fields(
    lits: Seq<Literal>,
    nums: Seq<nat>,
    after: Seq<Seq<char>>,
    sfx: Seq<char>,
    k: int,
)
    requires
        1 <= k <= lits.len(),
        k <= nums.len(),
        k <= after.len(),
        forall|i: int|
            0 <= i < k ==> literal_text(#[trigger] lits[i]) == decimal(nums[i]) + sfx,
        forall|i: int| 0 <= i < k ==> #[trigger] after[i] == sfx + seq![','],
    ensures
        list_text(lits.subrange(0, k)) + seq![','] == fields_text(
            nums.subrange(0, k),
            after.subrange(0, k),
        ),
    decreases k,
{
    if k == 1 {
        lemma_fields_text_push(Seq::empty(), Seq::empty(), nums[0], after[0]);
        assert(nums.subrange(0, 1) =~= Seq::<nat>::empty().push(nums[0]));
        assert(after.subrange(0, 1) =~= Seq::<Seq<char>>::empty().push(after[0]));
        assert(fields_text(Seq::empty(), Seq::empty()) =~= Seq::<char>::empty());
        assert(list_text(lits.subrange(0, 1)) + seq![','] =~= decimal(nums[0]) + after[0]);
    } else {
        lemma_list_as_fields(lits, nums, after, sfx, k - 1);
        lemma_list_text_push(lits.subrange(0, k - 1), lits[k - 1]);
        assert(lits.subrange(0, k - 1).push(lits[k - 1]) =~= lits.subrange(0, k));
        lemma_fields_text_push(
            nums.subrange(0, k - 1),
            after.subrange(0, k - 1),
            nums[k - 1],
            after[k - 1],
        );
        assert(nums.subrange(0, k - 1).push(nums[k - 1]) =~= nums.subrange(0, k));
        assert(after.subrange(0, k - 1).push(after[k - 1]) =~= after.subrange(0, k));
        assert(list_text(lits.subrange(0, k)) + seq![','] =~= fields_text(
            nums.subrange(0, k),
            after.subrange(0, k),
        ));
    }
}

proof fn lemma_v4_code_fields(a: SocketAddrV4)
    ensures
        socket_v4_code(a) == v4_head() + fields_text(v4_numbers(a), v4_after()),
{
    let lits = octet_literals(a.ip);
    let nums = v4_numbers(a);
    let after = v4_after();
    let sfx = seq!['u', '8'];
    assert forall|i: int| 0 <= i < 3 implies literal_text(#[trigger] lits[i]) == decimal(nums[i])
        + sfx by {}
    assert forall|i: int| 0 <= i < 3 implies #[trigger] after[i] == sfx + seq![','] by {
        assert(after[i] =~= sfx + seq![',']);
    }
    lemma_list_as_fields(lits, nums, after, sfx, 3);
    lemma_list_text_push(lits.subrange(0, 3), lits[3]);
    assert(lits.subrange(0, 3).push(lits[3]) =~= lits);
    lemma_fields_text_push(nums.subrange(0, 3), after.subrange(0, 3), nums[3], after[3]);
    assert(nums.subrange(0, 3).push(nums[3]) =~= nums.subrange(0, 4));
    assert(after.subrange(0, 3).push(after[3]) =~= after.subrange(0, 4));
    lemma_fields_text_push(nums.subrange(0, 4), after.subrange(0, 4), nums[4], after[4]);
    assert(nums.subrange(0, 4).push(nums[4]) =~= nums);
    assert(after.subrange(0, 4).push(after[4]) =~= after);
    assert(socket_v4_code(a) =~= v4_head() + fields_text(nums, after));
}

proof fn lemma_v6_fields_through_port(a: SocketAddrV6)
    ensures
        fields_text(v6_numbers(a).subrange(0, 8), v6_after().subrange(0, 8)) == list_text(
            segment_literals(a.ip),
        ) + seq![')', ','],
{
    let lits = segment_literals(a.ip);
    let nums = v6_numbers(a);
    let after = v6_after();
    let sfx = seq!['u', '1', '6'];
    assert forall|i: int| 0 <= i < 7 implies literal_text(#[trigger] lits[i]) == decimal(nums[i])
        + sfx by {}
    assert forall|i: int| 0 <= i < 7 implies #[trigger] after[i] == sfx + seq![','] by {
        assert(after[i] =~= sfx + seq![',']);
    }
    lemma_list_as_fields(lits, nums, after, sfx, 7);
    lemma_list_text_push(lits.subrange(0, 7), lits[7]);
    assert(lits.subrange(0, 7).push(lits[7]) =~= lits);
    let list = list_text(lits);
    lemma_fields_text_push(nums.subrange(0, 7), after.subrange(0, 7), nums[7], after[7]);
    assert(nums.subrange(0, 7).push(nums[7]) =~= nums.subrange(0, 8));
    assert(after.subrange(0, 7).push(after[7]) =~= after.subrange(0, 8));
    let f8 = fields_text(nums.subrange(0, 8), after.subrange(0, 8));
    assert(f8 =~= list + seq![')', ',']);
}

#[verifier::rlimit(60)]
proof fn lemma_v6_code_fields(a: SocketAddrV6)
    ensures
        socket_v6_code(a) == v6_head() + fields_text(v6_numbers(a), v6_after()),
{
    let lits = segment_literals(a.ip);
    let nums = v6_numbers(a);
    let after = v6_after();
    let list = list_text(lits);
    lemma_v6_fields_through_port(a);
    let f8 = fields_text(nums.subrange(0, 8), after.subrange(0, 8));
    lemma_fields_text_push(nums.subrange(0, 8), after.subrange(0, 8), nums[8], after[8]);
    assert(nums.subrange(0, 8).push(nums[8]) =~= nums.subrange(0, 9));
    assert(after.subrange(0, 8).push(after[8]) =~= after.subrange(0, 9));
    let f9 = fields_text(nums.subrange(0, 9), after.subrange(0, 9));
    assert(f9 == f8 + decimal(nums[8]) + after[8]);
    lemma_fields_text_push(nums.subrange(0, 9), after.subrange(0, 9), nums[9], after[9]);
    assert(nums.subrange(0, 9).push(nums[9]) =~= nums.subrange(0, 10));
    assert(after.subrange(0, 9).push(after[9]) =~= after.subrange(0, 10));
    let f10 = fields_text(nums.subrange(0, 10), after.subrange(0, 10));
    assert(f10 == f9 + decimal(nums[9]) + after[9]);
    lemma_fields_text_push(nums.subrange(0, 10), after.subrange(0, 10), nums[10], after[10]);
    assert(nums.subrange(0, 10).push(nums[10]) =~= nums);
    assert(after.subrange(0, 10).push(after[10]) =~= after);
    let f11 = fields_text(nums, after);
    assert(f11 == f10 + decimal(nums[10]) + after[10]);
    let ip = ipv6_code(a.ip);
    assert(ip =~= net_path("Ipv6Addr"@, "new"@) + seq!['('] + list + seq![')']);
    let port = literal_text(Literal::U16(a.port));
    let flow = literal_text(Literal::U32(a.flowinfo));
    let scope = literal_text(Literal::U32(a.scope_id));
    assert(port =~= decimal(nums[8]) + seq!['u', '1', '6']);
    assert(flow =~= decimal(nums[9]) + seq!['u', '3', '2']);
    assert(scope =~= decimal(nums[10]) + seq!['u', '3', '2']);
    assert(f11 =~= list + seq![')', ','] + port + seq![','] + flow + seq![','] + scope + seq![
        ',',
        ')',
    ]);
    assert(socket_v6_code(a) =~= v6_head() + f11);
}

/// Whether two addresses are of the same family with the same fields.
pub open spec fn same_address(a: SocketAddr, b: SocketAddr) -> bool {
    match (a, b) {
        (SocketAddr::V4(x), SocketAddr::V4(y)) => x.ip.octets@ == y.ip.octets@ && x.port == y.port,
        (SocketAddr::V6(x), SocketAddr::V6(y)) => x.ip.segments@ == y.ip.segments@ && x.port
            == y.port && x.flowinfo == y.flowinfo && x.scope_id == y.scope_id,
        _ => false,
    }
}

proof fn lemma_drop_common_prefix(p: Seq<char>, x: Seq<char>, y: Seq<char>)
    requires
        p + x == p + y,
    ensures
        x == y,
{
    assert(x =~= (p + x).subrange(p.len() as int, (p + x).len() as int));
    assert(y =~= (p + y).subrange(p.len() as int, (p + y).len() as int));
}

/// The code built for a `SocketAddrV4` determines it: equal code means equal
/// octets and port, so the value the code constructs is the one it came from.
pub proof fn lemma_v4_code_determines_address(a: SocketAddrV4, b: SocketAddrV4)
    requires
        socket_v4_code(a) == socket_v4_code(b),
    ensures
        a.ip.octets@ == b.ip.octets@,
        a.port == b.port,
{
    lemma_v4_code_fields(a);
    lemma_v4_code_fields(b);
    lemma_drop_common_prefix(
        v4_head(),
        fields_text(v4_numbers(a), v4_after()),
        fields_text(v4_numbers(b), v4_after()),
    );
    lemma_fields_text_injective(v4_numbers(a), v4_numbers(b), v4_after());
    assert forall|i: int| 0 <= i < 4 implies a.ip.octets@[i] == b.ip.octets@[i] by {
        assert(v4_numbers(a)[i] == v4_numbers(b)[i]);
    }
    assert(a.ip.octets@ =~= b.ip.octets@);
    assert(v4_numbers(a)[4] == v4_numbers(b)[4]);
}

/// The code built for a `SocketAddrV6` determines it: equal code means equal
/// segments, port, flow info and scope id.
pub proof fn lemma_v6_code_determines_address(a: SocketAddrV6, b: SocketAddrV6)
    requires
        socket_v6_code(a) == socket_v6_code(b),
    ensures
        a.ip.segments@ == b.ip.segments@,
        a.port == b.port,
        a.flowinfo == b.flowinfo,
        a.scope_id == b.scope_id,
{
    lemma_v6_code_fields(a);
    lemma_v6_code_fields(b);
    lemma_drop_common_prefix(
        v6_head(),
        fields_text(v6_numbers(a), v6_after()),
        fields_text(v6_numbers(b), v6_after()),
    );
    assert forall|i: int| 0 <= i < v6_after().len() implies (#[trigger] v6_after()[i]).len() > 0
        && v6_after()[i][0] == 'u' by {}
    lemma_fields_text_injective(v6_numbers(a), v6_numbers(b), v6_after());
    assert forall|i: int| 0 <= i < 8 implies a.ip.segments@[i] == b.ip.segments@[i] by {
        assert(v6_numbers(a)[i] == v6_numbers(b)[i]);
    }
    assert(a.ip.segments@ =~= b.ip.segments@);
    assert(v6_numbers(a)[8] == v6_numbers(b)[8]);
    assert(v6_numbers(a)[9] == v6_numbers(b)[9]);
    assert(v6_numbers(a)[10] == v6_numbers(b)[10]);
}

proof fn lemma_drop_common_suffix(x: Seq<char>, y: Seq<char>, t: Seq<char>)
    requires
        x + t == y + t,
    ensures
        x == y,
{
    assert(x.len() == (x + t).len() - t.len());
    assert(y.len() == (y + t).len() - t.len());
    assert(x =~= (x + t).subrange(0, x.len() as int));
    assert(y =~= (y + t).subrange(0, y.len() as int));
}

/// The general code (`SocketAddr::V4(..)` or `SocketAddr::V6(..)`) determines
/// the address: its family and every field.
pub proof fn lemma_socket_code_determines_address(a: SocketAddr, b: SocketAddr)
    requires
        socket_code(a) == socket_code(b),
    ensures
        same_address(a, b),
{
    reveal_strlit("V4");
    reveal_strlit("V6");
    let common = seg("std"@) + seg("net"@) + seg("SocketAddr"@);
    let at = common.len() + 3int;
    match (a, b) {
        (SocketAddr::V4(x), SocketAddr::V4(y)) => {
            let p = net_path("SocketAddr"@, "V4"@) + seq!['('];
            assert(socket_code(a) =~= p + (socket_v4_code(x) + seq![')']));
            assert(socket_code(b) =~= p + (socket_v4_code(y) + seq![')']));
            lemma_drop_common_prefix(p, socket_v4_code(x) + seq![')'], socket_v4_code(y) + seq![')']);
            lemma_drop_common_suffix(socket_v4_code(x), socket_v4_code(y), seq![')']);
            lemma_v4_code_determines_address(x, y);
        },
        (SocketAddr::V6(x), SocketAddr::V6(y)) => {
            let p = net_path("SocketAddr"@, "V6"@) + seq!['('];
            assert(socket_code(a) =~= p + (socket_v6_code(x) + seq![')']));
            assert(socket_code(b) =~= p + (socket_v6_code(y) + seq![')']));
            lemma_drop_common_prefix(p, socket_v6_code(x) + seq![')'], socket_v6_code(y) + seq![')']);
            lemma_drop_common_suffix(socket_v6_code(x), socket_v6_code(y), seq![')']);
            lemma_v6_code_determines_address(x, y);
        },
        (SocketAddr::V4(x), SocketAddr::V6(y)) => {
            assert(socket_code(a)[at] == '4');
            assert(socket_code(b)[at] == '6');
        },
        (SocketAddr::V6(x), SocketAddr::V4(y)) => {
            assert(socket_code(a)[at] == '6');
            assert(socket_code(b)[at] == '4');
        },
    }
}

/// The family-specific code (`SocketAddrV4::new(..)` or `SocketAddrV6::new(..)`)
/// determines the address: its family and every field.
pub proof fn lemma_specific_code_determines_address(a: SocketAddr, b: SocketAddr)
    requires
        specific_code(a) == specific_code(b),
    ensures
        same_address(a, b),
{
    reveal_strlit("SocketAddrV4");
    reveal_strlit("SocketAddrV6");
    let at = (seg("std"@) + seg("net"@)).len() + 13int;
    match (a, b) {
        (SocketAddr::V4(x), SocketAddr::V4(y)) => {
            lemma_v4_code_determines_address(x, y);
        },
        (SocketAddr::V6(x), SocketAddr::V6(y)) => {
            lemma_v6_code_determines_address(x, y);
        },
        (SocketAddr::V4(x), SocketAddr::V6(y)) => {
            assert(specific_code(a)[at] == '4');
            assert(specific_code(b)[at] == '6');
        },
        (SocketAddr::V6(x), SocketAddr::V4(y)) => {
            assert(specific_code(a)[at] == '6');
            assert(specific_code(b)[at] == '4');
        },
    }
}

} // verus!
