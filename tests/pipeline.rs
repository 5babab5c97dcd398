use socket_addr_macros::{
    socket_addr, socket_addr_dyn, AddrParseError, Delimiter, Group, Ipv4Addr, Ipv6Addr, Literal,
    ResultErrAsCompileErrorExt, SocketAddr, SocketAddrV4, SocketAddrV6, Spacing, Stringify,
    ToConstLiteral, TokenStream, TokenTree,
};

fn lit(s: &str) -> TokenTree {
    TokenTree::Literal(Literal::Text(s.to_string()))
}

fn punct(c: char) -> TokenTree {
    TokenTree::Punct(c, Spacing::Alone)
}

fn stream(trees: Vec<TokenTree>) -> TokenStream {
    TokenStream { trees }
}

fn group(delimiter: Delimiter, trees: Vec<TokenTree>) -> TokenTree {
    TokenTree::Group(Group { delimiter, stream: stream(trees) })
}

fn v4(octets: [u8; 4], port: u16) -> SocketAddr {
    SocketAddr::V4(SocketAddrV4 { ip: Ipv4Addr { octets }, port })
}

fn cloudflare_v6() -> SocketAddr {
    SocketAddr::V6(SocketAddrV6 {
        ip: Ipv6Addr { segments: [0x2606, 0x4700, 0x4700, 0, 0, 0, 0, 0x1111] },
        port: 53,
        flowinfo: 0,
        scope_id: 0,
    })
}

const V4_ONES: &str = "::std::net::Ipv4Addr::new(1u8,1u8,1u8,1u8)";

#[test]
fn stringify_empty_stream() {
    assert_eq!(stream(vec![]).stringify(), "");
}

#[test]
fn stringify_ipv4_tokens() {
    let s = stream(vec![lit("1.1"), punct('.'), lit("1.1"), punct(':'), lit("53")]);
    assert_eq!(s.stringify(), "1.1.1.1:53");
}

#[test]
fn stringify_bracketed_ipv6_tokens() {
    let inner = vec![
        lit("2606"),
        punct(':'),
        lit("4700"),
        punct(':'),
        lit("4700"),
        TokenTree::Punct(':', Spacing::Joint),
        punct(':'),
        lit("1111"),
    ];
    let s = stream(vec![group(Delimiter::Bracket, inner), punct(':'), lit("53")]);
    assert_eq!(s.stringify(), "[2606:4700:4700::1111]:53");
}

#[test]
fn stringify_every_delimiter() {
    let s = stream(vec![
        group(Delimiter::Parenthesis, vec![lit("1")]),
        group(Delimiter::Brace, vec![TokenTree::Ident("x".to_string())]),
        group(Delimiter::Bracket, vec![]),
        group(Delimiter::NoDelimiter, vec![punct('-'), lit("2")]),
    ]);
    assert_eq!(s.stringify(), "(1){x}[]-2");
}

#[test]
fn stringify_nested_groups() {
    let s = stream(vec![group(
        Delimiter::Bracket,
        vec![group(Delimiter::Parenthesis, vec![group(Delimiter::Brace, vec![lit("7")])])],
    )]);
    assert_eq!(s.stringify(), "[({7})]");
}

#[test]
fn stringify_typed_literals() {
    assert_eq!(Literal::U8(0).stringify(), "0u8");
    assert_eq!(Literal::U8(255).stringify(), "255u8");
    assert_eq!(Literal::U16(65535).stringify(), "65535u16");
    assert_eq!(Literal::U32(4294967295).stringify(), "4294967295u32");
    assert_eq!(Literal::U32(10).stringify(), "10u32");
}

#[test]
fn stringify_string_literal_escapes() {
    assert_eq!(Literal::Str("ab".to_string()).stringify(), "\"ab\"");
    assert_eq!(Literal::Str("a\"b\\".to_string()).stringify(), "\"a\\\"b\\\\\"");
    assert_eq!(Literal::Str(String::new()).stringify(), "\"\"");
}

#[test]
fn stringify_single_tree_and_group() {
    let g = Group { delimiter: Delimiter::Bracket, stream: stream(vec![lit("::1")]) };
    assert_eq!(g.stringify(), "[::1]");
    assert_eq!(TokenTree::Ident("abc".to_string()).stringify(), "abc");
}

#[test]
fn ipv4_constructor_text() {
    let ip = Ipv4Addr { octets: [1, 1, 1, 1] };
    assert_eq!(ip.to_const_literal().stringify(), V4_ONES);
    let ip = Ipv4Addr { octets: [127, 0, 0, 255] };
    assert_eq!(
        ip.to_const_literal().stringify(),
        "::std::net::Ipv4Addr::new(127u8,0u8,0u8,255u8)"
    );
}

#[test]
fn ipv4_constructor_tokens() {
    let ts = Ipv4Addr { octets: [10, 20, 30, 40] }.to_const_literal();
    assert_eq!(ts.trees.len(), 13);
    assert!(matches!(ts.trees[0], TokenTree::Punct(':', Spacing::Joint)));
    assert!(matches!(ts.trees[1], TokenTree::Punct(':', Spacing::Alone)));
    match &ts.trees[12] {
        TokenTree::Group(g) => {
            assert_eq!(g.delimiter, Delimiter::Parenthesis);
            assert_eq!(g.stream.trees.len(), 7);
            assert!(matches!(g.stream.trees[6], TokenTree::Literal(Literal::U8(40))));
        }
        _ => panic!("the arguments are not a group"),
    }
}

#[test]
fn socket_v4_constructor_text() {
    let a = SocketAddrV4 { ip: Ipv4Addr { octets: [1, 1, 1, 1] }, port: 53 };
    assert_eq!(
        a.to_const_literal().stringify(),
        format!("::std::net::SocketAddrV4::new({V4_ONES},53u16,)")
    );
}

#[test]
fn ipv6_scenario_constructor_text() {
    let expected = "::std::net::SocketAddrV6::new(::std::net::Ipv6Addr::new(\
        9734u16,18176u16,18176u16,0u16,0u16,0u16,0u16,4369u16),53u16,0u32,0u32,)";
    assert_eq!(socket_addr_dyn(Ok(cloudflare_v6())).stringify(), expected);
    assert_eq!(
        socket_addr(Ok(cloudflare_v6())).stringify(),
        format!("::std::net::SocketAddr::V6({expected})")
    );
}

#[test]
fn ipv6_flowinfo_and_scope_id_are_copied() {
    let a = SocketAddrV6 {
        ip: Ipv6Addr { segments: [0, 0, 0, 0, 0, 0, 0, 1] },
        port: 8080,
        flowinfo: 7,
        scope_id: 4294967295,
    };
    assert_eq!(
        a.to_const_literal().stringify(),
        "::std::net::SocketAddrV6::new(::std::net::Ipv6Addr::new(\
         0u16,0u16,0u16,0u16,0u16,0u16,0u16,1u16),8080u16,7u32,4294967295u32,)"
    );
}

#[test]
fn general_and_specific_forms_of_v4() {
    let specific = format!("::std::net::SocketAddrV4::new({V4_ONES},53u16,)");
    assert_eq!(socket_addr_dyn(Ok(v4([1, 1, 1, 1], 53))).stringify(), specific);
    assert_eq!(
        socket_addr(Ok(v4([1, 1, 1, 1], 53))).stringify(),
        format!("::std::net::SocketAddr::V4({specific})")
    );
}

#[test]
fn port_boundaries() {
    let low = socket_addr_dyn(Ok(v4([0, 0, 0, 0], 0))).stringify();
    assert!(low.ends_with(",0u16,)"));
    let high = socket_addr_dyn(Ok(v4([255, 255, 255, 255], 65535))).stringify();
    assert_eq!(
        high,
        "::std::net::SocketAddrV4::new(::std::net::Ipv4Addr::new(255u8,255u8,255u8,255u8),65535u16,)"
    );
}

#[test]
fn parse_error_becomes_diagnostic() {
    let e = AddrParseError { description: "invalid socket address syntax".to_string() };
    let expected = "compile_error!(\"invalid socket address syntax\");";
    assert_eq!(socket_addr(Err(e.clone())).stringify(), expected);
    assert_eq!(socket_addr_dyn(Err(e)).stringify(), expected);
}

#[test]
fn diagnostic_tokens_have_no_constructor() {
    let e = AddrParseError { description: "bad \"x\"".to_string() };
    let ts = socket_addr(Err(e));
    assert_eq!(ts.trees.len(), 4);
    assert!(matches!(&ts.trees[0], TokenTree::Ident(name) if name == "compile_error"));
    assert!(matches!(ts.trees[1], TokenTree::Punct('!', _)));
    assert!(matches!(ts.trees[3], TokenTree::Punct(';', _)));
    assert_eq!(ts.stringify(), "compile_error!(\"bad \\\"x\\\"\");");
}

#[test]
fn err_as_compile_error_keeps_ok_tokens() {
    let ok: Result<TokenStream, AddrParseError> = Ok(stream(vec![lit("5")]));
    assert_eq!(ok.err_as_compile_error().stringify(), "5");
    let err: Result<TokenStream, AddrParseError> =
        Err(AddrParseError { description: "no".to_string() });
    assert_eq!(err.err_as_compile_error().stringify(), "compile_error!(\"no\");");
}

#[test]
fn different_addresses_give_different_code() {
    let a = socket_addr_dyn(Ok(v4([1, 2, 3, 4], 5))).stringify();
    let b = socket_addr_dyn(Ok(v4([12, 3, 4, 5], 5))).stringify();
    let c = socket_addr_dyn(Ok(v4([1, 2, 3, 4], 6))).stringify();
    assert_ne!(a, b);
    assert_ne!(a, c);
    assert!(a.contains("(1u8,2u8,3u8,4u8),5u16,"));
    assert!(b.contains("(12u8,3u8,4u8,5u8),5u16,"));
}

#[test]
fn families_give_different_code() {
    let general_v4 = socket_addr(Ok(v4([0, 0, 0, 0], 0))).stringify();
    let general_v6 = socket_addr(Ok(SocketAddr::V6(SocketAddrV6 {
        ip: Ipv6Addr { segments: [0; 8] },
        port: 0,
        flowinfo: 0,
        scope_id: 0,
    })))
    .stringify();
    assert!(general_v4.starts_with("::std::net::SocketAddr::V4("));
    assert!(general_v6.starts_with("::std::net::SocketAddr::V6("));
}

#[test]
fn loopback_v6_has_zero_leading_segments() {
    let ts = socket_addr_dyn(Ok(SocketAddr::V6(SocketAddrV6 {
        ip: Ipv6Addr { segments: [0, 0, 0, 0, 0, 0, 0, 1] },
        port: 65535,
        flowinfo: 0,
        scope_id: 0,
    })));
    assert_eq!(
        ts.stringify(),
        "::std::net::SocketAddrV6::new(::std::net::Ipv6Addr::new(\
         0u16,0u16,0u16,0u16,0u16,0u16,0u16,1u16),65535u16,0u32,0u32,)"
    );
}
