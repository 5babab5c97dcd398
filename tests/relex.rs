use socket_addr_macros::{Delimiter, Group, Literal, Spacing, Stringify, TokenStream, TokenTree};

fn model(input: proc_macro2::TokenStream) -> TokenStream {
    let trees = input
        .into_iter()
        .map(|tt| match tt {
            proc_macro2::TokenTree::Group(g) => TokenTree::Group(Group {
                delimiter: match g.delimiter() {
                    proc_macro2::Delimiter::Parenthesis => Delimiter::Parenthesis,
                    proc_macro2::Delimiter::Brace => Delimiter::Brace,
                    proc_macro2::Delimiter::Bracket => Delimiter::Bracket,
                    proc_macro2::Delimiter::None => Delimiter::NoDelimiter,
                },
                stream: model(g.stream()),
            }),
            proc_macro2::TokenTree::Ident(i) => TokenTree::Ident(i.to_string()),
            proc_macro2::TokenTree::Punct(p) => TokenTree::Punct(
                p.as_char(),
                match p.spacing() {
                    proc_macro2::Spacing::Joint => Spacing::Joint,
                    proc_macro2::Spacing::Alone => Spacing::Alone,
                },
            ),
            proc_macro2::TokenTree::Literal(l) => TokenTree::Literal(Literal::Text(l.to_string())),
        })
        .collect();
    TokenStream { trees }
}

fn lex_and_stringify(text: &str) -> String {
    model(text.parse::<proc_macro2::TokenStream>().unwrap()).stringify()
}

#[test]
fn relexing_ipv4_is_stable() {
    let once = lex_and_stringify("1.1.1.1:53");
    assert_eq!(once, "1.1.1.1:53");
    assert_eq!(lex_and_stringify(&once), once);
}

#[test]
fn relexing_ipv6_is_stable() {
    let once = lex_and_stringify("[2606:4700:4700::1111]:53");
    assert_eq!(once, "[2606:4700:4700::1111]:53");
    assert_eq!(lex_and_stringify(&once), once);
}

#[test]
fn relexing_drops_whitespace_once() {
    let once = lex_and_stringify("[ ::1 ] : 8080");
    assert_eq!(once, "[::1]:8080");
    assert_eq!(lex_and_stringify(&once), once);
}

#[test]
fn relexing_nested_groups_is_stable() {
    let once = lex_and_stringify("a ( b [ c { d } ] ) - 1");
    assert_eq!(once, "a(b[c{d}])-1");
    assert_eq!(lex_and_stringify(&once), once);
}
