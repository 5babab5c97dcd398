//! Socket addresses written as tokens, checked and turned into constructor code.
//!
//! The input tokens are written back out as text ([`Stringify`]); once that text
//! is parsed, [`socket_addr`] and [`socket_addr_dyn`] produce tokens that build
//! the address with explicit constructor calls, or tokens that stop the build
//! with the parse error as the message.
use vstd::prelude::*;

pub mod addr;
pub mod diagnostic;
pub mod stringify;
pub mod to_const_literal;
pub mod tokens;

pub use addr::{Ipv4Addr, Ipv6Addr, SocketAddr, SocketAddrV4, SocketAddrV6};
pub use diagnostic::{AddrParseError, ResultErrAsCompileErrorExt};
pub use stringify::Stringify;
pub use to_const_literal::ToConstLiteral;
pub use tokens::{Delimiter, Group, Literal, Spacing, TokenStream, TokenTree};

use diagnostic::error_code;
use to_const_literal::{net_path, parenthesized, socket_code, specific_code};
use tokens::{stream_text, well_spaced};

verus! {

/// Tokens that build a `SocketAddr` equal to the parsed address, the family's
/// constructor wrapped in the matching variant; or, where the text did not
/// parse, tokens that fail the build with the error's description.
pub fn socket_addr(parsed: Result<SocketAddr, AddrParseError>) -> (r: TokenStream)
    ensures
        match parsed {
            Ok(a) => stream_text(r) == socket_code(a),
            Err(e) => stream_text(r) == error_code(e.description@),
        },
        well_spaced(r.trees@),
{
    let built: Result<TokenStream, AddrParseError> = match parsed {
        Ok(a) => Ok(a.to_const_literal()),
        Err(e) => Err(e),
    };
    built.err_as_compile_error()
}

/// Like [`socket_addr`], but the tokens build the family's own type
/// (`SocketAddrV4` or `SocketAddrV6`), without the `SocketAddr` wrapper.
pub fn socket_addr_dyn(parsed: Result<SocketAddr, AddrParseError>) -> (r: TokenStream)
    ensures
        match parsed {
            Ok(a) => stream_text(r) == specific_code(a),
            Err(e) => stream_text(r) == error_code(e.description@),
        },
        well_spaced(r.trees@),
{
    let built: Result<TokenStream, AddrParseError> = match parsed {
        Ok(SocketAddr::V4(a)) => Ok(a.to_const_literal()),
        Ok(SocketAddr::V6(a)) => Ok(a.to_const_literal()),
        Err(e) => Err(e),
    };
    built.err_as_compile_error()
}

/// The general output is the family-specific output wrapped in the variant of
/// the address's family, and nothing else.
pub proof fn lemma_general_wraps_specific(a: SocketAddr)
    ensures
        socket_code(a) == net_path(
            "SocketAddr"@,
            match a {
                SocketAddr::V4(_) => "V4"@,
                SocketAddr::V6(_) => "V6"@,
            },
        ) + parenthesized(specific_code(a)),
{
}

/// A failed parse never yields constructor code: the diagnostic differs from
/// the code of every address, in either output form.
pub proof fn lemma_error_is_not_constructor(message: Seq<char>, a: SocketAddr)
    ensures
        error_code(message) != socket_code(a),
        error_code(message) != specific_code(a),
{
    reveal_strlit("compile_error");
    assert(error_code(message)[0] == 'c');
    assert(socket_code(a)[0] == ':');
    assert(specific_code(a)[0] == ':');
}

} // verus!
