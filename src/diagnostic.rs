//! Turning a failed parse into tokens that stop the build with its message.
use vstd::prelude::*;

use crate::tokens::{
    Delimiter, Group, Literal, Spacing, TokenStream, TokenTree, escaped, lemma_trees_text_push,
    lemma_trees_spaced_push, stream_text, trees_text, well_spaced,
};

verus! {

/// Why a text is not a socket address.
#[derive(Clone, Debug)]
pub struct AddrParseError {
    pub description: String,
}

/// `compile_error!("<message>");`
pub open spec fn error_code(message: Seq<char>) -> Seq<char> {
    "compile_error"@ + seq!['!', '(', '"'] + escaped(message) + seq!['"', ')', ';']
}

/// Tokens that make the build fail with `message` as the diagnostic.
pub fn error_tokens(message: String) -> (r: TokenStream)
    ensures
        stream_text(r) == error_code(message@),
        well_spaced(r.trees@),
{
    let ghost m = message@;
    let mut inner: Vec<TokenTree> = Vec::new();
    inner.push(TokenTree::Literal(Literal::Str(message)));
    proof {
        lemma_trees_text_push(Seq::empty(), inner@[0]);
        lemma_trees_spaced_push(Seq::empty(), inner@[0]);
        assert(Seq::<TokenTree>::empty().push(inner@[0]) =~= inner@);
    }
    let mut out: Vec<TokenTree> = Vec::new();
    let ghost s0 = out@;
    out.push(TokenTree::Ident(String::from_str("compile_error")));
    let ghost s1 = out@;
    out.push(TokenTree::Punct('!', Spacing::Alone));
    let ghost s2 = out@;
    let ghost g = inner@;
    out.push(
        TokenTree::Group(
            Group { delimiter: Delimiter::Parenthesis, stream: TokenStream { trees: inner } },
        ),
    );
    let ghost s3 = out@;
    out.push(TokenTree::Punct(';', Spacing::Alone));
    proof {
        lemma_trees_text_push(s0, s1.last());
        lemma_trees_spaced_push(s0, s1.last());
        assert(s0.push(s1.last()) =~= s1);
        lemma_trees_text_push(s1, s2.last());
        lemma_trees_spaced_push(s1, s2.last());
        assert(s1.push(s2.last()) =~= s2);
        lemma_trees_text_push(s2, s3.last());
        lemma_trees_spaced_push(s2, s3.last());
        assert(s2.push(s3.last()) =~= s3);
        lemma_trees_text_push(s3, out@.last());
        lemma_trees_spaced_push(s3, out@.last());
        assert(s3.push(out@.last()) =~= out@);
        assert(trees_text(out@) =~= error_code(m));
    }
    TokenStream { trees: out }
}

/// Replaces an error by tokens that report it at build time.
pub trait ResultErrAsCompileErrorExt: Sized {
    /// Whether `r` is what the result turns into.
    spec fn becomes(self, r: TokenStream) -> bool;

    fn err_as_compile_error(self) -> (r: TokenStream)
        ensures
            self.becomes(r),
    ;
}

impl ResultErrAsCompileErrorExt for Result<TokenStream, AddrParseError> {
    open spec fn becomes(self, r: TokenStream) -> bool {
        match self {
            Ok(t) => r == t,
            Err(e) => stream_text(r) == error_code(e.description@) && well_spaced(r.trees@),
        }
    }

    fn err_as_compile_error(self) -> (r: TokenStream) {
        match self {
            Ok(t) => t,
            Err(e) => error_tokens(e.description),
        }
    }
}

} // verus!
