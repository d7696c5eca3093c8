//! Shell-style unquoting of caller-supplied text, done by `snailquote`.

use vstd::prelude::*;

verus! {

/// The error of `snailquote::unescape`, carried through unread.
#[verifier::external_type_specification]
#[verifier::external_body]
pub struct ExUnescapeError(snailquote::UnescapeError);

/// What `snailquote::unescape` makes of `text`: the unquoted text, or `None`
/// where it reports an error.
pub uninterp spec fn unescaped(text: Seq<char>) -> Option<Seq<char>>;

/// `snailquote::unescape` reads its argument and nothing else, and returns
/// for every string: the text with quotes removed and escapes between double
/// quotes replaced, or an error for an escape that it does not know.
pub assume_specification[ snailquote::unescape ](s: &str) -> (r: Result<
    String,
    snailquote::UnescapeError,
>)
    ensures
        match r {
            Ok(text) => unescaped(s@) == Some(text@),
            Err(_) => unescaped(s@).is_none(),
        },
;

/// Unquotes `text`, or says that it cannot be unquoted.
pub fn sanitize(text: &str) -> (clean: Option<String>)
    ensures
        clean.deep_view() == unescaped(text@),
{
    match snailquote::unescape(text) {
        Ok(clean) => Some(clean),
        Err(_) => None,
    }
}

} // verus!
