//! Credential Parser: splits a composite credential `account/secret` on its
//! first slash. Only the first two segments count; trailing segments are
//! ignored. A composite without a slash is malformed.

use vstd::prelude::*;
use vstd::string::StrSliceExecFns;

verus! {

/// A composite credential decomposed into its two leading segments.
#[derive(Debug)]
pub struct Credential {
    pub account: String,
    pub secret: String,
}

/// Failure of the Credential Parser.
#[derive(Debug, PartialEq, Eq, Structural, Clone, Copy)]
pub enum ParseError {
    /// The composite has fewer than two `/`-separated segments.
    MalformedComposite,
}

/// The composite has at least two segments: somewhere a `/` occurs.
pub open spec fn has_slash(s: Seq<char>) -> bool {
    exists|i: int| 0 <= i < s.len() && s[i] == '/'
}

/// `i` is the index of the first `/` of `s`: the account ends there.
pub open spec fn is_first_slash(s: Seq<char>, i: int) -> bool {
    &&& 0 <= i < s.len()
    &&& s[i] == '/'
    &&& forall|k: int| 0 <= k < i ==> s[k] != '/'
}

/// `j` is where the second segment of `s` ends, the first slash after
/// position `i` or the end of `s`: the secret runs from `i + 1` to `j`.
pub open spec fn is_second_segment_end(s: Seq<char>, i: int, j: int) -> bool {
    &&& i < j <= s.len()
    &&& forall|k: int| i < k < j ==> s[k] != '/'
    &&& (j == s.len() || s[j] == '/')
}

/// The parsed parts are exactly the first two `/`-separated segments of `s`.
pub open spec fn parsed_parts(s: Seq<char>, account: Seq<char>, secret: Seq<char>) -> bool {
    exists|i: int, j: int|
        is_first_slash(s, i) && #[trigger] is_second_segment_end(s, i, j)
            && account == s.subrange(0, i) && secret == s.subrange(i + 1, j)
}

/// Split a composite credential into account and secret. Succeeds exactly
/// when the composite holds a `/`; the account is everything before the
/// first `/`, the secret everything between the first `/` and the second
/// one (or the end). No side effects.
pub fn parse_composite(composite: &str) -> (r: Result<Credential, ParseError>)
    ensures
        r is Ok <==> has_slash(composite@),
        r matches Ok(c) ==> parsed_parts(composite@, c.account@, c.secret@),
        r matches Err(e) ==> e == ParseError::MalformedComposite,
{
    let len = composite.unicode_len();
    let mut i: usize = 0;
    while i < len && composite.get_char(i) != '/'
        invariant
            0 <= i <= len,
            len == composite@.len(),
            forall|k: int| 0 <= k < i ==> composite@[k] != '/',
        decreases len - i,
    {
        i = i + 1;
    }
    if i == len {
        return Err(ParseError::MalformedComposite);
    }
    let mut j: usize = i + 1;
    while j < len && composite.get_char(j) != '/'
        invariant
            i < j <= len,
            len == composite@.len(),
            forall|k: int| i < k < j ==> composite@[k] != '/',
        decreases len - j,
    {
        j = j + 1;
    }
    let account = composite.substring_char(0, i).to_owned();
    let secret = composite.substring_char(i + 1, j).to_owned();
    proof {
        assert(is_first_slash(composite@, i as int));
        assert(is_second_segment_end(composite@, i as int, j as int));
    }
    Ok(Credential { account, secret })
}

} // verus!
