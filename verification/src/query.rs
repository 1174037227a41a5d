//! Normalization of user queries for the media resolver: a query that does
//! not begin with a URI scheme is treated as a search term.

use vstd::prelude::*;
use vstd::string::*;

verus! {

/// Why the media resolver failed.
#[derive(Debug, Copy, Clone, PartialEq, Eq)]
pub enum QueryError {
    /// Nothing playable was found for the query.
    NotFound,
}

/// Whether the query names a URI directly rather than a search term.
pub open spec fn spec_is_direct_uri(q: Seq<char>) -> bool {
    q.len() >= 4 && q.subrange(0, 4) == "http"@
}

/// The string handed to the resolver: a direct URI passes through, anything
/// else becomes a search request for its first match.
pub open spec fn spec_resolver_query(q: Seq<char>) -> Seq<char> {
    if spec_is_direct_uri(q) {
        q
    } else {
        "ytsearch1:"@ + q
    }
}

/// Builds the resolver's query string from the user's input.
pub fn resolver_query(uri: String) -> (r: String)
    ensures
        r@ == spec_resolver_query(uri@),
{
    proof {
        reveal_strlit("http");
    }
    let s = uri.as_str();
    let n = s.unicode_len();
    let direct = n >= 4 && s.get_char(0) == 'h' && s.get_char(1) == 't' && s.get_char(2) == 't'
        && s.get_char(3) == 'p';
    proof {
        if direct {
            assert(uri@.subrange(0, 4) =~= "http"@);
        }
        if !direct && uri@.len() >= 4 && uri@.subrange(0, 4) == "http"@ {
            assert(uri@[0] == uri@.subrange(0, 4)[0]);
            assert(uri@[1] == uri@.subrange(0, 4)[1]);
            assert(uri@[2] == uri@.subrange(0, 4)[2]);
            assert(uri@[3] == uri@.subrange(0, 4)[3]);
            assert(false);
        }
        assert(direct == spec_is_direct_uri(uri@));
    }
    if direct {
        uri
    } else {
        let mut out = String::from_str("ytsearch1:");
        out.append(uri.as_str());
        out
    }
}

} // verus!
