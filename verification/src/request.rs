use vstd::prelude::*;
use vstd::string::StringExecFns;
use std::sync::Arc;

use crate::extensions::Resolve;
use crate::numbers::{decimal, law_decimal_round_trip, parse_u64, parsed_u64};
use crate::services::AuthorService;

verus! {

/// Named parameters of a request (from its path or its query string), as
/// (name, value) pairs.
pub struct RequestParams {
    pub pairs: Vec<(String, String)>,
}

impl View for RequestParams {
    type V = Seq<(Seq<char>, Seq<char>)>;

    open spec fn view(&self) -> Seq<(Seq<char>, Seq<char>)> {
        self.pairs@.map_values(|p: (String, String)| (p.0@, p.1@))
    }
}

/// The value of the first parameter named `key`.
pub open spec fn param_value(params: Seq<(Seq<char>, Seq<char>)>, key: Seq<char>) -> Option<
    Seq<char>,
>
    decreases params.len(),
{
    if params.len() == 0 {
        None
    } else if params[0].0 == key {
        Some(params[0].1)
    } else {
        param_value(params.drop_first(), key)
    }
}

/// The value of a parameter read as an unsigned 64-bit number; `None` when the
/// parameter is absent or does not read as one.
pub open spec fn param_u64(params: Seq<(Seq<char>, Seq<char>)>, key: Seq<char>) -> Option<u64> {
    match param_value(params, key) {
        Some(v) => parsed_u64(v),
        None => None,
    }
}

/// Law: a present parameter is read as a number exactly as its value reads on
/// its own: the number it writes, whatever its size, or `None` where it writes
/// none; and a parameter that holds the decimal writing of a 64-bit number is
/// read as that number.
pub proof fn law_param_u64_reads_value(
    params: Seq<(Seq<char>, Seq<char>)>,
    key: Seq<char>,
    v: Seq<char>,
    n: u64,
)
    requires
        param_value(params, key) == Some(v),
    ensures
        param_u64(params, key) == parsed_u64(v),
        v == decimal(n as nat) ==> param_u64(params, key) == Some(n),
{
    law_decimal_round_trip(n);
}

/// Law: an absent parameter is not read as a number.
pub proof fn law_param_u64_absent(params: Seq<(Seq<char>, Seq<char>)>, key: Seq<char>)
    requires
        param_value(params, key) is None,
    ensures
        param_u64(params, key) is None,
{
}

pub open spec fn opt_string_view(o: Option<String>) -> Option<Seq<char>> {
    match o {
        Some(s) => Some(s@),
        None => None,
    }
}

impl RequestParams {
    /// The value of the first parameter named `key`.
    pub fn get(&self, key: &str) -> (res: Option<&String>)
        ensures
            match res {
                Some(v) => param_value(self@, key@) == Some(v@),
                None => param_value(self@, key@) is None,
            },
    {
        let k = String::from_str(key);
        let n = self.pairs.len();
        let mut i: usize = 0;
        assert(self@.subrange(0, n as int) =~= self@);
        while i < n
            invariant
                n == self.pairs@.len(),
                0 <= i <= n,
                k@ == key@,
                param_value(self@, key@) == param_value(self@.subrange(i as int, n as int), key@),
            decreases n - i,
        {
            let ghost rest = self@.subrange(i as int, n as int);
            assert(rest[0] == (self.pairs@[i as int].0@, self.pairs@[i as int].1@));
            if self.pairs[i].0 == k {
                return Some(&self.pairs[i].1);
            }
            assert(rest.drop_first() =~= self@.subrange(i + 1, n as int));
            i = i + 1;
        }
        None
    }

    /// The value of the parameter named `key` read as an unsigned 64-bit number.
    pub fn get_u64(&self, key: &str) -> (res: Option<u64>)
        ensures
            res == param_u64(self@, key@),
    {
        match self.get(key) {
            Some(v) => parse_u64(v.as_str()),
            None => None,
        }
    }
}

/// What the routing layer hands a request's content: the parameters of the matched
/// path, those of the query string, and the application's extensions.
pub struct RequestOriginContent<Extensions> {
    pub path: RequestParams,
    pub query: RequestParams,
    pub extensions: Extensions,
}

/// The content of a request for a list of authors: an optional search text from
/// the path, an optional page offset and page size from the query string, and the
/// author service to answer it.
pub struct AuthorsRequestContent {
    pub query: Option<String>,
    pub offset: Option<u64>,
    pub limit: Option<u64>,
    pub author_service: Arc<Box<dyn AuthorService>>,
}

impl AuthorsRequestContent {
    /// Reads the search text from the path parameter `query`, the offset and the
    /// limit from the query parameters `offset` and `limit` (each `None` when
    /// absent or not an unsigned 64-bit number), and resolves the author service.
    pub fn create<Extensions: Resolve<Arc<Box<dyn AuthorService>>>>(
        origin_content: RequestOriginContent<Extensions>,
    ) -> (res: Self)
        ensures
            opt_string_view(res.query) == param_value(origin_content.path@, "query"@),
            res.offset == param_u64(origin_content.query@, "offset"@),
            res.limit == param_u64(origin_content.query@, "limit"@),
            res.author_service == origin_content.extensions.resolved(),
    {
        let query = match origin_content.path.get("query") {
            Some(n) => Some(n.clone()),
            None => None,
        };
        let offset = origin_content.query.get_u64("offset");
        let limit = origin_content.query.get_u64("limit");
        let author_service = origin_content.extensions.resolve();
        AuthorsRequestContent { query, offset, limit, author_service }
    }
}

} // verus!
