use vstd::prelude::*;
use vstd::string::StrSliceExecFns;
use vstd::string::StringExecFns;
use amqprs::connection::OpenConnectionArguments;

verus! {

#[verifier::external_type_specification]
#[verifier::external_body]
pub struct ExOpenConnectionArguments(OpenConnectionArguments);

/// The position of the first `c` in `s`, or the length of `s` when there is none.
pub open spec fn first_index_of(s: Seq<char>, c: char) -> int
    decreases s.len(),
{
    if s.len() == 0 {
        0
    } else if s[0] == c {
        0
    } else {
        1 + first_index_of(s.drop_first(), c)
    }
}

/// The query of a URI: what follows the first `?` that stands before any `#`, up
/// to the first `#`; empty when there is no such `?`.
pub open spec fn uri_query(s: Seq<char>) -> Seq<char> {
    let f = first_index_of(s, '#');
    let q = first_index_of(s, '?');
    if q < f {
        s.subrange(q + 1, f)
    } else {
        Seq::empty()
    }
}

/// Whether every `&`-separated piece of `q` holds a `=`, given whether the
/// piece that `q` continues already held one.
pub open spec fn pieces_have_values(q: Seq<char>, seen: bool) -> bool
    decreases q.len(),
{
    if q.len() == 0 {
        seen
    } else if q[0] == '&' {
        seen && pieces_have_values(q.drop_first(), false)
    } else {
        pieces_have_values(q.drop_first(), seen || q[0] == '=')
    }
}

/// A connection string whose query, if any, is a list of `key=value` pieces.
/// The connection-string parser takes each piece's value unconditionally, and
/// stops the program on a piece without `=`.
pub open spec fn amqp_query_readable(uri: Seq<char>) -> bool {
    uri_query(uri).len() == 0 || pieces_have_values(uri_query(uri), false)
}

proof fn lemma_first_index_of(s: Seq<char>, c: char, i: int)
    requires
        0 <= i <= s.len(),
        forall|j: int| 0 <= j < i ==> s[j] != c,
        i == s.len() || s[i] == c,
    ensures
        first_index_of(s, c) == i,
    decreases s.len(),
{
    if i > 0 {
        lemma_first_index_of(s.drop_first(), c, i - 1);
    }
}

/// The position of the first `c` in `s`, or its length.
fn first_index(s: &str, c: char) -> (res: usize)
    ensures
        res == first_index_of(s@, c),
        res <= s@.len(),
{
    let n = s.unicode_len();
    let mut i: usize = 0;
    while i < n && s.get_char(i) != c
        invariant
            n == s@.len(),
            0 <= i <= n,
            forall|j: int| 0 <= j < i ==> s@[j] != c,
        decreases n - i,
    {
        i = i + 1;
    }
    proof {
        lemma_first_index_of(s@, c, i as int);
    }
    i
}

/// Whether the connection string's query, if any, is a list of `key=value`
/// pieces (see `amqp_query_readable`).
pub fn connection_query_is_readable(uri: &str) -> (res: bool)
    ensures
        res == amqp_query_readable(uri@),
{
    let f = first_index(uri, '#');
    let q = first_index(uri, '?');
    if !(q < f) || q + 1 == f {
        return true;
    }
    let ghost query = uri@.subrange(q + 1, f as int);
    let mut k: usize = q + 1;
    let mut seen = false;
    assert(query.subrange(0, query.len() as int) =~= query);
    while k < f
        invariant
            q + 1 <= k <= f,
            q + 1 < f,
            f <= uri@.len(),
            uri_query(uri@) == query,
            query == uri@.subrange(q + 1, f as int),
            pieces_have_values(query, false) == pieces_have_values(
                uri@.subrange(k as int, f as int),
                seen,
            ),
        decreases f - k,
    {
        let c = uri.get_char(k);
        let ghost rest = uri@.subrange(k as int, f as int);
        assert(rest[0] == c);
        assert(rest.drop_first() =~= uri@.subrange(k + 1, f as int));
        if c == '&' {
            if !seen {
                assert(!pieces_have_values(rest, seen));
                return false;
            }
            seen = false;
        } else {
            seen = seen || c == '=';
        }
        k = k + 1;
    }
    assert(query =~= uri@.subrange(q + 1, f as int));
    seen
}

/// Whether `q[i..j]` is one of the `&`-separated pieces of `q`: it starts at the
/// beginning of `q` or right after a `&`, ends at the end of `q` or right before
/// a `&`, and holds no `&`.
pub open spec fn is_piece(q: Seq<char>, i: int, j: int) -> bool {
    &&& 0 <= i <= j <= q.len()
    &&& (i == 0 || q[i - 1] == '&')
    &&& (j == q.len() || q[j] == '&')
    &&& forall|k: int| i <= k < j ==> q[k] != '&'
}

/// Whether the piece `q[i..j]` holds a `=`.
pub open spec fn piece_has_value(q: Seq<char>, i: int, j: int) -> bool {
    exists|k: int| i <= k < j && q[k] == '='
}

/// Whether every `&`-separated piece of `q` holds a `=`.
pub open spec fn every_piece_has_value(q: Seq<char>) -> bool {
    forall|i: int, j: int| #[trigger] is_piece(q, i, j) ==> piece_has_value(q, i, j)
}

/// Every piece of `q` holds a `=`, the first one possibly in what came before `q`
/// (when `seen`).
spec fn pieces_valued_from(q: Seq<char>, seen: bool) -> bool {
    forall|i: int, j: int| #[trigger] is_piece(q, i, j) ==> ((i == 0 && seen) || piece_has_value(q, i, j))
}

proof fn lemma_pieces_have_values(q: Seq<char>, seen: bool)
    ensures
        pieces_have_values(q, seen) == pieces_valued_from(q, seen),
    decreases q.len(),
{
    if q.len() == 0 {
        assert(is_piece(q, 0, 0));
        assert(!piece_has_value(q, 0, 0));
    } else {
        let rest = q.drop_first();
        if q[0] == '&' {
            lemma_pieces_have_values(rest, false);
            assert(is_piece(q, 0, 0));
            assert(!piece_has_value(q, 0, 0));
            if seen && pieces_valued_from(rest, false) {
                assert forall|i: int, j: int| #[trigger] is_piece(q, i, j) implies ((i == 0 && seen)
                    || piece_has_value(q, i, j)) by {
                    if i > 0 {
                        assert forall|k: int| i - 1 <= k < j - 1 implies rest[k] != '&' by {
                            assert(rest[k] == q[k + 1]);
                        }
                        assert(i - 1 == 0 || rest[i - 2] == q[i - 1]);
                        assert(j - 1 == rest.len() || rest[j - 1] == q[j]);
                        assert(is_piece(rest, i - 1, j - 1));
                        let k = choose|k: int| i - 1 <= k < j - 1 && rest[k] == '=';
                        assert(q[k + 1] == '=');
                    }
                }
            }
            if pieces_valued_from(q, seen) {
                assert forall|i: int, j: int| #[trigger] is_piece(rest, i, j) implies ((i == 0
                    && false) || piece_has_value(rest, i, j)) by {
                    assert forall|k: int| i + 1 <= k < j + 1 implies q[k] != '&' by {
                        assert(q[k] == rest[k - 1]);
                    }
                    assert(i == 0 || q[i] == rest[i - 1]);
                    assert(j == rest.len() || q[j + 1] == rest[j]);
                    assert(is_piece(q, i + 1, j + 1));
                    let k = choose|k: int| i + 1 <= k < j + 1 && q[k] == '=';
                    assert(rest[k - 1] == '=');
                }
            }
        } else {
            let seen2 = seen || q[0] == '=';
            lemma_pieces_have_values(rest, seen2);
            if pieces_valued_from(rest, seen2) {
                assert forall|i: int, j: int| #[trigger] is_piece(q, i, j) implies ((i == 0 && seen)
                    || piece_has_value(q, i, j)) by {
                    assert(i != 1);
                    assert(j >= 1) by {
                        if j == 0 {
                            assert(q[0] == '&');
                        }
                    }
                    let i2 = if i == 0 {
                        0
                    } else {
                        i - 1
                    };
                    assert forall|k: int| i2 <= k < j - 1 implies rest[k] != '&' by {
                        assert(rest[k] == q[k + 1]);
                    }
                    assert(i2 == 0 || rest[i2 - 1] == q[i - 1]);
                    assert(j - 1 == rest.len() || rest[j - 1] == q[j]);
                    assert(is_piece(rest, i2, j - 1));
                    if i == 0 {
                        if q[0] == '=' {
                            assert(q[0] == '=');
                        } else if !seen {
                            let k = choose|k: int| 0 <= k < j - 1 && rest[k] == '=';
                            assert(q[k + 1] == '=');
                        }
                    } else {
                        let k = choose|k: int| i2 <= k < j - 1 && rest[k] == '=';
                        assert(q[k + 1] == '=');
                    }
                }
            }
            if pieces_valued_from(q, seen) {
                assert forall|i: int, j: int| #[trigger] is_piece(rest, i, j) implies ((i == 0
                    && seen2) || piece_has_value(rest, i, j)) by {
                    let i2 = if i == 0 {
                        0
                    } else {
                        i + 1
                    };
                    assert forall|k: int| i2 <= k < j + 1 implies q[k] != '&' by {
                        if k > 0 {
                            assert(q[k] == rest[k - 1]);
                        }
                    }
                    assert(i2 == 0 || q[i2 - 1] == rest[i - 1]);
                    assert(j == rest.len() || q[j + 1] == rest[j]);
                    assert(is_piece(q, i2, j + 1));
                    if i == 0 {
                        if !seen2 {
                            let k = choose|k: int| 0 <= k < j + 1 && q[k] == '=';
                            assert(k != 0);
                            assert(rest[k - 1] == '=');
                        }
                    } else {
                        let k = choose|k: int| i2 <= k < j + 1 && q[k] == '=';
                        assert(rest[k - 1] == '=');
                    }
                }
            }
        }
    }
}

/// Law: a connection string's query is readable exactly when it is empty or each
/// of its `&`-separated pieces holds a `=`, whatever other characters the pieces
/// hold.
pub proof fn law_readable_query_pieces(uri: Seq<char>)
    ensures
        amqp_query_readable(uri) == (uri_query(uri).len() == 0 || every_piece_has_value(
            uri_query(uri),
        )),
{
    lemma_pieces_have_values(uri_query(uri), false);
}

/// The pieces of a query with `=` added at the end of each piece that holds
/// none, given whether the piece that `q` continues already held one.
pub open spec fn mend_pieces(q: Seq<char>, seen: bool) -> Seq<char>
    decreases q.len(),
{
    if q.len() == 0 {
        if seen {
            Seq::empty()
        } else {
            seq!['=']
        }
    } else if q[0] == '&' {
        (if seen {
            Seq::<char>::empty()
        } else {
            seq!['=']
        }) + seq!['&'] + mend_pieces(q.drop_first(), false)
    } else {
        seq![q[0]] + mend_pieces(q.drop_first(), seen || q[0] == '=')
    }
}

/// `uri` with its query mended: every query piece without `=` gets one at its
/// end. Nothing before or after the query changes, and the query's characters
/// keep their validity, so the parser reaches the query of the mended string
/// exactly when it reaches that of `uri`.
pub open spec fn mended_uri(uri: Seq<char>) -> Seq<char> {
    let f = first_index_of(uri, '#');
    let q = first_index_of(uri, '?');
    if q + 1 < f {
        uri.subrange(0, q + 1) + mend_pieces(uri.subrange(q + 1, f), false) + uri.subrange(
            f,
            uri.len() as int,
        )
    } else {
        uri
    }
}

proof fn lemma_first_index_bounds(s: Seq<char>, c: char)
    ensures
        0 <= first_index_of(s, c) <= s.len(),
        first_index_of(s, c) < s.len() ==> s[first_index_of(s, c)] == c,
        forall|j: int| 0 <= j < first_index_of(s, c) ==> s[j] != c,
    decreases s.len(),
{
    if s.len() > 0 && s[0] != c {
        lemma_first_index_bounds(s.drop_first(), c);
        assert forall|j: int| 0 <= j < first_index_of(s, c) implies s[j] != c by {
            if j > 0 {
                assert(s[j] == s.drop_first()[j - 1]);
            }
        }
    }
}

proof fn lemma_mend_pieces(q: Seq<char>, seen: bool)
    ensures
        pieces_have_values(mend_pieces(q, seen), seen),
        forall|j: int|
            0 <= j < mend_pieces(q, seen).len() ==> (#[trigger] mend_pieces(q, seen)[j] == '#'
                ==> exists|k: int| 0 <= k < q.len() && q[k] == '#'),
    decreases q.len(),
{
    let m = mend_pieces(q, seen);
    if q.len() == 0 {
        if !seen {
            let t = seq!['='];
            assert(m == t);
            assert(t[0] == '=');
            assert(t.drop_first() =~= Seq::<char>::empty());
            assert(pieces_have_values(t.drop_first(), true));
            assert(pieces_have_values(t, false));
        } else {
            assert(m == Seq::<char>::empty());
        }
    } else {
        let rest = q.drop_first();
        if q[0] == '&' {
            lemma_mend_pieces(rest, false);
            let tail = mend_pieces(rest, false);
            if seen {
                assert(m =~= seq!['&'] + tail);
                assert(m[0] == '&');
                assert(m.drop_first() =~= tail);
                assert(pieces_have_values(m, seen));
            } else {
                assert(m =~= seq!['='] + seq!['&'] + tail);
                assert(m[0] == '=');
                let m1 = seq!['&'] + tail;
                assert(m.drop_first() =~= m1);
                assert(m1[0] == '&');
                assert(m1.drop_first() =~= tail);
                assert(pieces_have_values(m1, true));
                assert(pieces_have_values(m, seen));
            }
            assert forall|j: int| 0 <= j < m.len() && #[trigger] m[j] == '#' implies exists|
                k: int,
            | 0 <= k < q.len() && q[k] == '#' by {
                let off = m.len() - tail.len();
                assert(j >= off);
                assert(tail[j - off] == '#');
                let k2 = choose|k2: int| 0 <= k2 < rest.len() && rest[k2] == '#';
                assert(q[k2 + 1] == '#');
            }
        } else {
            let seen2 = seen || q[0] == '=';
            lemma_mend_pieces(rest, seen2);
            let tail = mend_pieces(rest, seen2);
            assert(m =~= seq![q[0]] + tail);
            assert(m[0] == q[0]);
            assert(m.drop_first() =~= tail);
            assert(pieces_have_values(m, seen));
            assert forall|j: int| 0 <= j < m.len() && #[trigger] m[j] == '#' implies exists|
                k: int,
            | 0 <= k < q.len() && q[k] == '#' by {
                if j == 0 {
                    assert(q[0] == '#');
                } else {
                    assert(tail[j - 1] == '#');
                    let k2 = choose|k2: int| 0 <= k2 < rest.len() && rest[k2] == '#';
                    assert(q[k2 + 1] == '#');
                }
            }
        }
    }
}

/// The mended string has a readable query.
pub proof fn lemma_mended_uri_readable(uri: Seq<char>)
    ensures
        amqp_query_readable(mended_uri(uri)),
{
    let f = first_index_of(uri, '#');
    let q = first_index_of(uri, '?');
    lemma_first_index_bounds(uri, '#');
    lemma_first_index_bounds(uri, '?');
    if q + 1 < f {
        let query = uri.subrange(q + 1, f);
        let m = mend_pieces(query, false);
        lemma_mend_pieces(query, false);
        let p = uri.subrange(0, q + 1);
        let t = uri.subrange(f, uri.len() as int);
        let s2 = p + m + t;
        assert(s2 == mended_uri(uri));
        // the first `?` stays where it was
        assert(s2[q] == '?');
        assert forall|j: int| 0 <= j < q implies s2[j] != '?' by {
            assert(s2[j] == uri[j]);
        }
        lemma_first_index_of(s2, '?', q);
        // the first `#` follows the mended query
        let i = q + 1 + m.len();
        assert forall|j: int| 0 <= j < i implies s2[j] != '#' by {
            if j <= q {
                assert(s2[j] == uri[j]);
            } else {
                assert(s2[j] == m[j - q - 1]);
                if m[j - q - 1] == '#' {
                    let k = choose|k: int| 0 <= k < query.len() && query[k] == '#';
                    assert(uri[q + 1 + k] == '#');
                }
            }
        }
        if f < uri.len() {
            assert(s2[i] == uri[f]);
        } else {
            assert(i == s2.len());
        }
        lemma_first_index_of(s2, '#', i);
        assert(uri_query(s2) =~= m);
    }
}

/// The characters of `s` other than `=`, in order.
pub open spec fn without_equals(s: Seq<char>) -> Seq<char> {
    s.filter(|c: char| c != '=')
}

proof fn lemma_mend_pieces_inserts_equals(q: Seq<char>, seen: bool)
    ensures
        without_equals(mend_pieces(q, seen)) == without_equals(q),
        pieces_have_values(q, seen) ==> mend_pieces(q, seen) == q,
    decreases q.len(),
{
    let pred = |c: char| c != '=';
    let none = Seq::<char>::empty();
    assert(none.filter(pred) == none) by {
        reveal(Seq::filter);
    }
    assert(seq!['='].filter(pred) == none) by {
        none.lemma_filter_prepend('=', pred);
        assert(seq!['='] + none =~= seq!['=']);
    }
    assert(seq!['&'].filter(pred) == seq!['&']) by {
        none.lemma_filter_prepend('&', pred);
        assert(seq!['&'] + none =~= seq!['&']);
    }
    let m = mend_pieces(q, seen);
    if q.len() > 0 {
        let rest = q.drop_first();
        assert(q =~= seq![q[0]] + rest);
        rest.lemma_filter_prepend(q[0], pred);
        if q[0] == '&' {
            lemma_mend_pieces_inserts_equals(rest, false);
            let tail = mend_pieces(rest, false);
            let lead: Seq<char> = if seen {
                none
            } else {
                seq!['=']
            };
            assert(m == lead + seq!['&'] + tail);
            Seq::filter_distributes_over_add(lead + seq!['&'], tail, pred);
            Seq::filter_distributes_over_add(lead, seq!['&'], pred);
            assert(lead.filter(pred) == none);
            assert(without_equals(m) =~= seq!['&'] + without_equals(rest));
            if pieces_have_values(q, seen) {
                assert(m =~= q);
            }
        } else {
            let seen2 = seen || q[0] == '=';
            lemma_mend_pieces_inserts_equals(rest, seen2);
            let tail = mend_pieces(rest, seen2);
            assert(m == seq![q[0]] + tail);
            tail.lemma_filter_prepend(q[0], pred);
            if pieces_have_values(q, seen) {
                assert(m =~= q);
            }
        }
    }
}

/// Law: mending a connection string only inserts `=` characters: with every `=`
/// taken out, the mended string is the string itself; and a string whose query
/// is readable is left as it is.
pub proof fn law_mending_only_inserts_equals(uri: Seq<char>)
    ensures
        without_equals(mended_uri(uri)) == without_equals(uri),
        amqp_query_readable(uri) ==> mended_uri(uri) == uri,
{
    let pred = |c: char| c != '=';
    let f = first_index_of(uri, '#');
    let q = first_index_of(uri, '?');
    lemma_first_index_bounds(uri, '#');
    lemma_first_index_bounds(uri, '?');
    if q + 1 < f {
        let query = uri.subrange(q + 1, f);
        let m = mend_pieces(query, false);
        lemma_mend_pieces_inserts_equals(query, false);
        let p = uri.subrange(0, q + 1);
        let t = uri.subrange(f, uri.len() as int);
        assert(uri =~= p + query + t);
        assert(mended_uri(uri) == p + m + t);
        Seq::filter_distributes_over_add(p + m, t, pred);
        Seq::filter_distributes_over_add(p, m, pred);
        Seq::filter_distributes_over_add(p + query, t, pred);
        Seq::filter_distributes_over_add(p, query, pred);
        assert(uri_query(uri) == query);
    }
}

/// `uri` with its query mended (see `mended_uri`).
pub fn mended_connection_uri(uri: &str) -> (res: String)
    ensures
        res@ == mended_uri(uri@),
{
    let n = uri.unicode_len();
    let f = first_index(uri, '#');
    let q = first_index(uri, '?');
    if !(q < f && f - q > 1) {
        return String::from_str(uri);
    }
    proof {
        reveal_strlit("=");
        reveal_strlit("&");
        assert("="@ =~= seq!['=']);
        assert("&"@ =~= seq!['&']);
    }
    let ghost query = uri@.subrange(q + 1, f as int);
    let ghost target = mend_pieces(query, false);
    let mut out = String::from_str(uri.substring_char(0, q + 1));
    let mut k: usize = q + 1;
    let mut seen = false;
    assert(uri@.subrange(k as int, f as int) =~= query);
    while k < f
        invariant
            q + 1 <= k <= f,
            f <= n,
            n == uri@.len(),
            "="@ == seq!['='],
            "&"@ == seq!['&'],
            out@ + mend_pieces(uri@.subrange(k as int, f as int), seen) == uri@.subrange(
                0,
                q + 1,
            ) + target,
        decreases f - k,
    {
        let c = uri.get_char(k);
        let ghost rest = uri@.subrange(k as int, f as int);
        let ghost next = uri@.subrange(k + 1, f as int);
        assert(rest[0] == c);
        assert(rest.drop_first() =~= next);
        let ghost old_out = out@;
        if c == '&' {
            assert(mend_pieces(rest, seen) == (if seen {
                Seq::<char>::empty()
            } else {
                seq!['=']
            }) + seq!['&'] + mend_pieces(next, false));
            if !seen {
                out.append("=");
            }
            assert(out@ =~= old_out + (if seen {
                Seq::<char>::empty()
            } else {
                seq!['=']
            }));
            out.append("&");
            assert(out@ + mend_pieces(next, false) =~= old_out + mend_pieces(rest, seen));
            seen = false;
        } else {
            out.append(uri.substring_char(k, k + 1));
            assert(uri@.subrange(k as int, k + 1) =~= seq![c]);
            assert(out@ + mend_pieces(next, seen || c == '=') =~= old_out + mend_pieces(
                rest,
                seen,
            ));
            seen = seen || c == '=';
        }
        k = k + 1;
    }
    let ghost before_tail = out@;
    assert(uri@.subrange(f as int, f as int) =~= Seq::<char>::empty());
    if !seen {
        out.append("=");
    }
    assert(out@ =~= before_tail + mend_pieces(Seq::<char>::empty(), seen));
    out.append(uri.substring_char(f, n));
    assert(out@ =~= mended_uri(uri@));
    out
}

/// The connection settings that the broker is reached with, by value; the
/// credentials are left out, as the settings give no access to them.
pub struct SettingsModel {
    pub host: Seq<char>,
    pub port: u16,
    pub virtual_host: Seq<char>,
    pub heartbeat: u16,
    pub scheme: Option<Seq<char>>,
    pub connection_name: Option<Seq<char>>,
}

pub open spec fn opt_view(o: Option<String>) -> Option<Seq<char>> {
    match o {
        Some(s) => Some(s@),
        None => None,
    }
}

/// Connection settings for the broker: the settings that the connection is
/// opened with, together with a record of their values.
pub struct BrokerSettings {
    arguments: OpenConnectionArguments,
    host: String,
    port: u16,
    virtual_host: String,
    heartbeat: u16,
    scheme: Option<String>,
    connection_name: Option<String>,
}

impl View for BrokerSettings {
    type V = SettingsModel;

    closed spec fn view(&self) -> SettingsModel {
        SettingsModel {
            host: self.host@,
            port: self.port,
            virtual_host: self.virtual_host@,
            heartbeat: self.heartbeat,
            scheme: opt_view(self.scheme),
            connection_name: opt_view(self.connection_name),
        }
    }
}

impl BrokerSettings {
    /// The settings to open the connection with.
    pub fn arguments(&self) -> &OpenConnectionArguments {
        &self.arguments
    }

    pub fn host(&self) -> (res: &str)
        ensures
            res@ == self@.host,
    {
        self.host.as_str()
    }

    pub fn port(&self) -> (res: u16)
        ensures
            res == self@.port,
    {
        self.port
    }

    pub fn virtual_host(&self) -> (res: &str)
        ensures
            res@ == self@.virtual_host,
    {
        self.virtual_host.as_str()
    }

    pub fn heartbeat(&self) -> (res: u16)
        ensures
            res == self@.heartbeat,
    {
        self.heartbeat
    }

    pub fn connection_name(&self) -> (res: Option<&str>)
        ensures
            match res {
                Some(n) => self@.connection_name == Some(n@),
                None => self@.connection_name is None,
            },
    {
        match &self.connection_name {
            Some(n) => Some(n.as_str()),
            None => None,
        }
    }
}

/// The settings that the connection-string parser reads from `uri`, or `None`
/// where it refuses the string (a function of the string).
pub uninterp spec fn amqp_uri_settings(uri: Seq<char>) -> Option<SettingsModel>;

pub open spec fn amqp_uri_accepted(uri: Seq<char>) -> bool {
    amqp_uri_settings(uri) is Some
}

/// The strings on which the connection-string parser returns: those whose query
/// is readable, and those it refuses once their query is mended (it then
/// refuses them too, before it reads their query). On the others it reaches a
/// query piece without `=` and stops the program.
pub open spec fn amqp_parse_returns(uri: Seq<char>) -> bool {
    amqp_query_readable(uri) || !amqp_uri_accepted(mended_uri(uri))
}

/// Runs `<OpenConnectionArguments as TryFrom<&str>>::try_from` (amqprs, feature
/// `urispec`), which computes on the string alone, and records the values of the
/// settings it gives through their getters (`get_host`, `get_port`,
/// `get_virtual_host`, `get_heartbeat`, `get_scheme`, `get_connection_name`).
/// Claimed: the outcome is a function of the string, named `amqp_uri_settings`;
/// and the parser returns on the strings of `amqp_parse_returns`: its one panic is
/// the `unwrap` of the value of a query piece without `=`, reached only once it
/// accepted all that comes before the query, which it does for the mended string
/// too, where it then accepts the query as well.
#[verifier::external_body]
pub(crate) fn read_connection_uri(uri: &str) -> (res: Option<BrokerSettings>)
    requires
        amqp_parse_returns(uri@),
    ensures
        match res {
            Some(settings) => amqp_uri_settings(uri@) == Some(settings@),
            None => amqp_uri_settings(uri@) is None,
        },
{
    match OpenConnectionArguments::try_from(uri) {
        Ok(a) => Some(BrokerSettings {
            host: a.get_host().to_string(),
            port: a.get_port(),
            virtual_host: a.get_virtual_host().to_string(),
            heartbeat: a.get_heartbeat(),
            scheme: a.get_scheme().map(|s| s.to_string()),
            connection_name: a.get_connection_name().map(|s| s.to_string()),
            arguments: a,
        }),
        Err(_) => None,
    }
}

/// Runs `OpenConnectionArguments::connection_name`, which sets the name that the
/// connection announces, and records the new name. Claimed: only the name changes.
#[verifier::external_body]
pub(crate) fn name_connection(settings: &mut BrokerSettings, name: &str)
    ensures
        final(settings)@ == (SettingsModel { connection_name: Some(name@), ..old(settings)@ }),
{
    settings.arguments.connection_name(name);
    settings.connection_name = Some(name.to_string());
}

} // verus!
