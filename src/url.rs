use vstd::prelude::*;
use vstd::string::*;

verus! {

/// A parameter row as the request editor holds it: at least a key and a value.
pub open spec fn well_formed_params(params: Seq<Seq<Seq<char>>>) -> bool {
    forall|i: int| 0 <= i < params.len() ==> #[trigger] params[i].len() >= 2
}

/// Text appended for the pair at position `i`: nothing when its key or its
/// value is empty, otherwise `key=value`, followed by `&` unless `i` is the last
/// position of the whole (unfiltered) list.
pub open spec fn pair_text(params: Seq<Seq<Seq<char>>>, i: int) -> Seq<char> {
    let key = params[i][0];
    let value = params[i][1];
    if key.len() == 0 || value.len() == 0 {
        Seq::empty()
    } else if i != params.len() - 1 {
        key + seq!['='] + value + seq!['&']
    } else {
        key + seq!['='] + value
    }
}

/// The query text produced by the first `n` pairs.
pub open spec fn query_text(params: Seq<Seq<Seq<char>>>, n: nat) -> Seq<char>
    decreases n,
{
    if n == 0 {
        Seq::empty()
    } else {
        query_text(params, (n - 1) as nat) + pair_text(params, n - 1)
    }
}

/// Whether a `?` follows the base URL: the list is non-empty and its first key is.
pub open spec fn has_query_mark(params: Seq<Seq<Seq<char>>>) -> bool {
    params.len() > 0 && params[0][0].len() > 0
}

/// The URL composed from a base and an ordered list of key/value pairs,
/// verbatim, without any encoding.
pub open spec fn composed_url(url: Seq<char>, params: Seq<Seq<Seq<char>>>) -> Seq<char> {
    let mark = if has_query_mark(params) {
        seq!['?']
    } else {
        Seq::empty()
    };
    url + mark + query_text(params, params.len())
}

/// Appends the query string made of `params` to `url`.
pub fn parse_url(url: String, params: Vec<Vec<String>>) -> (r: String)
    requires
        well_formed_params(params.deep_view()),
    ensures
        r@ == composed_url(url@, params.deep_view()),
        params.len() == 0 ==> r@ == url@,
{
    let ghost p = params.deep_view();
    let mut new_url = url;
    proof {
        reveal_strlit("?");
        reveal_strlit("=");
        reveal_strlit("&");
    }
    proof {
        if params.len() > 0 {
            assert(p[0] == params@[0].deep_view());
            assert(p[0].len() >= 2);
        }
    }
    if params.len() > 0 && !params[0][0].as_str().is_empty() {
        assert(params[0][0]@ == p[0][0]);
        new_url.append("?");
    }
    let ghost start = new_url@;
    assert(start == url@ + (if has_query_mark(p) { seq!['?'] } else { Seq::<char>::empty() }));
    let mut i: usize = 0;
    while i < params.len()
        invariant
            p == params.deep_view(),
            p.len() == params@.len(),
            well_formed_params(p),
            i <= params.len(),
            new_url@ == start + query_text(p, i as nat),
        decreases params.len() - i,
    {
        proof {
            reveal_strlit("=");
            reveal_strlit("&");
        }
        let param = &params[i];
        assert(p[i as int] == param.deep_view());
        assert(p[i as int].len() >= 2);
        let key = param[0].as_str();
        let value = param[1].as_str();
        assert(key@ == p[i as int][0]);
        assert(value@ == p[i as int][1]);
        if !key.is_empty() && !value.is_empty() {
            new_url.append(key);
            new_url.append("=");
            new_url.append(value);
            if i != params.len() - 1 {
                new_url.append("&");
            }
        }
        assert(query_text(p, (i + 1) as nat) == query_text(p, i as nat) + pair_text(p, i as int));
        assert(new_url@ =~= start + query_text(p, (i + 1) as nat));
        i = i + 1;
    }
    assert(new_url@ =~= composed_url(url@, p));
    new_url
}

} // verus!
