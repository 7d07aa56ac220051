//! Query parameters as ordered key/value string pairs, and their
//! deterministic textual form `?key=value&key=value`.

use vstd::prelude::*;

use crate::text::push_char;

verus! {

/// Query parameters to be passed to an endpoint, in order.
pub type QueryParams = Vec<(&'static str, String)>;

/// The textual form of one pair: `key=value`.
pub open spec fn pair_seq(p: (Seq<char>, Seq<char>)) -> Seq<char> {
    p.0 + seq!['='] + p.1
}

/// The pairs joined with `&`, in order.
pub open spec fn query_seq(params: Seq<(Seq<char>, Seq<char>)>) -> Seq<char>
    decreases params.len(),
{
    if params.len() == 0 {
        Seq::empty()
    } else if params.len() == 1 {
        pair_seq(params[0])
    } else {
        query_seq(params.drop_last()) + seq!['&'] + pair_seq(params.last())
    }
}

/// The full query suffix: empty without parameters, else `?` followed by
/// the joined pairs.
pub open spec fn query_suffix_seq(params: Seq<(Seq<char>, Seq<char>)>) -> Seq<char> {
    if params.len() == 0 {
        Seq::empty()
    } else {
        seq!['?'] + query_seq(params)
    }
}

/// Appends the query suffix for `params`.
pub fn push_query(s: &mut String, params: &QueryParams)
    ensures
        final(s)@ == old(s)@ + query_suffix_seq(params.deep_view()),
{
    if params.len() == 0 {
        proof {
            assert(s@ =~= old(s)@ + query_suffix_seq(params.deep_view()));
        }
        return;
    }
    push_char(s, '?');
    let mut i: usize = 0;
    proof {
        assert(s@ =~= old(s)@ + seq!['?'] + query_seq(params.deep_view().subrange(0, 0)));
    }
    while i < params.len()
        invariant
            i <= params.len(),
            params.deep_view().len() == params.len(),
            s@ == old(s)@ + seq!['?'] + query_seq(params.deep_view().subrange(0, i as int)),
        decreases params.len() - i,
    {
        if i > 0 {
            push_char(s, '&');
        }
        s.append(params[i].0);
        push_char(s, '=');
        s.append(params[i].1.as_str());
        proof {
            let dv = params.deep_view();
            assert(dv.subrange(0, i + 1).drop_last() =~= dv.subrange(0, i as int));
            assert(dv.subrange(0, i + 1).last() == dv[i as int]);
            assert(dv[i as int] == (params@[i as int].0@, params@[i as int].1@));
            if i == 0 {
                assert(s@ =~= old(s)@ + seq!['?'] + query_seq(dv.subrange(0, 1)));
            } else {
                assert(s@ =~= old(s)@ + seq!['?'] + query_seq(dv.subrange(0, i + 1)));
            }
        }
        i = i + 1;
    }
    proof {
        let dv = params.deep_view();
        assert(dv.subrange(0, dv.len() as int) =~= dv);
    }
}

} // verus!
