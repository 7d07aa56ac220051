//! Currency codes: validity of a single three-letter code, scanning a list
//! for its first malformed entry, and joining a list with commas for a
//! query parameter value.

use vstd::prelude::*;

verus! {

/// A well-formed currency code: exactly three ASCII capital letters.
pub open spec fn valid_code(s: Seq<char>) -> bool {
    s.len() == 3 && (forall|i: int| 0 <= i < s.len() ==> 'A' <= #[trigger] s[i] <= 'Z')
}

/// Holds when every code in the list is well formed.
pub open spec fn all_codes_valid(codes: Seq<Seq<char>>) -> bool {
    forall|i: int| 0 <= i < codes.len() ==> valid_code(#[trigger] codes[i])
}

/// The first malformed code of the list, assuming one exists.
pub open spec fn first_invalid_code(codes: Seq<String>) -> String
    decreases codes.len(),
{
    if codes.len() == 0 {
        arbitrary()
    } else if !valid_code(codes[0]@) {
        codes[0]
    } else {
        first_invalid_code(codes.drop_first())
    }
}

/// When the prefix before `i` is well formed and the code at `i` is not,
/// the code at `i` is the first malformed one.
proof fn lemma_first_invalid_code_at(codes: Seq<String>, i: int)
    requires
        0 <= i < codes.len(),
        !valid_code(codes[i]@),
        forall|j: int| 0 <= j < i ==> valid_code(#[trigger] codes[j]@),
    ensures
        first_invalid_code(codes) == codes[i],
    decreases i,
{
    if i > 0 {
        lemma_first_invalid_code_at(codes.drop_first(), i - 1);
    }
}

/// Decides whether `code` is a well-formed currency code.
pub fn is_valid_code(code: &str) -> (r: bool)
    ensures
        r == valid_code(code@),
{
    let n = code.unicode_len();
    if n != 3 {
        return false;
    }
    let c0 = code.get_char(0);
    let c1 = code.get_char(1);
    let c2 = code.get_char(2);
    let ok = ('A' <= c0 && c0 <= 'Z') && ('A' <= c1 && c1 <= 'Z') && ('A' <= c2 && c2 <= 'Z');
    proof {
        if ok {
            assert forall|i: int| 0 <= i < code@.len() implies 'A' <= #[trigger] code@[i] <= 'Z' by {
                if i == 0 {
                } else if i == 1 {
                } else {
                    assert(i == 2);
                }
            }
        }
    }
    ok
}

/// Finds the first malformed code of the list, if any.
pub fn find_invalid_code(codes: &Vec<String>) -> (r: Option<String>)
    ensures
        match r {
            Option::None => all_codes_valid(codes.deep_view()),
            Option::Some(code) => {
                &&& !all_codes_valid(codes.deep_view())
                &&& code == first_invalid_code(codes@)
                &&& !valid_code(code@)
            },
        },
{
    let mut i: usize = 0;
    while i < codes.len()
        invariant
            i <= codes.len(),
            forall|j: int| 0 <= j < i ==> valid_code(#[trigger] codes.deep_view()[j]),
        decreases codes.len() - i,
    {
        if !is_valid_code(codes[i].as_str()) {
            proof {
                assert forall|j: int| 0 <= j < i implies valid_code(#[trigger] codes@[j]@) by {
                    assert(codes.deep_view()[j] == codes@[j]@);
                }
                lemma_first_invalid_code_at(codes@, i as int);
                assert(!valid_code(codes.deep_view()[i as int]));
            }
            return Option::Some(codes[i].clone());
        }
        i = i + 1;
    }
    Option::None
}

/// The codes of the list joined with commas, in order.
pub open spec fn comma_join(items: Seq<Seq<char>>) -> Seq<char>
    decreases items.len(),
{
    if items.len() == 0 {
        Seq::empty()
    } else if items.len() == 1 {
        items[0]
    } else {
        comma_join(items.drop_last()) + seq![','] + items.last()
    }
}

/// Appends the comma-joined form of the list.
pub fn push_comma_joined(s: &mut String, items: &Vec<String>)
    ensures
        final(s)@ == old(s)@ + comma_join(items.deep_view()),
{
    let mut i: usize = 0;
    proof {
        assert(s@ =~= old(s)@ + comma_join(items.deep_view().subrange(0, 0)));
    }
    while i < items.len()
        invariant
            i <= items.len(),
            s@ == old(s)@ + comma_join(items.deep_view().subrange(0, i as int)),
        decreases items.len() - i,
    {
        if i > 0 {
            crate::text::push_char(s, ',');
        }
        s.append(items[i].as_str());
        proof {
            let dv = items.deep_view();
            assert(dv.subrange(0, i + 1).drop_last() =~= dv.subrange(0, i as int));
            assert(dv.subrange(0, i + 1).last() == dv[i as int]);
            if i == 0 {
                assert(s@ =~= old(s)@ + comma_join(dv.subrange(0, 1)));
            }
        }
        i = i + 1;
    }
    proof {
        assert(items.deep_view().subrange(0, items.len() as int) =~= items.deep_view());
    }
}

} // verus!
