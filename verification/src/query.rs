use vstd::prelude::*;

verus! {

use vstd::string::StrSliceExecFns;
use vstd::string::StringExecFns;
use crate::text::{find_char, first_index_of, lemma_first_index_of, str_eq};

/// The key of one `key=value` pair: everything before the first `=`, or the
/// whole pair when there is none.
pub open spec fn pair_key(p: Seq<char>) -> Seq<char> {
    p.take(first_index_of(p, '=') as int)
}

/// The value of one `key=value` pair: everything after the first `=`, or
/// empty when there is none.
pub open spec fn pair_value(p: Seq<char>) -> Seq<char> {
    if first_index_of(p, '=') == p.len() {
        Seq::empty()
    } else {
        p.skip(first_index_of(p, '=') as int + 1)
    }
}

/// The value under `key` in a query string: pairs are separated by `&`,
/// empty pairs are skipped, and the first pair whose key matches wins.
pub open spec fn query_param(query: Seq<char>, key: Seq<char>) -> Option<Seq<char>>
    decreases query.len(),
    via query_param_decreases
{
    let i = first_index_of(query, '&') as int;
    let pair = query.take(i);
    if pair.len() > 0 && pair_key(pair) == key {
        Some(pair_value(pair))
    } else if i == query.len() {
        None
    } else {
        query_param(query.skip(i + 1), key)
    }
}

#[via_fn]
proof fn query_param_decreases(query: Seq<char>, key: Seq<char>) {
    lemma_first_index_of(query, '&');
}

/// Looks `key` up in the query string, as `query_param` describes.
pub fn get_query_param(query: &str, key: &str) -> (r: Option<String>)
    ensures
        match r {
            Some(v) => query_param(query@, key@) == Some(v@),
            None => query_param(query@, key@) is None,
        },
    decreases query@.len(),
{
    let len = query.unicode_len();
    let i = find_char(query, '&');
    proof {
        lemma_first_index_of(query@, '&');
    }
    let ghost pair = query@.take(i as int);
    if i > 0 {
        let pair_str = query.substring_char(0, i);
        proof {
            assert(pair_str@ =~= pair);
        }
        let j = find_char(pair_str, '=');
        proof {
            lemma_first_index_of(pair, '=');
        }
        let key_part = pair_str.substring_char(0, j);
        proof {
            assert(key_part@ =~= pair_key(pair));
        }
        if str_eq(key_part, key) {
            let plen = pair_str.unicode_len();
            if j == plen {
                proof {
                    assert(pair_value(pair) =~= Seq::<char>::empty());
                }
                return Some(String::new());
            } else {
                let value_part = pair_str.substring_char(j + 1, plen);
                proof {
                    assert(value_part@ =~= pair_value(pair));
                }
                return Some(String::from_str(value_part));
            }
        }
    }
    if i == len {
        proof {
            assert(pair =~= query@);
        }
        return None;
    }
    let rest = query.substring_char(i + 1, len);
    proof {
        assert(rest@ =~= query@.skip(i as int + 1));
    }
    get_query_param(rest, key)
}

} // verus!
