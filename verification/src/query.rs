//! Reading the `url` parameter out of a query string.

use crate::text::str_eq;
use serde_urlencoded::de::Error;
use vstd::prelude::*;

verus! {

broadcast use vstd::seq_lib::group_seq_properties;

/// A query string as a list of decoded names and values, in the order in
/// which they stand in it.
pub type Pairs = Seq<(Seq<char>, Seq<char>)>;

/// The parameters that the handler knows.
#[derive(Debug)]
pub struct CodeParams {
    /// The text to encode, where the query names one.
    pub url: Option<String>,
}

impl View for CodeParams {
    type V = Option<Seq<char>>;

    open spec fn view(&self) -> Option<Seq<char>> {
        match self.url {
            Some(url) => Some(url@),
            None => None,
        }
    }
}

/// The name of the one parameter that is read.
pub open spec fn url_key() -> Seq<char> {
    "url"@
}

/// The value of a pair, where its name is `url`.
pub open spec fn url_value(pair: (Seq<char>, Seq<char>)) -> Option<Seq<char>> {
    if pair.0 == url_key() {
        Some(pair.1)
    } else {
        None
    }
}

/// [`url_value`] as a function value.
pub open spec fn pick_url() -> spec_fn((Seq<char>, Seq<char>)) -> Option<Seq<char>> {
    |pair: (Seq<char>, Seq<char>)| url_value(pair)
}

/// The values of all pairs named `url`, in order.
pub open spec fn url_values(pairs: Pairs) -> Seq<Seq<char>> {
    pairs.filter_map(pick_url())
}

/// The `url` parameter of a list of pairs: the value of the pair named
/// `url` where there is exactly one. A list that names `url` twice or more
/// is malformed and counts as one that does not name it.
pub open spec fn requested_url(pairs: Pairs) -> Option<Seq<char>> {
    let values = url_values(pairs);
    if values.len() == 1 {
        Some(values[0])
    } else {
        None
    }
}

/// A list in which no pair is named `url` has no `url` parameter.
pub proof fn lemma_url_absent(pairs: Pairs)
    requires
        forall|i: int| 0 <= i < pairs.len() ==> pairs[i].0 != url_key(),
    ensures
        url_values(pairs).len() == 0,
        requested_url(pairs) is None,
    decreases pairs.len(),
{
    if pairs.len() > 0 {
        lemma_url_absent(pairs.drop_last());
    }
}

/// A list in which the pair at `k` is named `url` has at least one value
/// for it.
pub proof fn lemma_url_present(pairs: Pairs, k: int)
    requires
        0 <= k < pairs.len(),
        pairs[k].0 == url_key(),
    ensures
        url_values(pairs).len() >= 1,
    decreases pairs.len(),
{
    if k < pairs.len() - 1 {
        lemma_url_present(pairs.drop_last(), k);
    }
}

/// A list in which the pair at `k`, and no other, is named `url` has the
/// value of that pair as its `url` parameter.
pub proof fn lemma_url_named_once(pairs: Pairs, k: int)
    requires
        0 <= k < pairs.len(),
        pairs[k].0 == url_key(),
        forall|i: int| 0 <= i < pairs.len() && i != k ==> pairs[i].0 != url_key(),
    ensures
        requested_url(pairs) == Some(pairs[k].1),
    decreases pairs.len(),
{
    let rest = pairs.drop_last();
    if k == pairs.len() - 1 {
        lemma_url_absent(rest);
    } else {
        lemma_url_named_once(rest, k);
    }
}

/// A list in which two pairs are named `url` is malformed: it has no `url`
/// parameter.
pub proof fn lemma_url_named_twice(pairs: Pairs, j: int, k: int)
    requires
        0 <= j < k < pairs.len(),
        pairs[j].0 == url_key(),
        pairs[k].0 == url_key(),
    ensures
        url_values(pairs).len() >= 2,
        requested_url(pairs) is None,
    decreases pairs.len(),
{
    let rest = pairs.drop_last();
    if k == pairs.len() - 1 {
        lemma_url_present(rest, j);
    } else {
        lemma_url_named_twice(rest, j, k);
    }
}

/// `serde_urlencoded::de::Error`: carried through, never looked into.
#[verifier::external_type_specification]
#[verifier::external_body]
pub struct ExError(Error);

/// The list of pairs that `serde_urlencoded::from_str` reads out of a query
/// string, or `None` where it reports an error.
pub uninterp spec fn form_pairs(query: Seq<char>) -> Option<Pairs>;

/// Calls `serde_urlencoded::from_str` for a `Vec<(String, String)>`.
///
/// Nothing is proved of this function. Its contract claims only that the
/// outcome depends on `query` alone.
#[verifier::external_body]
fn parse_pairs(query: &str) -> (r: Result<Vec<(String, String)>, Error>)
    ensures
        match r {
            Ok(pairs) => form_pairs(query@) == Some(pairs.deep_view()),
            Err(_) => form_pairs(query@) is None,
        },
{
    serde_urlencoded::from_str::<Vec<(String, String)>>(query)
}

/// The parameters of a query string. One that cannot be read counts as
/// empty.
pub open spec fn query_params(query: Seq<char>) -> Option<Seq<char>> {
    match form_pairs(query) {
        Some(pairs) => requested_url(pairs),
        None => None,
    }
}

impl CodeParams {
    /// Picks the parameters out of the decoded pairs of a query string.
    pub fn from_pairs(pairs: &Vec<(String, String)>) -> (params: CodeParams)
        ensures
            params@ == requested_url(pairs.deep_view()),
    {
        let ghost all = pairs.deep_view();
        let mut count: usize = 0;
        let mut first: usize = 0;
        let mut i: usize = 0;
        while i < pairs.len()
            invariant
                i <= pairs.len(),
                all == pairs.deep_view(),
                count <= i,
                count == url_values(all.take(i as int)).len(),
                count >= 1 ==> first < i && url_values(all.take(i as int))[0] == all[first as int].1,
            decreases pairs.len() - i,
        {
            proof {
                all.lemma_filter_map_take_succ(pick_url(), i as int);
                assert(all[i as int] == (pairs@[i as int].0@, pairs@[i as int].1@));
            }
            if str_eq(pairs[i].0.as_str(), "url") {
                if count == 0 {
                    first = i;
                }
                count += 1;
            }
            i += 1;
        }
        assert(all.take(i as int) =~= all);
        if count == 1 {
            CodeParams { url: Some(pairs[first].1.clone()) }
        } else {
            CodeParams { url: None }
        }
    }

    /// Reads the parameters out of a query string as it stands in a request
    /// target, percent-encoded and without the leading `?`.
    pub fn parse(query: &str) -> (params: CodeParams)
        ensures
            params@ == query_params(query@),
    {
        match parse_pairs(query) {
            Ok(pairs) => CodeParams::from_pairs(&pairs),
            Err(_) => CodeParams { url: None },
        }
    }
}

} // verus!
