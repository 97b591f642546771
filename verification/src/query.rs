//! The query string of a greeting request: its pairs, and the one field that
//! the greeting needs from them.

use crate::text::str_eq;
use vstd::prelude::*;

verus! {

/// The pairs of names and values that a query string holds, in the order in
/// which they stand in it, each decoded as a form field is.
pub uninterp spec fn query_pairs(query: Seq<char>) -> Seq<(Seq<char>, Seq<char>)>;

/// Calls `form_urlencoded::parse` on the bytes of `query` and collects the
/// pairs that its iterator yields, in their order, as owned strings.
///
/// Taken on trust: that the pairs depend on the query string alone, which is
/// what gives them the name [`query_pairs`]; and that an empty query string
/// holds no pair. How the parser splits and decodes is not stated here.
#[verifier::external_body]
fn parse_pairs(query: &str) -> (pairs: Vec<(String, String)>)
    ensures
        pairs.deep_view() == query_pairs(query@),
        query@.len() == 0 ==> pairs@.len() == 0,
{
    form_urlencoded::parse(query.as_bytes()).into_owned().collect()
}

/// The name of the one field of a greeting request.
pub open spec fn name_key() -> Seq<char> {
    "name"@
}

/// The values that the pairs give for the field `name`, in their order.
pub open spec fn name_values(pairs: Seq<(Seq<char>, Seq<char>)>) -> Seq<Seq<char>> {
    pairs.filter(|p: (Seq<char>, Seq<char>)| p.0 == name_key()).map_values(
        |p: (Seq<char>, Seq<char>)| p.1,
    )
}

/// Why a query string is no greeting request.
#[derive(Clone, Copy, Debug, PartialEq, Eq, Structural)]
pub enum QueryError {
    /// No pair gives the field `name`.
    MissingField,
    /// More than one pair gives the field `name`.
    DuplicateField,
}

/// What a greeting request asks for.
#[derive(Debug)]
pub struct HelloQuery {
    /// Whom to greet.
    pub name: String,
}

/// The name that the pairs ask to greet: the value of the field `name`,
/// which must be given exactly once. Fields of other names are passed over.
pub open spec fn requested_name(pairs: Seq<(Seq<char>, Seq<char>)>) -> Result<
    Seq<char>,
    QueryError,
> {
    let values = name_values(pairs);
    if values.len() == 0 {
        Err(QueryError::MissingField)
    } else if values.len() == 1 {
        Ok(values[0])
    } else {
        Err(QueryError::DuplicateField)
    }
}

/// The name in a request that was read, or why none was read.
pub open spec fn read_name(read: Result<HelloQuery, QueryError>) -> Result<Seq<char>, QueryError> {
    match read {
        Ok(query) => Ok(query.name@),
        Err(e) => Err(e),
    }
}

/// The values of `name` among one more pair are those among the pairs before
/// it, and its own value behind them where it gives that field.
pub proof fn lemma_name_values_push(pairs: Seq<(Seq<char>, Seq<char>)>, p: (Seq<char>, Seq<char>))
    ensures
        p.0 == name_key() ==> name_values(pairs.push(p)) == name_values(pairs).push(p.1),
        p.0 != name_key() ==> name_values(pairs.push(p)) == name_values(pairs),
{
    reveal(Seq::filter);
    assert(pairs.push(p).drop_last() == pairs);
}

/// Pairs of which none gives the field `name` give no value for it.
pub proof fn lemma_name_values_absent(pairs: Seq<(Seq<char>, Seq<char>)>)
    requires
        forall|i: int| 0 <= i < pairs.len() ==> (#[trigger] pairs[i]).0 != name_key(),
    ensures
        name_values(pairs).len() == 0,
    decreases pairs.len(),
{
    if pairs.len() > 0 {
        lemma_name_values_absent(pairs.drop_last());
        lemma_name_values_push(pairs.drop_last(), pairs.last());
        assert(pairs.drop_last().push(pairs.last()) == pairs);
    } else {
        reveal(Seq::filter);
    }
}

/// The values of `name` among the first `n` pairs are no more than those
/// among all of them.
proof fn lemma_name_values_grow(pairs: Seq<(Seq<char>, Seq<char>)>, n: int)
    requires
        0 <= n <= pairs.len(),
    ensures
        name_values(pairs.take(n)).len() <= name_values(pairs).len(),
    decreases pairs.len() - n,
{
    if n < pairs.len() {
        lemma_name_values_push(pairs.take(n), pairs[n]);
        assert(pairs.take(n + 1) == pairs.take(n).push(pairs[n]));
        lemma_name_values_grow(pairs, n + 1);
    } else {
        assert(pairs.take(n) == pairs);
    }
}

impl QueryError {
    /// The text that tells a client what was wrong with its query string.
    pub open spec fn text(self) -> Seq<char> {
        match self {
            QueryError::MissingField => "Query deserialize error: missing field `name`"@,
            QueryError::DuplicateField => "Query deserialize error: duplicate field `name`"@,
        }
    }

    /// The text that tells a client what was wrong with its query string.
    pub fn message(&self) -> (m: &'static str)
        ensures
            m@ == self.text(),
    {
        match self {
            QueryError::MissingField => "Query deserialize error: missing field `name`",
            QueryError::DuplicateField => "Query deserialize error: duplicate field `name`",
        }
    }
}

impl HelloQuery {
    /// Reads a greeting request from the pairs of a query string.
    pub fn from_pairs(pairs: &[(String, String)]) -> (read: Result<HelloQuery, QueryError>)
        ensures
            read_name(read) == requested_name(pairs.deep_view()),
    {
        let ghost all = pairs.deep_view();
        let mut found: Option<String> = None;
        let mut i: usize = 0;
        while i < pairs.len()
            invariant
                i <= pairs.len(),
                all == pairs.deep_view(),
                match found {
                    Some(name) => name_values(all.take(i as int)) == seq![name@],
                    None => name_values(all.take(i as int)).len() == 0,
                },
            decreases pairs.len() - i,
        {
            proof {
                lemma_name_values_push(all.take(i as int), all[i as int]);
                assert(all.take(i + 1) == all.take(i as int).push(all[i as int]));
            }
            if str_eq(pairs[i].0.as_str(), "name") {
                if found.is_some() {
                    proof {
                        lemma_name_values_grow(all, i + 1);
                    }
                    return Err(QueryError::DuplicateField);
                }
                found = Some(pairs[i].1.clone());
            }
            i += 1;
        }
        assert(all.take(i as int) == all);
        match found {
            Some(name) => Ok(HelloQuery { name }),
            None => Err(QueryError::MissingField),
        }
    }

    /// Reads a greeting request from a query string.
    pub fn from_query(query: &str) -> (read: Result<HelloQuery, QueryError>)
        ensures
            read_name(read) == requested_name(query_pairs(query@)),
            query@.len() == 0 ==> read_name(read) == Err::<Seq<char>, QueryError>(
                QueryError::MissingField,
            ),
    {
        let pairs = parse_pairs(query);
        let slice = pairs.as_slice();
        assert(slice.deep_view() == pairs.deep_view());
        HelloQuery::from_pairs(slice)
    }
}

} // verus!
