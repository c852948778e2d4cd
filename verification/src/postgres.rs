//! The relational lookup: the SQL text built from the table name and the
//! query parameters, and the fixed texts of the relational routes.

use vstd::prelude::*;
use crate::response::{ApiResponse, ResponseBody};

verus! {

/// The `field = 'value'` condition for one query parameter.
pub open spec fn spec_condition(key: Seq<char>, value: Seq<char>) -> Seq<char> {
    key + " = '"@ + value + "'"@
}

/// Every condition joined with ` AND `, in parameter order.
pub open spec fn spec_conditions(params: Seq<(String, String)>) -> Seq<char>
    decreases params.len(),
{
    if params.len() == 0 {
        Seq::empty()
    } else if params.len() == 1 {
        spec_condition(params[0].0@, params[0].1@)
    } else {
        spec_conditions(params.drop_last()) + " AND "@ + spec_condition(
            params.last().0@,
            params.last().1@,
        )
    }
}

/// The full text of the single-table lookup: `SELECT * FROM` the table,
/// `WHERE`, then the conditions.  With no parameters the text ends right
/// after `WHERE `, as the gateway has always sent it.
pub open spec fn spec_select_query(table: Seq<char>, params: Seq<(String, String)>) -> Seq<char> {
    "SELECT * FROM "@ + table + " WHERE "@ + spec_conditions(params)
}

/// Builds the SQL text of the single-table lookup, each query parameter an
/// equality condition on its column, values quoted unmodified.
pub fn build_select_query(table: &str, params: &Vec<(String, String)>) -> (q: String)
    ensures
        q@ == spec_select_query(table@, params@),
{
    let mut q: String = String::from_str("SELECT * FROM ");
    q.append(table);
    q.append(" WHERE ");
    let n: usize = params.len();
    let mut i: usize = 0;
    while i < n
        invariant
            n == params@.len(),
            i <= n,
            q@ == spec_select_query(table@, params@.take(i as int)),
        decreases n - i,
    {
        if i > 0 {
            q.append(" AND ");
        }
        let pair: &(String, String) = &params[i];
        q.append(pair.0.as_str());
        q.append(" = '");
        q.append(pair.1.as_str());
        q.append("'");
        proof {
            assert(params@.take(i + 1 as int).drop_last() =~= params@.take(i as int));
            assert(params@.take(i + 1 as int).last() == params@[i as int]);
            assert(q@ =~= spec_select_query(table@, params@.take(i + 1 as int)));
        }
        i = i + 1;
    }
    proof {
        assert(params@.take(n as int) =~= params@);
    }
    q
}

/// The greeting on the relational index route.
pub fn postgres_index_response() -> (r: ApiResponse)
    ensures
        r.status == 200,
        (match r.body {
            ResponseBody::Text(t) => t@ == "Hello from Postgres!"@,
            _ => false,
        }),
{
    ApiResponse { status: 200, body: ResponseBody::Text(String::from_str("Hello from Postgres!")) }
}

/// The response of the relational lookup: once the query ran, the route
/// reports the greeting and nothing of the rows.
pub fn postgres_find_one_response() -> (r: ApiResponse)
    ensures
        r.status == 200,
        (match r.body {
            ResponseBody::Text(t) => t@ == "Hello from Postgres!"@,
            _ => false,
        }),
{
    ApiResponse { status: 200, body: ResponseBody::Text(String::from_str("Hello from Postgres!")) }
}

} // verus!
