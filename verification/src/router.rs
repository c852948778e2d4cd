//! The route table of the gateway: which HTTP method and path reach which
//! handler.  A request path is first cut into segments; the table then
//! decides the operation and carries the path parameters to it
//! uninterpreted.

use vstd::prelude::*;
use crate::strutil::str_eq;

verus! {

/// The HTTP methods the gateway routes.
#[derive(Debug, Clone, Copy, PartialEq, Eq, Structural)]
pub enum HttpMethod {
    Get,
    Post,
    Put,
    Delete,
}

/// One resolved route, with the path parameters it carries.
#[derive(Debug, PartialEq)]
pub enum Route {
    MongoIndex,
    MongoFindOne { database: String, collection: String },
    MongoFindMany { database: String, collection: String },
    MongoInsertOne { database: String, collection: String },
    MongoInsertMany { database: String, collection: String },
    MongoDeleteOne { database: String, collection: String },
    MongoDeleteMany { database: String, collection: String },
    MongoGetAllDatabases,
    MongoGetCollections { database: String },
    MongoDropDatabase { database: String },
    MongoDropCollection { database: String, collection: String },
    MongoUpdateOne { database: String, collection: String },
    MongoUpdateMany { database: String, collection: String },
    MongoRenameField { database: String, collection: String },
    MongoPopLast { database: String, collection: String, field: String },
    MongoPopFirst { database: String, collection: String, field: String },
    MongoPushElement { database: String, collection: String, field: String },
    PostgresIndex,
    PostgresFindOne { table: String },
}

/// The mirror of [`Route`] over character sequences, for contracts.
pub enum RouteView {
    MongoIndex,
    MongoFindOne { database: Seq<char>, collection: Seq<char> },
    MongoFindMany { database: Seq<char>, collection: Seq<char> },
    MongoInsertOne { database: Seq<char>, collection: Seq<char> },
    MongoInsertMany { database: Seq<char>, collection: Seq<char> },
    MongoDeleteOne { database: Seq<char>, collection: Seq<char> },
    MongoDeleteMany { database: Seq<char>, collection: Seq<char> },
    MongoGetAllDatabases,
    MongoGetCollections { database: Seq<char> },
    MongoDropDatabase { database: Seq<char> },
    MongoDropCollection { database: Seq<char>, collection: Seq<char> },
    MongoUpdateOne { database: Seq<char>, collection: Seq<char> },
    MongoUpdateMany { database: Seq<char>, collection: Seq<char> },
    MongoRenameField { database: Seq<char>, collection: Seq<char> },
    MongoPopLast { database: Seq<char>, collection: Seq<char>, field: Seq<char> },
    MongoPopFirst { database: Seq<char>, collection: Seq<char>, field: Seq<char> },
    MongoPushElement { database: Seq<char>, collection: Seq<char>, field: Seq<char> },
    PostgresIndex,
    PostgresFindOne { table: Seq<char> },
}

impl Route {
    /// The mirror of this route over character sequences.
    pub open spec fn view(self) -> RouteView {
        match self {
            Route::MongoIndex => RouteView::MongoIndex,
            Route::MongoFindOne { database, collection } => RouteView::MongoFindOne {
                database: database@,
                collection: collection@,
            },
            Route::MongoFindMany { database, collection } => RouteView::MongoFindMany {
                database: database@,
                collection: collection@,
            },
            Route::MongoInsertOne { database, collection } => RouteView::MongoInsertOne {
                database: database@,
                collection: collection@,
            },
            Route::MongoInsertMany { database, collection } => RouteView::MongoInsertMany {
                database: database@,
                collection: collection@,
            },
            Route::MongoDeleteOne { database, collection } => RouteView::MongoDeleteOne {
                database: database@,
                collection: collection@,
            },
            Route::MongoDeleteMany { database, collection } => RouteView::MongoDeleteMany {
                database: database@,
                collection: collection@,
            },
            Route::MongoGetAllDatabases => RouteView::MongoGetAllDatabases,
            Route::MongoGetCollections { database } => RouteView::MongoGetCollections {
                database: database@,
            },
            Route::MongoDropDatabase { database } => RouteView::MongoDropDatabase {
                database: database@,
            },
            Route::MongoDropCollection { database, collection } => RouteView::MongoDropCollection {
                database: database@,
                collection: collection@,
            },
            Route::MongoUpdateOne { database, collection } => RouteView::MongoUpdateOne {
                database: database@,
                collection: collection@,
            },
            Route::MongoUpdateMany { database, collection } => RouteView::MongoUpdateMany {
                database: database@,
                collection: collection@,
            },
            Route::MongoRenameField { database, collection } => RouteView::MongoRenameField {
                database: database@,
                collection: collection@,
            },
            Route::MongoPopLast { database, collection, field } => RouteView::MongoPopLast {
                database: database@,
                collection: collection@,
                field: field@,
            },
            Route::MongoPopFirst { database, collection, field } => RouteView::MongoPopFirst {
                database: database@,
                collection: collection@,
                field: field@,
            },
            Route::MongoPushElement { database, collection, field } => RouteView::MongoPushElement {
                database: database@,
                collection: collection@,
                field: field@,
            },
            Route::PostgresIndex => RouteView::PostgresIndex,
            Route::PostgresFindOne { table } => RouteView::PostgresFindOne { table: table@ },
        }
    }
}

/// The mirror of a resolved route, when one was resolved.
pub open spec fn spec_opt_route_view(r: Option<Route>) -> Option<RouteView> {
    match r {
        Some(rt) => Some(rt.view()),
        None => None,
    }
}

/// The views of the path segments.
pub open spec fn seg_views(segs: Seq<String>) -> Seq<Seq<char>> {
    segs.map_values(|s: String| s@)
}

/// The route table over two path segments under `mongodb`.
pub open spec fn spec_route_len2(m: HttpMethod, op: Seq<char>) -> Option<RouteView> {
    if op == "get_all_databases"@ && m == HttpMethod::Get {
        Some(RouteView::MongoGetAllDatabases)
    } else {
        None
    }
}

/// The route table over three path segments.
pub open spec fn spec_route_len3(m: HttpMethod, segs: Seq<Seq<char>>) -> Option<RouteView> {
    if segs[0] == "mongodb"@ {
        if segs[1] == "get_collections"@ && m == HttpMethod::Get {
            Some(RouteView::MongoGetCollections { database: segs[2] })
        } else if segs[1] == "drop_database"@ && m == HttpMethod::Delete {
            Some(RouteView::MongoDropDatabase { database: segs[2] })
        } else {
            None
        }
    } else if segs[0] == "postgres"@ {
        if segs[1] == "find_one"@ && m == HttpMethod::Get {
            Some(RouteView::PostgresFindOne { table: segs[2] })
        } else {
            None
        }
    } else {
        None
    }
}

/// The route table over four path segments under `mongodb`: the operation
/// name, then `{database}/{collection}`.
pub open spec fn spec_route_len4(
    m: HttpMethod,
    op: Seq<char>,
    database: Seq<char>,
    collection: Seq<char>,
) -> Option<RouteView> {
    if op == "find_one"@ && m == HttpMethod::Get {
        Some(RouteView::MongoFindOne { database, collection })
    } else if op == "find_many"@ && m == HttpMethod::Get {
        Some(RouteView::MongoFindMany { database, collection })
    } else if op == "insert_one"@ && m == HttpMethod::Post {
        Some(RouteView::MongoInsertOne { database, collection })
    } else if op == "insert_many"@ && m == HttpMethod::Post {
        Some(RouteView::MongoInsertMany { database, collection })
    } else if op == "delete_one"@ && m == HttpMethod::Delete {
        Some(RouteView::MongoDeleteOne { database, collection })
    } else if op == "delete_many"@ && m == HttpMethod::Delete {
        Some(RouteView::MongoDeleteMany { database, collection })
    } else if op == "drop_collection"@ && m == HttpMethod::Delete {
        Some(RouteView::MongoDropCollection { database, collection })
    } else if op == "update_one"@ && m == HttpMethod::Put {
        Some(RouteView::MongoUpdateOne { database, collection })
    } else if op == "update_many"@ && m == HttpMethod::Put {
        Some(RouteView::MongoUpdateMany { database, collection })
    } else if op == "rename_field"@ && m == HttpMethod::Put {
        Some(RouteView::MongoRenameField { database, collection })
    } else {
        None
    }
}

/// The route table over five path segments under `mongodb`: the operation
/// name, then `{database}/{collection}/{field}`.
pub open spec fn spec_route_len5(
    m: HttpMethod,
    op: Seq<char>,
    database: Seq<char>,
    collection: Seq<char>,
    field: Seq<char>,
) -> Option<RouteView> {
    if op == "pop_last"@ && m == HttpMethod::Put {
        Some(RouteView::MongoPopLast { database, collection, field })
    } else if op == "pop_first"@ && m == HttpMethod::Put {
        Some(RouteView::MongoPopFirst { database, collection, field })
    } else if op == "push_element"@ && m == HttpMethod::Post {
        Some(RouteView::MongoPushElement { database, collection, field })
    } else {
        None
    }
}

/// The full route table of the gateway over a method and path segments.
pub open spec fn spec_route(m: HttpMethod, segs: Seq<Seq<char>>) -> Option<RouteView> {
    if segs.len() == 1 && segs[0] == "mongodb"@ && m == HttpMethod::Get {
        Some(RouteView::MongoIndex)
    } else if segs.len() == 1 && segs[0] == "postgres"@ && m == HttpMethod::Get {
        Some(RouteView::PostgresIndex)
    } else if segs.len() == 2 && segs[0] == "mongodb"@ {
        spec_route_len2(m, segs[1])
    } else if segs.len() == 3 {
        spec_route_len3(m, segs)
    } else if segs.len() == 4 && segs[0] == "mongodb"@ {
        spec_route_len4(m, segs[1], segs[2], segs[3])
    } else if segs.len() == 5 && segs[0] == "mongodb"@ {
        spec_route_len5(m, segs[1], segs[2], segs[3], segs[4])
    } else {
        None
    }
}

/// Resolves a request against the route table: exactly the routes of
/// [`spec_route`] are recognised, and the path parameters are handed to the
/// operation unchanged.
pub fn match_route(method: HttpMethod, segments: &Vec<String>) -> (r: Option<Route>)
    ensures
        spec_opt_route_view(r) == spec_route(method, seg_views(segments@)),
{
    let n: usize = segments.len();
    if n == 1 {
        if str_eq(segments[0].as_str(), "mongodb") && method == HttpMethod::Get {
            Some(Route::MongoIndex)
        } else if str_eq(segments[0].as_str(), "postgres") && method == HttpMethod::Get {
            Some(Route::PostgresIndex)
        } else {
            None
        }
    } else if n == 2 {
        if str_eq(segments[0].as_str(), "mongodb") && str_eq(
            segments[1].as_str(),
            "get_all_databases",
        ) && method == HttpMethod::Get {
            Some(Route::MongoGetAllDatabases)
        } else {
            None
        }
    } else if n == 3 {
        if str_eq(segments[0].as_str(), "mongodb") {
            if str_eq(segments[1].as_str(), "get_collections") && method == HttpMethod::Get {
                Some(Route::MongoGetCollections { database: segments[2].clone() })
            } else if str_eq(segments[1].as_str(), "drop_database") && method
                == HttpMethod::Delete {
                Some(Route::MongoDropDatabase { database: segments[2].clone() })
            } else {
                None
            }
        } else if str_eq(segments[0].as_str(), "postgres") {
            if str_eq(segments[1].as_str(), "find_one") && method == HttpMethod::Get {
                Some(Route::PostgresFindOne { table: segments[2].clone() })
            } else {
                None
            }
        } else {
            None
        }
    } else if n == 4 {
        if !str_eq(segments[0].as_str(), "mongodb") {
            return None;
        }
        let database: String = segments[2].clone();
        let collection: String = segments[3].clone();
        if str_eq(segments[1].as_str(), "find_one") && method == HttpMethod::Get {
            Some(Route::MongoFindOne { database, collection })
        } else if str_eq(segments[1].as_str(), "find_many") && method == HttpMethod::Get {
            Some(Route::MongoFindMany { database, collection })
        } else if str_eq(segments[1].as_str(), "insert_one") && method == HttpMethod::Post {
            Some(Route::MongoInsertOne { database, collection })
        } else if str_eq(segments[1].as_str(), "insert_many") && method == HttpMethod::Post {
            Some(Route::MongoInsertMany { database, collection })
        } else if str_eq(segments[1].as_str(), "delete_one") && method == HttpMethod::Delete {
            Some(Route::MongoDeleteOne { database, collection })
        } else if str_eq(segments[1].as_str(), "delete_many") && method == HttpMethod::Delete {
            Some(Route::MongoDeleteMany { database, collection })
        } else if str_eq(segments[1].as_str(), "drop_collection") && method == HttpMethod::Delete {
            Some(Route::MongoDropCollection { database, collection })
        } else if str_eq(segments[1].as_str(), "update_one") && method == HttpMethod::Put {
            Some(Route::MongoUpdateOne { database, collection })
        } else if str_eq(segments[1].as_str(), "update_many") && method == HttpMethod::Put {
            Some(Route::MongoUpdateMany { database, collection })
        } else if str_eq(segments[1].as_str(), "rename_field") && method == HttpMethod::Put {
            Some(Route::MongoRenameField { database, collection })
        } else {
            None
        }
    } else if n == 5 {
        if !str_eq(segments[0].as_str(), "mongodb") {
            return None;
        }
        let database: String = segments[2].clone();
        let collection: String = segments[3].clone();
        let field: String = segments[4].clone();
        if str_eq(segments[1].as_str(), "pop_last") && method == HttpMethod::Put {
            Some(Route::MongoPopLast { database, collection, field })
        } else if str_eq(segments[1].as_str(), "pop_first") && method == HttpMethod::Put {
            Some(Route::MongoPopFirst { database, collection, field })
        } else if str_eq(segments[1].as_str(), "push_element") && method == HttpMethod::Post {
            Some(Route::MongoPushElement { database, collection, field })
        } else {
            None
        }
    } else {
        None
    }
}

} // verus!
