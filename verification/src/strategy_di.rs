//! The strategy pattern wired together by dependency injection: a context
//! composes a pluggable arithmetic strategy with a pluggable backend, and
//! turns two integers into the backend's reply to a templated query.

use vstd::prelude::*;
use vstd::string::StringExecFns;
use crate::decimal::{decimal, decimal_string};

verus! {

/// A pluggable backend: answers a query with a reply pinned down by the
/// matching spec function.
pub trait Database {
    /// The reply that `query` returns.
    spec fn query_spec(&self, query: Seq<char>) -> Seq<char>;

    fn query(&self, query: &str) -> (r: String)
        ensures
            r@ == self.query_spec(query@),
    ;
}

/// A stub backend that echoes the query back behind a MySQL banner.
pub struct MySQLDatabase;

impl Database for MySQLDatabase {
    open spec fn query_spec(&self, query: Seq<char>) -> Seq<char> {
        "MySQL: "@ + query
    }

    fn query(&self, query: &str) -> (r: String) {
        String::from_str("MySQL: ").concat(query)
    }
}

/// A stub backend that echoes the query back behind a Postgres banner.
pub struct PostgresDatabase;

impl Database for PostgresDatabase {
    open spec fn query_spec(&self, query: Seq<char>) -> Seq<char> {
        "Postgres: "@ + query
    }

    fn query(&self, query: &str) -> (r: String) {
        String::from_str("Postgres: ").concat(query)
    }
}

/// A pluggable arithmetic step: combines two integers into one, pinned
/// down by the matching spec function.
pub trait Strategy {
    /// The exact value the strategy computes, over unbounded integers.
    spec fn strategy_spec(&self, a: int, b: int) -> int;

    /// The inputs on which the computed value fits the result type.
    spec fn fits(&self, a: i32, b: i32) -> bool;

    fn execute_strategy(&self, a: i32, b: i32) -> (r: i32)
        requires
            self.fits(a, b),
        ensures
            r as int == self.strategy_spec(a as int, b as int),
    ;
}

/// The strategy that adds its two inputs.
pub struct AdditionStrategy;

impl Strategy for AdditionStrategy {
    open spec fn strategy_spec(&self, a: int, b: int) -> int {
        a + b
    }

    open spec fn fits(&self, a: i32, b: i32) -> bool {
        i32::MIN <= a as int + b as int <= i32::MAX
    }

    fn execute_strategy(&self, a: i32, b: i32) -> (r: i32) {
        a + b
    }
}

/// The strategy that subtracts its second input from its first.
pub struct SubtractionStrategy;

impl Strategy for SubtractionStrategy {
    open spec fn strategy_spec(&self, a: int, b: int) -> int {
        a - b
    }

    open spec fn fits(&self, a: i32, b: i32) -> bool {
        i32::MIN <= a as int - b as int <= i32::MAX
    }

    fn execute_strategy(&self, a: i32, b: i32) -> (r: i32) {
        a - b
    }
}

/// A thin data-access collaborator around an injected backend.
pub struct DataService<D: Database> {
    db: D,
}

impl<D: Database> DataService<D> {
    /// The backend this service queries.
    pub closed spec fn spec_db(&self) -> D {
        self.db
    }

    pub fn new(db: D) -> (s: Self)
        ensures
            s.spec_db() == db,
    {
        DataService { db }
    }

    fn get_data(&self, query: &str) -> (r: String)
        ensures
            r@ == self.spec_db().query_spec(query@),
    {
        self.db.query(query)
    }
}

/// The composition root: an injected strategy plus an injected data
/// service.
pub struct Context<S: Strategy, D: Database> {
    strategy: S,
    data_service: DataService<D>,
}

impl<S: Strategy, D: Database> Context<S, D> {
    /// The injected strategy.
    pub closed spec fn spec_strategy(&self) -> S {
        self.strategy
    }

    /// The injected data service.
    pub closed spec fn spec_service(&self) -> DataService<D> {
        self.data_service
    }

    pub fn new(strategy: S, data_service: DataService<D>) -> (c: Self)
        ensures
            c.spec_strategy() == strategy,
            c.spec_service() == data_service,
    {
        Context { strategy, data_service }
    }

    /// The backend's reply to the templated query `SELECT <v>;`, where
    /// `<v>` is the strategy's value on the two inputs.
    pub open spec fn execute_spec(&self, a: int, b: int) -> Seq<char> {
        self.spec_service().spec_db().query_spec(
            "SELECT "@ + decimal(self.spec_strategy().strategy_spec(a, b)) + ";"@,
        )
    }

    pub fn execute(&self, a: i32, b: i32) -> (r: String)
        requires
            self.spec_strategy().fits(a, b),
        ensures
            r@ == self.execute_spec(a as int, b as int),
    {
        let result = self.strategy.execute_strategy(a, b);
        let mut query = String::from_str("SELECT ");
        query.append(decimal_string(result).as_str());
        query.append(";");
        proof {
            assert(query@ =~= "SELECT "@
                + decimal(self.spec_strategy().strategy_spec(a as int, b as int)) + ";"@);
        }
        self.data_service.get_data(query.as_str())
    }
}

} // verus!
