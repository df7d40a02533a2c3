//! Pool-holder types bundling the shared database pool and search-client
//! handle for dependency injection into request handlers. Both are cheap,
//! reference-counted handles, immutable after construction.

use vstd::prelude::*;

verus! {

/// Declares the search client's handle type so that it can stand in fields
/// and signatures; the library never looks inside it.
#[verifier::external_type_specification]
#[verifier::external_body]
pub struct ExElasticsearch(uiuifree_elastic::Elasticsearch);

/// Relies on the derived Clone of mysql::Pool: the pool is one
/// reference-counted field, whose clone is an equal handle sharing the same
/// underlying pool.
#[verifier::external_body]
fn clone_pool(p: &mysql::Pool) -> (r: mysql::Pool)
    ensures
        r == *p,
{
    p.clone()
}

/// Relies on the derived Clone of elasticsearch's client handle: its fields
/// are reference-counted or plain data, so the clone is an equal handle
/// sharing the same underlying transport.
#[verifier::external_body]
fn clone_elastic(e: &uiuifree_elastic::Elasticsearch) -> (r: uiuifree_elastic::Elasticsearch)
    ensures
        r == *e,
{
    e.clone()
}

/// A database pool and a search-client handle, bundled for handlers that need
/// both.
pub struct ConnectionPool {
    mysql: mysql::Pool,
    elastic: uiuifree_elastic::Elasticsearch,
}

impl ConnectionPool {
    /// The database handle held by this bundle.
    pub closed spec fn spec_mysql(&self) -> mysql::Pool {
        self.mysql
    }

    /// The search handle held by this bundle.
    pub closed spec fn spec_elastic(&self) -> uiuifree_elastic::Elasticsearch {
        self.elastic
    }

    pub fn new(mysql: mysql::Pool, elastic: uiuifree_elastic::Elasticsearch) -> (r: ConnectionPool)
        ensures
            r.spec_mysql() == mysql,
            r.spec_elastic() == elastic,
    {
        ConnectionPool { mysql, elastic }
    }

    pub fn elastic(&self) -> (r: &uiuifree_elastic::Elasticsearch)
        ensures
            *r == self.spec_elastic(),
    {
        &self.elastic
    }

    pub fn mysql(&self) -> (r: &mysql::Pool)
        ensures
            *r == self.spec_mysql(),
    {
        &self.mysql
    }
}

impl Clone for ConnectionPool {
    /// A clone holds the same pool and client handles.
    fn clone(&self) -> (res: Self)
        ensures
            res == *self,
    {
        ConnectionPool { mysql: clone_pool(&self.mysql), elastic: clone_elastic(&self.elastic) }
    }
}

/// A search-client handle alone, for handlers that need no database access.
pub struct ElasticPool {
    elastic: uiuifree_elastic::Elasticsearch,
}

impl ElasticPool {
    /// The search handle held by this bundle.
    pub closed spec fn spec_elastic(&self) -> uiuifree_elastic::Elasticsearch {
        self.elastic
    }

    pub fn new(elastic: uiuifree_elastic::Elasticsearch) -> (r: ElasticPool)
        ensures
            r.spec_elastic() == elastic,
    {
        ElasticPool { elastic }
    }

    pub fn elastic(&self) -> (r: &uiuifree_elastic::Elasticsearch)
        ensures
            *r == self.spec_elastic(),
    {
        &self.elastic
    }
}

impl Clone for ElasticPool {
    /// A clone holds the same client handle.
    fn clone(&self) -> (res: Self)
        ensures
            res == *self,
    {
        ElasticPool { elastic: clone_elastic(&self.elastic) }
    }
}

} // verus!
