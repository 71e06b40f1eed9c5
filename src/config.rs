use vstd::prelude::*;
use vstd::string::*;

verus! {

/// The collection that records go to when none is configured.
pub fn default_collection() -> (r: String)
    ensures
        r@ == "texts"@,
{
    String::from_str("texts")
}

/// The database that records go to when none is configured.
pub fn default_database() -> (r: String)
    ensures
        r@ == "db"@,
{
    String::from_str("db")
}

/// Where the document store is, and which database and collection hold
/// the records.
#[derive(Clone, Debug)]
pub struct MongoDB {
    pub host: String,
    pub collection: String,
    pub database: String,
}

/// The service's configuration.
#[derive(Clone, Debug)]
pub struct Config {
    pub mongodb: MongoDB,
}

impl MongoDB {
    /// The store at `host`, with the default database and collection.
    pub fn new(host: String) -> (r: MongoDB)
        ensures
            r.host@ == host@,
            r.collection@ == "texts"@,
            r.database@ == "db"@,
    {
        MongoDB { host, collection: default_collection(), database: default_database() }
    }
}

} // verus!
