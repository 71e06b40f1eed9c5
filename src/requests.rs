use vstd::prelude::*;

use crate::ids::{parsed_id, uuid_parsed, TextId};
use crate::protocol::{Operation, ServiceError};

verus! {

/// The identifier that `s` names, or `MalformedId` when it names none.
pub fn parse_id(s: &str) -> (r: Result<TextId, ServiceError>)
    ensures
        r is Ok <==> uuid_parsed(s@) is Some,
        r is Ok ==> r->Ok_0 == parsed_id(s@),
        r is Err ==> r->Err_0 == ServiceError::MalformedId,
{
    match TextId::parse(s) {
        Some(id) => Ok(id),
        None => Err(ServiceError::MalformedId),
    }
}

/// An insert of `data` under a freshly generated identifier.
pub fn insert_request(data: String) -> (r: Operation<String>)
    ensures
        r is Insert,
        r->Insert_id.is_random(),
        r->Insert_data@ == data@,
{
    Operation::Insert { id: TextId::generate(), data }
}

/// A get of the record that `id` names; `MalformedId` for a malformed id.
pub fn get_request(id: &str) -> (r: Result<Operation<String>, ServiceError>)
    ensures
        r is Ok <==> uuid_parsed(id@) is Some,
        r is Ok ==> r->Ok_0 == (Operation::<String>::Get { id: parsed_id(id@) }),
        r is Err ==> r->Err_0 == ServiceError::MalformedId,
{
    match parse_id(id) {
        Ok(i) => Ok(Operation::Get { id: i }),
        Err(e) => Err(e),
    }
}

/// A delete of the record that `id` names; `MalformedId` for a malformed id.
pub fn delete_request(id: &str) -> (r: Result<Operation<String>, ServiceError>)
    ensures
        r is Ok <==> uuid_parsed(id@) is Some,
        r is Ok ==> r->Ok_0 == (Operation::<String>::Delete { id: parsed_id(id@) }),
        r is Err ==> r->Err_0 == ServiceError::MalformedId,
{
    match parse_id(id) {
        Ok(i) => Ok(Operation::Delete { id: i }),
        Err(e) => Err(e),
    }
}

/// A search of the record that `id` names for `term`; `MalformedId` for a
/// malformed id. (A term with white space is refused when the search starts.)
pub fn search_request(id: &str, term: String) -> (r: Result<Operation<String>, ServiceError>)
    ensures
        r is Ok <==> uuid_parsed(id@) is Some,
        r is Ok ==> r->Ok_0 is Search && r->Ok_0->Search_id == parsed_id(id@)
            && r->Ok_0->Search_term@ == term@,
        r is Err ==> r->Err_0 == ServiceError::MalformedId,
{
    match parse_id(id) {
        Ok(i) => Ok(Operation::Search { id: i, term }),
        Err(e) => Err(e),
    }
}

} // verus!
