use vstd::prelude::*;

verus! {

/// One stored record, as the table holds it and as readers receive it.
#[derive(Clone, Debug, PartialEq, Eq)]
pub struct SourceFile {
    pub path: String,
    pub hash: String,
    pub size: i32,
    pub date_created: String,
}

/// The fields that a client supplies to create a record. None of them is
/// computed or defaulted by the service.
#[derive(Clone, Debug, PartialEq, Eq)]
pub struct NewUser {
    pub path: String,
    pub hash: String,
    pub size: i32,
    pub date_created: String,
}

} // verus!
