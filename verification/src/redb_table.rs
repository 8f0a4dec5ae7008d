//! Handles on redb tables.

use vstd::prelude::*;

use crate::error::StorageResult;
use crate::schema::static_table_name;

verus! {

/// Lightweight table handle: just the name, which is always one of the schema.
///
/// A redb table lives inside a transaction, so a handle remembers the name only and each
/// operation opens the table anew.
#[derive(Debug)]
pub struct RedbTable {
    name: &'static str,
}

impl View for RedbTable {
    type V = Seq<char>;

    closed spec fn view(&self) -> Seq<char> {
        self.name@
    }
}

impl RedbTable {
    #[verifier::type_invariant]
    spec fn in_schema(self) -> bool {
        crate::schema::schema().contains(self.name@)
    }

    /// The handle of the table `name`; a name that is not in the schema is an error.
    pub fn new(name: &str) -> (r: StorageResult<RedbTable>)
        ensures
            r is Ok <==> crate::schema::schema().contains(name@),
            r matches Ok(table) ==> table@ == name@,
            r matches Err(e) ==> crate::schema::is_unknown_table(e, name@),
    {
        match static_table_name(name) {
            Ok(name) => Ok(RedbTable { name }),
            Err(e) => Err(e),
        }
    }

    /// The table's name.
    pub fn name(&self) -> (r: &'static str)
        ensures
            r@ == self@,
            crate::schema::schema().contains(r@),
    {
        proof {
            use_type_invariant(self);
        }
        self.name
    }
}

impl Clone for RedbTable {
    fn clone(&self) -> (r: Self)
        ensures
            r@ == self@,
    {
        proof {
            use_type_invariant(self);
        }
        RedbTable { name: self.name }
    }
}

} // verus!
