//! Handles on turso tables.

use vstd::prelude::*;

use crate::error::StorageResult;
use crate::schema::static_table_name;

verus! {

/// Lightweight table handle: just the name, which is always one of the schema.
#[derive(Debug)]
pub struct TursoTable {
    name: &'static str,
}

impl View for TursoTable {
    type V = Seq<char>;

    closed spec fn view(&self) -> Seq<char> {
        self.name@
    }
}

impl TursoTable {
    #[verifier::type_invariant]
    spec fn in_schema(self) -> bool {
        crate::schema::schema().contains(self.name@)
    }

    /// The handle of the table `name`; a name that is not in the schema is an error.
    pub fn new(name: &str) -> (r: StorageResult<TursoTable>)
        ensures
            r is Ok <==> crate::schema::schema().contains(name@),
            r matches Ok(table) ==> table@ == name@,
            r matches Err(e) ==> crate::schema::is_unknown_table(e, name@),
    {
        match static_table_name(name) {
            Ok(name) => Ok(TursoTable { name }),
            Err(e) => Err(e),
        }
    }

    /// The table's name.
    pub fn name(&self) -> (r: &'static str)
        ensures
            r@ == self@,
            crate::schema::schema().contains(r@),
    {
        proof {
            use_type_invariant(self);
        }
        self.name
    }
}

impl Clone for TursoTable {
    fn clone(&self) -> (r: Self)
        ensures
            r@ == self@,
    {
        proof {
            use_type_invariant(self);
        }
        TursoTable { name: self.name }
    }
}

} // verus!
