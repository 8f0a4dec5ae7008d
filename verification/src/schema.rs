//! The names of the nine tables, and their lookup.

use vstd::prelude::*;

use crate::error::{StorageError, StorageResult};

verus! {

/// The `==` of `std` on strings. It claims what `std` documents: two strings are equal when they
/// hold the same characters.
pub assume_specification[ <str as PartialEq>::eq ](s: &str, other: &str) -> (r: bool)
    ensures
        r == (s@ == other@),
;

/// The table of the leaves.
pub const LEAVES_CF: &'static str = "leaves";

/// The table of the subtrees rooted at depth 16.
pub const SUBTREE_16_CF: &'static str = "st16";

/// The table of the subtrees rooted at depth 24.
pub const SUBTREE_24_CF: &'static str = "st24";

/// The table of the subtrees rooted at depth 32.
pub const SUBTREE_32_CF: &'static str = "st32";

/// The table of the subtrees rooted at depth 40.
pub const SUBTREE_40_CF: &'static str = "st40";

/// The table of the subtrees rooted at depth 48.
pub const SUBTREE_48_CF: &'static str = "st48";

/// The table of the subtrees rooted at depth 56.
pub const SUBTREE_56_CF: &'static str = "st56";

/// The table of the metadata.
pub const METADATA_CF: &'static str = "metadata";

/// The table of the hashes at the in-memory depth.
pub const IN_MEM_DEPTH_CF: &'static str = "in_mem_depth";

/// The names of all tables, in the order in which they are created.
pub open spec fn schema() -> Seq<Seq<char>> {
    seq![
        LEAVES_CF@,
        SUBTREE_16_CF@,
        SUBTREE_24_CF@,
        SUBTREE_32_CF@,
        SUBTREE_40_CF@,
        SUBTREE_48_CF@,
        SUBTREE_56_CF@,
        METADATA_CF@,
        IN_MEM_DEPTH_CF@,
    ]
}

/// The text of the error for a name that is not in the schema.
pub open spec fn unknown_table_text(name: Seq<char>) -> Seq<char> {
    "unknown table `"@ + name + "`"@
}

/// Whether `e` is the error for the name `name`, which is not in the schema.
pub open spec fn is_unknown_table(e: StorageError, name: Seq<char>) -> bool {
    e matches StorageError::Unsupported(text) && text@ == unknown_table_text(name)
}

/// The names of all tables, in the order in which they are created.
pub fn all_table_names() -> (names: [&'static str; 9])
    ensures
        names@.map_values(|n: &'static str| n@) == schema(),
{
    let names: [&'static str; 9] = [
        LEAVES_CF,
        SUBTREE_16_CF,
        SUBTREE_24_CF,
        SUBTREE_32_CF,
        SUBTREE_40_CF,
        SUBTREE_48_CF,
        SUBTREE_56_CF,
        METADATA_CF,
        IN_MEM_DEPTH_CF,
    ];
    names
}

/// Looks `name` up in the schema and returns the table's own name for it, which outlives
/// `name`; a name that is not in the schema is [`StorageError::Unsupported`].
pub fn static_table_name(name: &str) -> (r: StorageResult<&'static str>)
    ensures
        r is Ok <==> schema().contains(name@),
        r matches Ok(n) ==> n@ == name@,
        r matches Err(e) ==> is_unknown_table(e, name@),
        r matches Err(e) ==> (e matches StorageError::Unsupported(text) && text@
            == "unknown table `"@ + name@ + "`"@),
{
    let names = all_table_names();
    let ghost views = names@.map_values(|n: &'static str| n@);
    let mut i: usize = 0;
    while i < 9
        invariant
            views == names@.map_values(|n: &'static str| n@),
            views == schema(),
            i <= 9,
            forall|j: int| 0 <= j < i ==> #[trigger] views[j] != name@,
        decreases 9 - i,
    {
        let candidate: &'static str = names[i];
        assert(views[i as int] == candidate@);
        if *name == *candidate {
            return Ok(candidate);
        }
        i = i + 1;
    }
    Err(StorageError::Unsupported("unknown table `".to_owned().concat(name).concat("`")))
}

/// Whether `c` may stand in a table name: a lower-case letter, a digit or an underscore.
pub open spec fn is_name_char(c: char) -> bool {
    ('a' <= c && c <= 'z') || ('0' <= c && c <= '9') || c == '_'
}

/// Every table name is an identifier that stands in SQL as it is: not empty, made of lower-case
/// letters, digits and underscores, the first of them a letter.
pub proof fn law_names_are_identifiers(i: int)
    requires
        0 <= i < schema().len(),
    ensures
        schema()[i].len() > 0,
        'a' <= schema()[i][0] && schema()[i][0] <= 'z',
        forall|j: int| 0 <= j < schema()[i].len() ==> is_name_char(#[trigger] schema()[i][j]),
{
    reveal_strlit("leaves");
    reveal_strlit("st16");
    reveal_strlit("st24");
    reveal_strlit("st32");
    reveal_strlit("st40");
    reveal_strlit("st48");
    reveal_strlit("st56");
    reveal_strlit("metadata");
    reveal_strlit("in_mem_depth");
}

/// No two tables share a name.
pub proof fn law_names_are_distinct()
    ensures
        schema().no_duplicates(),
{
    reveal_strlit("leaves");
    reveal_strlit("st16");
    reveal_strlit("st24");
    reveal_strlit("st32");
    reveal_strlit("st40");
    reveal_strlit("st48");
    reveal_strlit("st56");
    reveal_strlit("metadata");
    reveal_strlit("in_mem_depth");
    let s = schema();
    assert(s[1][2] == '1' && s[2][2] == '2' && s[3][2] == '3' && s[4][2] == '4' && s[4][3] == '0'
        && s[5][2] == '4' && s[5][3] == '8' && s[6][2] == '5');
    assert(s[0].len() == 6 && s[7].len() == 8 && s[8].len() == 12);
    assert(s[1].len() == 4 && s[2].len() == 4 && s[3].len() == 4 && s[4].len() == 4 && s[5].len()
        == 4 && s[6].len() == 4);
}

/// The tables are those of the leaves, of the subtrees of six depths, of the metadata and of the
/// hashes at the in-memory depth, and no others.
pub proof fn law_schema_lists_the_tables(name: Seq<char>)
    ensures
        schema().len() == 9,
        schema().contains(name) <==> (name == "leaves"@ || name == "st16"@ || name == "st24"@ || name
            == "st32"@ || name == "st40"@ || name == "st48"@ || name == "st56"@ || name
            == "metadata"@ || name == "in_mem_depth"@),
{
    let s = schema();
    assert(s[0] == "leaves"@ && s[1] == "st16"@ && s[2] == "st24"@ && s[3] == "st32"@ && s[4]
        == "st40"@ && s[5] == "st48"@ && s[6] == "st56"@ && s[7] == "metadata"@ && s[8]
        == "in_mem_depth"@);
    if s.contains(name) {
        let i = choose|i: int| 0 <= i < s.len() && s[i] == name;
    }
}

/// The error for a name that is not in the schema is that the request cannot be served, and it
/// quotes the name.
pub proof fn law_unknown_table_error_quotes_the_name(e: StorageError, name: Seq<char>)
    requires
        is_unknown_table(e, name),
    ensures
        e matches StorageError::Unsupported(text) && text@ == "unknown table `"@ + name + "`"@,
{
}

/// A name is looked up as it is: it is found exactly where it is that of a table, and what is found
/// is the name; the error for any other name quotes it.
pub proof fn law_static_table_name_outcome(name: &str, r: StorageResult<&'static str>)
    requires
        call_ensures(static_table_name, (name,), r),
    ensures
        r is Ok <==> schema().contains(name@),
        r matches Ok(found) ==> found@ == name@,
        r matches Err(e) ==> (e matches StorageError::Unsupported(text) && text@
            == "unknown table `"@ + name@ + "`"@),
{
}

/// Every table is listed once, and found under the name in the list.
pub proof fn law_listed_tables_are_found(
    names: [&'static str; 9],
    i: int,
    r: StorageResult<&'static str>,
)
    requires
        call_ensures(all_table_names, (), names),
        0 <= i < 9,
        call_ensures(static_table_name, (names@[i],), r),
    ensures
        r matches Ok(found) && found@ == names@[i]@,
        names@[i]@ == schema()[i],
{
    let views = names@.map_values(|n: &'static str| n@);
    assert(views[i] == names@[i]@);
    assert(schema()[i] == views[i]);
}

} // verus!
