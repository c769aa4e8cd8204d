//! Names of the storage table and its indexes, and the mapping from an
//! index to its partition- and sort-key attribute names.

use vstd::prelude::*;
use crate::text::str_eq;

verus! {

pub const TABLE_NAME: &'static str = "StatsDB-Test";

pub const LSI1_NAME: &'static str = "LSI1";

pub const GSI1_NAME: &'static str = "GSI1";

pub const GSI2_NAME: &'static str = "GSI2";

/// The index name is absent (the primary index) or one of the three
/// secondary indexes.
pub open spec fn is_known_index(name: Option<Seq<char>>) -> bool {
    match name {
        None => true,
        Some(n) => n == "LSI1"@ || n == "GSI1"@ || n == "GSI2"@,
    }
}

/// The partition-key attribute an index is queried by.
pub open spec fn pk_attr_of(name: Option<Seq<char>>) -> Seq<char> {
    match name {
        None => "PK"@,
        Some(n) => if n == "LSI1"@ {
            "PK"@
        } else if n == "GSI1"@ {
            "GSI1-PK"@
        } else {
            "GSI2-PK"@
        },
    }
}

/// The sort-key attribute an index is queried by.
pub open spec fn sk_attr_of(name: Option<Seq<char>>) -> Seq<char> {
    match name {
        None => "SK"@,
        Some(n) => if n == "LSI1"@ {
            "LSI-SK"@
        } else if n == "GSI1"@ {
            "GSI1-SK"@
        } else {
            "GSI2-SK"@
        },
    }
}

/// The three secondary-index names are pairwise distinct.
pub proof fn lemma_index_names_distinct()
    ensures
        "LSI1"@ != "GSI1"@,
        "LSI1"@ != "GSI2"@,
        "GSI1"@ != "GSI2"@,
{
    reveal_strlit("LSI1");
    reveal_strlit("GSI1");
    reveal_strlit("GSI2");
    assert(("LSI1"@)[0] == 'L' && ("GSI1"@)[0] == 'G' && ("GSI1"@)[3] == '1' && ("GSI2"@)[3]
        == '2');
}

pub open spec fn opt_str_view(o: Option<&str>) -> Option<Seq<char>> {
    match o {
        None => None,
        Some(s) => Some(s@),
    }
}

/// The attribute-name pair of one index.
pub struct KeyName {
    pk: String,
    sk: String,
}

impl KeyName {
    pub closed spec fn pk_view(&self) -> Seq<char> {
        self.pk@
    }

    pub closed spec fn sk_view(&self) -> Seq<char> {
        self.sk@
    }

    /// The attribute pair of the index with the given name; `None` names
    /// the primary index. Unknown index names are excluded by contract
    /// (looking one up is a caller bug, not an input error).
    pub fn from_index_name(index_name: Option<&str>) -> (r: Self)
        requires
            is_known_index(opt_str_view(index_name)),
        ensures
            r.pk_view() == pk_attr_of(opt_str_view(index_name)),
            r.sk_view() == sk_attr_of(opt_str_view(index_name)),
    {
        match index_name {
            None => KeyName { pk: "PK".to_owned(), sk: "SK".to_owned() },
            Some(k) => {
                if str_eq(k, "LSI1") {
                    KeyName { pk: "PK".to_owned(), sk: "LSI-SK".to_owned() }
                } else if str_eq(k, "GSI1") {
                    KeyName { pk: "GSI1-PK".to_owned(), sk: "GSI1-SK".to_owned() }
                } else {
                    KeyName { pk: "GSI2-PK".to_owned(), sk: "GSI2-SK".to_owned() }
                }
            },
        }
    }

    pub fn as_tuple(&self) -> (r: (&str, &str))
        ensures
            r.0@ == self.pk_view(),
            r.1@ == self.sk_view(),
    {
        (self.pk.as_str(), self.sk.as_str())
    }
}

} // verus!
