//! The query parser: turns a flat map of string fields into the right
//! query variant by the presence or absence of the discriminating fields
//! `user` and `day`. Unknown or repeated fields, a `count` outside
//! [1, 1000] and an unrecognised `sort` are rejected.

use vstd::prelude::*;
use crate::decimal::{dec_val, valid_dec, parse_u128};
use crate::error::ValidationError;
use crate::stat_query::{Count, Sort, StatQuery, UserDailyHighScoreQuery, UserHighScoreQuery,
    DailyHighScoreQuery, UniversalHighScoreQuery};
use crate::text::{ascii_lower, str_eq, to_ascii_lower};

verus! {

/// A field list as the contracts see it: name and value contents.
pub open spec fn fields_view(fields: Seq<(String, String)>) -> Seq<(Seq<char>, Seq<char>)> {
    fields.map_values(|p: (String, String)| (p.0@, p.1@))
}

/// The six accepted field names.
pub open spec fn is_known_field(k: Seq<char>) -> bool {
    k == "user"@ || k == "game"@ || k == "stat"@ || k == "day"@ || k == "count"@ || k == "sort"@
}

pub open spec fn all_known(fv: Seq<(Seq<char>, Seq<char>)>) -> bool {
    forall|i: int| 0 <= i < fv.len() ==> is_known_field((#[trigger] fv[i]).0)
}

pub open spec fn no_duplicates(fv: Seq<(Seq<char>, Seq<char>)>) -> bool {
    forall|i: int, j: int| 0 <= i < j < fv.len() ==> (#[trigger] fv[i]).0 != (#[trigger] fv[j]).0
}

/// The first value carried under the given name, if any.
pub open spec fn lookup_field(fv: Seq<(Seq<char>, Seq<char>)>, name: Seq<char>) -> Option<
    Seq<char>,
>
    decreases fv.len(),
{
    if fv.len() == 0 {
        None
    } else if fv[0].0 == name {
        Some(fv[0].1)
    } else {
        lookup_field(fv.drop_first(), name)
    }
}

pub open spec fn has_field(fv: Seq<(Seq<char>, Seq<char>)>, name: Seq<char>) -> bool {
    lookup_field(fv, name) is Some
}

/// An absent `count` is fine (it defaults); a present one must be a
/// decimal integer in [1, 1000].
pub open spec fn count_ok(fv: Seq<(Seq<char>, Seq<char>)>) -> bool {
    match lookup_field(fv, "count"@) {
        None => true,
        Some(c) => valid_dec(c) && 1 <= dec_val(c) <= 1000,
    }
}

pub open spec fn count_of(fv: Seq<(Seq<char>, Seq<char>)>) -> u32 {
    match lookup_field(fv, "count"@) {
        None => 1u32,
        Some(c) => dec_val(c) as u32,
    }
}

/// An absent `sort` is fine (it defaults); a present one must read
/// `ascending` or `descending` in any letter case.
pub open spec fn sort_ok(fv: Seq<(Seq<char>, Seq<char>)>) -> bool {
    match lookup_field(fv, "sort"@) {
        None => true,
        Some(s) => ascii_lower(s) == "ascending"@ || ascii_lower(s) == "descending"@,
    }
}

pub open spec fn sort_of(fv: Seq<(Seq<char>, Seq<char>)>) -> Sort {
    match lookup_field(fv, "sort"@) {
        None => Sort::Descending,
        Some(s) => if ascii_lower(s) == "ascending"@ {
            Sort::Ascending
        } else {
            Sort::Descending
        },
    }
}

/// A parsable query: known fields only, none repeated, `game` and `stat`
/// present, `count` and `sort` well formed.
pub open spec fn wf_fields(fv: Seq<(Seq<char>, Seq<char>)>) -> bool {
    &&& all_known(fv)
    &&& no_duplicates(fv)
    &&& has_field(fv, "game"@)
    &&& has_field(fv, "stat"@)
    &&& count_ok(fv)
    &&& sort_ok(fv)
}

/// Extending a field list resolves a name to its old binding, or to the
/// new pair's value when it was unbound.
proof fn lemma_lookup_push(fv: Seq<(Seq<char>, Seq<char>)>, p: (Seq<char>, Seq<char>), name: Seq<
    char,
>)
    ensures
        lookup_field(fv.push(p), name) == (match lookup_field(fv, name) {
            Some(v) => Some(v),
            None => if p.0 == name {
                Some(p.1)
            } else {
                None
            },
        }),
    decreases fv.len(),
{
    if fv.len() == 0 {
        assert(fv.push(p)[0] == p);
        assert(fv.push(p).len() == 1);
        if p.0 != name {
            assert(fv.push(p).drop_first() =~= Seq::<(Seq<char>, Seq<char>)>::empty());
        }
    } else {
        assert(fv.push(p)[0] == fv[0]);
        assert(fv.push(p).drop_first() =~= fv.drop_first().push(p));
        lemma_lookup_push(fv.drop_first(), p, name);
    }
}

/// A resolved name is carried by some entry.
proof fn lemma_lookup_some_index(fv: Seq<(Seq<char>, Seq<char>)>, name: Seq<char>)
    requires
        lookup_field(fv, name) is Some,
    ensures
        exists|i: int| 0 <= i < fv.len() && (#[trigger] fv[i]).0 == name,
    decreases fv.len(),
{
    if fv[0].0 == name {
        assert(fv[0].0 == name);
    } else {
        lemma_lookup_some_index(fv.drop_first(), name);
        let i = choose|i: int|
            0 <= i < fv.drop_first().len() && (#[trigger] fv.drop_first()[i]).0 == name;
        assert(fv[i + 1].0 == name);
    }
}

/// Parses a flat field map into the query variant its fields select:
/// `user` and `day` present or absent pick the variant; `game` and `stat`
/// are always required; `count` defaults to 1 and must stay in [1, 1000];
/// `sort` defaults to descending.
pub fn parse_query(fields: &Vec<(String, String)>) -> (r: Result<StatQuery, ValidationError>)
    ensures
        ({
            let fv = fields_view(fields@);
            match r {
                Ok(q) => wf_fields(fv) && (match q {
                    StatQuery::UserDailyHighScoreQuery(qq) => has_field(fv, "user"@) && has_field(
                        fv,
                        "day"@,
                    ) && lookup_field(fv, "user"@) == Some(qq.user@) && lookup_field(fv, "game"@)
                        == Some(qq.game@) && lookup_field(fv, "stat"@) == Some(qq.stat@)
                        && lookup_field(fv, "day"@) == Some(qq.day@) && qq.count == Count(
                        count_of(fv),
                    ) && qq.sort == sort_of(fv),
                    StatQuery::UserHighScoreQuery(qq) => has_field(fv, "user"@) && !has_field(
                        fv,
                        "day"@,
                    ) && lookup_field(fv, "user"@) == Some(qq.user@) && lookup_field(fv, "game"@)
                        == Some(qq.game@) && lookup_field(fv, "stat"@) == Some(qq.stat@)
                        && qq.count == Count(count_of(fv)) && qq.sort == sort_of(fv),
                    StatQuery::DailyHighScoreQuery(qq) => !has_field(fv, "user"@) && has_field(
                        fv,
                        "day"@,
                    ) && lookup_field(fv, "game"@) == Some(qq.game@) && lookup_field(fv, "stat"@)
                        == Some(qq.stat@) && lookup_field(fv, "day"@) == Some(qq.day@) && qq.count
                        == Count(count_of(fv)) && qq.sort == sort_of(fv),
                    StatQuery::UniversalHighScoreQuery(qq) => !has_field(fv, "user"@)
                        && !has_field(fv, "day"@) && lookup_field(fv, "game"@) == Some(qq.game@)
                        && lookup_field(fv, "stat"@) == Some(qq.stat@) && qq.count == Count(
                        count_of(fv),
                    ) && qq.sort == sort_of(fv),
                }),
                Err(e) => !wf_fields(fv) && (match e {
                    ValidationError::UnknownField(f) => !is_known_field(f@) && exists|i: int|
                        0 <= i < fv.len() && (#[trigger] fv[i]).0 == f@,
                    ValidationError::DuplicateField(f) => exists|i: int, j: int|
                        0 <= i < j < fv.len() && (#[trigger] fv[i]).0 == f@ && (#[trigger] fv[j]).0
                            == f@,
                    ValidationError::MissingField(f) => (f@ == "game"@ && !has_field(fv, "game"@))
                        || (f@ == "stat"@ && !has_field(fv, "stat"@)),
                    ValidationError::BadCount => !count_ok(fv),
                    ValidationError::BadSort => !sort_ok(fv),
                    _ => false,
                }),
            }
        }),
{
    let ghost fv = fields_view(fields@);
    let mut f_user: Option<String> = None;
    let mut f_game: Option<String> = None;
    let mut f_stat: Option<String> = None;
    let mut f_day: Option<String> = None;
    let mut f_count: Option<String> = None;
    let mut f_sort: Option<String> = None;
    let mut i: usize = 0;
    while i < fields.len()
        invariant
            0 <= i <= fields@.len(),
            fv == fields_view(fields@),
            fv.len() == fields@.len(),
            forall|j: int| 0 <= j < i ==> is_known_field((#[trigger] fv[j]).0),
            forall|j: int, k: int|
                0 <= j < k < i ==> (#[trigger] fv[j]).0 != (#[trigger] fv[k]).0,
            opt_view(f_user) == lookup_field(fv.subrange(0, i as int), "user"@),
            opt_view(f_game) == lookup_field(fv.subrange(0, i as int), "game"@),
            opt_view(f_stat) == lookup_field(fv.subrange(0, i as int), "stat"@),
            opt_view(f_day) == lookup_field(fv.subrange(0, i as int), "day"@),
            opt_view(f_count) == lookup_field(fv.subrange(0, i as int), "count"@),
            opt_view(f_sort) == lookup_field(fv.subrange(0, i as int), "sort"@),
        decreases fields@.len() - i,
    {
        let key = &fields[i].0;
        let val = &fields[i].1;
        proof {
            lemma_field_names_distinct();
            assert(fv[i as int] == (key@, val@));
            assert(fv.subrange(0, i as int + 1) =~= fv.subrange(0, i as int).push(
                (key@, val@),
            ));
            lemma_lookup_push(fv.subrange(0, i as int), (key@, val@), "user"@);
            lemma_lookup_push(fv.subrange(0, i as int), (key@, val@), "game"@);
            lemma_lookup_push(fv.subrange(0, i as int), (key@, val@), "stat"@);
            lemma_lookup_push(fv.subrange(0, i as int), (key@, val@), "day"@);
            lemma_lookup_push(fv.subrange(0, i as int), (key@, val@), "count"@);
            lemma_lookup_push(fv.subrange(0, i as int), (key@, val@), "sort"@);
        }
        if str_eq(key.as_str(), "user") {
            if f_user.is_some() {
                proof {
                    lemma_lookup_some_index(fv.subrange(0, i as int), "user"@);
                    lemma_no_dup_witness(fv, i as int, "user"@);
                }
                return Err(ValidationError::DuplicateField(key.clone()));
            }
            proof {
                lemma_lookup_none_no_index(fv.subrange(0, i as int), "user"@);
                assert forall|j: int| 0 <= j < i implies (#[trigger] fv[j]).0 != fv[i as int].0 by {
                    assert(fv.subrange(0, i as int)[j] == fv[j]);
                }
            }
            f_user = Some(val.clone());
        } else if str_eq(key.as_str(), "game") {
            if f_game.is_some() {
                proof {
                    lemma_lookup_some_index(fv.subrange(0, i as int), "game"@);
                    lemma_no_dup_witness(fv, i as int, "game"@);
                }
                return Err(ValidationError::DuplicateField(key.clone()));
            }
            proof {
                lemma_lookup_none_no_index(fv.subrange(0, i as int), "game"@);
                assert forall|j: int| 0 <= j < i implies (#[trigger] fv[j]).0 != fv[i as int].0 by {
                    assert(fv.subrange(0, i as int)[j] == fv[j]);
                }
            }
            f_game = Some(val.clone());
        } else if str_eq(key.as_str(), "stat") {
            if f_stat.is_some() {
                proof {
                    lemma_lookup_some_index(fv.subrange(0, i as int), "stat"@);
                    lemma_no_dup_witness(fv, i as int, "stat"@);
                }
                return Err(ValidationError::DuplicateField(key.clone()));
            }
            proof {
                lemma_lookup_none_no_index(fv.subrange(0, i as int), "stat"@);
                assert forall|j: int| 0 <= j < i implies (#[trigger] fv[j]).0 != fv[i as int].0 by {
                    assert(fv.subrange(0, i as int)[j] == fv[j]);
                }
            }
            f_stat = Some(val.clone());
        } else if str_eq(key.as_str(), "day") {
            if f_day.is_some() {
                proof {
                    lemma_lookup_some_index(fv.subrange(0, i as int), "day"@);
                    lemma_no_dup_witness(fv, i as int, "day"@);
                }
                return Err(ValidationError::DuplicateField(key.clone()));
            }
            proof {
                lemma_lookup_none_no_index(fv.subrange(0, i as int), "day"@);
                assert forall|j: int| 0 <= j < i implies (#[trigger] fv[j]).0 != fv[i as int].0 by {
                    assert(fv.subrange(0, i as int)[j] == fv[j]);
                }
            }
            f_day = Some(val.clone());
        } else if str_eq(key.as_str(), "count") {
            if f_count.is_some() {
                proof {
                    lemma_lookup_some_index(fv.subrange(0, i as int), "count"@);
                    lemma_no_dup_witness(fv, i as int, "count"@);
                }
                return Err(ValidationError::DuplicateField(key.clone()));
            }
            proof {
                lemma_lookup_none_no_index(fv.subrange(0, i as int), "count"@);
                assert forall|j: int| 0 <= j < i implies (#[trigger] fv[j]).0 != fv[i as int].0 by {
                    assert(fv.subrange(0, i as int)[j] == fv[j]);
                }
            }
            f_count = Some(val.clone());
        } else if str_eq(key.as_str(), "sort") {
            if f_sort.is_some() {
                proof {
                    lemma_lookup_some_index(fv.subrange(0, i as int), "sort"@);
                    lemma_no_dup_witness(fv, i as int, "sort"@);
                }
                return Err(ValidationError::DuplicateField(key.clone()));
            }
            proof {
                lemma_lookup_none_no_index(fv.subrange(0, i as int), "sort"@);
                assert forall|j: int| 0 <= j < i implies (#[trigger] fv[j]).0 != fv[i as int].0 by {
                    assert(fv.subrange(0, i as int)[j] == fv[j]);
                }
            }
            f_sort = Some(val.clone());
        } else {
            return Err(ValidationError::UnknownField(key.clone()));
        }
        i = i + 1;
    }
    proof {
        assert(fv.subrange(0, i as int) =~= fv);
    }

    let count = match f_count {
        None => Count(1),
        Some(c) => {
            match parse_u128(c.as_str()) {
                Some(n) => {
                    if 1 <= n && n <= 1000 {
                        Count(n as u32)
                    } else {
                        return Err(ValidationError::BadCount);
                    }
                },
                None => {
                    return Err(ValidationError::BadCount);
                },
            }
        },
    };
    let sort = match f_sort {
        None => Sort::Descending,
        Some(s) => {
            let lower = to_ascii_lower(s.as_str());
            if str_eq(lower.as_str(), "ascending") {
                Sort::Ascending
            } else if str_eq(lower.as_str(), "descending") {
                Sort::Descending
            } else {
                return Err(ValidationError::BadSort);
            }
        },
    };
    let game = match f_game {
        Some(g) => g,
        None => {
            return Err(ValidationError::MissingField("game".to_owned()));
        },
    };
    let stat = match f_stat {
        Some(s) => s,
        None => {
            return Err(ValidationError::MissingField("stat".to_owned()));
        },
    };
    match (f_user, f_day) {
        (Some(user), Some(day)) => Ok(
            StatQuery::UserDailyHighScoreQuery(
                UserDailyHighScoreQuery { user, game, stat, day, count, sort },
            ),
        ),
        (Some(user), None) => Ok(
            StatQuery::UserHighScoreQuery(UserHighScoreQuery { user, game, stat, count, sort }),
        ),
        (None, Some(day)) => Ok(
            StatQuery::DailyHighScoreQuery(DailyHighScoreQuery { game, stat, day, count, sort }),
        ),
        (None, None) => Ok(
            StatQuery::UniversalHighScoreQuery(
                UniversalHighScoreQuery { game, stat, count, sort },
            ),
        ),
    }
}

pub open spec fn opt_view(o: Option<String>) -> Option<Seq<char>> {
    match o {
        None => None,
        Some(s) => Some(s@),
    }
}

/// The six accepted field names are pairwise distinct.
proof fn lemma_field_names_distinct()
    ensures
        "user"@ != "game"@ && "user"@ != "stat"@ && "user"@ != "day"@ && "user"@ != "count"@
            && "user"@ != "sort"@,
        "game"@ != "stat"@ && "game"@ != "day"@ && "game"@ != "count"@ && "game"@ != "sort"@,
        "stat"@ != "day"@ && "stat"@ != "count"@ && "stat"@ != "sort"@,
        "day"@ != "count"@ && "day"@ != "sort"@,
        "count"@ != "sort"@,
{
    reveal_strlit("user");
    reveal_strlit("game");
    reveal_strlit("stat");
    reveal_strlit("day");
    reveal_strlit("count");
    reveal_strlit("sort");
    assert(("user"@)[0] == 'u' && ("game"@)[0] == 'g' && ("stat"@)[0] == 's' && ("day"@)[0] == 'd'
        && ("count"@)[0] == 'c' && ("sort"@)[0] == 's');
    assert(("stat"@)[1] == 't' && ("sort"@)[1] == 'o');
    assert(("user"@).len() == 4 && ("day"@).len() == 3 && ("count"@).len() == 5);
}

/// An unresolved name is carried by no entry.
proof fn lemma_lookup_none_no_index(fv: Seq<(Seq<char>, Seq<char>)>, name: Seq<char>)
    requires
        lookup_field(fv, name) is None,
    ensures
        forall|j: int| 0 <= j < fv.len() ==> (#[trigger] fv[j]).0 != name,
    decreases fv.len(),
{
    if fv.len() > 0 {
        lemma_lookup_none_no_index(fv.drop_first(), name);
        assert forall|j: int| 0 <= j < fv.len() implies (#[trigger] fv[j]).0 != name by {
            if j > 0 {
                assert(fv.drop_first()[j - 1] == fv[j]);
            }
        }
    }
}

/// A name bound in the first `i` entries and carried by entry `i` again is
/// a duplicate.
proof fn lemma_no_dup_witness(fv: Seq<(Seq<char>, Seq<char>)>, i: int, name: Seq<char>)
    requires
        0 <= i < fv.len(),
        fv[i].0 == name,
        exists|j: int| 0 <= j < i && (#[trigger] fv.subrange(0, i)[j]).0 == name,
    ensures
        exists|j: int, k: int|
            0 <= j < k < fv.len() && (#[trigger] fv[j]).0 == name && (#[trigger] fv[k]).0 == name,
{
    let j = choose|j: int| 0 <= j < i && (#[trigger] fv.subrange(0, i)[j]).0 == name;
    assert(fv[j].0 == name);
    assert(fv[i].0 == name);
}

} // verus!
