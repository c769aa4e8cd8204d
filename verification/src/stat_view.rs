//! The canonical stat view: what a write returns to the client and what a
//! read decodes each returned storage item into. Decoding reads the six
//! denormalized attributes and is proved to invert the writer's item.

use vstd::prelude::*;
use crate::db_item::{Attr, AttrV, DbStat, pairs_view, stat_item_spec};
use crate::decimal::{dec_val, valid_dec, dec_of, parse_u128, lemma_dec_of_valid,
    lemma_dec_round_trip};
use crate::error::DecodeError;
use crate::text::str_eq;
use crate::time_utils::{MILLIS_IN_DAY, get_current_timestamp, day_of_timestamp};

verus! {

/// A stat record as clients see it. The score travels as its decimal
/// rendering, exactly as the store's `Value` attribute holds it.
pub struct StatView {
    user: String,
    game: String,
    stat: String,
    value: String,
    added_timestamp: u128,
    day: u128,
}

/// The mathematical shadow of `StatView`.
pub struct StatViewV {
    pub user: Seq<char>,
    pub game: Seq<char>,
    pub stat: Seq<char>,
    pub value: Seq<char>,
    pub added_timestamp: u128,
    pub day: u128,
}

impl View for StatView {
    type V = StatViewV;

    closed spec fn view(&self) -> StatViewV {
        StatViewV {
            user: self.user@,
            game: self.game@,
            stat: self.stat@,
            value: self.value@,
            added_timestamp: self.added_timestamp,
            day: self.day,
        }
    }
}

/// The first attribute with the given name, if any.
pub open spec fn lookup(item: Seq<(Seq<char>, AttrV)>, key: Seq<char>) -> Option<AttrV>
    decreases item.len(),
{
    if item.len() == 0 {
        None
    } else if item[0].0 == key {
        Some(item[0].1)
    } else {
        lookup(item.drop_first(), key)
    }
}

/// The contents of a string-tagged attribute.
pub open spec fn get_s(item: Seq<(Seq<char>, AttrV)>, key: Seq<char>) -> Option<Seq<char>> {
    match lookup(item, key) {
        Some(AttrV::S(s)) => Some(s),
        _ => None,
    }
}

/// The contents of a number-tagged attribute.
pub open spec fn get_n(item: Seq<(Seq<char>, AttrV)>, key: Seq<char>) -> Option<Seq<char>> {
    match lookup(item, key) {
        Some(AttrV::N(s)) => Some(s),
        _ => None,
    }
}

/// What decoding an item yields: `Some` exactly when the six denormalized
/// attributes are present with the right tags and the two integer fields
/// hold parsable decimals that fit.
pub open spec fn decoded_stat(item: Seq<(Seq<char>, AttrV)>) -> Option<StatViewV> {
    match (
        get_s(item, "User"@),
        get_s(item, "Game"@),
        get_s(item, "Stat"@),
        get_n(item, "Value"@),
        get_n(item, "Day"@),
        get_n(item, "Timestamp"@),
    ) {
        (Some(user), Some(game), Some(stat), Some(value), Some(day), Some(ts)) => {
            if valid_dec(day) && dec_val(day) <= u128::MAX && valid_dec(ts) && dec_val(ts)
                <= u128::MAX {
                Some(
                    StatViewV {
                        user,
                        game,
                        stat,
                        value,
                        added_timestamp: dec_val(ts) as u128,
                        day: dec_val(day) as u128,
                    },
                )
            } else {
                None
            }
        },
        _ => None,
    }
}

/// The first attribute with the given name, by scan from the front.
fn find_attr<'a>(item: &'a Vec<(String, Attr)>, key: &str, i: usize) -> (r: Option<&'a Attr>)
    requires
        i <= item@.len(),
    ensures
        match r {
            Some(a) => lookup(pairs_view(item@).skip(i as int), key@) == Some(a@),
            None => lookup(pairs_view(item@).skip(i as int), key@) is None,
        },
    decreases item@.len() - i,
{
    if i == item.len() {
        proof {
            assert(pairs_view(item@).skip(i as int).len() == 0);
        }
        None
    } else {
        let pair = &item[i];
        proof {
            assert(pairs_view(item@).skip(i as int)[0] == (pair.0@, pair.1@));
        }
        if str_eq(pair.0.as_str(), key) {
            Some(&pair.1)
        } else {
            let r = find_attr(item, key, i + 1);
            proof {
                assert(pairs_view(item@).skip(i as int).drop_first() =~= pairs_view(item@).skip(
                    i as int + 1,
                ));
            }
            r
        }
    }
}

/// Reads a string-tagged attribute; reports it missing or wrongly tagged.
fn get_s_attr(item: &Vec<(String, Attr)>, key: &str) -> (r: Result<String, DecodeError>)
    ensures
        match r {
            Ok(s) => get_s(pairs_view(item@), key@) == Some(s@),
            Err(DecodeError::MissingAttribute(a)) => a@ == key@ && lookup(
                pairs_view(item@),
                key@,
            ) is None,
            Err(DecodeError::WrongType(a)) => a@ == key@ && get_s(pairs_view(item@), key@) is None
                && lookup(pairs_view(item@), key@) is Some,
            Err(DecodeError::BadNumber(_)) => false,
        },
{
    proof {
        assert(pairs_view(item@).skip(0) =~= pairs_view(item@));
    }
    match find_attr(item, key, 0) {
        None => Err(DecodeError::MissingAttribute(key.to_owned())),
        Some(Attr::S(s)) => Ok(s.clone()),
        Some(Attr::N(_)) => Err(DecodeError::WrongType(key.to_owned())),
    }
}

/// Reads a number-tagged attribute's decimal contents.
fn get_n_attr(item: &Vec<(String, Attr)>, key: &str) -> (r: Result<String, DecodeError>)
    ensures
        match r {
            Ok(s) => get_n(pairs_view(item@), key@) == Some(s@),
            Err(DecodeError::MissingAttribute(a)) => a@ == key@ && lookup(
                pairs_view(item@),
                key@,
            ) is None,
            Err(DecodeError::WrongType(a)) => a@ == key@ && get_n(pairs_view(item@), key@) is None
                && lookup(pairs_view(item@), key@) is Some,
            Err(DecodeError::BadNumber(_)) => false,
        },
{
    proof {
        assert(pairs_view(item@).skip(0) =~= pairs_view(item@));
    }
    match find_attr(item, key, 0) {
        None => Err(DecodeError::MissingAttribute(key.to_owned())),
        Some(Attr::N(s)) => Ok(s.clone()),
        Some(Attr::S(_)) => Err(DecodeError::WrongType(key.to_owned())),
    }
}

/// Reads a number-tagged attribute and parses it as unsigned decimal
/// milliseconds.
fn get_u128_attr(item: &Vec<(String, Attr)>, key: &str) -> (r: Result<u128, DecodeError>)
    ensures
        match r {
            Ok(v) => match get_n(pairs_view(item@), key@) {
                Some(s) => valid_dec(s) && v as nat == dec_val(s),
                None => false,
            },
            Err(DecodeError::MissingAttribute(a)) => a@ == key@ && lookup(
                pairs_view(item@),
                key@,
            ) is None,
            Err(DecodeError::WrongType(a)) => a@ == key@ && get_n(pairs_view(item@), key@) is None
                && lookup(pairs_view(item@), key@) is Some,
            Err(DecodeError::BadNumber(a)) => a@ == key@ && match get_n(pairs_view(item@), key@) {
                Some(s) => !(valid_dec(s) && dec_val(s) <= u128::MAX),
                None => false,
            },
        },
{
    let s = match get_n_attr(item, key) {
        Ok(s) => s,
        Err(e) => {
            return Err(e);
        },
    };
    match parse_u128(s.as_str()) {
        Some(v) => Ok(v),
        None => Err(DecodeError::BadNumber(key.to_owned())),
    }
}

impl StatView {
    pub closed spec fn user_view(&self) -> Seq<char> {
        self.user@
    }

    /// The canonical view of a record whose timestamps are already known:
    /// a pure constructor, no clock read.
    pub fn with_times(
        user: &str,
        game: &str,
        stat: &str,
        value_dec: &str,
        day: u128,
        added_timestamp: u128,
    ) -> (r: Self)
        ensures
            r@ == (StatViewV {
                user: user@,
                game: game@,
                stat: stat@,
                value: value_dec@,
                added_timestamp,
                day,
            }),
    {
        StatView {
            user: user.to_owned(),
            game: game.to_owned(),
            stat: stat.to_owned(),
            value: value_dec.to_owned(),
            added_timestamp,
            day,
        }
    }

    /// The view of a freshly submitted stat: the added timestamp is the
    /// current clock, and an absent day is filled with that same sample's
    /// day bucket, so an auto-assigned day always contains the timestamp.
    pub fn new(user: &str, game: &str, stat: &str, value_dec: &str, day: Option<u128>) -> (r: Self)
        ensures
            r@.user == user@,
            r@.game == game@,
            r@.stat == stat@,
            r@.value == value_dec@,
            match day {
                Some(d) => r@.day == d,
                None => r@.day % MILLIS_IN_DAY == 0 && r@.day <= r@.added_timestamp < r@.day
                    + MILLIS_IN_DAY,
            },
    {
        let ts = get_current_timestamp();
        let d = match day {
            Some(d) => d,
            None => day_of_timestamp(ts),
        };
        StatView::with_times(user, game, stat, value_dec, d, ts)
    }

    pub fn user(&self) -> (r: &str)
        ensures
            r@ == self@.user,
    {
        self.user.as_str()
    }

    pub fn game(&self) -> (r: &str)
        ensures
            r@ == self@.game,
    {
        self.game.as_str()
    }

    pub fn stat(&self) -> (r: &str)
        ensures
            r@ == self@.stat,
    {
        self.stat.as_str()
    }

    pub fn value(&self) -> (r: &str)
        ensures
            r@ == self@.value,
    {
        self.value.as_str()
    }

    pub fn day(&self) -> (r: u128)
        ensures
            r == self@.day,
    {
        self.day
    }

    pub fn added_timestamp(&self) -> (r: u128)
        ensures
            r == self@.added_timestamp,
    {
        self.added_timestamp
    }

    /// The storage item for this view. The score's bit pattern cannot be
    /// recovered from its decimal rendering inside this crate, so the
    /// caller supplies it alongside.
    pub fn as_db_item(&self, value_bits: u64) -> (r: Vec<(String, Attr)>)
        ensures
            pairs_view(r@) == stat_item_spec(
                self@.user,
                self@.game,
                self@.stat,
                value_bits,
                self@.value,
                self@.day,
                self@.added_timestamp,
            ),
    {
        DbStat::new(
            self.user.as_str(),
            self.game.as_str(),
            self.stat.as_str(),
            value_bits,
            self.value.as_str(),
            self.day,
            self.added_timestamp,
        ).as_item()
    }

    /// Decodes one returned storage item by its denormalized attributes.
    /// Succeeds exactly when `decoded_stat` is defined on the item; each
    /// error names the attribute that failed.
    pub fn from_item(item: &Vec<(String, Attr)>) -> (r: Result<StatView, DecodeError>)
        ensures
            match r {
                Ok(v) => decoded_stat(pairs_view(item@)) == Some(v@),
                Err(_) => decoded_stat(pairs_view(item@)) is None,
            },
    {
        let user = match get_s_attr(item, "User") {
            Ok(s) => s,
            Err(e) => {
                return Err(e);
            },
        };
        let game = match get_s_attr(item, "Game") {
            Ok(s) => s,
            Err(e) => {
                return Err(e);
            },
        };
        let stat = match get_s_attr(item, "Stat") {
            Ok(s) => s,
            Err(e) => {
                return Err(e);
            },
        };
        let value = match get_n_attr(item, "Value") {
            Ok(s) => s,
            Err(e) => {
                return Err(e);
            },
        };
        let day = match get_u128_attr(item, "Day") {
            Ok(v) => v,
            Err(e) => {
                return Err(e);
            },
        };
        let ts = match get_u128_attr(item, "Timestamp") {
            Ok(v) => v,
            Err(e) => {
                return Err(e);
            },
        };
        Ok(
            StatView {
                user,
                game,
                stat,
                value,
                added_timestamp: ts,
                day,
            },
        )
    }
}

/// Lookup finds the first matching index.
proof fn lemma_lookup_index(item: Seq<(Seq<char>, AttrV)>, key: Seq<char>, i: int)
    requires
        0 <= i < item.len(),
        forall|j: int| 0 <= j < i ==> (#[trigger] item[j]).0 != key,
        item[i].0 == key,
    ensures
        lookup(item, key) == Some(item[i].1),
    decreases i,
{
    if i == 0 {
    } else {
        assert(item[0].0 != key);
        let rest = item.drop_first();
        assert(forall|j: int| 0 <= j < i - 1 ==> (#[trigger] rest[j]) == item[j + 1]);
        lemma_lookup_index(rest, key, i - 1);
    }
}

/// Round-trip: decoding the item written for a record gives back exactly
/// the record's fields (the score as its decimal rendering, which is
/// stored verbatim).
pub proof fn lemma_item_round_trip(
    user: Seq<char>,
    game: Seq<char>,
    stat: Seq<char>,
    bits: u64,
    dec: Seq<char>,
    day: u128,
    ts: u128,
)
    ensures
        decoded_stat(stat_item_spec(user, game, stat, bits, dec, day, ts)) == Some(
            StatViewV { user, game, stat, value: dec, added_timestamp: ts, day },
        ),
{
    let item = stat_item_spec(user, game, stat, bits, dec, day, ts);
    reveal_strlit("PK");
    reveal_strlit("SK");
    reveal_strlit("LSI-SK");
    reveal_strlit("GSI1-PK");
    reveal_strlit("GSI1-SK");
    reveal_strlit("GSI2-PK");
    reveal_strlit("GSI2-SK");
    reveal_strlit("User");
    reveal_strlit("Game");
    reveal_strlit("Stat");
    reveal_strlit("Value");
    reveal_strlit("Day");
    reveal_strlit("Timestamp");
    assert(item.len() == 13);
    assert(("User"@)[0] == 'U' && ("Game"@)[0] == 'G' && ("Stat"@)[0] == 'S');
    assert(item[0].0 == "PK"@ && item[1].0 == "SK"@ && item[2].0 == "LSI-SK"@ && item[3].0
        == "GSI1-PK"@ && item[4].0 == "GSI1-SK"@ && item[5].0 == "GSI2-PK"@ && item[6].0
        == "GSI2-SK"@ && item[7].0 == "User"@ && item[8].0 == "Game"@ && item[9].0 == "Stat"@
        && item[10].0 == "Value"@ && item[11].0 == "Day"@ && item[12].0 == "Timestamp"@);
    assert forall|j: int| 0 <= j < 7 implies (#[trigger] item[j]).0 != "User"@ by {}
    lemma_lookup_index(item, "User"@, 7);
    assert(lookup(item, "User"@) == Some(AttrV::S(user)));
    assert forall|j: int| 0 <= j < 8 implies (#[trigger] item[j]).0 != "Game"@ by {}
    lemma_lookup_index(item, "Game"@, 8);
    assert(lookup(item, "Game"@) == Some(AttrV::S(game)));
    assert forall|j: int| 0 <= j < 9 implies (#[trigger] item[j]).0 != "Stat"@ by {}
    lemma_lookup_index(item, "Stat"@, 9);
    assert(lookup(item, "Stat"@) == Some(AttrV::S(stat)));
    assert forall|j: int| 0 <= j < 10 implies (#[trigger] item[j]).0 != "Value"@ by {}
    lemma_lookup_index(item, "Value"@, 10);
    assert(lookup(item, "Value"@) == Some(AttrV::N(dec)));
    assert forall|j: int| 0 <= j < 11 implies (#[trigger] item[j]).0 != "Day"@ by {}
    lemma_lookup_index(item, "Day"@, 11);
    assert(lookup(item, "Day"@) == Some(AttrV::N(dec_of(day as nat))));
    assert forall|j: int| 0 <= j < 12 implies (#[trigger] item[j]).0 != "Timestamp"@ by {}
    lemma_lookup_index(item, "Timestamp"@, 12);
    assert(lookup(item, "Timestamp"@) == Some(AttrV::N(dec_of(ts as nat))));
    lemma_dec_of_valid(day as nat);
    lemma_dec_round_trip(day as nat);
    lemma_dec_of_valid(ts as nat);
    lemma_dec_round_trip(ts as nat);
}

} // verus!
