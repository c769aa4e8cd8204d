//! Composite keys and the storage item for one stat record. Every key is a
//! `#`-joined sequence of labelled segments; the value segment carries the
//! order-preserving score token followed by the score's decimal rendering
//! (only the token participates in ordering and prefix matching).

use vstd::prelude::*;
use crate::codec::{score_token, encode_score_bits};
use crate::decimal::{dec_of, u128_to_dec};

verus! {

/// A tagged storage attribute value: a string or a number. Numbers travel
/// as their decimal rendering, as the store represents them.
#[derive(Clone)]
pub enum Attr {
    S(String),
    N(String),
}

/// The mathematical shadow of `Attr`: tag plus character contents.
pub enum AttrV {
    S(Seq<char>),
    N(Seq<char>),
}

impl View for Attr {
    type V = AttrV;

    open spec fn view(&self) -> AttrV {
        match self {
            Attr::S(s) => AttrV::S(s@),
            Attr::N(s) => AttrV::N(s@),
        }
    }
}

/// An attribute list as the contracts see it: name and tagged contents.
pub open spec fn pairs_view(item: Seq<(String, Attr)>) -> Seq<(Seq<char>, AttrV)> {
    item.map_values(|p: (String, Attr)| (p.0@, p.1@))
}

/// The full value segment: score token, `#`, decimal rendering.
pub open spec fn value_token(bits: u64, dec: Seq<char>) -> Seq<char> {
    score_token(bits) + "#"@ + dec
}

/// Primary partition key: `User#{user}`.
pub open spec fn pk_of(user: Seq<char>) -> Seq<char> {
    "User#"@ + user
}

/// Partition key of both global secondary indexes: `Game#{game}#Stat#{stat}`.
/// Also the sort prefix of a user's all-time high-score query on the LSI.
pub open spec fn gsi_pk_of(game: Seq<char>, stat: Seq<char>) -> Seq<char> {
    "Game#"@ + game + "#Stat#"@ + stat
}

/// Sort prefix of a user's single-day query on the primary index:
/// `Game#{game}#Day#{day}#Stat#{stat}`.
pub open spec fn user_day_prefix(game: Seq<char>, day: Seq<char>, stat: Seq<char>) -> Seq<char> {
    "Game#"@ + game + "#Day#"@ + day + "#Stat#"@ + stat
}

/// Sort prefix of an all-users single-day query on GSI1: `Day#{day}`.
pub open spec fn day_prefix(day: Seq<char>) -> Seq<char> {
    "Day#"@ + day
}

/// Primary sort key: the single-day prefix followed by value and timestamp.
pub open spec fn sk_of(
    game: Seq<char>,
    day: Seq<char>,
    stat: Seq<char>,
    bits: u64,
    dec: Seq<char>,
    ts: Seq<char>,
) -> Seq<char> {
    user_day_prefix(game, day, stat) + "#Value#"@ + value_token(bits, dec) + "#Timestamp#"@ + ts
}

/// LSI sort key: the game/stat prefix followed by the value.
pub open spec fn lsi_sk_of(game: Seq<char>, stat: Seq<char>, bits: u64, dec: Seq<char>) -> Seq<
    char,
> {
    gsi_pk_of(game, stat) + "#Value#"@ + value_token(bits, dec)
}

/// GSI1 sort key: the day prefix followed by value and timestamp.
pub open spec fn gsi1_sk_of(day: Seq<char>, bits: u64, dec: Seq<char>, ts: Seq<char>) -> Seq<
    char,
> {
    day_prefix(day) + "#Value#"@ + value_token(bits, dec) + "#Timestamp#"@ + ts
}

/// GSI2 sort key: `Value#{token#dec}#Timestamp#{ts}`.
pub open spec fn gsi2_sk_of(bits: u64, dec: Seq<char>, ts: Seq<char>) -> Seq<char> {
    "Value#"@ + value_token(bits, dec) + "#Timestamp#"@ + ts
}

/// The canonical attribute list written for one stat record: the seven
/// index keys and the six denormalized fields, a pure function of the
/// record's fields.
pub open spec fn stat_item_spec(
    user: Seq<char>,
    game: Seq<char>,
    stat: Seq<char>,
    bits: u64,
    dec: Seq<char>,
    day: u128,
    ts: u128,
) -> Seq<(Seq<char>, AttrV)> {
    let day_s = dec_of(day as nat);
    let ts_s = dec_of(ts as nat);
    seq![
        ("PK"@, AttrV::S(pk_of(user))),
        ("SK"@, AttrV::S(sk_of(game, day_s, stat, bits, dec, ts_s))),
        ("LSI-SK"@, AttrV::S(lsi_sk_of(game, stat, bits, dec))),
        ("GSI1-PK"@, AttrV::S(gsi_pk_of(game, stat))),
        ("GSI1-SK"@, AttrV::S(gsi1_sk_of(day_s, bits, dec, ts_s))),
        ("GSI2-PK"@, AttrV::S(gsi_pk_of(game, stat))),
        ("GSI2-SK"@, AttrV::S(gsi2_sk_of(bits, dec, ts_s))),
        ("User"@, AttrV::S(user)),
        ("Game"@, AttrV::S(game)),
        ("Stat"@, AttrV::S(stat)),
        ("Value"@, AttrV::N(dec)),
        ("Day"@, AttrV::N(day_s)),
        ("Timestamp"@, AttrV::N(ts_s)),
    ]
}

/// Key stability: the attribute list, and so every composite key, is a pure
/// function of the record's fields — equal inputs give byte-identical keys.
pub proof fn lemma_key_stability(
    user1: Seq<char>,
    game1: Seq<char>,
    stat1: Seq<char>,
    bits1: u64,
    dec1: Seq<char>,
    day1: u128,
    ts1: u128,
    user2: Seq<char>,
    game2: Seq<char>,
    stat2: Seq<char>,
    bits2: u64,
    dec2: Seq<char>,
    day2: u128,
    ts2: u128,
)
    requires
        user1 == user2,
        game1 == game2,
        stat1 == stat2,
        bits1 == bits2,
        dec1 == dec2,
        day1 == day2,
        ts1 == ts2,
    ensures
        stat_item_spec(user1, game1, stat1, bits1, dec1, day1, ts1) == stat_item_spec(
            user2,
            game2,
            stat2,
            bits2,
            dec2,
            day2,
            ts2,
        ),
{
}

/// Each query's sort prefix really is a prefix of the sort key written for
/// a matching record, so a `begins_with` range scan selects exactly the
/// records with that game, stat and (where given) day.
pub proof fn lemma_sort_prefixes_match_keys(
    game: Seq<char>,
    day: Seq<char>,
    stat: Seq<char>,
    bits: u64,
    dec: Seq<char>,
    ts: Seq<char>,
)
    ensures
        user_day_prefix(game, day, stat).is_prefix_of(sk_of(game, day, stat, bits, dec, ts)),
        gsi_pk_of(game, stat).is_prefix_of(lsi_sk_of(game, stat, bits, dec)),
        day_prefix(day).is_prefix_of(gsi1_sk_of(day, bits, dec, ts)),
        ("Value#"@).is_prefix_of(gsi2_sk_of(bits, dec, ts)),
{
    assert(sk_of(game, day, stat, bits, dec, ts).subrange(
        0,
        user_day_prefix(game, day, stat).len() as int,
    ) =~= user_day_prefix(game, day, stat));
    assert(lsi_sk_of(game, stat, bits, dec).subrange(0, gsi_pk_of(game, stat).len() as int)
        =~= gsi_pk_of(game, stat));
    assert(gsi1_sk_of(day, bits, dec, ts).subrange(0, day_prefix(day).len() as int) =~= day_prefix(
        day,
    ));
    assert(gsi2_sk_of(bits, dec, ts).subrange(0, ("Value#"@).len() as int) =~= "Value#"@);
}

/// Builds `User#{user}`.
pub fn build_pk(user: &str) -> (s: String)
    ensures
        s@ == pk_of(user@),
{
    let mut s = "User#".to_owned();
    s.append(user);
    s
}

/// Builds `Game#{game}#Stat#{stat}`.
pub fn build_gsi_pk(game: &str, stat: &str) -> (s: String)
    ensures
        s@ == gsi_pk_of(game@, stat@),
{
    let mut s = "Game#".to_owned();
    s.append(game);
    s.append("#Stat#");
    s.append(stat);
    s
}

/// Builds `Game#{game}#Day#{day}#Stat#{stat}`.
pub fn build_user_day_prefix(game: &str, day: &str, stat: &str) -> (s: String)
    ensures
        s@ == user_day_prefix(game@, day@, stat@),
{
    let mut s = "Game#".to_owned();
    s.append(game);
    s.append("#Day#");
    s.append(day);
    s.append("#Stat#");
    s.append(stat);
    s
}

/// Builds `Day#{day}`.
pub fn build_day_prefix(day: &str) -> (s: String)
    ensures
        s@ == day_prefix(day@),
{
    let mut s = "Day#".to_owned();
    s.append(day);
    s
}

/// Builds the value segment `{token}#{dec}`.
pub fn build_value_token(bits: u64, dec: &str) -> (s: String)
    ensures
        s@ == value_token(bits, dec@),
{
    let mut s = encode_score_bits(bits);
    s.append("#");
    s.append(dec);
    s
}

/// The storage item for one stat record: the seven index-key attributes
/// and the six denormalized field attributes.
pub struct DbStat {
    pk: Attr,
    sk: Attr,
    lsi_sk: Attr,
    gsi1_pk: Attr,
    gsi1_sk: Attr,
    gsi2_pk: Attr,
    gsi2_sk: Attr,
    user: Attr,
    game: Attr,
    stat: Attr,
    value: Attr,
    day: Attr,
    added_timestamp: Attr,
}

impl View for DbStat {
    type V = Seq<(Seq<char>, AttrV)>;

    closed spec fn view(&self) -> Seq<(Seq<char>, AttrV)> {
        seq![
            ("PK"@, self.pk@),
            ("SK"@, self.sk@),
            ("LSI-SK"@, self.lsi_sk@),
            ("GSI1-PK"@, self.gsi1_pk@),
            ("GSI1-SK"@, self.gsi1_sk@),
            ("GSI2-PK"@, self.gsi2_pk@),
            ("GSI2-SK"@, self.gsi2_sk@),
            ("User"@, self.user@),
            ("Game"@, self.game@),
            ("Stat"@, self.stat@),
            ("Value"@, self.value@),
            ("Day"@, self.day@),
            ("Timestamp"@, self.added_timestamp@),
        ]
    }
}

impl Attr {
    /// A copy with the same tag and contents.
    pub fn dup(&self) -> (r: Attr)
        ensures
            r@ == self@,
    {
        match self {
            Attr::S(s) => Attr::S(s.clone()),
            Attr::N(s) => Attr::N(s.clone()),
        }
    }
}

impl DbStat {
    /// Derives every composite key for one stat record. The score arrives
    /// as its bit pattern plus its decimal rendering; day and timestamp are
    /// whole milliseconds.
    pub fn new(
        user: &str,
        game: &str,
        stat: &str,
        value_bits: u64,
        value_dec: &str,
        day: u128,
        added_timestamp: u128,
    ) -> (r: Self)
        ensures
            r@ == stat_item_spec(
                user@,
                game@,
                stat@,
                value_bits,
                value_dec@,
                day,
                added_timestamp,
            ),
    {
        let day_s = u128_to_dec(day);
        let ts_s = u128_to_dec(added_timestamp);
        let vtok = build_value_token(value_bits, value_dec);

        let mut sk = build_user_day_prefix(game, day_s.as_str(), stat);
        sk.append("#Value#");
        sk.append(vtok.as_str());
        sk.append("#Timestamp#");
        sk.append(ts_s.as_str());

        let mut lsi_sk = build_gsi_pk(game, stat);
        lsi_sk.append("#Value#");
        lsi_sk.append(vtok.as_str());

        let mut gsi1_sk = build_day_prefix(day_s.as_str());
        gsi1_sk.append("#Value#");
        gsi1_sk.append(vtok.as_str());
        gsi1_sk.append("#Timestamp#");
        gsi1_sk.append(ts_s.as_str());

        let mut gsi2_sk = "Value#".to_owned();
        gsi2_sk.append(vtok.as_str());
        gsi2_sk.append("#Timestamp#");
        gsi2_sk.append(ts_s.as_str());

        let r = DbStat {
            pk: Attr::S(build_pk(user)),
            sk: Attr::S(sk),
            lsi_sk: Attr::S(lsi_sk),
            gsi1_pk: Attr::S(build_gsi_pk(game, stat)),
            gsi1_sk: Attr::S(gsi1_sk),
            gsi2_pk: Attr::S(build_gsi_pk(game, stat)),
            gsi2_sk: Attr::S(gsi2_sk),
            user: Attr::S(user.to_owned()),
            game: Attr::S(game.to_owned()),
            stat: Attr::S(stat.to_owned()),
            value: Attr::N(value_dec.to_owned()),
            day: Attr::N(day_s),
            added_timestamp: Attr::N(ts_s),
        };
        proof {
            assert(r@ =~= stat_item_spec(
                user@,
                game@,
                stat@,
                value_bits,
                value_dec@,
                day,
                added_timestamp,
            ));
        }
        r
    }

    /// The item as an attribute list, ready to hand to the store.
    pub fn as_item(&self) -> (r: Vec<(String, Attr)>)
        ensures
            pairs_view(r@) == self@,
    {
        let mut v: Vec<(String, Attr)> = Vec::new();
        v.push(("PK".to_owned(), self.pk.dup()));
        v.push(("SK".to_owned(), self.sk.dup()));
        v.push(("LSI-SK".to_owned(), self.lsi_sk.dup()));
        v.push(("GSI1-PK".to_owned(), self.gsi1_pk.dup()));
        v.push(("GSI1-SK".to_owned(), self.gsi1_sk.dup()));
        v.push(("GSI2-PK".to_owned(), self.gsi2_pk.dup()));
        v.push(("GSI2-SK".to_owned(), self.gsi2_sk.dup()));
        v.push(("User".to_owned(), self.user.dup()));
        v.push(("Game".to_owned(), self.game.dup()));
        v.push(("Stat".to_owned(), self.stat.dup()));
        v.push(("Value".to_owned(), self.value.dup()));
        v.push(("Day".to_owned(), self.day.dup()));
        v.push(("Timestamp".to_owned(), self.added_timestamp.dup()));
        proof {
            assert(pairs_view(v@) =~= self@);
        }
        v
    }
}

} // verus!
