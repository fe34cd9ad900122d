//! Helpers that tests of the user statistics service build their queries and
//! their database with.

use vstd::prelude::*;
use vstd::string::*;

use crate::text::{
    chars_of, is_blank, is_white_space, join_with, lemma_non_blank_kept, lemma_split_join,
    lemma_split_pieces_free_of_sep, lemma_white_space_is_unicode, non_blank, unicode_white_space_codes, split_on, white_space,
};
use crate::time::{
    civil_seconds, days_span_in_range, seconds_per_day, utc_checked_sub_days, utc_in_range,
    utc_with_ymd_and_hms, Timestamp,
};
use crate::user_stat::{IdQuery, TimeQuery};

verus! {

/// Unix seconds of the reference day of the test data, 2024-05-07 00:00:00 UTC.
pub open spec fn reference_seconds() -> int {
    1715040000
}

/// Whether `to_ts` is defined for a number of days: chrono holds the span and
/// the instant that many days before the reference day.
pub open spec fn to_ts_defined(days: int) -> bool {
    days_span_in_range(days) && utc_in_range(reference_seconds() - days * seconds_per_day())
}

/// The instant `days` whole days before the reference day.
pub open spec fn days_ago(days: int) -> Timestamp {
    Timestamp { seconds: (reference_seconds() - days * seconds_per_day()) as i64, nanos: 0 }
}

/// Builds an id condition from a list of ids.
pub fn id(ids: &[u32]) -> (q: IdQuery)
    ensures
        q.ids@ == ids@,
{
    IdQuery { ids: vstd::slice::slice_to_vec(ids) }
}

/// Builds a time condition whose `before` bound is `lower` days and whose
/// `after` bound is `upper` days before the reference day.
pub fn tq(lower: Option<i64>, upper: Option<i64>) -> (q: TimeQuery)
    requires
        lower matches Some(d) ==> to_ts_defined(d as int),
        upper matches Some(d) ==> to_ts_defined(d as int),
    ensures
        q.before == (match lower {
            Some(d) => Some(days_ago(d as int)),
            None => None,
        }),
        q.after == (match upper {
            Some(d) => Some(days_ago(d as int)),
            None => None,
        }),
{
    let before = match lower {
        Some(d) => Some(to_ts(d)),
        None => None,
    };
    let after = match upper {
        Some(d) => Some(to_ts(d)),
        None => None,
    };
    TimeQuery { before, after }
}

/// The instant `days` whole days before 2024-05-07 00:00:00 UTC.
pub fn to_ts(days: i64) -> (t: Timestamp)
    requires
        to_ts_defined(days as int),
    ensures
        t == days_ago(days as int),
{
    assert(civil_seconds(2024, 5, 7, 0, 0, 0) == reference_seconds());
    let base = utc_with_ymd_and_hms(2024, 5, 7, 0, 0, 0);
    let base = base.unwrap();
    let earlier = utc_checked_sub_days(base.0, base.1, days);
    let earlier = earlier.unwrap();
    Timestamp { seconds: earlier.0, nanos: earlier.1 as i32 }
}


/// The database server a test database is made on when none is given.
pub open spec fn default_server_url() -> Seq<char> {
    "postgres://linyz@localhost:5432"@
}

/// The server part of a database URL: everything before its last `/`, or
/// nothing when it has no `/`.
pub fn db_server_url(db_url: &str) -> (r: Option<String>)
    ensures
        r is None <==> !db_url@.contains('/'),
        r matches Some(u) ==> {
            &&& u@.len() < db_url@.len()
            &&& db_url@[u@.len() as int] == '/'
            &&& u@ == db_url@.take(u@.len() as int)
            &&& forall|j: int| u@.len() < j < db_url@.len() ==> db_url@[j] != '/'
        },
{
    let chars = chars_of(db_url);
    let mut k: usize = chars.len();
    while k > 0
        invariant
            chars@ == db_url@,
            k <= chars@.len(),
            forall|j: int| k <= j < chars@.len() ==> chars@[j] != '/',
        decreases k,
    {
        if chars[k - 1] == '/' {
            let server = db_url.substring_char(0, k - 1);
            let server = server.to_string();
            assert(server@ =~= db_url@.take((k - 1) as int));
            return Some(server);
        }
        k = k - 1;
    }
    assert(!db_url@.contains('/'));
    None
}

/// The server a test database is made on: the one given, else the default.
pub fn server_url_or_default(server_url: Option<&str>) -> (r: String)
    ensures
        r@ == (match server_url {
            Some(u) => u@,
            None => default_server_url(),
        }),
{
    match server_url {
        Some(url) => url.to_string(),
        None => "postgres://linyz@localhost:5432".to_string(),
    }
}

/// The statements of an SQL script: the pieces between `;` that are not
/// blank, each as it stands in the script.
pub fn sql_statements(script: &str) -> (r: Vec<String>)
    ensures
        r@.map_values(|s: String| s@) == non_blank(split_on(script@, ';')),
{
    let chars = chars_of(script);
    let n: usize = chars.len();
    let mut out: Vec<String> = Vec::new();
    let mut start: usize = 0;
    let mut blank = true;
    let mut i: usize = 0;
    proof {
        assert(chars@.take(0) =~= Seq::<char>::empty());
    }
    while i < n
        invariant
            chars@ == script@,
            n == chars@.len(),
            start <= i <= n,
            split_on(chars@.take(i as int), ';').len() >= 1,
            split_on(chars@.take(i as int), ';').last() == chars@.subrange(start as int, i as int),
            out@.map_values(|s: String| s@) == non_blank(
                split_on(chars@.take(i as int), ';').drop_last(),
            ),
            blank == is_blank(chars@.subrange(start as int, i as int)),
        decreases n - i,
    {
        let ghost before = split_on(chars@.take(i as int), ';');
        let c = chars[i];
        proof {
            assert(chars@.take(i + 1).drop_last() =~= chars@.take(i as int));
            assert(chars@.take(i + 1).last() == c);
        }
        if c == ';' {
            let ghost after = split_on(chars@.take(i + 1), ';');
            assert(after == before.push(Seq::<char>::empty()));
            assert(after.drop_last() =~= before);
            if !blank {
                let piece = script.substring_char(start, i).to_string();
                out.push(piece);
                assert(out@.map_values(|s: String| s@) =~= non_blank(before.drop_last()).push(
                    before.last(),
                ));
            } else {
                assert(out@.map_values(|s: String| s@) == non_blank(before));
            }
            start = i + 1;
            blank = true;
            assert(chars@.subrange(start as int, (i + 1) as int) =~= Seq::<char>::empty());
        } else {
            let ghost after = split_on(chars@.take(i + 1), ';');
            assert(after == before.update(before.len() - 1, before.last().push(c)));
            assert(after.drop_last() =~= before.drop_last());
            assert(chars@.subrange(start as int, (i + 1) as int) =~= chars@.subrange(
                start as int,
                i as int,
            ).push(c));
            let ghost old_piece = chars@.subrange(start as int, i as int);
            let ghost new_piece = chars@.subrange(start as int, (i + 1) as int);
            let ws = white_space(c);
            blank = blank && ws;
            assert(blank == is_blank(new_piece)) by {
                if is_blank(old_piece) && ws {
                    assert forall|k: int| 0 <= k < new_piece.len() implies is_white_space(
                        #[trigger] new_piece[k],
                    ) by {
                        if k < old_piece.len() {
                            assert(new_piece[k] == old_piece[k]);
                        }
                    }
                }
                if !is_blank(old_piece) {
                    let k: int = choose|k: int| 0 <= k < old_piece.len() && !is_white_space(
                        #[trigger] old_piece[k],
                    );
                    assert(new_piece[k] == old_piece[k]);
                }
                if !ws {
                    assert(new_piece[new_piece.len() - 1] == c);
                }
            }
        }
        i = i + 1;
    }
    proof {
        assert(chars@.take(n as int) =~= script@);
    }
    let ghost pieces = split_on(script@, ';');
    if !blank {
        let piece = script.substring_char(start, n).to_string();
        out.push(piece);
        assert(out@.map_values(|s: String| s@) =~= non_blank(pieces.drop_last()).push(
            pieces.last(),
        ));
        assert(pieces.drop_last().push(pieces.last()) =~= pieces);
    } else {
        assert(pieces.drop_last().push(pieces.last()) =~= pieces);
    }
    out
}


/// The statements of a script are not blank and hold no `;`, and the pieces
/// they are taken from join back into the script.
pub proof fn lemma_statements_well_formed(script: Seq<char>)
    ensures
        forall|k: int|
            0 <= k < non_blank(split_on(script, ';')).len() ==> {
                &&& !is_blank(#[trigger] non_blank(split_on(script, ';'))[k])
                &&& !non_blank(split_on(script, ';'))[k].contains(';')
            },
        join_with(split_on(script, ';'), ';') == script,
{
    let pieces = split_on(script, ';');
    lemma_non_blank_kept(pieces);
    lemma_split_pieces_free_of_sep(script, ';');
    lemma_split_join(script, ';');
    assert forall|k: int| 0 <= k < non_blank(pieces).len() implies !non_blank(pieces)[k].contains(
        ';',
    ) by {
        let m: int = choose|m: int| 0 <= m < pieces.len() && pieces[m] == non_blank(pieces)[k];
        if non_blank(pieces)[k].contains(';') {
            let j: int = choose|j: int| 0 <= j < pieces[m].len() && pieces[m][j] == ';';
            assert(split_on(script, ';')[m][j] != ';');
        }
    }
}

/// Whether a text holds a character that is not Unicode white space.
pub open spec fn holds_non_white_space(s: Seq<char>) -> bool {
    exists|i: int| 0 <= i < s.len() && !unicode_white_space_codes().contains(#[trigger] s[i] as u32)
}

/// Every statement of a script holds a character that is not Unicode white
/// space, so a piece made of white space alone (such as the line break after
/// the last `;`, `\r\n` included) is never run as a statement.
pub proof fn lemma_statements_hold_non_white_space(script: Seq<char>)
    ensures
        forall|k: int|
            0 <= k < non_blank(split_on(script, ';')).len() ==> #[trigger] holds_non_white_space(
                non_blank(split_on(script, ';'))[k],
            ),
{
    lemma_statements_well_formed(script);
    assert forall|k: int| 0 <= k < non_blank(split_on(script, ';')).len() implies #[trigger] holds_non_white_space(
        non_blank(split_on(script, ';'))[k],
    ) by {
        let stmt = non_blank(split_on(script, ';'))[k];
        assert(!is_blank(stmt));
        let i: int = choose|i: int| 0 <= i < stmt.len() && !is_white_space(stmt[i]);
        lemma_white_space_is_unicode(stmt[i]);
        assert(!unicode_white_space_codes().contains(stmt[i] as u32));
    }
}

/// Test instants are spaced by whole days: `to_ts` of `a` days lies
/// `b - a` days after `to_ts` of `b` days.
pub proof fn lemma_days_ago_spacing(a: int, b: int)
    requires
        to_ts_defined(a),
        to_ts_defined(b),
    ensures
        days_ago(a).seconds - days_ago(b).seconds == (b - a) * seconds_per_day(),
        days_ago(a).nanos == 0,
        a < b ==> days_ago(b).seconds < days_ago(a).seconds,
{
    assert((b - a) * seconds_per_day() == b * seconds_per_day() - a * seconds_per_day()) by (nonlinear_arith);
}

} // verus!
