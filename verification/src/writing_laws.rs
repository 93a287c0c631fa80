//! What names, numbers, orders and times come to as they are written.

use vstd::prelude::*;
use vstd::string::*;
use vstd::utf8::*;

use crate::naming::{
    hex, hex_digit, mutation_lock_name, name_order, namespace_lock_name, needs_cwd_file,
    percent_encoded, sha256, single_component, stage_container_name, CopyLockOrder, PathStyle,
};
use crate::text::{bytes_before, decimal_text, has_prefix, has_suffix};
use crate::timestamp::{
    days_before_month, days_before_year, days_in_month, days_since_epoch, field, fraction_of,
    leading_number, offset_of, rfc3339, Timestamp,
};

verus! {

// Numbers.

/// The number that decimal digits make.
pub open spec fn number(s: Seq<char>) -> int
    decreases s.len(),
{
    if s.len() == 0 {
        0
    } else {
        number(s.drop_last()) * 10 + (s.last() as int - 48)
    }
}

/// A number is written with the digits that make it, and none in front of them
/// that could be left out.
pub proof fn decimal_text_makes_its_number(n: nat)
    ensures
        decimal_text(n).len() > 0,
        number(decimal_text(n)) == n,
        forall|i: int| 0 <= i < decimal_text(n).len() ==> '0' <= #[trigger] decimal_text(n)[i] <= '9',
        n > 0 ==> decimal_text(n)[0] != '0',
    decreases n,
{
    let s = decimal_text(n);
    if n >= 10 {
        let high = decimal_text(n / 10);
        decimal_text_makes_its_number(n / 10);
        assert(s.drop_last() =~= high);
        assert(s[0] == high[0]);
        assert forall|i: int| 0 <= i < s.len() implies '0' <= #[trigger] s[i] <= '9' by {
            if i < high.len() {
                assert(s[i] == high[i]);
            }
        }
    } else {
        assert(s.drop_last() =~= Seq::<char>::empty());
        assert(number(Seq::<char>::empty()) == 0);
    }
}

/// The value of a lower-case hexadecimal digit.
pub open spec fn hex_value(c: char) -> int {
    if '0' <= c <= '9' {
        c as int - 48
    } else if 'a' <= c <= 'f' {
        c as int - 87
    } else {
        -1
    }
}

proof fn hex_digit_has_its_value(v: int)
    requires
        0 <= v < 16,
    ensures
        hex_value(hex_digit(v)) == v,
{
}

/// Every byte is written with two digits, in its place, the higher first.
pub proof fn hex_tells_every_byte(bytes: Seq<u8>, i: int)
    requires
        0 <= i < bytes.len(),
    ensures
        hex(bytes).len() == 2 * bytes.len(),
        hex_value(hex(bytes)[2 * i]) * 16 + hex_value(hex(bytes)[2 * i + 1]) == bytes[i],
        0 <= hex_value(hex(bytes)[2 * i]) < 16,
        0 <= hex_value(hex(bytes)[2 * i + 1]) < 16,
    decreases bytes.len(),
{
    let init = bytes.drop_last();
    let last = bytes.last() as int;
    hex_digit_has_its_value(last / 16);
    hex_digit_has_its_value(last % 16);
    if bytes.len() == 1 {
        assert(hex(init) =~= Seq::<char>::empty());
    } else if i < bytes.len() - 1 {
        hex_tells_every_byte(init, i);
    } else {
        hex_tells_every_byte(init, 0);
    }
}

/// The names of a session's files are made of the digest of its id alone, so
/// that no character of the id is in them; and no two of them are the same file.
pub proof fn names_are_made_of_the_digest(id: Seq<char>)
    ensures
        stage_container_name(id) == "session-"@ + hex(sha256(encode_utf8(id))),
        namespace_lock_name(id) == hex(sha256(encode_utf8(id))) + ".namespace.lock"@,
        mutation_lock_name(id) == hex(sha256(encode_utf8(id))) + ".mutation.lock"@,
{
}

/// The lock whose name comes first is taken first.
pub proof fn smaller_name_is_locked_first(a: Seq<char>, b: Seq<char>, k: int)
    requires
        0 <= k < encode_utf8(a).len(),
        k < encode_utf8(b).len(),
        encode_utf8(a).take(k) == encode_utf8(b).take(k),
        encode_utf8(a)[k] < encode_utf8(b)[k],
    ensures
        name_order(a, b) == CopyLockOrder::SourceFirst,
        name_order(b, a) == CopyLockOrder::TargetFirst,
{
    first_difference_decides(encode_utf8(a), encode_utf8(b), k);
}

/// The first difference decides the order of texts; and what is only the
/// beginning of another comes before it.
pub proof fn first_difference_decides(a: Seq<u8>, b: Seq<u8>, k: int)
    requires
        0 <= k <= a.len(),
        k < b.len(),
        a.take(k) == b.take(k),
        k == a.len() || a[k] < b[k],
    ensures
        bytes_before(a, b),
        !bytes_before(b, a),
    decreases a.len(),
{
    if k > 0 {
        assert(a[0] == a.take(k)[0] && b[0] == b.take(k)[0]);
        assert(k < a.len() ==> a.skip(1)[k - 1] == a[k]);
        assert(b.skip(1)[k - 1] == b[k]);
        assert(a.skip(1).take(k - 1) =~= a.take(k).skip(1));
        assert(b.skip(1).take(k - 1) =~= b.take(k).skip(1));
        first_difference_decides(a.skip(1), b.skip(1), k - 1);
    }
}

/// A text has what it begins and ends with.
pub proof fn text_begins_and_ends(s: Seq<char>, t: Seq<char>)
    ensures
        has_prefix(s + t, s),
        has_suffix(s + t, t),
        has_prefix(s, t) ==> s =~= t + s.skip(t.len() as int),
        has_suffix(s, t) ==> s =~= s.take(s.len() - t.len()) + t,
        s.len() < t.len() ==> !has_prefix(s, t) && !has_suffix(s, t),
{
    assert((s + t).take(s.len() as int) =~= s);
    assert((s + t).skip(s.len() as int) =~= t);
}

// Names of sessions.

/// An id is a single component of a path if it says nothing of a place: it has
/// no slash, on Windows no backslash and no drive, and is neither empty nor one
/// of the two names for a directory and its parent.
pub proof fn component_stays_in_its_directory(id: Seq<char>, style: PathStyle)
    ensures
        single_component(id, style) <==> {
            &&& id.len() > 0
            &&& !id.contains('/')
            &&& style is Windows ==> !id.contains('\\')
            &&& !(id.len() == 1 && id[0] == '.')
            &&& !(id.len() == 2 && id[0] == '.' && id[1] == '.')
            &&& style is Windows ==> !(id.len() >= 2 && id[1] == ':' && ('a' <= id[0] <= 'z'
                || 'A' <= id[0] <= 'Z'))
        },
{
    reveal_strlit(".");
    reveal_strlit("..");
    assert(id == "."@ <==> id =~= "."@);
    assert(id == ".."@ <==> id =~= ".."@);
    if single_component(id, style) {
        if id.contains('/') {
            let i = choose|i: int| 0 <= i < id.len() && id[i] == '/';
            assert(style.separates(id[i]));
        }
        if style is Windows && id.contains('\\') {
            let i = choose|i: int| 0 <= i < id.len() && id[i] == '\\';
            assert(style.separates(id[i]));
        }
    } else if id.len() > 0 && !id.contains('/') && (style is Windows ==> !id.contains('\\')) {
        assert forall|i: int| 0 <= i < id.len() implies !style.separates(#[trigger] id[i]) by {
            if style.separates(id[i]) {
                assert(id.contains(id[i]));
            }
        }
    }
}

/// A directory whose name is the encoding of the working directory needs no file
/// that tells it; any other does.
pub proof fn plain_name_tells_the_directory(name: Seq<char>, cwd: Seq<char>)
    ensures
        !needs_cwd_file(percent_encoded(encode_utf8(cwd)), cwd),
        name != percent_encoded(encode_utf8(cwd)) ==> needs_cwd_file(name, cwd),
{
}

// Times.

/// Every fourth year is a leap year, but of those that end a century only every
/// fourth.
pub open spec fn leap(year: int) -> bool {
    if year % 100 == 0 {
        year % 400 == 0
    } else {
        year % 4 == 0
    }
}

proof fn every_fourth(year: int)
    ensures
        (year + 4) / 4 - (year + 3) / 4 == if year % 4 == 0 {
            1int
        } else {
            0int
        },
{
}

proof fn every_hundredth(year: int)
    ensures
        (year + 100) / 100 - (year + 99) / 100 == if year % 100 == 0 {
            1int
        } else {
            0int
        },
        year % 100 == 0 ==> year % 4 == 0,
{
    let century = year / 100;
    assert(year == 100 * century + year % 100);
    if year % 100 == 0 {
        assert(year == 4 * (25 * century));
    }
}

proof fn every_four_hundredth(year: int)
    ensures
        (year + 400) / 400 - (year + 399) / 400 == if year % 400 == 0 {
            1int
        } else {
            0int
        },
        year % 400 == 0 ==> year % 100 == 0,
{
    let cycle = year / 400;
    assert(year == 400 * cycle + year % 400);
    if year % 400 == 0 {
        assert(year == 100 * (4 * cycle));
    }
}

proof fn year_length(year: int)
    ensures
        days_before_year(year + 1) - days_before_year(year) == if leap(year) {
            366int
        } else {
            365int
        },
{
    every_fourth(year);
    every_hundredth(year);
    every_four_hundredth(year);
    assert(days_before_year(year + 1) == 365 * (year + 1) + (year + 4) / 4 - (year + 100) / 100 + (
    year + 400) / 400);
    assert(days_before_year(year) == 365 * year + (year + 3) / 4 - (year + 99) / 100 + (year + 399)
        / 400);
}

/// The months have 31, 28, 31, 30, 31, 30, 31, 31, 30, 31, 30 and 31 days, and
/// the second one more in a leap year.
pub proof fn months_have_their_days(year: int, month: int)
    requires
        1 <= month <= 12,
    ensures
        days_in_month(year, month) == if month == 2 {
            if leap(year) {
                29int
            } else {
                28int
            }
        } else if month == 4 || month == 6 || month == 9 || month == 11 {
            30int
        } else {
            31int
        },
        days_before_month(year, 1) == 0,
        days_before_month(year, month + 1) == days_before_month(year, month) + days_in_month(
            year,
            month,
        ),
{
}

/// A year has 365 days, and a leap year one more; they are those of its months.
pub proof fn years_have_their_days(year: int)
    ensures
        days_before_year(year + 1) - days_before_year(year) == if leap(year) {
            366int
        } else {
            365int
        },
        days_before_month(year, 13) == days_before_year(year + 1) - days_before_year(year),
{
    year_length(year);
    months_have_their_days(year, 1);
    months_have_their_days(year, 2);
    months_have_their_days(year, 3);
    months_have_their_days(year, 4);
    months_have_their_days(year, 5);
    months_have_their_days(year, 6);
    months_have_their_days(year, 7);
    months_have_their_days(year, 8);
    months_have_their_days(year, 9);
    months_have_their_days(year, 10);
    months_have_their_days(year, 11);
    months_have_their_days(year, 12);
}

/// Days are counted one by one from the epoch on: the next day of a month, the
/// first of the next month and the first of the next year each follow on the day
/// before.
pub proof fn days_follow_one_another(year: int, month: int, day: int)
    requires
        1 <= month <= 12,
    ensures
        days_since_epoch(1970, 1, 1) == 0,
        days_since_epoch(year, month, day + 1) == days_since_epoch(year, month, day) + 1,
        month < 12 ==> days_since_epoch(year, month + 1, 1) == days_since_epoch(
            year,
            month,
            days_in_month(year, month),
        ) + 1,
        days_since_epoch(year + 1, 1, 1) == days_since_epoch(year, 12, 31) + 1,
{
    years_have_their_days(year);
    months_have_their_days(year, month);
    months_have_their_days(year, 12);
    months_have_their_days(year + 1, 1);
    months_have_their_days(1970, 1);
}

/// The value of a decimal digit at a place.
pub open spec fn digit_at(s: Seq<char>, i: int) -> int {
    s[i] as int - 48
}

/// Whether digits stand at a place and the one behind it.
pub open spec fn two_digits(s: Seq<char>, i: int) -> bool {
    '0' <= s[i] <= '9' && '0' <= s[i + 1] <= '9'
}

pub open spec fn two_at(s: Seq<char>, i: int) -> int {
    digit_at(s, i) * 10 + digit_at(s, i + 1)
}

/// Whether a text begins as a stamp does: `YYYY-MM-DDThh:mm:ss`, of a date and a
/// time of day that there are.
pub open spec fn begins_as_stamp(s: Seq<char>) -> bool {
    &&& s.len() >= 19
    &&& two_digits(s, 0) && two_digits(s, 2) && two_digits(s, 5) && two_digits(s, 8)
    &&& two_digits(s, 11) && two_digits(s, 14) && two_digits(s, 17)
    &&& s[4] == '-' && s[7] == '-' && s[10] == 'T' && s[13] == ':' && s[16] == ':'
    &&& 1 <= two_at(s, 5) <= 12
    &&& 1 <= two_at(s, 8) <= days_in_month(year_at(s), two_at(s, 5))
    &&& two_at(s, 11) < 24 && two_at(s, 14) < 60 && two_at(s, 17) < 60
}

pub open spec fn year_at(s: Seq<char>) -> int {
    two_at(s, 0) * 100 + two_at(s, 2)
}

/// The seconds that the beginning of a stamp states, as if in UTC.
pub open spec fn seconds_at(s: Seq<char>) -> int {
    days_since_epoch(year_at(s), two_at(s, 5), two_at(s, 8)) * 86400 + two_at(s, 11) * 3600
        + two_at(s, 14) * 60 + two_at(s, 17)
}

proof fn two_digit_field(s: Seq<char>, i: int)
    requires
        0 <= i,
        i + 2 <= s.len(),
        two_digits(s, i),
    ensures
        field(s, i, 2) == Some(two_at(s, i)),
{
    reveal_with_fuel(leading_number, 3);
    assert(s.skip(i)[0] == s[i]);
    assert(s.skip(i)[1] == s[i + 1]);
    assert forall|k: int| i <= k < i + 2 implies crate::timestamp::is_digit(#[trigger] s[k]) by {
        assert(k == i || k == i + 1);
    }
}

proof fn year_field(s: Seq<char>)
    requires
        s.len() >= 4,
        two_digits(s, 0),
        two_digits(s, 2),
    ensures
        field(s, 0, 4) == Some(year_at(s)),
{
    reveal_with_fuel(leading_number, 5);
    assert(s.skip(0) =~= s);
    assert forall|k: int| 0 <= k < 4 implies crate::timestamp::is_digit(#[trigger] s[k]) by {
        assert(k == 0 || k == 1 || k == 2 || k == 3);
    }
}

proof fn stamp_fields(s: Seq<char>)
    requires
        begins_as_stamp(s),
    ensures
        crate::timestamp::date_of(s) == Some(
            days_since_epoch(year_at(s), two_at(s, 5), two_at(s, 8)),
        ),
        crate::timestamp::time_of(s) == Some((two_at(s, 11), two_at(s, 14), two_at(s, 17))),
{
    year_field(s);
    two_digit_field(s, 5);
    two_digit_field(s, 8);
    two_digit_field(s, 11);
    two_digit_field(s, 14);
    two_digit_field(s, 17);
}

/// A stamp in UTC states the seconds since the epoch that its date and its time
/// of day make.
pub proof fn stamp_states_its_second(s: Seq<char>)
    requires
        begins_as_stamp(s),
        s.len() == 20,
        s[19] == 'Z',
    ensures
        rfc3339(s) == Some((seconds_at(s), 0int)),
{
    stamp_fields(s);
}

/// A stamp with an offset states the time that it is in UTC then: earlier by the
/// offset where that is ahead of UTC, later where it is behind.
pub proof fn offset_leads_to_utc(s: Seq<char>)
    requires
        begins_as_stamp(s),
        s.len() == 25,
        s[19] == '+' || s[19] == '-',
        two_digits(s, 20) && two_digits(s, 23) && s[22] == ':',
        two_at(s, 20) < 24 && two_at(s, 23) < 60,
    ensures
        rfc3339(s) == Some(
            (
                if s[19] == '+' {
                    seconds_at(s) - (two_at(s, 20) * 3600 + two_at(s, 23) * 60)
                } else {
                    seconds_at(s) + (two_at(s, 20) * 3600 + two_at(s, 23) * 60)
                },
                0int,
            ),
        ),
{
    stamp_fields(s);
    two_digit_field(s, 20);
    two_digit_field(s, 23);
    assert(fraction_of(s) == Some((0int, 19int)));
    assert(offset_of(s, 19) is Some);
}

/// Three digits behind the second are milliseconds.
pub proof fn stamp_states_its_milliseconds(s: Seq<char>)
    requires
        begins_as_stamp(s),
        s.len() == 24,
        s[19] == '.' && two_digits(s, 20) && '0' <= s[22] <= '9' && s[23] == 'Z',
    ensures
        rfc3339(s) == Some(
            (seconds_at(s), (two_at(s, 20) * 10 + digit_at(s, 22)) * 1_000_000),
        ),
{
    stamp_fields(s);
    reveal_with_fuel(crate::timestamp::digit_run, 5);
    reveal_with_fuel(leading_number, 10);
    assert(crate::timestamp::digit_run(s, 20) == 3);
    let digits = s.subrange(20, 23);
    assert(digits[0] == s[20] && digits[1] == s[21] && digits[2] == s[22]);
    assert(fraction_of(s) == Some(((two_at(s, 20) * 10 + digit_at(s, 22)) * 1_000_000, 23int)));
}

/// Whether a text begins as a stamp is written, whatever its numbers are.
pub open spec fn written_as_stamp(s: Seq<char>) -> bool {
    &&& s.len() >= 19
    &&& two_digits(s, 0) && two_digits(s, 2) && two_digits(s, 5) && two_digits(s, 8)
    &&& two_digits(s, 11) && two_digits(s, 14) && two_digits(s, 17)
}

/// A leap second is told by the second before it, with a second more of
/// nanoseconds.
pub proof fn leap_second_is_told_by_the_one_before(s: Seq<char>)
    requires
        written_as_stamp(s),
        s[4] == '-' && s[7] == '-' && s[10] == 'T' && s[13] == ':' && s[16] == ':',
        1 <= two_at(s, 5) <= 12,
        1 <= two_at(s, 8) <= days_in_month(year_at(s), two_at(s, 5)),
        two_at(s, 11) < 24 && two_at(s, 14) < 60 && two_at(s, 17) == 60,
        s.len() == 20 && s[19] == 'Z',
    ensures
        rfc3339(s) == Some((seconds_at(s) - 1, 1_000_000_000int)),
{
    year_field(s);
    two_digit_field(s, 5);
    two_digit_field(s, 8);
    two_digit_field(s, 11);
    two_digit_field(s, 14);
    two_digit_field(s, 17);
}

/// A text states no time if there is no such date or time of day, if something
/// else stands between the numbers, or if it is too short for them.
pub proof fn no_such_time_is_stated(s: Seq<char>)
    ensures
        s.len() < 20 ==> rfc3339(s) is None,
        written_as_stamp(s) && (s[4] != '-' || s[7] != '-' || s[13] != ':' || s[16] != ':')
            ==> rfc3339(s) is None,
        written_as_stamp(s) && s[10] != 'T' && s[10] != 't' && s[10] != ' ' ==> rfc3339(s) is None,
        written_as_stamp(s) && (two_at(s, 5) < 1 || two_at(s, 5) > 12) ==> rfc3339(s) is None,
        written_as_stamp(s) && (two_at(s, 8) < 1 || two_at(s, 8) > days_in_month(
            year_at(s),
            two_at(s, 5),
        )) ==> rfc3339(s) is None,
        written_as_stamp(s) && (two_at(s, 11) > 23 || two_at(s, 14) > 59 || two_at(s, 17) > 60)
            ==> rfc3339(s) is None,
        s.len() == 20 && s[19] != 'Z' && s[19] != 'z' ==> rfc3339(s) is None,
{
    if written_as_stamp(s) {
        year_field(s);
        two_digit_field(s, 5);
        two_digit_field(s, 8);
        two_digit_field(s, 11);
        two_digit_field(s, 14);
        two_digit_field(s, 17);
    }
    if s.len() == 20 && s[19] != 'Z' && s[19] != 'z' && s[19] == '.' {
        assert(crate::timestamp::digit_run(s, 20) == 0);
    }
}

/// A point in time is later by its seconds, and within a second by its
/// nanoseconds; its milliseconds are what whole milliseconds of it there are.
pub proof fn later_times_come_after(a: Timestamp, b: Timestamp)
    ensures
        a.seconds > b.seconds ==> a.after(b) && !b.after(a),
        a.seconds == b.seconds && a.nanos > b.nanos ==> a.after(b) && !b.after(a),
        a.seconds == b.seconds && a.nanos == b.nanos ==> !a.after(b),
        a.millis() * 1_000_000 <= a.seconds * 1_000_000_000 + a.nanos < (a.millis() + 1)
            * 1_000_000,
{
}

} // verus!
