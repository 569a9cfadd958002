//! Row encoding: engine values turned, one by one, into the values that the
//! wire protocol's data rows carry.
use vstd::prelude::*;
use vstd::string::StringExecFns;

use crate::error::QueryError;
use crate::text::{push_zero_padded, zero_padded};

verus! {

/// One cell of an engine result row. Floating-point values are held as
/// their IEEE-754 bit patterns.
#[derive(Debug)]
pub enum EngineValue {
    Null,
    Boolean(bool),
    TinyInt(i8),
    SmallInt(i16),
    Int(i32),
    BigInt(i64),
    Float(u32),
    Double(u64),
    /// Text as the engine stores it; not necessarily valid UTF-8.
    Text(Vec<u8>),
    Blob(Vec<u8>),
    /// A date, as a number of days after 1970-01-01.
    Date32(i32),
    /// A value of any other kind, by the name of its kind.
    Other(String),
}

/// One field of a wire data row, before the protocol layer writes it out in
/// the column's format.
#[derive(Debug)]
pub enum WireValue {
    Null,
    Text(String),
    Int1(i8),
    Int2(i16),
    Int4(i32),
    Int8(i64),
    /// A single-precision float, by its bit pattern.
    Float4(u32),
    /// A double-precision float, by its bit pattern.
    Float8(u64),
    Bytes(Vec<u8>),
}

/// The characters that valid UTF-8 `bytes` encode, with each invalid
/// sequence replaced by U+FFFD.
pub uninterp spec fn utf8_lossy(bytes: Seq<u8>) -> Seq<char>;

/// Relies on `String::from_utf8_lossy`, a function of the bytes alone.
#[verifier::external_body]
fn decode_text(bytes: &[u8]) -> (r: String)
    ensures
        r@ == utf8_lossy(bytes@),
        bytes@.len() == 0 ==> r@.len() == 0,
{
    String::from_utf8_lossy(bytes).into_owned()
}

/// Leap years of the proleptic Gregorian calendar (year 0 is 1 BCE).
pub open spec fn is_leap_year(y: int) -> bool {
    (y % 4 == 0 && y % 100 != 0) || y % 400 == 0
}

/// Days in month `m` of year `y`.
pub open spec fn days_in_month(y: int, m: int) -> int {
    if m == 2 {
        if is_leap_year(y) {
            29
        } else {
            28
        }
    } else if m == 4 || m == 6 || m == 9 || m == 11 {
        30
    } else {
        31
    }
}

/// Days of year `y` before the first of month `m`.
pub open spec fn days_before_month(y: int, m: int) -> int
    decreases m,
{
    if m <= 1 {
        0
    } else {
        days_before_month(y, m - 1) + days_in_month(y, m - 1)
    }
}

/// The number of leap years among the years 1 to `y`, less those among the
/// years `y + 1` to 0 where `y` is negative.
pub open spec fn leap_years_through(y: int) -> int {
    y / 4 - y / 100 + y / 400
}

/// Days from 1970-01-01 to the first of January of year `y`.
pub open spec fn days_before_year(y: int) -> int {
    365 * (y - 1970) + leap_years_through(y - 1) - leap_years_through(1969)
}

/// A date of the proleptic Gregorian calendar.
pub open spec fn is_calendar_date(y: int, m: int, d: int) -> bool {
    1 <= m <= 12 && 1 <= d <= days_in_month(y, m)
}

/// Days from 1970-01-01 to the date `y`-`m`-`d`.
pub open spec fn days_since_epoch(y: int, m: int, d: int) -> int {
    days_before_year(y) + days_before_month(y, m) + d - 1
}

/// The day offsets whose dates the date library covers: the years
/// -262143 to 262142.
pub open spec fn in_date_range(days: int) -> bool {
    days_since_epoch(-262143, 1, 1) <= days <= days_since_epoch(262142, 12, 31)
}

/// The year, month and day of a calendar date `days` days after 1970-01-01.
pub open spec fn is_date_of(date: (i32, u32, u32), days: int) -> bool {
    let (y, m, d) = date;
    is_calendar_date(y as int, m as int, d as int) && days_since_epoch(y as int, m as int, d as int)
        == days
}

/// Relies on chrono's `NaiveDate::from_epoch_days` (day 0 is 1970-01-01; `None`
/// outside the years -262143 to 262142) and on its year, month and day accessors.
#[verifier::external_body]
fn epoch_date(days: i32) -> (r: Option<(i32, u32, u32)>)
    ensures
        r is Some <==> in_date_range(days as int),
        r is Some ==> is_date_of(r->0, days as int),
{
    match chrono::NaiveDate::from_epoch_days(days) {
        Some(date) => Some(
            (
                chrono::Datelike::year(&date),
                chrono::Datelike::month(&date),
                chrono::Datelike::day(&date),
            ),
        ),
        None => None,
    }
}

/// The year as ISO 8601 writes it: four digits at least, with a sign outside 0 to 9999.
pub open spec fn year_text(y: int) -> Seq<char> {
    if 0 <= y <= 9999 {
        zero_padded(y as nat, 4)
    } else if y < 0 {
        seq!['-'] + zero_padded((-y) as nat, 4)
    } else {
        seq!['+'] + zero_padded(y as nat, 4)
    }
}

/// The date as `YYYY-MM-DD`.
pub open spec fn iso_date_text(y: int, m: int, d: int) -> Seq<char> {
    year_text(y) + seq!['-'] + zero_padded(m as nat, 2) + seq!['-'] + zero_padded(d as nat, 2)
}

/// `text` renders the calendar date `days` days after 1970-01-01.
pub open spec fn is_date_text_of(text: Seq<char>, days: int) -> bool {
    exists|y: int, m: int, d: int|
        is_calendar_date(y, m, d) && days_since_epoch(y, m, d) == days && text == iso_date_text(
            y,
            m,
            d,
        )
}

/// Days in year `y`.
pub open spec fn days_in_year(y: int) -> int {
    if is_leap_year(y) {
        366
    } else {
        365
    }
}

proof fn lemma_year_step(y: int)
    ensures
        days_before_year(y + 1) == days_before_year(y) + days_in_year(y),
{
    assert(leap_years_through(y) - leap_years_through(y - 1) == if is_leap_year(y) {
        1int
    } else {
        0int
    });
}

proof fn lemma_years_increase(y1: int, y2: int)
    requires
        y1 < y2,
    ensures
        days_before_year(y1) + days_in_year(y1) <= days_before_year(y2),
    decreases y2 - y1,
{
    lemma_year_step(y1);
    if y1 + 1 < y2 {
        lemma_years_increase(y1 + 1, y2);
    }
}

proof fn lemma_month_table(y: int)
    ensures
        days_before_month(y, 1) == 0,
        days_before_month(y, 2) == 31,
        days_before_month(y, 3) == days_in_year(y) - 306,
        days_before_month(y, 4) == days_in_year(y) - 275,
        days_before_month(y, 5) == days_in_year(y) - 245,
        days_before_month(y, 6) == days_in_year(y) - 214,
        days_before_month(y, 7) == days_in_year(y) - 184,
        days_before_month(y, 8) == days_in_year(y) - 153,
        days_before_month(y, 9) == days_in_year(y) - 122,
        days_before_month(y, 10) == days_in_year(y) - 92,
        days_before_month(y, 11) == days_in_year(y) - 61,
        days_before_month(y, 12) == days_in_year(y) - 31,
{
    reveal_with_fuel(days_before_month, 13);
}

proof fn lemma_months_increase(y: int, m1: int, m2: int)
    requires
        1 <= m1 < m2 <= 12,
    ensures
        days_before_month(y, m1) + days_in_month(y, m1) <= days_before_month(y, m2),
{
    lemma_month_table(y);
}

proof fn lemma_day_of_year(y: int, m: int, d: int)
    requires
        is_calendar_date(y, m, d),
    ensures
        0 <= days_before_month(y, m) + d - 1 < days_in_year(y),
{
    lemma_month_table(y);
}

/// Two calendar dates with the same day number are the same date.
proof fn lemma_days_since_epoch_injective(y1: int, m1: int, d1: int, y2: int, m2: int, d2: int)
    requires
        is_calendar_date(y1, m1, d1),
        is_calendar_date(y2, m2, d2),
        days_since_epoch(y1, m1, d1) == days_since_epoch(y2, m2, d2),
    ensures
        y1 == y2 && m1 == m2 && d1 == d2,
{
    lemma_day_of_year(y1, m1, d1);
    lemma_day_of_year(y2, m2, d2);
    if y1 < y2 {
        lemma_years_increase(y1, y2);
    } else if y2 < y1 {
        lemma_years_increase(y2, y1);
    } else if m1 < m2 {
        lemma_months_increase(y1, m1, m2);
    } else if m2 < m1 {
        lemma_months_increase(y1, m2, m1);
    }
}

/// A day offset names one calendar date, so a date has one rendering: two
/// texts that both render the date `days` days after 1970-01-01 are equal.
pub proof fn lemma_date_text_unique(a: Seq<char>, b: Seq<char>, days: int)
    requires
        is_date_text_of(a, days),
        is_date_text_of(b, days),
    ensures
        a == b,
{
    let (y1, m1, d1) = choose|y: int, m: int, d: int|
        is_calendar_date(y, m, d) && days_since_epoch(y, m, d) == days && a == iso_date_text(y, m, d);
    let (y2, m2, d2) = choose|y: int, m: int, d: int|
        is_calendar_date(y, m, d) && days_since_epoch(y, m, d) == days && b == iso_date_text(y, m, d);
    lemma_days_since_epoch_injective(y1, m1, d1, y2, m2, d2);
}

/// Renders the date `days` days after 1970-01-01 as `YYYY-MM-DD`; `None`
/// outside the covered range.
pub fn date_text(days: i32) -> (r: Option<String>)
    ensures
        r is Some <==> in_date_range(days as int),
        r is Some ==> is_date_text_of(r->0@, days as int),
{
    match epoch_date(days) {
        Some((y, m, d)) => {
            let mut out = String::new();
            if y < 0 {
                proof {
                    reveal_strlit("-");
                }
                out.append("-");
            } else if y > 9999 {
                proof {
                    reveal_strlit("+");
                }
                out.append("+");
            }
            let a: u32 = if y < 0 {
                (-(y as i64)) as u32
            } else {
                y as u32
            };
            push_zero_padded(&mut out, a, 4);
            proof {
                reveal_strlit("-");
            }
            out.append("-");
            push_zero_padded(&mut out, m, 2);
            out.append("-");
            push_zero_padded(&mut out, d, 2);
            proof {
                assert(out@ =~= iso_date_text(y as int, m as int, d as int));
                assert(is_calendar_date(y as int, m as int, d as int));
            }
            Some(out)
        },
        None => None,
    }
}

/// `w` is how the wire row carries the engine value `v`.
pub open spec fn encodes_to(v: EngineValue, w: WireValue) -> bool {
    match v {
        EngineValue::Null => w is Null,
        EngineValue::Boolean(b) => w matches WireValue::Text(t) && t@ == (if b {
            "true"@
        } else {
            "false"@
        }),
        EngineValue::TinyInt(i) => w == WireValue::Int1(i),
        EngineValue::SmallInt(i) => w == WireValue::Int2(i),
        EngineValue::Int(i) => w == WireValue::Int4(i),
        EngineValue::BigInt(i) => w == WireValue::Int8(i),
        EngineValue::Float(bits) => w == WireValue::Float4(bits),
        EngineValue::Double(bits) => w == WireValue::Float8(bits),
        EngineValue::Text(bytes) => w matches WireValue::Text(t) && t@ == utf8_lossy(bytes@),
        EngineValue::Blob(bytes) => w matches WireValue::Bytes(b) && b@ == bytes@,
        EngineValue::Date32(days) => w matches WireValue::Text(t) && is_date_text_of(
            t@,
            days as int,
        ),
        EngineValue::Other(_) => false,
    }
}

/// Whether the encoder can carry `v`: every kind but `Other`, and dates in range.
pub open spec fn is_encodable(v: EngineValue) -> bool {
    match v {
        EngineValue::Date32(days) => in_date_range(days as int),
        EngineValue::Other(_) => false,
        _ => true,
    }
}

/// `e` reports that the encoder cannot carry `v`.
pub open spec fn is_value_error(v: EngineValue, e: QueryError) -> bool {
    match v {
        EngineValue::Date32(days) => e == QueryError::DateOutOfRange(days),
        EngineValue::Other(kind) => e matches QueryError::UnsupportedValue(k) && k@ == kind@,
        _ => false,
    }
}

/// Every value of the row can be carried.
pub open spec fn is_row_encodable(row: Seq<EngineValue>) -> bool {
    forall|i: int| 0 <= i < row.len() ==> is_encodable(#[trigger] row[i])
}

/// `wire` carries `row`, value by value in the same order.
pub open spec fn row_encodes_to(row: Seq<EngineValue>, wire: Seq<WireValue>) -> bool {
    wire.len() == row.len() && forall|i: int|
        0 <= i < row.len() ==> encodes_to(#[trigger] row[i], wire[i])
}

/// `e` is the error of the first value of `row` that cannot be carried.
pub open spec fn is_row_error(row: Seq<EngineValue>, e: QueryError) -> bool {
    exists|k: int|
        0 <= k < row.len() && (forall|j: int| 0 <= j < k ==> is_encodable(#[trigger] row[j]))
            && !is_encodable(row[k]) && is_value_error(row[k], e)
}

fn copy_bytes(b: &Vec<u8>) -> (r: Vec<u8>)
    ensures
        r@ == b@,
{
    let mut r: Vec<u8> = Vec::new();
    let mut i: usize = 0;
    while i < b.len()
        invariant
            i <= b@.len(),
            r@ == b@.subrange(0, i as int),
        decreases b@.len() - i,
    {
        r.push(b[i]);
        proof {
            assert(b@.subrange(0, i + 1) =~= b@.subrange(0, i as int).push(b@[i as int]));
        }
        i = i + 1;
    }
    assert(b@.subrange(0, b@.len() as int) =~= b@);
    r
}

/// Encodes one value. Booleans become the words `true` and `false`, integers
/// and floats travel as they are, text is decoded as UTF-8 (invalid sequences
/// replaced), blobs stay bytes, and dates become `YYYY-MM-DD`.
pub fn encode_value(v: &EngineValue) -> (r: Result<WireValue, QueryError>)
    ensures
        is_encodable(*v) <==> r is Ok,
        r is Ok ==> encodes_to(*v, r->Ok_0),
        r is Err ==> is_value_error(*v, r->Err_0),
{
    match v {
        EngineValue::Null => Ok(WireValue::Null),
        EngineValue::Boolean(b) => {
            if *b {
                Ok(WireValue::Text(String::from_str("true")))
            } else {
                Ok(WireValue::Text(String::from_str("false")))
            }
        },
        EngineValue::TinyInt(i) => Ok(WireValue::Int1(*i)),
        EngineValue::SmallInt(i) => Ok(WireValue::Int2(*i)),
        EngineValue::Int(i) => Ok(WireValue::Int4(*i)),
        EngineValue::BigInt(i) => Ok(WireValue::Int8(*i)),
        EngineValue::Float(bits) => Ok(WireValue::Float4(*bits)),
        EngineValue::Double(bits) => Ok(WireValue::Float8(*bits)),
        EngineValue::Text(bytes) => Ok(WireValue::Text(decode_text(bytes.as_slice()))),
        EngineValue::Blob(bytes) => Ok(WireValue::Bytes(copy_bytes(bytes))),
        EngineValue::Date32(days) => match date_text(*days) {
            Some(t) => Ok(WireValue::Text(t)),
            None => Err(QueryError::DateOutOfRange(*days)),
        },
        EngineValue::Other(kind) => Err(QueryError::UnsupportedValue(kind.clone())),
    }
}

/// Encodes one engine row, value by value in column order. Fails with the
/// error of the first value that cannot be carried.
pub fn encode_row(row: &Vec<EngineValue>) -> (r: Result<Vec<WireValue>, QueryError>)
    ensures
        is_row_encodable(row@) <==> r is Ok,
        r is Ok ==> row_encodes_to(row@, r->Ok_0@),
        r is Err ==> is_row_error(row@, r->Err_0),
{
    let mut out: Vec<WireValue> = Vec::new();
    let mut i: usize = 0;
    while i < row.len()
        invariant
            i <= row@.len(),
            out@.len() == i,
            forall|j: int| 0 <= j < i ==> is_encodable(#[trigger] row@[j]),
            forall|j: int| 0 <= j < i ==> encodes_to(#[trigger] row@[j], out@[j]),
        decreases row@.len() - i,
    {
        match encode_value(&row[i]) {
            Ok(w) => {
                out.push(w);
            },
            Err(e) => {
                assert(is_row_error(row@, e)) by {
                    assert(!is_encodable(row@[i as int]));
                }
                return Err(e);
            },
        }
        i = i + 1;
    }
    Ok(out)
}

/// Every row of `rows` can be carried.
pub open spec fn are_rows_encodable(rows: Seq<Vec<EngineValue>>) -> bool {
    forall|i: int| 0 <= i < rows.len() ==> is_row_encodable(#[trigger] rows[i]@)
}

/// `wire` carries `rows`: one wire row per engine row, in the same order.
pub open spec fn rows_encode_to(rows: Seq<Vec<EngineValue>>, wire: Seq<Vec<WireValue>>) -> bool {
    wire.len() == rows.len() && forall|i: int|
        0 <= i < rows.len() ==> row_encodes_to(#[trigger] rows[i]@, wire[i]@)
}

/// Encodes a result, row by row. The wire rows come in the order of the
/// engine rows, one for each. Fails with the error of the first row that
/// cannot be carried.
pub fn encode_rows(rows: &Vec<Vec<EngineValue>>) -> (r: Result<Vec<Vec<WireValue>>, QueryError>)
    ensures
        are_rows_encodable(rows@) <==> r is Ok,
        r is Ok ==> rows_encode_to(rows@, r->Ok_0@),
        r is Err ==> exists|k: int|
            0 <= k < rows@.len() && (forall|j: int|
                0 <= j < k ==> is_row_encodable(#[trigger] rows@[j]@)) && is_row_error(
                rows@[k]@,
                r->Err_0,
            ),
{
    let mut out: Vec<Vec<WireValue>> = Vec::new();
    let mut i: usize = 0;
    while i < rows.len()
        invariant
            i <= rows@.len(),
            out@.len() == i,
            forall|j: int| 0 <= j < i ==> is_row_encodable(#[trigger] rows@[j]@),
            forall|j: int| 0 <= j < i ==> row_encodes_to(#[trigger] rows@[j]@, out@[j]@),
        decreases rows@.len() - i,
    {
        match encode_row(&rows[i]) {
            Ok(w) => {
                out.push(w);
            },
            Err(e) => {
                proof {
                    let k = i as int;
                    assert(!is_row_encodable(rows@[k]@));
                }
                return Err(e);
            },
        }
        i = i + 1;
    }
    Ok(out)
}

} // verus!
