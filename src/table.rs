use vstd::prelude::*;
use crate::clock::{minute_of_reading, rfc3339_reading, tokyo_minute_of, Stamp};
use crate::numbers::{micros_of_text, parse_micros, parse_u32, u32_of_text};
use crate::record::{attribute_text, get_attribute_values_str, Record, RecordError};

verus! {

pub open spec fn measured_at_name() -> Seq<char> {
    "measured_at"@
}

pub open spec fn sensor_id_name() -> Seq<char> {
    "sensor_id"@
}

pub open spec fn message_id_name() -> Seq<char> {
    "message_id"@
}

pub open spec fn cumulative_kwh_name() -> Seq<char> {
    "cumulative_kwh"@
}

pub open spec fn instant_watt_name() -> Seq<char> {
    "instant_watt"@
}

pub open spec fn instant_ampere_r_name() -> Seq<char> {
    "instant_ampere_R"@
}

pub open spec fn instant_ampere_t_name() -> Seq<char> {
    "instant_ampere_T"@
}

/// The fixed column names of a table, in order.
pub open spec fn schema_names() -> Seq<Seq<char>> {
    seq![
        measured_at_name(),
        sensor_id_name(),
        message_id_name(),
        cumulative_kwh_name(),
        instant_watt_name(),
        instant_ampere_r_name(),
        instant_ampere_t_name(),
    ]
}

/// One observation. Readings are in millionths of their unit
/// (kWh, W, A); `None` marks a missing value.
#[derive(Clone, Debug)]
pub struct Row {
    pub measured_at: Stamp,
    pub sensor_id: Option<String>,
    pub message_id: Option<u32>,
    pub cumulative_kwh: Option<i64>,
    pub instant_watt: Option<i64>,
    pub instant_ampere_r: Option<i64>,
    pub instant_ampere_t: Option<i64>,
}

/// What a row holds, with its text as characters.
pub struct RowModel {
    pub measured_at: Stamp,
    pub sensor_id: Option<Seq<char>>,
    pub message_id: Option<u32>,
    pub cumulative_kwh: Option<i64>,
    pub instant_watt: Option<i64>,
    pub instant_ampere_r: Option<i64>,
    pub instant_ampere_t: Option<i64>,
}

pub open spec fn text_view(o: Option<String>) -> Option<Seq<char>> {
    match o {
        Some(s) => Some(s@),
        None => None,
    }
}

impl View for Row {
    type V = RowModel;

    open spec fn view(&self) -> RowModel {
        RowModel {
            measured_at: self.measured_at,
            sensor_id: text_view(self.sensor_id),
            message_id: self.message_id,
            cumulative_kwh: self.cumulative_kwh,
            instant_watt: self.instant_watt,
            instant_ampere_r: self.instant_ampere_r,
            instant_ampere_t: self.instant_ampere_t,
        }
    }
}

/// Rows of observations under the fixed seven-column schema.
#[derive(Clone, Debug)]
pub struct Table {
    pub rows: Vec<Row>,
}

impl Table {
    pub open spec fn model(&self) -> Seq<RowModel> {
        self.rows@.map_values(|r: Row| r@)
    }

    /// The names of the table's columns, in their fixed order.
    pub fn column_names(&self) -> (r: Vec<String>)
        ensures
            r@.map_values(|s: String| s@) == schema_names(),
    {
        let mut v: Vec<String> = Vec::new();
        v.push("measured_at".to_owned());
        v.push("sensor_id".to_owned());
        v.push("message_id".to_owned());
        v.push("cumulative_kwh".to_owned());
        v.push("instant_watt".to_owned());
        v.push("instant_ampere_R".to_owned());
        v.push("instant_ampere_T".to_owned());
        assert(v@.map_values(|s: String| s@) =~= schema_names());
        v
    }
}

/// Why a batch of records could not become a table.
#[derive(Clone, Debug, PartialEq, Eq)]
pub enum TableBuildError {
    /// The named attribute holds a value that is neither string nor number.
    UnsupportedAttributeType(String),
    /// The text in the named numeric column is not a number of its type.
    NotANumber { column: String, text: String },
}

/// A table build error, with its text as characters.
pub enum BuildErrorModel {
    UnsupportedAttributeType(Seq<char>),
    NotANumber(Seq<char>, Seq<char>),
}

impl View for TableBuildError {
    type V = BuildErrorModel;

    open spec fn view(&self) -> BuildErrorModel {
        match self {
            TableBuildError::UnsupportedAttributeType(n) => BuildErrorModel::UnsupportedAttributeType(
                n@,
            ),
            TableBuildError::NotANumber { column, text } => BuildErrorModel::NotANumber(
                column@,
                text@,
            ),
        }
    }
}

/// What becomes of one record: a row, or nothing (with the timestamp text
/// that failed to parse, if there was one).
pub enum RecordFate {
    Kept(RowModel),
    Dropped(Option<Seq<char>>),
}

pub open spec fn u32_cell(column: Seq<char>, t: Option<Seq<char>>) -> Result<
    Option<u32>,
    BuildErrorModel,
> {
    match t {
        None => Ok(None),
        Some(s) => match u32_of_text(s) {
            Some(v) => Ok(Some(v)),
            None => Err(BuildErrorModel::NotANumber(column, s)),
        },
    }
}

pub open spec fn micros_cell(column: Seq<char>, t: Option<Seq<char>>) -> Result<
    Option<i64>,
    BuildErrorModel,
> {
    match t {
        None => Ok(None),
        Some(s) => match micros_of_text(s) {
            Some(v) => Ok(Some(v)),
            None => Err(BuildErrorModel::NotANumber(column, s)),
        },
    }
}

/// The seven attribute texts of a record, in schema order, or the first
/// attribute of an unsupported type.
pub open spec fn record_texts(f: Seq<(String, crate::record::Attr)>) -> Result<
    Seq<Option<Seq<char>>>,
    BuildErrorModel,
> {
    texts_from(f, 0)
}

pub open spec fn texts_from(f: Seq<(String, crate::record::Attr)>, i: int) -> Result<
    Seq<Option<Seq<char>>>,
    BuildErrorModel,
>
    decreases 7 - i,
{
    if i < 0 || i >= 7 {
        Ok(Seq::empty())
    } else {
        match attribute_text(f, schema_names()[i]) {
            Err(n) => Err(BuildErrorModel::UnsupportedAttributeType(n)),
            Ok(t) => match texts_from(f, i + 1) {
                Err(e) => Err(e),
                Ok(rest) => Ok(seq![t].add(rest)),
            },
        }
    }
}

/// What becomes of one record: attribute types are checked in schema order,
/// then numeric cells are cast in schema order; a record whose timestamp is
/// absent or not RFC 3339 is dropped.
pub open spec fn record_fate(f: Seq<(String, crate::record::Attr)>) -> Result<
    RecordFate,
    BuildErrorModel,
> {
    match record_texts(f) {
        Err(e) => Err(e),
        Ok(t) => match u32_cell(message_id_name(), t[2]) {
            Err(e) => Err(e),
            Ok(mid) => match micros_cell(cumulative_kwh_name(), t[3]) {
                Err(e) => Err(e),
                Ok(kwh) => match micros_cell(instant_watt_name(), t[4]) {
                    Err(e) => Err(e),
                    Ok(w) => match micros_cell(instant_ampere_r_name(), t[5]) {
                        Err(e) => Err(e),
                        Ok(ar) => match micros_cell(instant_ampere_t_name(), t[6]) {
                            Err(e) => Err(e),
                            Ok(at) => match t[0] {
                                None => Ok(RecordFate::Dropped(None)),
                                Some(ts) => match minute_of_reading(rfc3339_reading(ts)) {
                                    None => Ok(RecordFate::Dropped(Some(ts))),
                                    Some(stamp) => Ok(
                                        RecordFate::Kept(
                                            RowModel {
                                                measured_at: stamp,
                                                sensor_id: t[1],
                                                message_id: mid,
                                                cumulative_kwh: kwh,
                                                instant_watt: w,
                                                instant_ampere_r: ar,
                                                instant_ampere_t: at,
                                            },
                                        ),
                                    ),
                                },
                            },
                        },
                    },
                },
            },
        },
    }
}

/// Rows built from a batch of records, in the order of the records.
pub open spec fn build_model(recs: Seq<Record>) -> Result<
    (Seq<RowModel>, Seq<Seq<char>>),
    BuildErrorModel,
>
    decreases recs.len(),
{
    if recs.len() == 0 {
        Ok((Seq::empty(), Seq::empty()))
    } else {
        match build_model(recs.drop_last()) {
            Err(e) => Err(e),
            Ok((rows, bad)) => match record_fate(recs.last().fields@) {
                Err(e) => Err(e),
                Ok(RecordFate::Kept(r)) => Ok((rows.push(r), bad)),
                Ok(RecordFate::Dropped(None)) => Ok((rows, bad)),
                Ok(RecordFate::Dropped(Some(t))) => Ok((rows, bad.push(t))),
            },
        }
    }
}

proof fn lemma_build_error_stays(s: Seq<Record>, k: int)
    requires
        0 <= k <= s.len(),
        build_model(s.take(k)) is Err,
    ensures
        build_model(s) == build_model(s.take(k)),
    decreases s.len() - k,
{
    if k == s.len() {
        assert(s.take(k) =~= s);
    } else {
        assert(s.take(k + 1).drop_last() =~= s.take(k));
        lemma_build_error_stays(s, k + 1);
    }
}

/// A built table, with the timestamp texts that were discarded because they
/// did not parse (for a warning to the operator).
#[derive(Clone, Debug)]
pub struct Built {
    pub table: Table,
    pub discarded: Vec<String>,
}

fn text_of_attribute(rec: &Record, name: &String) -> (r: Result<Option<String>, TableBuildError>)
    ensures
        match attribute_text(rec.fields@, name@) {
            Ok(t) => r matches Ok(v) && text_view(v) == t,
            Err(n) => r matches Err(e) && e@ == BuildErrorModel::UnsupportedAttributeType(n),
        },
{
    match get_attribute_values_str(rec, name) {
        Ok(v) => Ok(v),
        Err(RecordError::UnsupportedAttributeType(n)) => Err(
            TableBuildError::UnsupportedAttributeType(n),
        ),
    }
}

fn cast_u32(column: &str, t: &Option<String>) -> (r: Result<Option<u32>, TableBuildError>)
    ensures
        match u32_cell(column@, text_view(*t)) {
            Ok(v) => r == Ok::<Option<u32>, TableBuildError>(v),
            Err(e) => r matches Err(x) && x@ == e,
        },
{
    match t {
        None => Ok(None),
        Some(s) => match parse_u32(s.as_str()) {
            Some(v) => Ok(Some(v)),
            None => Err(TableBuildError::NotANumber { column: column.to_owned(), text: s.clone() }),
        },
    }
}

fn cast_micros(column: &str, t: &Option<String>) -> (r: Result<Option<i64>, TableBuildError>)
    ensures
        match micros_cell(column@, text_view(*t)) {
            Ok(v) => r == Ok::<Option<i64>, TableBuildError>(v),
            Err(e) => r matches Err(x) && x@ == e,
        },
{
    match t {
        None => Ok(None),
        Some(s) => match parse_micros(s.as_str()) {
            Some(v) => Ok(Some(v)),
            None => Err(TableBuildError::NotANumber { column: column.to_owned(), text: s.clone() }),
        },
    }
}

/// What one record becomes: a row, or `Err` with the timestamp text that was
/// discarded (`None` where the record had none).
fn read_record(rec: &Record) -> (r: Result<Result<Row, Option<String>>, TableBuildError>)
    ensures
        match record_fate(rec.fields@) {
            Err(e) => r matches Err(x) && x@ == e,
            Ok(RecordFate::Kept(m)) => r matches Ok(Ok(row)) && row@ == m,
            Ok(RecordFate::Dropped(t)) => r matches Ok(Err(o)) && text_view(o) == t,
        },
{
    let ghost f = rec.fields@;
    proof {
        reveal_with_fuel(texts_from, 8);
    }
    let ta = text_of_attribute(rec, &"measured_at".to_owned());
    let ta = match ta { Ok(v) => v, Err(e) => { return Err(e); } };
    let tb = text_of_attribute(rec, &"sensor_id".to_owned());
    let tb = match tb { Ok(v) => v, Err(e) => { return Err(e); } };
    let tc = text_of_attribute(rec, &"message_id".to_owned());
    let tc = match tc { Ok(v) => v, Err(e) => { return Err(e); } };
    let td = text_of_attribute(rec, &"cumulative_kwh".to_owned());
    let td = match td { Ok(v) => v, Err(e) => { return Err(e); } };
    let te = text_of_attribute(rec, &"instant_watt".to_owned());
    let te = match te { Ok(v) => v, Err(e) => { return Err(e); } };
    let tf = text_of_attribute(rec, &"instant_ampere_R".to_owned());
    let tf = match tf { Ok(v) => v, Err(e) => { return Err(e); } };
    let tg = text_of_attribute(rec, &"instant_ampere_T".to_owned());
    let tg = match tg { Ok(v) => v, Err(e) => { return Err(e); } };
    assert(record_texts(f) == Ok::<Seq<Option<Seq<char>>>, BuildErrorModel>(
        seq![text_view(ta), text_view(tb), text_view(tc), text_view(td), text_view(te), text_view(tf), text_view(tg)],
    )) by {
        assert(seq![text_view(tg)].add(Seq::empty()) =~= seq![text_view(tg)]);
        assert(seq![text_view(tf)].add(seq![text_view(tg)]) =~= seq![text_view(tf), text_view(tg)]);
        assert(seq![text_view(te)].add(seq![text_view(tf), text_view(tg)]) =~= seq![text_view(te), text_view(tf), text_view(tg)]);
        assert(seq![text_view(td)].add(seq![text_view(te), text_view(tf), text_view(tg)]) =~= seq![text_view(td), text_view(te), text_view(tf), text_view(tg)]);
        assert(seq![text_view(tc)].add(seq![text_view(td), text_view(te), text_view(tf), text_view(tg)]) =~= seq![text_view(tc), text_view(td), text_view(te), text_view(tf), text_view(tg)]);
        assert(seq![text_view(tb)].add(seq![text_view(tc), text_view(td), text_view(te), text_view(tf), text_view(tg)]) =~= seq![text_view(tb), text_view(tc), text_view(td), text_view(te), text_view(tf), text_view(tg)]);
        assert(seq![text_view(ta)].add(seq![text_view(tb), text_view(tc), text_view(td), text_view(te), text_view(tf), text_view(tg)]) =~= seq![text_view(ta), text_view(tb), text_view(tc), text_view(td), text_view(te), text_view(tf), text_view(tg)]);
    }
    let mid = match cast_u32("message_id", &tc) { Ok(v) => v, Err(e) => { return Err(e); } };
    let kwh = match cast_micros("cumulative_kwh", &td) { Ok(v) => v, Err(e) => { return Err(e); } };
    let w = match cast_micros("instant_watt", &te) { Ok(v) => v, Err(e) => { return Err(e); } };
    let ar = match cast_micros("instant_ampere_R", &tf) { Ok(v) => v, Err(e) => { return Err(e); } };
    let at = match cast_micros("instant_ampere_T", &tg) { Ok(v) => v, Err(e) => { return Err(e); } };
    match ta {
        None => Ok(Err(None)),
        Some(ts) => match tokyo_minute_of(ts.as_str()) {
            None => Ok(Err(Some(ts))),
            Some(stamp) => Ok(
                Ok(
                    Row {
                        measured_at: stamp,
                        sensor_id: tb,
                        message_id: mid,
                        cumulative_kwh: kwh,
                        instant_watt: w,
                        instant_ampere_r: ar,
                        instant_ampere_t: at,
                    },
                ),
            ),
        },
    }
}

/// Builds a table from a batch of stored records: each record's attributes
/// are read in schema order and cast to their column's type, and its timestamp
/// is read as RFC 3339, shown in Tokyo time and cut to the minute. A record with
/// no timestamp, or one that does not parse, gives no row; the texts that did
/// not parse are handed back for a warning. An attribute of another type, or a
/// numeric cell that is not a number, fails the whole build.
pub fn time_sequential_dataframe(items: &Vec<Record>) -> (r: Result<Built, TableBuildError>)
    ensures
        match build_model(items@) {
            Ok((rows, bad)) => r matches Ok(b) && b.table.model() == rows
                && b.discarded@.map_values(|s: String| s@) == bad,
            Err(e) => r matches Err(x) && x@ == e,
        },
{
    let mut rows: Vec<Row> = Vec::new();
    let mut discarded: Vec<String> = Vec::new();
    let mut i: usize = 0;
    assert(items@.take(0) =~= Seq::<Record>::empty());
    assert(rows@.map_values(|r: Row| r@) =~= Seq::<RowModel>::empty());
    assert(discarded@.map_values(|s: String| s@) =~= Seq::<Seq<char>>::empty());
    while i < items.len()
        invariant
            i <= items@.len(),
            build_model(items@.take(i as int)) == Ok::<(Seq<RowModel>, Seq<Seq<char>>), BuildErrorModel>(
                (rows@.map_values(|r: Row| r@), discarded@.map_values(|s: String| s@)),
            ),
        decreases items@.len() - i,
    {
        proof {
            assert(items@.take(i + 1).drop_last() =~= items@.take(i as int));
        }
        match read_record(&items[i]) {
            Err(e) => {
                proof {
                    lemma_build_error_stays(items@, (i + 1) as int);
                }
                return Err(e);
            },
            Ok(Ok(row)) => {
                let ghost before = rows@;
                rows.push(row);
                assert(rows@.map_values(|r: Row| r@) =~= before.map_values(|r: Row| r@).push(row@));
            },
            Ok(Err(None)) => {},
            Ok(Err(Some(t))) => {
                let ghost before = discarded@;
                discarded.push(t);
                assert(discarded@.map_values(|s: String| s@) =~= before.map_values(|s: String| s@).push(
                    t@,
                ));
            },
        }
        i = i + 1;
    }
    assert(items@.take(items@.len() as int) =~= items@);
    Ok(Built { table: Table { rows }, discarded })
}

/// The number of records in a batch that have no timestamp attribute.
pub open spec fn absent_count(recs: Seq<Record>) -> int
    decreases recs.len(),
{
    if recs.len() == 0 {
        0
    } else {
        absent_count(recs.drop_last()) + if attribute_text(recs.last().fields@, measured_at_name())
            == Ok::<Option<Seq<char>>, Seq<char>>(None) {
            1int
        } else {
            0int
        }
    }
}

proof fn lemma_fate_dropped_none(f: Seq<(String, crate::record::Attr)>)
    requires
        record_fate(f) is Ok,
    ensures
        (record_fate(f) == Ok::<RecordFate, BuildErrorModel>(RecordFate::Dropped(None))) == (
        attribute_text(f, measured_at_name()) == Ok::<Option<Seq<char>>, Seq<char>>(None)),
{
    reveal_with_fuel(texts_from, 2);
    let t = record_texts(f)->Ok_0;
    assert(attribute_text(f, measured_at_name()) == Ok::<Option<Seq<char>>, Seq<char>>(t[0]));
}

/// A built table has one row for each record of the batch but those with no
/// timestamp and those whose timestamp did not parse (which are reported);
/// its columns are always the fixed schema (see `Table::column_names`).
pub proof fn lemma_row_count(recs: Seq<Record>)
    ensures
        build_model(recs) matches Ok((rows, bad)) ==> rows.len() == recs.len() - absent_count(recs)
            - bad.len(),
    decreases recs.len(),
{
    if recs.len() > 0 {
        lemma_row_count(recs.drop_last());
        if build_model(recs) is Ok {
            lemma_fate_dropped_none(recs.last().fields@);
        }
    }
}

/// Rows in order of their moment of measurement.
pub open spec fn sorted_by_time(rows: Seq<Row>) -> bool {
    forall|a: int, b: int|
        0 <= a < b < rows.len() ==> (#[trigger] rows[a]).measured_at.utc_secs
            <= (#[trigger] rows[b]).measured_at.utc_secs
}

/// Position at which a row measured at `utc` goes into sorted rows: after
/// every row measured at or before it.
fn insertion_point(rows: &Vec<Row>, utc: i64) -> (r: usize)
    requires
        sorted_by_time(rows@),
    ensures
        r <= rows@.len(),
        forall|a: int| 0 <= a < r ==> (#[trigger] rows@[a]).measured_at.utc_secs <= utc,
        forall|a: int| r <= a < rows@.len() ==> (#[trigger] rows@[a]).measured_at.utc_secs > utc,
{
    let mut j: usize = 0;
    while j < rows.len() && rows[j].measured_at.utc_secs <= utc
        invariant
            j <= rows@.len(),
            sorted_by_time(rows@),
            forall|a: int| 0 <= a < j ==> (#[trigger] rows@[a]).measured_at.utc_secs <= utc,
        decreases rows@.len() - j,
    {
        j = j + 1;
    }
    if j < rows.len() {
        assert forall|a: int| j <= a < rows@.len() implies (#[trigger] rows@[a]).measured_at.utc_secs > utc by {
            if a > j {
                assert(rows@[j as int].measured_at.utc_secs <= rows@[a].measured_at.utc_secs);
            }
        }
    }
    j
}

/// The table with its rows in order of their moment of measurement.
pub fn sort_by_time(table: Table) -> (r: Table)
    ensures
        sorted_by_time(r.rows@),
        r.rows@.to_multiset() == table.rows@.to_multiset(),
{
    broadcast use vstd::seq_lib::group_to_multiset_ensures, vstd::multiset::group_multiset_axioms;

    let mut rest = table.rows;
    let mut out: Vec<Row> = Vec::new();
    while rest.len() > 0
        invariant
            sorted_by_time(out@),
            out@.to_multiset().add(rest@.to_multiset()) == table.rows@.to_multiset(),
        decreases rest@.len(),
    {
        let ghost rest_before = rest@;
        let row = rest.remove(0);
        proof {
            vstd::seq_lib::to_multiset_remove(rest_before, 0);
            vstd::seq_lib::to_multiset_contains(rest_before, row);
            assert(rest_before.contains(row)) by {
                assert(rest_before[0] == row);
            }
        }
        let j = insertion_point(&out, row.measured_at.utc_secs);
        let ghost before = out@;
        out.insert(j, row);
        proof {
            vstd::seq_lib::to_multiset_insert(before, j as int, row);
            assert(out@.to_multiset().add(rest@.to_multiset()) =~= table.rows@.to_multiset());
            assert forall|a: int, b: int| 0 <= a < b < out@.len() implies (#[trigger] out@[a]).measured_at.utc_secs
                <= (#[trigger] out@[b]).measured_at.utc_secs by {
                if a < j && b == j {
                } else if a < j && b > j {
                    assert(out@[b] == before[b - 1]);
                } else if a == j {
                    assert(out@[b] == before[b - 1]);
                } else if a > j {
                    assert(out@[a] == before[a - 1]);
                    assert(out@[b] == before[b - 1]);
                }
            }
        }
    }
    assert(rest@.to_multiset() =~= vstd::multiset::Multiset::<Row>::empty());
    assert(out@.to_multiset().add(vstd::multiset::Multiset::<Row>::empty()) =~= out@.to_multiset());
    Table { rows: out }
}

} // verus!
