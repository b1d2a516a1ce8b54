//! The columnar file writer: gives every batch a place of its own in the
//! partition layout and builds the whole file in memory, ready for one
//! atomic upload.

use vstd::prelude::*;
use vstd::string::StringExecFns;
use crate::clock::today_utc;
use crate::columnar::ColumnarBatch;
use crate::error::PipelineError;
use crate::sink::encoding::{
    columns_with_schema, encode_parquet, fits_arrow, parquet_of, parquet_refuses, to_record_batch,
};

verus! {

/// The character of a decimal digit.
pub open spec fn digit_char(d: nat) -> char
    recommends
        d < 10,
{
    if d == 0 {
        '0'
    } else if d == 1 {
        '1'
    } else if d == 2 {
        '2'
    } else if d == 3 {
        '3'
    } else if d == 4 {
        '4'
    } else if d == 5 {
        '5'
    } else if d == 6 {
        '6'
    } else if d == 7 {
        '7'
    } else if d == 8 {
        '8'
    } else {
        '9'
    }
}

/// A number in decimal, without leading zeros.
pub open spec fn decimal(n: nat) -> Seq<char>
    decreases n,
{
    if n < 10 {
        seq![digit_char(n)]
    } else {
        decimal(n / 10).push(digit_char(n % 10))
    }
}

/// The label of a part: its sequence number in decimal, filled with zeros on
/// the left to three digits.
pub open spec fn part_label(part: nat) -> Seq<char> {
    if part < 10 {
        seq!['0', '0'] + decimal(part)
    } else if part < 100 {
        seq!['0'] + decimal(part)
    } else {
        decimal(part)
    }
}

/// The width that is left for the digits before the last.
pub open spec fn one_less(width: nat) -> nat {
    if width > 0 {
        (width - 1) as nat
    } else {
        0
    }
}

/// A number in decimal, filled with zeros on the left to at least `width`
/// digits.
pub open spec fn padded(n: nat, width: nat) -> Seq<char>
    decreases n, width,
{
    if n >= 10 {
        padded(n / 10, one_less(width)).push(digit_char(n % 10))
    } else if width <= 1 {
        seq![digit_char(n)]
    } else {
        padded(0, one_less(width)).push(digit_char(n))
    }
}

/// The year of a date as it is written: four digits for the years 0 to 9999,
/// and a sign before at least four digits for all others.
pub open spec fn year_text(year: int) -> Seq<char> {
    if 0 <= year <= 9999 {
        padded(year as nat, 4)
    } else if year < 0 {
        seq!['-'] + padded((-year) as nat, 4)
    } else {
        seq!['+'] + padded(year as nat, 4)
    }
}

/// A date as it is written: year, month and day, the last two with two
/// digits, with hyphens between them.
pub open spec fn date_text(year: int, month: nat, day: nat) -> Seq<char> {
    year_text(year) + seq!['-'] + padded(month, 2) + seq!['-'] + padded(day, 2)
}

/// The text is a date as it is written, of a month from 1 to 12 and a day
/// from 1 to 31.
pub open spec fn is_date_text(text: Seq<char>) -> bool {
    exists|year: int, month: nat, day: nat|
        1 <= month <= 12 && 1 <= day <= 31 && text == #[trigger] date_text(year, month, day)
}

/// What stands before the ingestion date in every path of one table.
pub open spec fn layout_head(prefix: Seq<char>, namespace: Seq<char>, table: Seq<char>) -> Seq<
    char,
> {
    prefix + "/"@ + namespace + "/"@ + table + "/data/ingest_date="@
}

/// What stands behind the run identifier in the path of a part.
pub open spec fn layout_tail(part: Seq<char>) -> Seq<char> {
    "/part-"@ + part + ".parquet"@
}

/// The partition layout: prefix, namespace, table and `data`, then the
/// ingestion date, the run identifier and the part, each in a directory level
/// of its own.
pub open spec fn partition_layout(
    prefix: Seq<char>,
    namespace: Seq<char>,
    table: Seq<char>,
    date: Seq<char>,
    run_id: Seq<char>,
    part: Seq<char>,
) -> Seq<char> {
    layout_head(prefix, namespace, table) + date + "/run_id="@ + run_id + layout_tail(part)
}

/// A lower-case hexadecimal digit.
pub open spec fn is_hex_digit(c: char) -> bool {
    ('0' <= c && c <= '9') || ('a' <= c && c <= 'f')
}

/// The shape of a run identifier: 36 characters, hyphens at the four places
/// where a UUID has them, lower-case hexadecimal digits elsewhere.
pub open spec fn is_run_id(id: Seq<char>) -> bool {
    &&& id.len() == 36
    &&& forall|i: int|
        0 <= i < 36 ==> if i == 8 || i == 13 || i == 18 || i == 23 {
            #[trigger] id[i] == '-'
        } else {
            is_hex_digit(id[i])
        }
}

/// The path under which object_store addresses what the given text names:
/// the text cut at its slashes, empty pieces dropped, each piece escaped where
/// it holds characters that a path may not hold, and the pieces joined again.
pub uninterp spec fn object_path_text(raw: Seq<char>) -> Seq<char>;

/// A character that object_store leaves as it is inside a piece of a path: a
/// printable ASCII character other than the slash and other than those that
/// it escapes.
pub open spec fn is_plain_char(c: char) -> bool {
    &&& ' ' <= c && c <= '}'
    &&& c != '/' && c != '\\' && c != '{' && c != '^' && c != '}' && c != '%' && c != '`'
    &&& c != ']' && c != '"' && c != '>' && c != '[' && c != '<' && c != '#' && c != '|'
    &&& c != '*' && c != '?'
}

/// Every character is one that object_store leaves as it is.
pub open spec fn all_plain(text: Seq<char>) -> bool {
    forall|i: int| 0 <= i < text.len() ==> is_plain_char(#[trigger] text[i])
}

/// A piece of a path that object_store leaves as it is: not empty, not
/// beginning with a dot, and of plain characters only.
pub open spec fn is_plain_piece(piece: Seq<char>) -> bool {
    piece.len() > 0 && piece[0] != '.' && all_plain(piece)
}

/// A path that object_store leaves as it is: pieces that it leaves as they
/// are, with one slash between each two, and no slash before the first or
/// behind the last.
pub open spec fn is_plain_path(raw: Seq<char>) -> bool {
    &&& raw.len() > 0
    &&& raw[0] != '/' && raw[0] != '.'
    &&& raw.last() != '/'
    &&& forall|i: int| 0 <= i < raw.len() ==> (#[trigger] raw[i]) == '/' || is_plain_char(raw[i])
    &&& forall|i: int|
        0 < i < raw.len() && (#[trigger] raw[i - 1]) == '/' ==> raw[i] != '/' && raw[i] != '.'
}

/// `Uuid::new_v4()` of uuid, printed: a fresh random identifier in the
/// hyphenated lower-case form. The shape is all that is claimed. uuid gives
/// up where the system has no randomness to offer.
#[verifier::external_body]
fn fresh_run_id() -> (id: String)
    ensures
        is_run_id(id@),
{
    uuid::Uuid::new_v4().to_string()
}

/// `Path::from` of object_store on a string, printed again. The result
/// depends on the text alone, so it has a name. One thing more is claimed of
/// it: a text that has no empty piece, no piece that begins with a dot, and
/// no character that object_store escapes comes back as it is.
#[verifier::external_body]
pub(crate) fn store_path(raw: &str) -> (path: String)
    ensures
        path@ == object_path_text(raw@),
        is_plain_path(raw@) ==> path@ == raw@,
{
    object_store::path::Path::from(raw).to_string()
}

fn digit_text(d: u32) -> (text: &'static str)
    requires
        d < 10,
    ensures
        text@ == seq![digit_char(d as nat)],
{
    proof {
        reveal_strlit("0");
        reveal_strlit("1");
        reveal_strlit("2");
        reveal_strlit("3");
        reveal_strlit("4");
        reveal_strlit("5");
        reveal_strlit("6");
        reveal_strlit("7");
        reveal_strlit("8");
        reveal_strlit("9");
    }
    if d == 0 {
        "0"
    } else if d == 1 {
        "1"
    } else if d == 2 {
        "2"
    } else if d == 3 {
        "3"
    } else if d == 4 {
        "4"
    } else if d == 5 {
        "5"
    } else if d == 6 {
        "6"
    } else if d == 7 {
        "7"
    } else if d == 8 {
        "8"
    } else {
        "9"
    }
}

fn append_decimal(text: &mut String, n: u32)
    ensures
        final(text)@ == old(text)@ + decimal(n as nat),
    decreases n,
{
    if n >= 10 {
        append_decimal(text, n / 10);
    }
    text.append(digit_text(n % 10));
}

fn append_padded(text: &mut String, n: u32, width: u32)
    ensures
        final(text)@ == old(text)@ + padded(n as nat, width as nat),
    decreases n, width,
{
    if n >= 10 {
        append_padded(
            text,
            n / 10,
            if width > 0 {
                width - 1
            } else {
                0
            },
        );
    } else if width > 1 {
        append_padded(text, 0, width - 1);
    }
    let ghost before = text@;
    text.append(digit_text(n % 10));
    assert(before + seq![digit_char((n % 10) as nat)] =~= before.push(digit_char((n % 10) as nat)));
    assert(text@ =~= old(text)@ + padded(n as nat, width as nat));
}

/// A date as it is written: `2024-05-01` for the first of May 2024.
pub fn date_text_of(year: i32, month: u32, day: u32) -> (text: String)
    ensures
        text@ == date_text(year as int, month as nat, day as nat),
{
    proof {
        reveal_strlit("");
        reveal_strlit("-");
        reveal_strlit("+");
    }
    let mut text = "".to_owned();
    if year < 0 {
        text.append("-");
        let positive: u32 = if year == i32::MIN {
            2147483648
        } else {
            (-year) as u32
        };
        append_padded(&mut text, positive, 4);
    } else {
        if year > 9999 {
            text.append("+");
        }
        append_padded(&mut text, year as u32, 4);
    }
    text.append("-");
    append_padded(&mut text, month, 2);
    text.append("-");
    append_padded(&mut text, day, 2);
    assert(text@ =~= date_text(year as int, month as nat, day as nat));
    text
}

/// The label of a part.
pub fn part_label_text(part: u32) -> (label: String)
    ensures
        label@ == part_label(part as nat),
{
    proof {
        reveal_strlit("00");
        reveal_strlit("0");
        reveal_strlit("");
    }
    let mut label = if part < 10 {
        "00".to_owned()
    } else if part < 100 {
        "0".to_owned()
    } else {
        "".to_owned()
    };
    append_decimal(&mut label, part);
    label
}

/// The place of a part in the partition layout, as a path relative to the
/// bucket.
pub fn partition_path(
    prefix: &str,
    namespace: &str,
    table: &str,
    date: &str,
    run_id: &str,
    part: u32,
) -> (path: String)
    ensures
        path@ == partition_layout(
            prefix@,
            namespace@,
            table@,
            date@,
            run_id@,
            part_label(part as nat),
        ),
{
    let label = part_label_text(part);
    let mut path = prefix.to_owned();
    path.append("/");
    path.append(namespace);
    path.append("/");
    path.append(table);
    path.append("/data/ingest_date=");
    path.append(date);
    path.append("/run_id=");
    path.append(run_id);
    path.append("/part-");
    path.append(label.as_str());
    path.append(".parquet");
    path
}

/// Two parts of one table whose run identifiers have the same length and
/// differ lie at different places of the layout, whatever their ingestion
/// dates. Run identifiers of the UUID shape all have the same length.
pub proof fn distinct_run_ids_distinct_layouts(
    prefix: Seq<char>,
    namespace: Seq<char>,
    table: Seq<char>,
    date_a: Seq<char>,
    date_b: Seq<char>,
    run_a: Seq<char>,
    run_b: Seq<char>,
    part: Seq<char>,
)
    requires
        run_a.len() == run_b.len(),
        run_a != run_b,
    ensures
        partition_layout(prefix, namespace, table, date_a, run_a, part) != partition_layout(
            prefix,
            namespace,
            table,
            date_b,
            run_b,
            part,
        ),
{
    let head = layout_head(prefix, namespace, table);
    let mid = "/run_id="@;
    let tail = layout_tail(part);
    let a = partition_layout(prefix, namespace, table, date_a, run_a, part);
    let b = partition_layout(prefix, namespace, table, date_b, run_b, part);
    if a == b {
        assert(a.len() == head.len() + date_a.len() + mid.len() + run_a.len() + tail.len());
        assert(b.len() == head.len() + date_b.len() + mid.len() + run_b.len() + tail.len());
        let offset = head.len() + date_a.len() + mid.len();
        assert forall|i: int| 0 <= i < run_a.len() implies run_a[i] == run_b[i] by {
            assert(a[offset + i] == run_a[i]);
            assert(b[offset + i] == run_b[i]);
        }
        assert(run_a =~= run_b);
    }
}

/// A digit is a plain character.
proof fn digits_are_plain(n: nat, width: nat)
    ensures
        padded(n, width).len() > 0,
        all_plain(padded(n, width)),
        padded(n, width)[0] != '.',
        decimal(n).len() > 0,
        all_plain(decimal(n)),
        decimal(n)[0] != '.',
    decreases n, width,
{
    if n >= 10 {
        digits_are_plain(n / 10, one_less(width));
    } else if width > 1 {
        digits_are_plain(0, one_less(width));
    }
}

/// A plain piece behind a plain path and a slash makes a plain path.
proof fn piece_extends_path(path: Seq<char>, piece: Seq<char>)
    requires
        is_plain_path(path),
        is_plain_piece(piece),
    ensures
        is_plain_path(path + seq!['/'] + piece),
{
    let joined = path + seq!['/'] + piece;
    assert forall|i: int| 0 <= i < joined.len() implies (#[trigger] joined[i]) == '/'
        || is_plain_char(joined[i]) by {
        if i < path.len() {
            assert(joined[i] == path[i]);
        } else if i > path.len() {
            assert(joined[i] == piece[i - path.len() - 1]);
        }
    }
    assert forall|i: int| 0 < i < joined.len() && (#[trigger] joined[i - 1]) == '/' implies joined[i]
        != '/' && joined[i] != '.' by {
        if i < path.len() {
            assert(joined[i] == path[i]);
            assert(joined[i - 1] == path[i - 1]);
        } else if i == path.len() {
            assert(joined[i - 1] == path.last());
        } else if i == path.len() + 1 {
            assert(joined[i] == piece[0]);
        } else {
            assert(joined[i - 1] == piece[i - path.len() - 2]);
        }
    }
    assert(joined[0] == path[0]);
    assert(joined.last() == piece.last());
}

/// Plain characters behind a plain piece make a plain piece.
proof fn piece_grows(piece: Seq<char>, more: Seq<char>)
    requires
        is_plain_piece(piece),
        all_plain(more),
    ensures
        is_plain_piece(piece + more),
{
    let joined = piece + more;
    assert forall|i: int| 0 <= i < joined.len() implies is_plain_char(#[trigger] joined[i]) by {
        if i < piece.len() {
            assert(joined[i] == piece[i]);
        } else {
            assert(joined[i] == more[i - piece.len()]);
        }
    }
    assert(joined[0] == piece[0]);
}

/// A date as it is written is of plain characters.
proof fn dates_are_plain(text: Seq<char>)
    requires
        is_date_text(text),
    ensures
        all_plain(text),
{
    let (year, month, day) = choose|year: int, month: nat, day: nat|
        1 <= month <= 12 && 1 <= day <= 31 && text == #[trigger] date_text(year, month, day);
    let y = year_text(year);
    if 0 <= year <= 9999 {
        digits_are_plain(year as nat, 4);
    } else if year < 0 {
        digits_are_plain((-year) as nat, 4);
        piece_grows(seq!['-'], padded((-year) as nat, 4));
    } else {
        digits_are_plain(year as nat, 4);
        piece_grows(seq!['+'], padded(year as nat, 4));
    }
    assert(all_plain(y) && y.len() > 0);
    digits_are_plain(month, 2);
    digits_are_plain(day, 2);
    let m = padded(month, 2);
    let d = padded(day, 2);
    assert forall|i: int| 0 <= i < text.len() implies is_plain_char(#[trigger] text[i]) by {
        if i < y.len() {
            assert(text[i] == y[i]);
        } else if i == y.len() {
            assert(text[i] == '-');
        } else if i < y.len() + 1 + m.len() {
            assert(text[i] == m[i - y.len() - 1]);
        } else if i == y.len() + 1 + m.len() {
            assert(text[i] == '-');
        } else {
            assert(text[i] == d[i - y.len() - m.len() - 2]);
        }
    }
}

/// A run identifier is of plain characters.
proof fn run_ids_are_plain(id: Seq<char>)
    requires
        is_run_id(id),
    ensures
        all_plain(id),
{
    assert forall|i: int| 0 <= i < id.len() implies is_plain_char(#[trigger] id[i]) by {
        if i == 8 || i == 13 || i == 18 || i == 23 {
        } else {
            assert(is_hex_digit(id[i]));
        }
    }
}

/// The label of a part is of plain characters.
proof fn part_labels_are_plain(part: nat)
    ensures
        all_plain(part_label(part)),
{
    digits_are_plain(part, 0);
    let label = part_label(part);
    let digits = decimal(part);
    assert forall|i: int| 0 <= i < label.len() implies is_plain_char(#[trigger] label[i]) by {
        if part < 10 {
            if i >= 2 {
                assert(label[i] == digits[i - 2]);
            }
        } else if part < 100 {
            if i >= 1 {
                assert(label[i] == digits[i - 1]);
            }
        }
    }
}

/// The partition layout, piece by piece.
pub open spec fn layout_by_pieces(
    prefix: Seq<char>,
    namespace: Seq<char>,
    table: Seq<char>,
    date: Seq<char>,
    run_id: Seq<char>,
    part: Seq<char>,
) -> Seq<char> {
    prefix + seq!['/'] + namespace + seq!['/'] + table + seq!['/'] + "data"@ + seq!['/'] + (
    "ingest_date="@ + date) + seq!['/'] + ("run_id="@ + run_id) + seq!['/'] + ("part-"@ + part
        + ".parquet"@)
}

proof fn layout_is_its_pieces(
    prefix: Seq<char>,
    namespace: Seq<char>,
    table: Seq<char>,
    date: Seq<char>,
    run_id: Seq<char>,
    part: Seq<char>,
)
    ensures
        partition_layout(prefix, namespace, table, date, run_id, part) == layout_by_pieces(
            prefix,
            namespace,
            table,
            date,
            run_id,
            part,
        ),
{
    reveal_strlit("/");
    reveal_strlit("/data/ingest_date=");
    reveal_strlit("/run_id=");
    reveal_strlit("/part-");
    reveal_strlit("data");
    reveal_strlit("ingest_date=");
    reveal_strlit("run_id=");
    reveal_strlit("part-");
    assert("/"@ =~= seq!['/']);
    assert("/data/ingest_date="@ =~= seq!['/'] + "data"@ + seq!['/'] + "ingest_date="@);
    assert("/run_id="@ =~= seq!['/'] + "run_id="@);
    assert("/part-"@ =~= seq!['/'] + "part-"@);
    assert(partition_layout(prefix, namespace, table, date, run_id, part) =~= layout_by_pieces(
        prefix,
        namespace,
        table,
        date,
        run_id,
        part,
    ));
}

proof fn literal_pieces_are_plain()
    ensures
        is_plain_piece("data"@),
        is_plain_piece("ingest_date="@),
        is_plain_piece("run_id="@),
        is_plain_piece("part-"@),
        all_plain(".parquet"@),
{
    reveal_strlit("data");
    reveal_strlit("ingest_date=");
    reveal_strlit("run_id=");
    reveal_strlit("part-");
    reveal_strlit(".parquet");
    assert forall|i: int| 0 <= i < "data"@.len() implies is_plain_char(#[trigger] "data"@[i]) by {
        assert(i == 0 || i == 1 || i == 2 || i == 3);
    }
    assert forall|i: int| 0 <= i < "ingest_date="@.len() implies is_plain_char(
        #[trigger] "ingest_date="@[i],
    ) by {
        assert(i == 0 || i == 1 || i == 2 || i == 3 || i == 4 || i == 5 || i == 6 || i == 7 || i
            == 8 || i == 9 || i == 10 || i == 11);
    }
    assert forall|i: int| 0 <= i < "run_id="@.len() implies is_plain_char(
        #[trigger] "run_id="@[i],
    ) by {
        assert(i == 0 || i == 1 || i == 2 || i == 3 || i == 4 || i == 5 || i == 6);
    }
    assert forall|i: int| 0 <= i < "part-"@.len() implies is_plain_char(#[trigger] "part-"@[i]) by {
        assert(i == 0 || i == 1 || i == 2 || i == 3 || i == 4);
    }
    assert forall|i: int| 0 <= i < ".parquet"@.len() implies is_plain_char(
        #[trigger] ".parquet"@[i],
    ) by {
        assert(i == 0 || i == 1 || i == 2 || i == 3 || i == 4 || i == 5 || i == 6 || i == 7);
    }
}

/// Under a prefix, a namespace and a table that object_store leaves as they
/// are, it leaves the whole layout of a part as it is: the storage path is
/// the layout itself.
pub proof fn plain_layout_is_kept(
    prefix: Seq<char>,
    namespace: Seq<char>,
    table: Seq<char>,
    date: Seq<char>,
    run_id: Seq<char>,
    part: nat,
)
    requires
        is_plain_path(prefix),
        is_plain_piece(namespace),
        is_plain_piece(table),
        is_date_text(date),
        is_run_id(run_id),
    ensures
        is_plain_path(partition_layout(prefix, namespace, table, date, run_id, part_label(part))),
{
    let label = part_label(part);
    layout_is_its_pieces(prefix, namespace, table, date, run_id, label);
    literal_pieces_are_plain();
    dates_are_plain(date);
    run_ids_are_plain(run_id);
    part_labels_are_plain(part);
    let a = prefix + seq!['/'] + namespace;
    piece_extends_path(prefix, namespace);
    let b = a + seq!['/'] + table;
    piece_extends_path(a, table);
    let c = b + seq!['/'] + "data"@;
    piece_extends_path(b, "data"@);
    piece_grows("ingest_date="@, date);
    let d = c + seq!['/'] + ("ingest_date="@ + date);
    piece_extends_path(c, "ingest_date="@ + date);
    piece_grows("run_id="@, run_id);
    let e = d + seq!['/'] + ("run_id="@ + run_id);
    piece_extends_path(d, "run_id="@ + run_id);
    piece_grows("part-"@, label);
    piece_grows("part-"@ + label, ".parquet"@);
    piece_extends_path(e, "part-"@ + label + ".parquet"@);
}

/// A prefix, a namespace and a table that object_store leaves as they are.
pub open spec fn is_plain_route(prefix: Seq<char>, namespace: Seq<char>, table: Seq<char>) -> bool {
    is_plain_path(prefix) && is_plain_piece(namespace) && is_plain_piece(table)
}

/// A file as the writer hands it to the uploader: complete, and never changed
/// afterwards.
#[derive(Debug)]
pub struct ColumnarFile {
    /// The storage path, relative to the bucket.
    pub path: String,
    /// The contents.
    pub bytes: Vec<u8>,
    /// The number of rows.
    pub row_count: usize,
    /// The partition key: the ingestion date, ...
    pub ingest_date: String,
    /// ... the run identifier, ...
    pub run_id: String,
    /// ... and the sequence number of the part.
    pub part: u32,
}

impl ColumnarFile {
    /// The length of the file in bytes.
    pub fn byte_len(&self) -> (n: usize)
        ensures
            n == self.bytes@.len(),
    {
        self.bytes.len()
    }
}

/// The file's storage path is its place in the layout of a table, letter for
/// letter.
pub open spec fn at_layout(
    file: &ColumnarFile,
    prefix: Seq<char>,
    namespace: Seq<char>,
    table: Seq<char>,
) -> bool {
    file.path@ == partition_layout(
        prefix,
        namespace,
        table,
        file.ingest_date@,
        file.run_id@,
        part_label(file.part as nat),
    )
}

/// Two files of one table that lie at their places in the layout, as equal
/// parts of runs with different identifiers of the UUID shape, have different
/// storage paths, whatever their ingestion dates.
pub proof fn distinct_run_ids_distinct_paths(
    a: &ColumnarFile,
    b: &ColumnarFile,
    prefix: Seq<char>,
    namespace: Seq<char>,
    table: Seq<char>,
)
    requires
        at_layout(a, prefix, namespace, table),
        at_layout(b, prefix, namespace, table),
        a.part == b.part,
        is_run_id(a.run_id@),
        is_run_id(b.run_id@),
        a.run_id@ != b.run_id@,
    ensures
        a.path@ != b.path@,
{
    distinct_run_ids_distinct_layouts(
        prefix,
        namespace,
        table,
        a.ingest_date@,
        b.ingest_date@,
        a.run_id@,
        b.run_id@,
        part_label(a.part as nat),
    );
}

/// The columnar file writer of one bucket and prefix.
#[derive(Debug)]
pub struct ParquetSink {
    pub bucket: String,
    pub prefix: String,
}

/// The storage path of a part: its place in the layout, as object_store
/// addresses it.
pub open spec fn storage_path(
    prefix: Seq<char>,
    namespace: Seq<char>,
    table: Seq<char>,
    date: Seq<char>,
    run_id: Seq<char>,
    part: nat,
) -> Seq<char> {
    object_path_text(partition_layout(prefix, namespace, table, date, run_id, part_label(part)))
}

/// The address of an object for readers that want the storage scheme and the
/// bucket in it.
pub open spec fn object_url_text(bucket: Seq<char>, path: Seq<char>) -> Seq<char> {
    "gs://"@ + bucket + "/"@ + path
}

impl ParquetSink {
    /// A writer for the given bucket and prefix.
    pub fn new(bucket: &str, prefix: &str) -> (sink: ParquetSink)
        ensures
            sink.bucket@ == bucket@,
            sink.prefix@ == prefix@,
    {
        ParquetSink { bucket: bucket.to_owned(), prefix: prefix.to_owned() }
    }

    /// The file that holds the given contents as one part of a run, at its
    /// place in the layout.
    pub fn file_at(
        &self,
        namespace: &str,
        table: &str,
        date: String,
        run_id: String,
        part: u32,
        bytes: Vec<u8>,
        row_count: usize,
    ) -> (file: ColumnarFile)
        ensures
            file.path@ == storage_path(
                self.prefix@,
                namespace@,
                table@,
                date@,
                run_id@,
                part as nat,
            ),
            file.bytes@ == bytes@,
            file.row_count == row_count,
            file.ingest_date@ == date@,
            file.run_id@ == run_id@,
            file.part == part,
            is_plain_path(
                partition_layout(
                    self.prefix@,
                    namespace@,
                    table@,
                    date@,
                    run_id@,
                    part_label(part as nat),
                ),
            ) ==> at_layout(&file, self.prefix@, namespace@, table@),
    {
        let layout = partition_path(
            self.prefix.as_str(),
            namespace,
            table,
            date.as_str(),
            run_id.as_str(),
            part,
        );
        let path = store_path(layout.as_str());
        ColumnarFile { path, bytes, row_count, ingest_date: date, run_id, part }
    }

    /// Serializes a batch into a Parquet file under a fresh run identifier
    /// and today's date in UTC as its ingestion date. The file is built
    /// whole; uploading it is the caller's single put. Under a prefix, a
    /// namespace and a table that object_store leaves as they are, the file's
    /// path is its place in the layout, letter for letter.
    ///
    /// The file comes back unless the batch does not fit Arrow, being
    /// ill-formed, without a column or with a text column too large, or the
    /// Parquet writer refuses the record batch made of it. Either is a
    /// serialization error.
    pub fn write(&self, namespace: &str, table: &str, batch: &ColumnarBatch) -> (out: Result<
        ColumnarFile,
        PipelineError,
    >)
        ensures
            out matches Ok(file) ==> {
                &&& fits_arrow(batch)
                &&& is_date_text(file.ingest_date@)
                &&& is_run_id(file.run_id@)
                &&& file.part == 0
                &&& file.path@ == storage_path(
                    self.prefix@,
                    namespace@,
                    table@,
                    file.ingest_date@,
                    file.run_id@,
                    0,
                )
                &&& is_plain_route(self.prefix@, namespace@, table@) ==> at_layout(
                    &file,
                    self.prefix@,
                    namespace@,
                    table@,
                )
                &&& file.row_count == batch.rows()
                &&& parquet_of(columns_with_schema(batch), file.bytes@)
            },
            out matches Err(e) ==> e == PipelineError::Serialization,
            out is Err ==> !fits_arrow(batch) || parquet_refuses(columns_with_schema(batch)),
            !fits_arrow(batch) ==> out is Err,
    {
        let made = match to_record_batch(batch) {
            Ok(made) => made,
            Err(e) => {
                return Err(e);
            },
        };
        let bytes = match encode_parquet(&made) {
            Ok(bytes) => bytes,
            Err(e) => {
                return Err(e);
            },
        };
        let run_id = fresh_run_id();
        let (year, month, day) = today_utc();
        let date = date_text_of(year, month, day);
        proof {
            if is_plain_route(self.prefix@, namespace@, table@) {
                plain_layout_is_kept(self.prefix@, namespace@, table@, date@, run_id@, 0);
            }
        }
        Ok(self.file_at(namespace, table, date, run_id, 0, bytes, batch.num_rows()))
    }

    /// The address of an object of this writer's bucket for readers that want
    /// the storage scheme and the bucket in it.
    pub fn object_url(&self, path: &str) -> (url: String)
        ensures
            url@ == object_url_text(self.bucket@, path@),
    {
        let mut url = "gs://".to_owned();
        url.append(self.bucket.as_str());
        url.append("/");
        url.append(path);
        url
    }
}

} // verus!
