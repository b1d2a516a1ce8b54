//! Process configuration: the values a pipeline is started with, their
//! defaults, and how the textual settings are read.

use vstd::prelude::*;
use vstd::string::StrSliceExecFns;

verus! {

/// The configuration of one ingestion process.
#[derive(Debug)]
pub struct Config {
    /// The cloud project that holds the source database.
    pub gcp_project: String,
    /// The storage bucket that receives the files.
    pub gcs_bucket: String,
    /// The path prefix inside the bucket.
    pub gcs_prefix: String,
    /// The endpoint of the table catalog.
    pub catalog_uri: String,
    /// The namespace of the destination tables.
    pub table_ns: String,
    /// The name of the orders table.
    pub table_orders: String,
    /// The size trigger: a batch is flushed when it holds this many rows.
    pub batch_max_rows: usize,
    /// The time trigger: a batch is flushed when this many seconds have
    /// passed since the last flush.
    pub batch_max_seconds: u64,
}

/// A required setting that was not given.
#[derive(Clone, Copy, Debug, PartialEq, Eq, Structural)]
pub enum MissingSetting {
    GcpProject,
    GcsBucket,
    CatalogUri,
}

/// The rows per batch where none are configured.
pub const DEFAULT_BATCH_MAX_ROWS: usize = 25000;

/// The seconds per batch where none are configured.
pub const DEFAULT_BATCH_MAX_SECONDS: u64 = 30;

/// The value of a decimal digit, or 10 for any other character.
pub open spec fn digit_value(c: char) -> nat {
    if '0' <= c && c <= '9' {
        (c as nat - '0' as nat) as nat
    } else {
        10
    }
}

/// Every character is a decimal digit.
pub open spec fn all_digits(s: Seq<char>) -> bool {
    forall|i: int| 0 <= i < s.len() ==> digit_value(#[trigger] s[i]) < 10
}

/// The number that a run of decimal digits writes.
pub open spec fn decimal_value(s: Seq<char>) -> nat
    decreases s.len(),
{
    if s.len() == 0 {
        0
    } else {
        decimal_value(s.drop_last()) * 10 + digit_value(s.last())
    }
}

/// The digits of a setting: the text without one leading plus sign.
pub open spec fn unsigned_digits(text: Seq<char>) -> Seq<char> {
    if text.len() > 0 && text[0] == '+' {
        text.drop_first()
    } else {
        text
    }
}

/// The number that a setting writes: an optional plus sign and then one or
/// more decimal digits, nothing else, with a value of at most `max`.
pub open spec fn setting_value(text: Seq<char>, max: nat) -> Option<nat> {
    let digits = unsigned_digits(text);
    if digits.len() > 0 && all_digits(digits) && decimal_value(digits) <= max {
        Some(decimal_value(digits))
    } else {
        None
    }
}

proof fn decimal_value_grows(s: Seq<char>, n: int)
    requires
        0 <= n <= s.len(),
    ensures
        decimal_value(s.take(n)) <= decimal_value(s),
    decreases s.len() - n,
{
    if n < s.len() {
        decimal_value_grows(s, n + 1);
        assert(s.take(n + 1).drop_last() =~= s.take(n));
        assert(decimal_value(s.take(n)) <= decimal_value(s.take(n + 1))) by (nonlinear_arith)
            requires
                decimal_value(s.take(n + 1)) == decimal_value(s.take(n)) * 10 + digit_value(
                    s.take(n + 1).last(),
                ),
        ;
    } else {
        assert(s.take(n) =~= s);
    }
}

/// Reads a numeric setting.
pub fn parse_setting(text: &str) -> (value: Option<u64>)
    ensures
        value matches Some(n) ==> setting_value(text@, u64::MAX as nat) == Some(n as nat),
        value is None ==> setting_value(text@, u64::MAX as nat) is None,
{
    if !text.is_ascii() {
        proof {
            not_ascii_not_digits(text@);
        }
        return None;
    }
    let len = text.unicode_len();
    let start: usize = if len > 0 && text.get_ascii(0) == 43u8 {
        1
    } else {
        0
    };
    let ghost digits = unsigned_digits(text@);
    if start == len {
        return None;
    }
    let mut total: u64 = 0;
    let mut i: usize = start;
    while i < len
        invariant
            start <= i <= len,
            len == text@.len(),
            text.is_ascii(),
            digits == text@.skip(start as int),
            digits == unsigned_digits(text@),
            all_digits(digits.take(i - start)),
            total == decimal_value(digits.take(i - start)),
        decreases len - i,
    {
        let b = text.get_ascii(i);
        assert(digits.take(i - start + 1).drop_last() =~= digits.take(i - start));
        if b < 48u8 || b > 57u8 {
            assert(digit_value(digits[i - start]) == 10);
            return None;
        }
        let d: u64 = (b - 48u8) as u64;
        let next = match total.checked_mul(10) {
            Some(scaled) => scaled.checked_add(d),
            None => None,
        };
        match next {
            Some(n) => {
                total = n;
            },
            None => {
                proof {
                    decimal_value_grows(digits, i - start + 1);
                }
                return None;
            },
        }
        i += 1;
    }
    assert(digits.take(len - start) =~= digits);
    Some(total)
}

proof fn not_ascii_not_digits(text: Seq<char>)
    requires
        !vstd::utf8::is_ascii_chars(text),
    ensures
        setting_value(text, u64::MAX as nat) is None,
{
    let digits = unsigned_digits(text);
    if all_digits(digits) {
        assert forall|i: int| 0 <= i < text.len() implies '\0' <= #[trigger] text[i] <= '\u{7f}' by {
            if text.len() > 0 && text[0] == '+' && i > 0 {
                assert(digit_value(digits[i - 1]) < 10);
            }
        }
    }
}

impl Config {
    /// Builds the configuration from the settings as they were found, each
    /// `None` where it was not given.
    ///
    /// The project, the bucket and the catalog endpoint are required; the
    /// first of them that is missing is reported. The prefix defaults to
    /// `warehouse`, the namespace to `farm`. The two batch limits default to
    /// 25000 rows and 30 seconds, also where the text given is not a number
    /// that fits.
    pub fn from_settings(
        gcp_project: Option<String>,
        gcs_bucket: Option<String>,
        gcs_prefix: Option<String>,
        catalog_uri: Option<String>,
        table_ns: Option<String>,
        batch_max_rows: Option<String>,
        batch_max_seconds: Option<String>,
    ) -> (made: Result<Config, MissingSetting>)
        ensures
            made is Ok <==> gcp_project is Some && gcs_bucket is Some && catalog_uri is Some,
            made matches Err(missing) ==> missing == (if gcp_project is None {
                MissingSetting::GcpProject
            } else if gcs_bucket is None {
                MissingSetting::GcsBucket
            } else {
                MissingSetting::CatalogUri
            }),
            made matches Ok(config) ==> {
                &&& config.gcp_project@ == gcp_project.unwrap()@
                &&& config.gcs_bucket@ == gcs_bucket.unwrap()@
                &&& config.catalog_uri@ == catalog_uri.unwrap()@
                &&& config.gcs_prefix@ == (match gcs_prefix {
                    Some(prefix) => prefix@,
                    None => "warehouse"@,
                })
                &&& config.table_ns@ == (match table_ns {
                    Some(ns) => ns@,
                    None => "farm"@,
                })
                &&& config.table_orders@ == "orders"@
                &&& config.batch_max_rows as nat == limit_or(
                    batch_max_rows,
                    usize::MAX as nat,
                    DEFAULT_BATCH_MAX_ROWS as nat,
                )
                &&& config.batch_max_seconds as nat == limit_or(
                    batch_max_seconds,
                    u64::MAX as nat,
                    DEFAULT_BATCH_MAX_SECONDS as nat,
                )
            },
    {
        let gcp_project = match gcp_project {
            Some(v) => v,
            None => {
                return Err(MissingSetting::GcpProject);
            },
        };
        let gcs_bucket = match gcs_bucket {
            Some(v) => v,
            None => {
                return Err(MissingSetting::GcsBucket);
            },
        };
        let gcs_prefix = match gcs_prefix {
            Some(v) => v,
            None => "warehouse".to_owned(),
        };
        let catalog_uri = match catalog_uri {
            Some(v) => v,
            None => {
                return Err(MissingSetting::CatalogUri);
            },
        };
        let table_ns = match table_ns {
            Some(v) => v,
            None => "farm".to_owned(),
        };
        let rows: usize = match batch_max_rows {
            Some(text) => match parse_setting(text.as_str()) {
                Some(n) => if n <= usize::MAX as u64 {
                    n as usize
                } else {
                    DEFAULT_BATCH_MAX_ROWS
                },
                None => DEFAULT_BATCH_MAX_ROWS,
            },
            None => DEFAULT_BATCH_MAX_ROWS,
        };
        let seconds: u64 = match batch_max_seconds {
            Some(text) => match parse_setting(text.as_str()) {
                Some(n) => n,
                None => DEFAULT_BATCH_MAX_SECONDS,
            },
            None => DEFAULT_BATCH_MAX_SECONDS,
        };
        Ok(
            Config {
                gcp_project,
                gcs_bucket,
                gcs_prefix,
                catalog_uri,
                table_ns,
                table_orders: "orders".to_owned(),
                batch_max_rows: rows,
                batch_max_seconds: seconds,
            },
        )
    }
}

/// A numeric setting as configured: the number that the text writes where it
/// writes one of at most `max`, the default otherwise.
pub open spec fn limit_or(text: Option<String>, max: nat, default: nat) -> nat {
    match text {
        Some(t) => match setting_value(t@, max) {
            Some(n) => n,
            None => default,
        },
        None => default,
    }
}

} // verus!
