//! The table reader's plan: where a table's files lie, which objects of a
//! listing are data files, and in which order the rows are shown.
//!
//! The reader serves inspection only. It consumes what the write path has
//! stored and registers nothing.

use vstd::prelude::*;
use vstd::string::StringExecFns;
use crate::schema::ingest_stamp;
use crate::sink::parquet_writer::{object_path_text, object_url_text, store_path};
use crate::text::{ends_with_text, has_suffix};

verus! {

/// The directory of a table's data files, as it is written before the object
/// store normalizes it.
pub open spec fn data_directory(prefix: Seq<char>, namespace: Seq<char>, table: Seq<char>) -> Seq<
    char,
> {
    prefix + "/"@ + namespace + "/"@ + table + "/data/"@
}

/// An object is a data file if its path ends in `.parquet`.
pub open spec fn is_data_file(path: Seq<char>) -> bool {
    ends_with_text(path, ".parquet"@)
}

/// The addresses, scheme and bucket included, of the data files among the
/// listed paths, in the order of the listing.
pub open spec fn data_file_urls(bucket: Seq<char>, listing: Seq<Seq<char>>) -> Seq<Seq<char>>
    decreases listing.len(),
{
    if listing.len() == 0 {
        Seq::empty()
    } else {
        let before = data_file_urls(bucket, listing.drop_last());
        if is_data_file(listing.last()) {
            before.push(object_url_text(bucket, listing.last()))
        } else {
            before
        }
    }
}

/// The characters of each string of a list.
pub open spec fn paths_of(listing: Seq<String>) -> Seq<Seq<char>> {
    Seq::new(listing.len(), |i: int| listing[i]@)
}

/// What the reader scans and how it orders the rows.
#[derive(Debug)]
pub struct ReadPlan {
    /// The data files to scan and concatenate, in this order.
    pub files: Vec<String>,
    /// The column by which the combined rows are ordered.
    pub order_by: String,
    /// Largest first: the rows ingested last come first.
    pub descending: bool,
}

/// The table reader of one bucket and prefix.
#[derive(Debug)]
pub struct Reader {
    pub bucket: String,
    pub prefix: String,
}

impl Reader {
    /// A reader for the given bucket and prefix.
    pub fn new(bucket: &str, prefix: &str) -> (reader: Reader)
        ensures
            reader.bucket@ == bucket@,
            reader.prefix@ == prefix@,
    {
        Reader { bucket: bucket.to_owned(), prefix: prefix.to_owned() }
    }

    /// The prefix under which the object store lists the data files of a
    /// table.
    pub fn data_prefix(&self, ns: &str, table: &str) -> (prefix: String)
        ensures
            prefix@ == object_path_text(data_directory(self.prefix@, ns@, table@)),
    {
        let mut raw = self.prefix.clone();
        raw.append("/");
        raw.append(ns);
        raw.append("/");
        raw.append(table);
        raw.append("/data/");
        store_path(raw.as_str())
    }

    /// The plan for reading a table whose data directory lists the given
    /// paths: scan the data files among them, in the order of the listing,
    /// and show the rows ingested last first. Without a data file there is
    /// nothing to read and no plan.
    pub fn read(&self, listing: &Vec<String>) -> (plan: Option<ReadPlan>)
        ensures
            plan is Some <==> data_file_urls(self.bucket@, paths_of(listing@)).len() > 0,
            plan matches Some(p) ==> {
                &&& paths_of(p.files@) == data_file_urls(self.bucket@, paths_of(listing@))
                &&& p.order_by@ == ingest_stamp().name
                &&& p.descending
            },
    {
        let ghost all = paths_of(listing@);
        let mut files: Vec<String> = Vec::new();
        let mut i: usize = 0;
        while i < listing.len()
            invariant
                i <= listing.len(),
                all == paths_of(listing@),
                paths_of(files@) == data_file_urls(self.bucket@, all.take(i as int)),
            decreases listing.len() - i,
        {
            proof {
                assert(all.take(i + 1).drop_last() =~= all.take(i as int));
            }
            if has_suffix(listing[i].as_str(), ".parquet") {
                let mut url = "gs://".to_owned();
                url.append(self.bucket.as_str());
                url.append("/");
                url.append(listing[i].as_str());
                files.push(url);
            }
            i += 1;
        }
        assert(all.take(listing.len() as int) =~= all);
        if files.len() == 0 {
            None
        } else {
            Some(ReadPlan { files, order_by: "_ingest_ts_ms".to_owned(), descending: true })
        }
    }
}

} // verus!
