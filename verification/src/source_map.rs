//! The source-map registry.
//!
//! A key-value store keyed by logical file name: each entry keeps the
//! original source text of a rewritten file and, optionally, the source
//! map produced by the rewrite. Adding an entry overwrites any prior one
//! for the same file; nothing is ever evicted. Diagnostics later look up
//! single lines of the original text by zero-based line number.

use vstd::prelude::*;

use crate::kv::KvStore;
use crate::text::{copy_bytes, spec_split, split_char};

verus! {

/// What the registry keeps per logical file: the original text and the
/// optional source map produced when the text was rewritten.
pub struct SourceMapData {
    pub code: String,
    pub map: Option<Vec<u8>>,
}

/// The view of an optional byte buffer.
pub open spec fn opt_bytes_view(m: Option<Vec<u8>>) -> Option<Seq<u8>> {
    match m {
        Some(v) => Some(v@),
        None => None,
    }
}

impl View for SourceMapData {
    type V = (Seq<char>, Option<Seq<u8>>);

    open spec fn view(&self) -> (Seq<char>, Option<Seq<u8>>) {
        (self.code@, opt_bytes_view(self.map))
    }
}

/// Registry of original source text and source maps per logical file
/// name; its view is the map it holds.
pub struct SourceMapRegistry {
    entries: KvStore<SourceMapData>,
}

impl View for SourceMapRegistry {
    type V = Map<Seq<char>, (Seq<char>, Option<Seq<u8>>)>;

    closed spec fn view(&self) -> Map<Seq<char>, (Seq<char>, Option<Seq<u8>>)> {
        self.entries@
    }
}

impl SourceMapRegistry {
    /// An empty registry.
    pub fn new() -> (r: Self)
        ensures
            r@ == Map::<Seq<char>, (Seq<char>, Option<Seq<u8>>)>::empty(),
    {
        SourceMapRegistry { entries: KvStore::new() }
    }

    /// Upserts the entry for `file_name`: last write wins, other files
    /// are untouched.
    pub fn add(&mut self, file_name: &str, code: String, map: Option<Vec<u8>>)
        ensures
            final(self)@ == old(self)@.insert(file_name@, (code@, opt_bytes_view(map))),
    {
        self.entries.insert(file_name, SourceMapData { code, map });
    }

    /// The source map stored for `file_name`, if the file has an entry
    /// and the entry carries one.
    pub fn get_map(&self, file_name: &str) -> (r: Option<Vec<u8>>)
        ensures
            match r {
                Some(m) => self@.contains_key(file_name@) && Some(m@) == self@[file_name@].1,
                None => !self@.contains_key(file_name@) || self@[file_name@].1 is None,
            },
    {
        match self.entries.get(file_name) {
            Some(data) => match &data.map {
                Some(m) => Some(copy_bytes(m)),
                None => None,
            },
            None => None,
        }
    }

    /// The original source text stored for `file_name`, if any.
    pub fn get_code(&self, file_name: &str) -> (r: Option<&String>)
        ensures
            match r {
                Some(c) => self@.contains_key(file_name@) && c@ == self@[file_name@].0,
                None => !self@.contains_key(file_name@),
            },
    {
        match self.entries.get(file_name) {
            Some(data) => Some(&data.code),
            None => None,
        }
    }

    /// The `line_number`th line (zero-based) of the original text stored
    /// for `file_name`: nothing when the file has no entry or the line
    /// number is at or past the number of lines, the exact line otherwise.
    pub fn get_line(&self, file_name: &str, line_number: usize) -> (r: Option<String>)
        ensures
            match r {
                Some(line) => {
                    &&& self@.contains_key(file_name@)
                    &&& line_number < spec_split(self@[file_name@].0, '\n').len()
                    &&& line@ == spec_split(self@[file_name@].0, '\n')[line_number as int]
                },
                None => !self@.contains_key(file_name@) || line_number >= spec_split(
                    self@[file_name@].0,
                    '\n',
                ).len(),
            },
    {
        match self.entries.get(file_name) {
            Some(data) => {
                let lines = split_char(data.code.as_str(), '\n');
                if line_number < lines.len() {
                    proof {
                        let f = |t: String| t@;
                        assert(lines@.map_values(f)[line_number as int] == lines@[
                            line_number as int
                        ]@);
                    }
                    Some(lines[line_number].clone())
                } else {
                    None
                }
            },
            None => None,
        }
    }
}

} // verus!
