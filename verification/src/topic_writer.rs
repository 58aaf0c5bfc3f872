//! The contract a storage backend satisfies: read the list once to seed the
//! collection, replace its whole contents on write, and back the previous
//! contents up on close. The backends themselves (a local file, a network
//! endpoint, a hosted gist) live with the surrounding program; this module
//! fixes the interface they implement and the error they report through.

use vstd::prelude::*;

verus! {

/// Why a storage backend could not complete an operation, as a user-facing
/// message.
#[derive(Debug, PartialEq, Eq)]
pub struct WriterError {
    message: String,
}

impl WriterError {
    pub closed spec fn spec_message(self) -> Seq<char> {
        self.message@
    }

    pub fn new(message: String) -> (r: Self)
        ensures
            r.spec_message() == message@,
    {
        WriterError { message }
    }

    pub fn message(&self) -> (r: &str)
        ensures
            r@ == self.spec_message(),
    {
        self.message.as_str()
    }
}

/// A storage backend for one topic list. `read_list` is called once, before
/// any write, to seed the collection and capture the baseline for backup;
/// `write` replaces the stored contents with the whole list; `try_write` is
/// the best-effort variant whose failure is dropped; `close` performs the
/// backend's backup step once, at shutdown; the banner pair is static
/// display metadata fetched at construction.
pub trait TopicWriter {
    fn write(&mut self, list: &[String]) -> Result<(), WriterError>;

    fn try_write(&mut self, list: &[String]);

    fn close(&self) -> Result<(), WriterError>;

    fn read_list(&mut self) -> Result<Vec<String>, WriterError>;

    fn get_banner(&self) -> &str;

    fn get_banner_color(&self) -> &crate::settings::BannerColor;
}

} // verus!
