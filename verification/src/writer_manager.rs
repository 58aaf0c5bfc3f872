//! A deduplicating front for any storage backend: it remembers the last list
//! it read or wrote and skips the backend entirely when asked to write the
//! same contents again, so an opportunistic save on every render tick costs
//! no repeated work.

use vstd::prelude::*;

use crate::settings::BannerColor;
use crate::text::{copy_topics, str_eq};
use crate::topic_writer::{TopicWriter, WriterError};
use vstd::slice::slice_index_get;

verus! {

pub struct WriterManager<W: TopicWriter> {
    inner_writer: W,
    old_list: Option<Vec<String>>,
}

impl<W: TopicWriter> WriterManager<W> {
    /// The wrapped backend.
    pub closed spec fn spec_inner(self) -> W {
        self.inner_writer
    }

    /// Contents of the last list read from or handed to the backend.
    pub closed spec fn spec_old_list(self) -> Option<Seq<Seq<char>>> {
        match self.old_list {
            Some(v) => Some(v.deep_view()),
            None => None,
        }
    }

    pub fn new(inner_writer: W) -> (r: Self)
        ensures
            r.spec_inner() == inner_writer,
            r.spec_old_list() is None,
    {
        WriterManager { inner_writer, old_list: None }
    }

    /// True when the remembered last list matches this one element for
    /// element: same length, same contents, same order.
    pub fn compare_to_old(&self, list: &[String]) -> (r: bool)
        ensures
            r == (self.spec_old_list() matches Some(o) && o == list.deep_view()),
    {
        match &self.old_list {
            Some(remembered) => {
                let n = remembered.len();
                if n != list.len() {
                    proof {
                        assert(self.spec_old_list() matches Some(o) && o.len() != list.deep_view().len());
                    }
                    return false;
                }
                let mut i: usize = 0;
                while i < n
                    invariant
                        0 <= i <= n,
                        self.old_list == Some(*remembered),
                        remembered@.len() == n,
                        n == list@.len(),
                        forall|j: int| 0 <= j < i ==> remembered@[j]@ == list@[j]@,
                    decreases n - i,
                {
                    let ours = slice_index_get(remembered.as_slice(), i);
                    if !str_eq(ours.as_str(), slice_index_get(list, i).as_str()) {
                        proof {
                            assert(remembered.deep_view() != list.deep_view()) by {
                                if remembered.deep_view() == list.deep_view() {
                                    let k = i as int;
                                    assert(remembered.deep_view()[k] == list.deep_view()[k]);
                                }
                            };
                        }
                        return false;
                    }
                    i += 1;
                }
                proof {
                    assert(self.spec_old_list() matches Some(o) && o =~= list.deep_view());
                }
                true
            },
            None => false,
        }
    }

    /// Persists the list through the backend, unless it matches the last one
    /// written or read element for element: then nothing is asked of the
    /// backend at all — it is left untouched — and the write reports success.
    pub fn write(&mut self, list: &[String]) -> (r: Result<(), WriterError>)
        ensures
            final(self).spec_old_list() == Some(list.deep_view()),
            (old(self).spec_old_list() matches Some(o) && o == list.deep_view()) ==> final(self).spec_inner() == old(self).spec_inner() && r is Ok,
    {
        if self.compare_to_old(list) {
            return Ok(());
        }
        self.old_list = Some(copy_topics(list));
        proof {
            assert(self.spec_old_list() matches Some(o) && o =~= list.deep_view());
        }
        self.inner_writer.write(list)
    }

    /// Best-effort `write`: the same dedup rule, any backend failure dropped.
    pub fn try_write(&mut self, list: &[String])
        ensures
            final(self).spec_old_list() == Some(list.deep_view()),
            (old(self).spec_old_list() matches Some(o) && o == list.deep_view()) ==> final(self).spec_inner() == old(self).spec_inner(),
    {
        let _ = self.write(list);
    }

    /// Hands the backend's backup step through.
    pub fn close(&self) -> Result<(), WriterError> {
        self.inner_writer.close()
    }

    /// Reads the backend's current contents and remembers them as the
    /// dedup baseline; a failed read leaves the baseline as it was.
    pub fn read_list(&mut self) -> (r: Result<Vec<String>, WriterError>)
        ensures
            r matches Ok(list) ==> final(self).spec_old_list() == Some(list.deep_view()),
            r is Err ==> final(self).spec_old_list() == old(self).spec_old_list(),
    {
        match self.inner_writer.read_list() {
            Ok(list) => {
                self.old_list = Some(copy_topics(list.as_slice()));
                proof {
                    assert(self.spec_old_list() matches Some(o) && o =~= list.deep_view());
                }
                Ok(list)
            },
            Err(e) => Err(e),
        }
    }

    /// A look at the wrapped backend.
    pub fn inner(&self) -> (r: &W)
        ensures
            *r == self.spec_inner(),
    {
        &self.inner_writer
    }

    pub fn get_banner(&self) -> &str {
        self.inner_writer.get_banner()
    }

    pub fn get_banner_color(&self) -> &BannerColor {
        self.inner_writer.get_banner_color()
    }
}

} // verus!
