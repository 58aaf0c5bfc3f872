//! The configuration that names each list a user can open: its storage
//! backend, location, banner and colour. Reading and writing the settings
//! file is outside work; this module owns the lookup and bookkeeping rules
//! over the loaded values. Paths are plain strings joined with `/`.

use vstd::prelude::*;

use crate::commands::CommandResult;
use crate::text::{concat_msg, dec_val, is_digit_seq, parse_usize, str_eq};
use vstd::slice::slice_index_get;

verus! {

/// Directory under the documents folder that holds every list file.
pub const SETTINGS_DIR_NAME: &'static str = "RustyTopicManipulator";

/// File under the settings directory that holds the configuration.
pub const SETTINGS_FILE_NAME: &'static str = "settings.json";

/// Colour a banner is rendered in.
#[derive(Clone, Copy, Debug, PartialEq, Eq)]
pub enum BannerColor {
    Black,
    DarkGrey,
    Red,
    DarkRed,
    Green,
    DarkGreen,
    Yellow,
    DarkYellow,
    Blue,
    DarkBlue,
    Magenta,
    DarkMagenta,
    Cyan,
    DarkCyan,
    White,
    Grey,
}

/// The storage backend a list lives in.
#[derive(Clone, Copy, Debug, PartialEq, Eq)]
pub enum ListType {
    Local,
    Network,
    GithubGist,
}

/// Everything needed to open one list: its name, where its banner and its
/// entries live, and the token that unlocks a hosted backend.
#[derive(Debug)]
pub struct List {
    name: String,
    banner_path: String,
    banner_color: BannerColor,
    list_type: ListType,
    path: String,
    access_token: String,
}

impl List {
    pub closed spec fn spec_name(self) -> Seq<char> {
        self.name@
    }

    pub closed spec fn spec_banner_path(self) -> Seq<char> {
        self.banner_path@
    }

    pub closed spec fn spec_banner_color(self) -> BannerColor {
        self.banner_color
    }

    pub closed spec fn spec_list_type(self) -> ListType {
        self.list_type
    }

    pub closed spec fn spec_path(self) -> Seq<char> {
        self.path@
    }

    pub closed spec fn spec_access_token(self) -> Seq<char> {
        self.access_token@
    }

    pub fn new(
        name: String,
        banner_path: String,
        banner_color: BannerColor,
        list_type: ListType,
        path: String,
        access_token: String,
    ) -> (r: Self)
        ensures
            r.spec_name() == name@,
            r.spec_banner_path() == banner_path@,
            r.spec_banner_color() == banner_color,
            r.spec_list_type() == list_type,
            r.spec_path() == path@,
            r.spec_access_token() == access_token@,
    {
        List { name, banner_path, banner_color, list_type, path, access_token }
    }

    pub fn name(&self) -> (r: &str)
        ensures
            r@ == self.spec_name(),
    {
        self.name.as_str()
    }

    pub fn banner_path(&self) -> (r: &str)
        ensures
            r@ == self.spec_banner_path(),
    {
        self.banner_path.as_str()
    }

    pub fn banner_color(&self) -> (r: &BannerColor)
        ensures
            *r == self.spec_banner_color(),
    {
        &self.banner_color
    }

    pub fn list_type(&self) -> (r: &ListType)
        ensures
            *r == self.spec_list_type(),
    {
        &self.list_type
    }

    pub fn path(&self) -> (r: &str)
        ensures
            r@ == self.spec_path(),
    {
        self.path.as_str()
    }

    pub fn access_token(&self) -> (r: &str)
        ensures
            r@ == self.spec_access_token(),
    {
        self.access_token.as_str()
    }
}

impl Clone for List {
    fn clone(&self) -> (r: Self)
        ensures
            r == *self,
    {
        List {
            name: self.name.clone(),
            banner_path: self.banner_path.clone(),
            banner_color: self.banner_color,
            list_type: self.list_type,
            path: self.path.clone(),
            access_token: self.access_token.clone(),
        }
    }
}

/// How a looked-up list relates to its configured entry: every field is kept,
/// except that a local list's banner path is resolved under the settings
/// directory.
pub open spec fn resolved_from(r: List, orig: List, dir: Seq<char>) -> bool {
    &&& r.spec_name() == orig.spec_name()
    &&& r.spec_banner_color() == orig.spec_banner_color()
    &&& r.spec_list_type() == orig.spec_list_type()
    &&& r.spec_path() == orig.spec_path()
    &&& r.spec_access_token() == orig.spec_access_token()
    &&& r.spec_banner_path() == if orig.spec_list_type() is Local {
        dir + "/"@ + orig.spec_banner_path()
    } else {
        orig.spec_banner_path()
    }
}

/// Index of the first configured list carrying this name, or the count when
/// none does.
pub open spec fn first_list_named(lists: Seq<List>, query: Seq<char>) -> int
    decreases lists.len(),
{
    if lists.len() == 0 {
        0
    } else if lists[0].spec_name() == query {
        0
    } else {
        1 + first_list_named(lists.drop_first(), query)
    }
}

/// How a query string picks a list: a parseable number is a 1-based position,
/// anything else is a name to search for.
pub open spec fn query_position(lists: Seq<List>, query: Seq<char>) -> Option<int> {
    if is_digit_seq(query) && query.len() > 0 && dec_val(query) <= usize::MAX {
        if 1 <= dec_val(query) <= lists.len() {
            Some(dec_val(query) - 1)
        } else {
            None
        }
    } else {
        if first_list_named(lists, query) < lists.len() {
            Some(first_list_named(lists, query))
        } else {
            None
        }
    }
}

proof fn lemma_first_list_named_at(lists: Seq<List>, query: Seq<char>, i: int)
    requires
        0 <= i <= lists.len(),
        forall|j: int| 0 <= j < i ==> lists[j].spec_name() != query,
        i < lists.len() ==> lists[i].spec_name() == query,
    ensures
        first_list_named(lists, query) == i,
    decreases i,
{
    if i > 0 {
        let t = lists.drop_first();
        assert(forall|j: int| 0 <= j < i - 1 ==> t[j].spec_name() != query);
        lemma_first_list_named_at(t, query, i - 1);
    }
}

/// The loaded configuration, together with the places it came from and will
/// be saved back to.
#[derive(Debug)]
pub struct Settings {
    open_in: String,
    open_last: bool,
    lists: Vec<List>,
    previous_open_in: String,
    path_to_settings_file: String,
    path_to_settings_dir: String,
    documents_path: String,
    default_settings_used: bool,
}

impl Settings {
    /// Name of the list a session should open in.
    pub closed spec fn spec_open_in(self) -> Seq<char> {
        self.open_in@
    }

    pub closed spec fn spec_open_last(self) -> bool {
        self.open_last
    }

    pub closed spec fn spec_lists(self) -> Seq<List> {
        self.lists@
    }

    pub closed spec fn spec_previous_open_in(self) -> Seq<char> {
        self.previous_open_in@
    }

    pub closed spec fn spec_settings_file(self) -> Seq<char> {
        self.path_to_settings_file@
    }

    pub closed spec fn spec_settings_dir(self) -> Seq<char> {
        self.path_to_settings_dir@
    }

    pub closed spec fn spec_documents_path(self) -> Seq<char> {
        self.documents_path@
    }

    pub closed spec fn spec_default_used(self) -> bool {
        self.default_settings_used
    }

    /// Wraps the values a configuration source handed over; the settings
    /// directory and file sit under the documents folder.
    pub fn new(
        open_in: String,
        open_last: bool,
        lists: Vec<List>,
        documents_path: String,
        default_settings_used: bool,
    ) -> (r: Self)
        ensures
            r.spec_open_in() == open_in@,
            r.spec_open_last() == open_last,
            r.spec_lists() == lists@,
            r.spec_previous_open_in() == open_in@,
            r.spec_documents_path() == documents_path@,
            r.spec_settings_dir() == documents_path@ + "/"@ + SETTINGS_DIR_NAME@,
            r.spec_settings_file() == documents_path@ + "/"@ + SETTINGS_DIR_NAME@ + "/"@
                + SETTINGS_FILE_NAME@,
            r.spec_default_used() == default_settings_used,
    {
        let previous_open_in = open_in.clone();
        let with_sep = concat_msg(documents_path.as_str(), "/");
        let path_to_settings_dir = concat_msg(with_sep.as_str(), SETTINGS_DIR_NAME);
        let dir_with_sep = concat_msg(path_to_settings_dir.as_str(), "/");
        let path_to_settings_file = concat_msg(dir_with_sep.as_str(), SETTINGS_FILE_NAME);
        Settings {
            open_in,
            open_last,
            lists,
            previous_open_in,
            path_to_settings_file,
            path_to_settings_dir,
            documents_path,
            default_settings_used,
        }
    }

    /// True when saving is due: the defaults were materialised this run, or
    /// the remembered open-in name moved while the configuration asks to
    /// reopen the last list.
    pub fn settings_changed(&self) -> (r: bool)
        ensures
            r == (self.spec_default_used() || (self.spec_open_last()
                && self.spec_previous_open_in() != self.spec_open_in())),
    {
        self.default_settings_used || self.open_last && !str_eq(
            self.previous_open_in.as_str(),
            self.open_in.as_str(),
        )
    }

    pub fn open_in(&self) -> (r: &str)
        ensures
            r@ == self.spec_open_in(),
    {
        self.open_in.as_str()
    }

    pub fn lists(&self) -> (r: &[List])
        ensures
            r@ == self.spec_lists(),
    {
        self.lists.as_slice()
    }

    /// Looks a list up by 1-based position or by name; the copy handed back
    /// has a local banner path resolved under the settings directory.
    pub fn get_list(&mut self, query: &str) -> (r: Option<List>)
        ensures
            *final(self) == *old(self),
            match query_position(old(self).spec_lists(), query@) {
                Some(i) => (r matches Some(l) && resolved_from(
                    l,
                    old(self).spec_lists()[i],
                    old(self).spec_settings_dir(),
                )),
                None => r is None,
            },
    {
        let parsed = parse_usize(query);
        if let Some(index) = parsed {
            if 1 <= index && index <= self.lists.len() {
                return Some(self.get_list_by_index(index - 1));
            }
            return None;
        }
        let n = self.lists.len();
        let mut i: usize = 0;
        while i < n
            invariant
                0 <= i <= n,
                n == self.lists@.len(),
                !(is_digit_seq(query@) && query@.len() > 0 && dec_val(query@) <= usize::MAX),
                forall|j: int| 0 <= j < i ==> self.lists@[j].spec_name() != query@,
                *self == *old(self),
            decreases n - i,
        {
            if str_eq(slice_index_get(self.lists.as_slice(), i).name.as_str(), query) {
                proof {
                    lemma_first_list_named_at(self.lists@, query@, i as int);
                }
                return Some(self.get_list_by_index(i));
            }
            i += 1;
        }
        proof {
            lemma_first_list_named_at(self.lists@, query@, n as int);
        }
        None
    }

    /// The configured list at one position, its local banner path resolved
    /// under the settings directory.
    pub fn get_list_by_index(&mut self, index: usize) -> (r: List)
        requires
            index < old(self).spec_lists().len(),
        ensures
            *final(self) == *old(self),
            resolved_from(r, old(self).spec_lists()[index as int], old(self).spec_settings_dir()),
    {
        let mut list = slice_index_get(self.lists.as_slice(), index).clone();
        let is_local = match list.list_type {
            ListType::Local => true,
            _ => false,
        };
        if is_local {
            let dir_with_sep = concat_msg(self.path_to_settings_dir.as_str(), "/");
            list.banner_path = concat_msg(dir_with_sep.as_str(), list.banner_path.as_str());
        }
        list
    }

    /// Remembers this list as the one to open next time.
    pub fn set_open_in_list(&mut self, list: &List)
        ensures
            final(self).spec_open_in() == list.spec_name(),
            final(self).spec_open_last() == old(self).spec_open_last(),
            final(self).spec_lists() == old(self).spec_lists(),
            final(self).spec_previous_open_in() == old(self).spec_previous_open_in(),
            final(self).spec_settings_file() == old(self).spec_settings_file(),
            final(self).spec_settings_dir() == old(self).spec_settings_dir(),
            final(self).spec_documents_path() == old(self).spec_documents_path(),
            final(self).spec_default_used() == old(self).spec_default_used(),
    {
        self.open_in = list.name.clone();
    }

    /// Remembers the list a query names as the one to open next time; an
    /// unknown query changes nothing and fails.
    pub fn set_open_in(&mut self, query: &str) -> (r: CommandResult)
        ensures
            match query_position(old(self).spec_lists(), query@) {
                Some(i) => r == CommandResult::Success && final(self).spec_open_in() == old(
                    self,
                ).spec_lists()[i].spec_name(),
                None => (r matches CommandResult::Fail(m) && m@ == msg_list_not_found(query@))
                    && *final(self) == *old(self),
            },
            final(self).spec_open_last() == old(self).spec_open_last(),
            final(self).spec_lists() == old(self).spec_lists(),
            final(self).spec_previous_open_in() == old(self).spec_previous_open_in(),
            final(self).spec_settings_file() == old(self).spec_settings_file(),
            final(self).spec_settings_dir() == old(self).spec_settings_dir(),
            final(self).spec_documents_path() == old(self).spec_documents_path(),
            final(self).spec_default_used() == old(self).spec_default_used(),
    {
        let found = self.get_list(query);
        if let Some(list) = found {
            self.open_in = list.name;
            CommandResult::Success
        } else {
            let head = concat_msg("Couldn't find: \"", query);
            CommandResult::Fail(concat_msg(head.as_str(), "\" in lists."))
        }
    }

    pub fn path_to_settings_file(&self) -> (r: &str)
        ensures
            r@ == self.spec_settings_file(),
    {
        self.path_to_settings_file.as_str()
    }

    pub fn path_to_settings_dir(&self) -> (r: &str)
        ensures
            r@ == self.spec_settings_dir(),
    {
        self.path_to_settings_dir.as_str()
    }

    pub fn documents_path(&self) -> (r: &str)
        ensures
            r@ == self.spec_documents_path(),
    {
        self.documents_path.as_str()
    }
}

/// The failure a rejected open-in query reports.
pub open spec fn msg_list_not_found(query: Seq<char>) -> Seq<char> {
    "Couldn't find: \""@ + query + "\" in lists."@
}

} // verus!
