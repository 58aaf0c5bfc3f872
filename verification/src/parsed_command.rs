//! Splitting one raw input — a command line or an argument vector — into a
//! command name and its argument words. Words on a line are separated by
//! spaces; double quotes group spaces into one word and are themselves
//! dropped.

use vstd::prelude::*;

use crate::text::{spec_trim, trim};

verus! {

pub struct ParsedCommand {
    command: String,
    args: Vec<String>,
}

/// Index of the first plain space, or the length when there is none.
pub open spec fn first_space(s: Seq<char>) -> int
    decreases s.len(),
{
    if s.len() == 0 {
        0
    } else if s[0] == ' ' {
        0
    } else {
        1 + first_space(s.drop_first())
    }
}

/// One step of the word-splitting scan: the words finished so far, the word
/// being collected, and whether the scan stands inside quotes.
pub open spec fn split_words_state(s: Seq<char>) -> (Seq<Seq<char>>, Seq<char>, bool)
    decreases s.len(),
{
    if s.len() == 0 {
        (Seq::empty(), Seq::empty(), false)
    } else {
        let prev = split_words_state(s.drop_last());
        let c = s.last();
        if c == '"' {
            (prev.0, prev.1, !prev.2)
        } else if c == ' ' && !prev.2 {
            if prev.1.len() > 0 {
                (prev.0.push(prev.1), Seq::empty(), prev.2)
            } else {
                prev
            }
        } else {
            (prev.0, prev.1.push(c), prev.2)
        }
    }
}

/// The argument words of a scanned tail: every finished word, and always the
/// word still being collected when the input ends, even an empty one.
pub open spec fn spec_split_words(s: Seq<char>) -> Seq<Seq<char>> {
    split_words_state(s).0.push(split_words_state(s).1)
}

/// What parsing a whole line yields: the trimmed line up to the first space
/// is the command; the rest, trimmed again, is split into argument words.
pub open spec fn spec_parse_line(line: Seq<char>) -> (Seq<char>, Seq<Seq<char>>) {
    let t = spec_trim(line);
    let i = first_space(t);
    if i == t.len() {
        (t, Seq::empty())
    } else {
        (t.subrange(0, i), spec_split_words(spec_trim(t.subrange(i, t.len() as int))))
    }
}

proof fn lemma_first_space_at(s: Seq<char>, i: int)
    requires
        0 <= i <= s.len(),
        forall|j: int| 0 <= j < i ==> s[j] != ' ',
        i < s.len() ==> s[i] == ' ',
    ensures
        first_space(s) == i,
    decreases i,
{
    if i == 0 {
    } else {
        let t = s.drop_first();
        assert(forall|j: int| 0 <= j < i - 1 ==> t[j] != ' ');
        lemma_first_space_at(t, i - 1);
    }
}

impl ParsedCommand {
    /// The command name this input asked for.
    pub closed spec fn spec_command(self) -> Seq<char> {
        self.command@
    }

    /// The argument strings that followed the command name, as values.
    pub closed spec fn spec_arg_strings(self) -> Seq<String> {
        self.args@
    }

    /// The argument words that followed the command name.
    pub open spec fn spec_args(self) -> Seq<Seq<char>> {
        self.spec_arg_strings().map_values(|s: String| s@)
    }

    /// Takes an argument vector as the command name followed by its
    /// arguments; an empty vector parses as an empty command name.
    pub fn parse_from_args(args: &[String]) -> (r: Self)
        ensures
            r.spec_command() == if args@.len() == 0 {
                Seq::<char>::empty()
            } else {
                args@[0]@
            },
            r.spec_args() == if args@.len() <= 1 {
                Seq::<Seq<char>>::empty()
            } else {
                args.deep_view().subrange(1, args@.len() as int)
            },
    {
        let n = args.len();
        if n == 0 {
            let r = ParsedCommand { command: String::new(), args: Vec::new() };
            proof {
                assert(r.spec_args() =~= Seq::<Seq<char>>::empty());
            }
            return r;
        }
        let command = crate::text::clone_string_at(args, 0);
        let mut rest: Vec<String> = Vec::new();
        let mut i: usize = 1;
        while i < n
            invariant
                1 <= i <= n,
                n == args@.len(),
                rest@.len() == i - 1,
                forall|j: int| 0 <= j < i - 1 ==> rest@[j] == args@[j + 1],
            decreases n - i,
        {
            let s = crate::text::clone_string_at(args, i);
            rest.push(s);
            i += 1;
        }
        let r = ParsedCommand { command, args: rest };
        proof {
            if n <= 1 {
                assert(r.spec_args() =~= Seq::<Seq<char>>::empty());
            } else {
                assert(r.spec_args() =~= args.deep_view().subrange(1, n as int));
            }
        }
        r
    }

    /// Splits one input line into the command name and its argument words.
    pub fn parse_from_line(line: &str) -> (r: Self)
        ensures
            r.spec_command() == spec_parse_line(line@).0,
            r.spec_args() == spec_parse_line(line@).1,
    {
        let t = trim(line);
        let n = t.unicode_len();
        let mut i: usize = 0;
        while i < n && t.get_char(i) != ' '
            invariant
                0 <= i <= n,
                n == t@.len(),
                forall|j: int| 0 <= j < i ==> t@[j] != ' ',
            decreases n - i,
        {
            i += 1;
        }
        proof {
            lemma_first_space_at(t@, i as int);
        }
        if i == n {
            let r = ParsedCommand { command: t.to_owned(), args: Vec::new() };
            proof {
                assert(r.spec_args() =~= Seq::<Seq<char>>::empty());
            }
            return r;
        }
        let command = t.substring_char(0, i).to_owned();
        let rest = trim(t.substring_char(i, n));
        let m = rest.unicode_len();
        let mut words: Vec<String> = Vec::new();
        let mut current_word: String = String::new();
        let mut in_quotes: bool = false;
        let mut k: usize = 0;
        while k < m
            invariant
                0 <= k <= m,
                m == rest@.len(),
                words.deep_view() == split_words_state(rest@.subrange(0, k as int)).0,
                current_word@ == split_words_state(rest@.subrange(0, k as int)).1,
                in_quotes == split_words_state(rest@.subrange(0, k as int)).2,
            decreases m - k,
        {
            let c = rest.get_char(k);
            proof {
                assert(rest@.subrange(0, k + 1).drop_last() =~= rest@.subrange(0, k as int));
                assert(rest@.subrange(0, k + 1).last() == rest@[k as int]);
            }
            if c == '"' {
                in_quotes = !in_quotes;
            } else if c == ' ' && !in_quotes {
                if !current_word.as_str().is_empty() {
                    let ghost old_words = words.deep_view();
                    words.push(current_word.clone());
                    current_word = String::new();
                    proof {
                        assert(words.deep_view() =~= old_words.push(
                            split_words_state(rest@.subrange(0, k as int)).1,
                        ));
                    }
                }
            } else {
                let piece = rest.substring_char(k, k + 1);
                current_word.append(piece);
                proof {
                    assert(split_words_state(rest@.subrange(0, k as int)).1 + piece@
                        =~= split_words_state(rest@.subrange(0, k as int)).1.push(rest@[k as int]));
                }
            }
            k += 1;
        }
        proof {
            assert(rest@.subrange(0, m as int) =~= rest@);
        }
        let ghost finished = words.deep_view();
        words.push(current_word);
        let r = ParsedCommand { command, args: words };
        proof {
            assert(r.spec_args() =~= finished.push(split_words_state(rest@).1));
        }
        r
    }

    pub fn get_command(&self) -> (r: &String)
        ensures
            r@ == self.spec_command(),
    {
        &self.command
    }

    pub fn get_args(&self) -> (r: &Vec<String>)
        ensures
            r@ == self.spec_arg_strings(),
            r.deep_view() == self.spec_args(),
    {
        let r = &self.args;
        proof {
            assert(r.deep_view() =~= self.spec_args());
        }
        r
    }

    /// True when the input held no command name at all.
    pub fn is_empty(&self) -> (r: bool)
        ensures
            r == (self.spec_command().len() == 0),
    {
        self.command.as_str().is_empty()
    }

    pub fn command(&self) -> (r: &String)
        ensures
            r@ == self.spec_command(),
    {
        &self.command
    }

    pub fn args(&self) -> (r: &Vec<String>)
        ensures
            r@ == self.spec_arg_strings(),
            r.deep_view() == self.spec_args(),
    {
        self.get_args()
    }
}

} // verus!
