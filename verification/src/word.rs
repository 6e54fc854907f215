//! Search of a word list for entries matching a regex pattern, and the
//! state of the interactive search screen.

use vstd::prelude::*;
use crate::input::{Key, KeyModifier, KeyPress};

verus! {

/// Argument surface of the word search command: run interactively, or
/// match one pattern given on the command line.
#[derive(Clone, Debug)]
pub struct WordCommand {
    pub interactive: bool,
    pub pattern: Option<String>,
}

/// Whether the regex crate accepts `pattern`: compilation succeeds or
/// fails on the pattern alone.
pub uninterp spec fn regex_ok(pattern: Seq<char>) -> bool;

/// The successive non-overlapping matches a compiled `pattern` finds in
/// `text`, in order of appearance.
pub uninterp spec fn regex_find_of(pattern: Seq<char>, text: Seq<char>) -> Seq<Seq<char>>;

#[verifier::external_type_specification]
#[verifier::external_body]
pub struct ExRegexError(regex::Error);

/// Relies on regex::Regex::new, which accepts or rejects a pattern on
/// the pattern alone, and on regex::Regex::find_iter, which yields the
/// successive non-overlapping matches in the haystack; both are
/// functions of their string arguments alone.
#[verifier::external_body]
fn regex_find_all(pattern: &str, text: &str) -> (r: Result<Vec<String>, regex::Error>)
    ensures
        r is Ok <==> regex_ok(pattern@),
        r matches Ok(v) ==> v@.map_values(|s: String| s@) == regex_find_of(pattern@, text@),
{
    match regex::Regex::new(pattern) {
        Ok(re) => Ok(re.find_iter(text).map(|m| m.as_str().to_string()).collect()),
        Err(e) => Err(e),
    }
}

/// Relies on String::push: appends the given character to the end of
/// the string.
#[verifier::external_body]
fn push_char(s: &mut String, c: char)
    ensures
        final(s)@ == old(s)@.push(c),
{
    s.push(c);
}

/// Relies on String::pop: removes and returns the last character, or
/// returns nothing and leaves the string empty as it was.
#[verifier::external_body]
fn pop_char(s: &mut String) -> (r: Option<char>)
    ensures
        old(s)@.len() == 0 ==> r is None && final(s)@ == old(s)@,
        old(s)@.len() > 0 ==> r == Some(old(s)@.last()) && final(s)@ == old(s)@.drop_last(),
{
    s.pop()
}

/// A pattern anchored to whole lines of the word list: multi-line mode,
/// with start and end anchors around the pattern.
pub open spec fn anchored_spec(p: Seq<char>) -> Seq<char> {
    "(?m)^"@ + p + "$"@
}

/// A single empty match collapses to no matches: an empty pattern over
/// the word list matches one empty string, which is reported as nothing.
pub open spec fn normalize_matches(ms: Seq<Seq<char>>) -> Seq<Seq<char>> {
    if ms.len() == 1 && ms[0].len() == 0 {
        Seq::empty()
    } else {
        ms
    }
}

/// Matches a regex pattern against entire lines of a word list.
#[derive(Debug)]
pub struct MatchEngine {
    pub pattern: String,
}

impl MatchEngine {
    pub fn new(pattern: String) -> (e: MatchEngine)
        ensures
            e.pattern == pattern,
    {
        MatchEngine { pattern }
    }

    /// All words of `words` (one per line) that the pattern matches in
    /// full. Fails exactly when the anchored pattern is not a valid
    /// regex.
    pub fn matches(&self, words: &str) -> (r: Result<Vec<String>, regex::Error>)
        ensures
            r is Ok <==> regex_ok(anchored_spec(self.pattern@)),
            r matches Ok(v) ==> v@.map_values(|s: String| s@) == normalize_matches(
                regex_find_of(anchored_spec(self.pattern@), words@),
            ),
    {
        let mut anchored = String::from_str("(?m)^");
        anchored.append(self.pattern.as_str());
        anchored.append("$");
        match regex_find_all(anchored.as_str(), words) {
            Err(e) => Err(e),
            Ok(result) => {
                proof {
                    assert(result@.map_values(|s: String| s@).len() == result@.len());
                }
                if result.len() == 1 && result[0].as_str().is_empty() {
                    proof {
                        assert(result@.map_values(|s: String| s@)[0] == result@[0]@);
                    }
                    Ok(Vec::new())
                } else {
                    proof {
                        if result@.len() == 1 {
                            assert(result@.map_values(|s: String| s@)[0] == result@[0]@);
                        }
                    }
                    Ok(result)
                }
            },
        }
    }
}

/// The interactive word search screen: the pattern being edited and the
/// page of results currently shown.
#[derive(Debug)]
pub struct WordRegex {
    pub match_engine: MatchEngine,
    pub current_page: usize,
}

impl WordRegex {
    /// A fresh screen: empty pattern, first page.
    pub fn new() -> (w: WordRegex)
        ensures
            w.match_engine.pattern@ == Seq::<char>::empty(),
            w.current_page == 0,
    {
        WordRegex { match_engine: MatchEngine::new(String::new()), current_page: 0 }
    }

    /// One key press of the interactive loop: control-`c` or escape
    /// quits; control-`u` and control-`d` page backward and forward,
    /// saturating; any other character extends the pattern and a
    /// backspace shortens it, both returning to the first page.
    pub fn handle_key(&mut self, k: &KeyPress) -> (quit: bool)
        ensures
            quit == (k.code == Key::Character('c') && k.modifier is Control || k.code is Escape),
            quit ==> *final(self) == *old(self),
            k.code == Key::Character('u') && k.modifier is Control ==> {
                &&& final(self).match_engine.pattern@ == old(self).match_engine.pattern@
                &&& final(self).current_page == if old(self).current_page > 0 {
                    (old(self).current_page - 1) as int
                } else {
                    0int
                }
            },
            k.code == Key::Character('d') && k.modifier is Control ==> {
                &&& final(self).match_engine.pattern@ == old(self).match_engine.pattern@
                &&& final(self).current_page == if old(self).current_page < usize::MAX {
                    old(self).current_page + 1
                } else {
                    usize::MAX as int
                }
            },
            forall|c: char|
                k.code == Key::Character(c) && !(k.modifier is Control && (c == 'c' || c == 'u'
                    || c == 'd')) ==> final(self).match_engine.pattern@ == old(
                    self,
                ).match_engine.pattern@.push(c) && final(self).current_page == 0,
            k.code is Backspace ==> {
                &&& final(self).current_page == 0
                &&& final(self).match_engine.pattern@ == if old(self).match_engine.pattern@.len()
                    > 0 {
                    old(self).match_engine.pattern@.drop_last()
                } else {
                    old(self).match_engine.pattern@
                }
            },
            k.code is OtherKey ==> *final(self) == *old(self),
    {
        match k.code {
            Key::Character(c) => {
                if c == 'c' && matches!(k.modifier, KeyModifier::Control) {
                    true
                } else if c == 'u' && matches!(k.modifier, KeyModifier::Control) {
                    if self.current_page > 0 {
                        self.current_page = self.current_page - 1;
                    }
                    false
                } else if c == 'd' && matches!(k.modifier, KeyModifier::Control) {
                    if self.current_page < usize::MAX {
                        self.current_page = self.current_page + 1;
                    }
                    false
                } else {
                    push_char(&mut self.match_engine.pattern, c);
                    self.current_page = 0;
                    false
                }
            },
            Key::Backspace => {
                pop_char(&mut self.match_engine.pattern);
                self.current_page = 0;
                false
            },
            Key::Escape => true,
            Key::OtherKey => false,
        }
    }
}

/// The `i`-th column of the first `k` rows: the `i`-th element of every
/// row that is long enough, in row order.
pub open spec fn column_prefix<T>(rows: Seq<Vec<T>>, k: int, i: int) -> Seq<T>
    decreases k,
{
    if k <= 0 {
        Seq::empty()
    } else {
        column_prefix(rows, k - 1, i) + (if i < rows[k - 1]@.len() {
            seq![rows[k - 1]@[i]]
        } else {
            Seq::empty()
        })
    }
}

/// The length of the longest of the first `k` rows.
pub open spec fn max_row_len<T>(rows: Seq<Vec<T>>, k: int) -> int
    decreases k,
{
    if k <= 0 {
        0
    } else {
        let rest = max_row_len(rows, k - 1);
        if rows[k - 1]@.len() > rest {
            rows[k - 1]@.len() as int
        } else {
            rest
        }
    }
}

/// Transposes a ragged list of rows into its columns: column `i` holds
/// the `i`-th element of every row that is long enough, in row order,
/// and there are as many columns as the longest row is long.
pub fn transpose<T: Copy>(v: Vec<Vec<T>>) -> (r: Vec<Vec<T>>)
    ensures
        r@.len() == max_row_len(v@, v@.len() as int),
        forall|i: int| 0 <= i < r@.len() ==> r@[i]@ == column_prefix(v@, v@.len() as int, i),
{
    let n = v.len();
    let mut maxl: usize = 0;
    let mut j: usize = 0;
    while j < n
        invariant
            j <= n,
            n == v@.len(),
            maxl == max_row_len(v@, j as int),
        decreases n - j,
    {
        if v[j].len() > maxl {
            maxl = v[j].len();
        }
        j = j + 1;
    }
    let mut r: Vec<Vec<T>> = Vec::new();
    let mut i: usize = 0;
    while i < maxl
        invariant
            i <= maxl,
            n == v@.len(),
            maxl == max_row_len(v@, n as int),
            r@.len() == i,
            forall|i2: int| 0 <= i2 < i ==> r@[i2]@ == column_prefix(v@, n as int, i2),
        decreases maxl - i,
    {
        let mut column: Vec<T> = Vec::new();
        let mut j2: usize = 0;
        while j2 < n
            invariant
                j2 <= n,
                n == v@.len(),
                column@ == column_prefix(v@, j2 as int, i as int),
            decreases n - j2,
        {
            if i < v[j2].len() {
                column.push(v[j2][i]);
            }
            j2 = j2 + 1;
        }
        r.push(column);
        i = i + 1;
    }
    r
}

} // verus!
