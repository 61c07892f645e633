//! A parser for the Java Properties format used by `server.properties`.
//!
//! Supported syntax: `key=value`, `key: value` and `key value` separators
//! (the key ends at the first `=`, `:` or whitespace),
//! `#` and `!` comment lines, whitespace trimming around keys and values,
//! blank lines, and `\` at the end of a line to continue it on the next.

use vstd::prelude::*;
use crate::text::{
    lemma_trim_end_fixed, lemma_trim_start_fixed, chars_of, is_whitespace, is_ws, skip_ws_forward, string_from_range, trim, trim_bounds, trim_start,
};

verus! {

// ---------------------------------------------------------------------------
// The key/value store
// ---------------------------------------------------------------------------

/// The keys of a list of key/value pairs, in order.
pub open spec fn keys_of(entries: Seq<(String, String)>) -> Seq<Seq<char>> {
    entries.map_values(|e: (String, String)| e.0@)
}

/// String key/value pairs with unique keys, as read from a properties
/// file. Its view is the map from keys to values.
pub struct Properties {
    entries: Vec<(String, String)>,
    contents: Ghost<Map<Seq<char>, Seq<char>>>,
}

impl View for Properties {
    type V = Map<Seq<char>, Seq<char>>;

    closed spec fn view(&self) -> Map<Seq<char>, Seq<char>> {
        self.contents@
    }
}

impl Properties {
    /// Keys are unique and the view is exactly the pairs.
    pub closed spec fn wf(&self) -> bool {
        &&& keys_of(self.entries@).no_duplicates()
        &&& self.contents@.dom() == keys_of(self.entries@).to_set()
        &&& forall|i: int|
            0 <= i < self.entries@.len() ==> #[trigger] self.contents@[self.entries@[i].0@]
                == self.entries@[i].1@
    }

    /// The pairs, each key once, in insertion order.
    pub closed spec fn pairs(&self) -> Seq<(String, String)> {
        self.entries@
    }

    /// Finitely many keys are present.
    pub proof fn lemma_view_finite(&self)
        requires
            self.wf(),
        ensures
            self@.dom().finite(),
    {
        vstd::seq_lib::seq_to_set_is_finite(keys_of(self.entries@));
    }

    /// An empty set of properties.
    pub fn new() -> (p: Self)
        ensures
            p.wf(),
            p@ == Map::<Seq<char>, Seq<char>>::empty(),
    {
        let p = Properties { entries: Vec::new(), contents: Ghost(Map::empty()) };
        assert(keys_of(p.entries@).to_set() =~= Set::empty());
        p
    }

    /// Number of distinct keys.
    pub fn len(&self) -> (n: usize)
        requires
            self.wf(),
        ensures
            n == self@.dom().len(),
    {
        proof {
            keys_of(self.entries@).unique_seq_to_set();
        }
        self.entries.len()
    }

    /// `true` when no key is present.
    pub fn is_empty(&self) -> (b: bool)
        requires
            self.wf(),
        ensures
            b == (self@.dom().len() == 0),
    {
        self.len() == 0
    }

    /// The index of the pair whose key is `key`, if any.
    fn find(&self, key: &String) -> (r: Option<usize>)
        requires
            self.wf(),
        ensures
            r matches Some(j) ==> j < self.entries@.len() && self.entries@[j as int].0@ == key@,
            r is None ==> !self@.dom().contains(key@),
    {
        let mut j: usize = 0;
        while j < self.entries.len()
            invariant
                j <= self.entries@.len(),
                forall|t: int| 0 <= t < j ==> self.entries@[t].0@ != key@,
            decreases self.entries@.len() - j,
        {
            if self.entries[j].0 == *key {
                return Some(j);
            }
            j = j + 1;
        }
        proof {
            if self@.dom().contains(key@) {
                let ks = keys_of(self.entries@);
                assert(ks.to_set().contains(key@));
                let t = choose|t: int| 0 <= t < ks.len() && ks[t] == key@;
                assert(self.entries@[t].0@ == key@);
            }
        }
        None
    }

    /// Binds `key` to `value`, replacing an earlier value of `key`.
    pub fn insert(&mut self, key: String, value: String)
        requires
            old(self).wf(),
        ensures
            final(self).wf(),
            final(self)@ == old(self)@.insert(key@, value@),
    {
        let found = self.find(&key);
        let ghost old_entries = self.entries@;
        let ghost new_map = self.contents@.insert(key@, value@);
        match found {
            Some(j) => {
                assert(keys_of(old_entries)[j as int] == key@);
                assert(self.contents@.dom().contains(key@));
                let ghost old_dom = self.contents@.dom();
                assert(old_dom == keys_of(old_entries).to_set());
                self.entries.set(j, (key, value));
                proof {
                    assert(keys_of(self.entries@) =~= keys_of(old_entries));
                    assert(new_map.dom() =~= old_dom);
                    assert(keys_of(self.entries@).to_set() == keys_of(old_entries).to_set());
                    assert forall|i: int| 0 <= i < self.entries@.len() implies #[trigger] new_map[self.entries@[i].0@]
                        == self.entries@[i].1@ by {
                        if i != j {
                            assert(keys_of(old_entries)[i] != keys_of(old_entries)[j as int]);
                        }
                    }
                    assert(new_map.dom() =~= keys_of(self.entries@).to_set());
                }
                self.contents = Ghost(new_map);
            },
            None => {
                self.entries.push((key, value));
                proof {
                    assert(keys_of(self.entries@) =~= keys_of(old_entries).push(
                        self.entries@.last().0@,
                    ));
                    assert(!keys_of(old_entries).contains(self.entries@.last().0@));
                    keys_of(old_entries).lemma_push_to_set_commute(self.entries@.last().0@);
                    assert(new_map.dom() =~= keys_of(self.entries@).to_set());
                    assert forall|i: int| 0 <= i < self.entries@.len() implies #[trigger] new_map[self.entries@[i].0@]
                        == self.entries@[i].1@ by {
                        if i < old_entries.len() {
                            assert(keys_of(old_entries)[i] != keys_of(self.entries@).last());
                        }
                    }
                }
                self.contents = Ghost(new_map);
            },
        }
    }

    /// The value bound to `key`, if any.
    pub fn get(&self, key: &str) -> (r: Option<&String>)
        requires
            self.wf(),
        ensures
            r matches Some(v) ==> self@.dom().contains(key@) && v@ == self@[key@],
            r is None ==> !self@.dom().contains(key@),
    {
        let k = key.to_owned();
        match self.find(&k) {
            Some(j) => {
                assert(keys_of(self.entries@)[j as int] == key@);
                assert(self@[self.entries@[j as int].0@] == self.entries@[j as int].1@);
                Some(&self.entries[j].1)
            },
            None => None,
        }
    }

    /// The pairs, each key once, in insertion order.
    ///
    /// Each key occurs once, the view holds exactly these keys, and each
    /// is bound there to its pair's value.
    pub fn entries(&self) -> (r: &Vec<(String, String)>)
        requires
            self.wf(),
        ensures
            r@ == self.pairs(),
            keys_of(self.pairs()).no_duplicates(),
            self@.dom() == keys_of(self.pairs()).to_set(),
            self@.dom().finite(),
            forall|i: int|
                0 <= i < self.pairs().len() ==> #[trigger] self@[self.pairs()[i].0@]
                    == self.pairs()[i].1@,
    {
        proof {
            
            vstd::seq_lib::seq_to_set_is_finite(keys_of(self.entries@));
        }
        &self.entries
    }
}

// ---------------------------------------------------------------------------
// The format
// ---------------------------------------------------------------------------

/// Splits `s` at every line feed, carrying the current line in `cur` and
/// the finished lines in `acc`.
pub open spec fn split_from(s: Seq<char>, i: int, cur: Seq<char>, acc: Seq<Seq<char>>) -> Seq<
    Seq<char>,
>
    decreases s.len() - i,
{
    if i >= s.len() {
        acc.push(cur)
    } else if s[i] == '\n' {
        split_from(s, i + 1, Seq::empty(), acc.push(cur))
    } else {
        split_from(s, i + 1, cur.push(s[i]), acc)
    }
}

/// The lines of `s`: the pieces between line feeds. (A trailing line feed
/// leaves an empty last piece, which, being blank, is skipped like any
/// blank line; carriage returns before a line feed are whitespace and are
/// trimmed away.)
pub open spec fn split_lines(s: Seq<char>) -> Seq<Seq<char>> {
    split_from(s, 0, Seq::empty(), Seq::empty())
}

/// Blank lines and lines starting with `#` or `!` carry no property.
pub open spec fn is_skipped_line(t: Seq<char>) -> bool {
    t.len() == 0 || t[0] == '#' || t[0] == '!'
}

/// A character that ends a key: `=`, `:` or whitespace.
pub open spec fn is_key_end(c: char) -> bool {
    c == '=' || c == ':' || is_ws(c)
}

/// The first index at or after `i` holding a key end (or `s.len()`).
pub open spec fn first_key_end(s: Seq<char>, i: int) -> int
    decreases s.len() - i,
{
    if i >= s.len() {
        s.len() as int
    } else if is_key_end(s[i]) {
        i
    } else {
        first_key_end(s, i + 1)
    }
}

/// Where the key of a logical line ends: at the first `=`, `:` or
/// whitespace (`s.len()` when there is none).
pub open spec fn separator_index(s: Seq<char>) -> int {
    first_key_end(s, 0)
}

/// The key and value of a logical line, as the Java Properties format
/// reads them: the key is the text before the first `=`, `:` or
/// whitespace; after it, whitespace, at most one `=` or `:`, and more
/// whitespace are skipped, and the rest is the value. A line without any
/// of them is a key with an empty value.
pub open spec fn split_entry(s: Seq<char>) -> (Seq<char>, Seq<char>) {
    let p = separator_index(s);
    let rest = trim_start(s.skip(p));
    let value = if rest.len() > 0 && (rest[0] == '=' || rest[0] == ':') {
        trim_start(rest.skip(1))
    } else {
        rest
    };
    (s.take(p), value)
}

/// `m` after reading the logical line `s` (lines with an empty key are
/// dropped).
pub open spec fn record_entry(m: Map<Seq<char>, Seq<char>>, s: Seq<char>) -> Map<
    Seq<char>,
    Seq<char>,
> {
    let (k, v) = split_entry(s);
    if k.len() > 0 {
        m.insert(k, v)
    } else {
        m
    }
}

/// Reads `lines` from index `i` into `m`; `pending` is the logical line
/// being assembled (a line ending in `\` continues with the next line,
/// trimmed; at the end of input the `\` is just dropped).
pub open spec fn parse_from(
    lines: Seq<Seq<char>>,
    i: int,
    pending: Option<Seq<char>>,
    m: Map<Seq<char>, Seq<char>>,
) -> Map<Seq<char>, Seq<char>>
    decreases lines.len() - i, (if pending is Some {
        1int
    } else {
        0int
    }),
{
    match pending {
        None => {
            if i >= lines.len() {
                m
            } else if is_skipped_line(trim(lines[i])) {
                parse_from(lines, i + 1, None, m)
            } else {
                parse_from(lines, i + 1, Some(trim(lines[i])), m)
            }
        },
        Some(l) => {
            if l.len() > 0 && l.last() == '\\' {
                if 0 <= i < lines.len() {
                    parse_from(lines, i + 1, Some(l.drop_last() + trim(lines[i])), m)
                } else {
                    record_entry(m, l.drop_last())
                }
            } else {
                parse_from(lines, i, None, record_entry(m, l))
            }
        },
    }
}

/// The key/value map that a properties text denotes; later lines win over
/// earlier ones with the same key.
pub open spec fn spec_parse_properties(s: Seq<char>) -> Map<Seq<char>, Seq<char>> {
    parse_from(split_lines(s), 0, None, Map::empty())
}

/// A key as the parser produces it: not empty, and free of `=`, `:` and
/// whitespace (so in particular trimmed).
pub open spec fn is_parsed_key(k: Seq<char>) -> bool {
    &&& k.len() > 0
    &&& forall|t: int| 0 <= t < k.len() ==> !is_key_end(#[trigger] k[t])
}

proof fn lemma_before_key_end(s: Seq<char>, i: int, t: int)
    requires
        0 <= i <= t < first_key_end(s, i),
    ensures
        t < s.len(),
        !is_key_end(s[t]),
    decreases t - i,
{
    if i < t {
        lemma_before_key_end(s, i + 1, t);
    }
}

proof fn lemma_record_entry_keys(m: Map<Seq<char>, Seq<char>>, s: Seq<char>)
    requires
        forall|k: Seq<char>| #[trigger] m.contains_key(k) ==> is_parsed_key(k),
    ensures
        forall|k: Seq<char>| #[trigger] record_entry(m, s).contains_key(k) ==> is_parsed_key(k),
{
    let k = split_entry(s).0;
    let p = separator_index(s);
    assert forall|t: int| 0 <= t < k.len() implies !is_key_end(#[trigger] k[t]) by {
        lemma_first_key_end_bounds(s, 0);
        lemma_before_key_end(s, 0, t);
    }
}

proof fn lemma_parse_from_keys(
    lines: Seq<Seq<char>>,
    i: int,
    pending: Option<Seq<char>>,
    m: Map<Seq<char>, Seq<char>>,
)
    requires
        0 <= i,
        forall|k: Seq<char>| #[trigger] m.contains_key(k) ==> is_parsed_key(k),
    ensures
        forall|k: Seq<char>| #[trigger] parse_from(lines, i, pending, m).contains_key(k) ==> is_parsed_key(k),
    decreases lines.len() - i, (if pending is Some {
        1int
    } else {
        0int
    }),
{
    match pending {
        None => {
            if i >= lines.len() {
                assert(parse_from(lines, i, pending, m) == m);
                assert forall|k: Seq<char>| #[trigger] parse_from(lines, i, pending, m).contains_key(k) implies is_parsed_key(k) by {
                    assert(m.contains_key(k));
                }
            } else if is_skipped_line(trim(lines[i])) {
                let next = parse_from(lines, i + 1, None, m);
                assert(parse_from(lines, i, pending, m) == next);
                lemma_parse_from_keys(lines, i + 1, None, m);
                assert forall|k: Seq<char>| #[trigger] parse_from(lines, i, pending, m).contains_key(k) implies is_parsed_key(k) by {
                    assert(next.contains_key(k));
                }
            } else {
                let next = parse_from(lines, i + 1, Some(trim(lines[i])), m);
                assert(parse_from(lines, i, pending, m) == next);
                lemma_parse_from_keys(lines, i + 1, Some(trim(lines[i])), m);
                assert forall|k: Seq<char>| #[trigger] parse_from(lines, i, pending, m).contains_key(k) implies is_parsed_key(k) by {
                    assert(next.contains_key(k));
                }
            }
        },
        Some(l) => {
            if l.len() > 0 && l.last() == '\\' {
                if 0 <= i < lines.len() {
                    let next = parse_from(lines, i + 1, Some(l.drop_last() + trim(lines[i])), m);
                    assert(parse_from(lines, i, pending, m) == next);
                    lemma_parse_from_keys(lines, i + 1, Some(l.drop_last() + trim(lines[i])), m);
                    assert forall|k: Seq<char>| #[trigger] parse_from(lines, i, pending, m).contains_key(k) implies is_parsed_key(k) by {
                        assert(next.contains_key(k));
                    }
                } else {
                    let next = record_entry(m, l.drop_last());
                    assert(parse_from(lines, i, pending, m) == next);
                    lemma_record_entry_keys(m, l.drop_last());
                    assert forall|k: Seq<char>| #[trigger] parse_from(lines, i, pending, m).contains_key(k) implies is_parsed_key(k) by {
                        assert(next.contains_key(k));
                    }
                }
            } else {
                let next = parse_from(lines, i, None, record_entry(m, l));
                assert(parse_from(lines, i, pending, m) == next);
                lemma_record_entry_keys(m, l);
                lemma_parse_from_keys(lines, i, None, record_entry(m, l));
                assert forall|k: Seq<char>| #[trigger] parse_from(lines, i, pending, m).contains_key(k) implies is_parsed_key(k) by {
                    assert(next.contains_key(k));
                }
            }
        },
    }
}

/// Every key the parser reads is non-empty and holds no `=`, `:` or
/// whitespace, so it is its own trim: lines whose key would be empty add
/// nothing.
pub proof fn lemma_parsed_keys(s: Seq<char>)
    ensures
        forall|k: Seq<char>| #[trigger] spec_parse_properties(s).contains_key(k) ==> is_parsed_key(k)
            && trim(k) == k,
{
    lemma_parse_from_keys(split_lines(s), 0, None, Map::empty());
    assert forall|k: Seq<char>| #[trigger] spec_parse_properties(s).contains_key(k) implies is_parsed_key(k)
        && trim(k) == k by {
        assert(!is_key_end(k[0]));
        assert(!is_key_end(k[k.len() - 1]));
        lemma_trim_start_fixed(k);
        lemma_trim_end_fixed(k);
    }
}

/// A logical line continues on the next line when it ends with `\`.
pub open spec fn continues(l: Seq<char>) -> bool {
    l.len() > 0 && l.last() == '\\'
}

/// No line of `s` continues on the next one.
pub open spec fn no_continuation_lines(s: Seq<char>) -> bool {
    forall|t: int| 0 <= t < split_lines(s).len() ==> !continues(trim(#[trigger] split_lines(s)[t]))
}

proof fn lemma_split_shift(x: Seq<char>, i: int, y: Seq<char>, j: int, cur: Seq<char>, acc: Seq<Seq<char>>)
    requires
        0 <= i <= x.len(),
        0 <= j <= y.len(),
        x.skip(i) == y.skip(j),
    ensures
        split_from(x, i, cur, acc) == split_from(y, j, cur, acc),
    decreases x.len() - i,
{
    assert(x.skip(i).len() == x.len() - i);
    assert(y.skip(j).len() == y.len() - j);
    assert(x.len() - i == y.len() - j);
    if i < x.len() {
        assert(x[i] == x.skip(i)[0]);
        assert(y[j] == y.skip(j)[0]);
        assert(x.skip(i + 1) =~= x.skip(i).skip(1));
        assert(y.skip(j + 1) =~= y.skip(j).skip(1));
        if x[i] == '\n' {
            lemma_split_shift(x, i + 1, y, j + 1, Seq::empty(), acc.push(cur));
        } else {
            lemma_split_shift(x, i + 1, y, j + 1, cur.push(x[i]), acc);
        }
    }
}

proof fn lemma_split_acc(s: Seq<char>, i: int, cur: Seq<char>, acc: Seq<Seq<char>>)
    ensures
        split_from(s, i, cur, acc) == acc + split_from(s, i, cur, Seq::empty()),
    decreases s.len() - i,
{
    if i >= s.len() {
        assert(acc.push(cur) =~= acc + Seq::<Seq<char>>::empty().push(cur));
    } else if s[i] == '\n' {
        let rest = split_from(s, i + 1, Seq::empty(), Seq::empty());
        lemma_split_acc(s, i + 1, Seq::empty(), acc.push(cur));
        lemma_split_acc(s, i + 1, Seq::empty(), Seq::<Seq<char>>::empty().push(cur));
        assert(acc.push(cur) + rest =~= acc + (Seq::<Seq<char>>::empty().push(cur) + rest));
    } else {
        lemma_split_acc(s, i + 1, cur.push(s[i]), acc);
    }
}

proof fn lemma_split_concat(s1: Seq<char>, s2: Seq<char>, i: int, cur: Seq<char>, acc: Seq<Seq<char>>)
    requires
        s1.len() > 0,
        s1.last() == '\n',
        0 <= i <= s1.len(),
        i == s1.len() ==> cur.len() == 0,
    ensures
        split_from(s1 + s2, i, cur, acc) == split_from(s1, i, cur, acc).drop_last() + split_lines(s2),
    decreases s1.len() - i,
{
    let s = s1 + s2;
    if i == s1.len() {
        lemma_split_acc(s, i, cur, acc);
        assert(s.skip(i) =~= s2.skip(0));
        lemma_split_shift(s, i, s2, 0, cur, Seq::empty());
        assert(cur =~= Seq::<char>::empty());
        assert(acc.push(cur).drop_last() =~= acc);
    } else {
        assert(s[i] == s1[i]);
        if s1[i] == '\n' {
            lemma_split_concat(s1, s2, i + 1, Seq::empty(), acc.push(cur));
        } else {
            lemma_split_concat(s1, s2, i + 1, cur.push(s1[i]), acc);
        }
    }
}

proof fn lemma_parse_shift(
    x: Seq<Seq<char>>,
    i: int,
    y: Seq<Seq<char>>,
    j: int,
    pending: Option<Seq<char>>,
    m: Map<Seq<char>, Seq<char>>,
)
    requires
        0 <= i <= x.len(),
        0 <= j <= y.len(),
        x.skip(i) == y.skip(j),
    ensures
        parse_from(x, i, pending, m) == parse_from(y, j, pending, m),
    decreases x.len() - i, (if pending is Some {
        1int
    } else {
        0int
    }),
{
    assert(x.skip(i).len() == x.len() - i);
    assert(y.skip(j).len() == y.len() - j);
    assert(x.len() - i == y.len() - j);
    if i < x.len() {
        assert(x[i] == x.skip(i)[0]);
        assert(y[j] == y.skip(j)[0]);
        assert(x.skip(i + 1) =~= x.skip(i).skip(1));
        assert(y.skip(j + 1) =~= y.skip(j).skip(1));
    }
    match pending {
        None => {
            if i < x.len() {
                if is_skipped_line(trim(x[i])) {
                    lemma_parse_shift(x, i + 1, y, j + 1, None, m);
                } else {
                    lemma_parse_shift(x, i + 1, y, j + 1, Some(trim(x[i])), m);
                }
            }
        },
        Some(l) => {
            if continues(l) {
                if i < x.len() {
                    lemma_parse_shift(x, i + 1, y, j + 1, Some(l.drop_last() + trim(x[i])), m);
                }
            } else {
                lemma_parse_shift(x, i, y, j, None, record_entry(m, l));
            }
        },
    }
}

proof fn lemma_parse_acc(
    lines: Seq<Seq<char>>,
    i: int,
    pending: Option<Seq<char>>,
    m: Map<Seq<char>, Seq<char>>,
)
    requires
        0 <= i,
    ensures
        parse_from(lines, i, pending, m) == m.union_prefer_right(
            parse_from(lines, i, pending, Map::empty()),
        ),
    decreases lines.len() - i, (if pending is Some {
        1int
    } else {
        0int
    }),
{
    let e = Map::<Seq<char>, Seq<char>>::empty();
    match pending {
        None => {
            if i >= lines.len() {
                assert(m =~= m.union_prefer_right(e));
            } else if is_skipped_line(trim(lines[i])) {
                lemma_parse_acc(lines, i + 1, None, m);
                lemma_parse_acc(lines, i + 1, None, e);
            } else {
                lemma_parse_acc(lines, i + 1, Some(trim(lines[i])), m);
                lemma_parse_acc(lines, i + 1, Some(trim(lines[i])), e);
            }
        },
        Some(l) => {
            if continues(l) {
                if i < lines.len() {
                    lemma_parse_acc(lines, i + 1, Some(l.drop_last() + trim(lines[i])), m);
                    lemma_parse_acc(lines, i + 1, Some(l.drop_last() + trim(lines[i])), e);
                } else {
                    assert(record_entry(m, l.drop_last()) =~= m.union_prefer_right(
                        record_entry(e, l.drop_last()),
                    ));
                }
            } else {
                let rest = parse_from(lines, i, None, e);
                lemma_parse_acc(lines, i, None, record_entry(m, l));
                lemma_parse_acc(lines, i, None, record_entry(e, l));
                assert(record_entry(m, l).union_prefer_right(rest) =~= m.union_prefer_right(
                    record_entry(e, l).union_prefer_right(rest),
                ));
            }
        },
    }
}

proof fn lemma_parse_concat(
    a: Seq<Seq<char>>,
    b: Seq<Seq<char>>,
    i: int,
    m: Map<Seq<char>, Seq<char>>,
)
    requires
        0 <= i <= a.len(),
        forall|t: int| 0 <= t < a.len() ==> !continues(trim(#[trigger] a[t])),
    ensures
        parse_from(a + b, i, None, m) == parse_from(b, 0, None, parse_from(a, i, None, m)),
    decreases a.len() - i,
{
    let x = a + b;
    if i == a.len() {
        assert(x.skip(i) =~= b.skip(0));
        lemma_parse_shift(x, i, b, 0, None, m);
    } else {
        assert(x[i] == a[i]);
        let t = trim(a[i]);
        assert(!continues(t));
        if is_skipped_line(t) {
            lemma_parse_concat(a, b, i + 1, m);
        } else {
            assert(parse_from(x, i + 1, Some(t), m) == parse_from(x, i + 1, None, record_entry(m, t)));
            assert(parse_from(a, i + 1, Some(t), m) == parse_from(a, i + 1, None, record_entry(m, t)));
            lemma_parse_concat(a, b, i + 1, record_entry(m, t));
        }
    }
}

/// Reading one text after another: when the first ends with a line feed
/// and none of its lines continues on the next, the keys of the second
/// override those of the first and the others are kept. (So a later line
/// wins over an earlier one with the same key.)
pub proof fn lemma_parse_override(s1: Seq<char>, s2: Seq<char>)
    requires
        s1.len() > 0,
        s1.last() == '\n',
        no_continuation_lines(s1),
    ensures
        spec_parse_properties(s1 + s2) == spec_parse_properties(s1).union_prefer_right(
            spec_parse_properties(s2),
        ),
{
    let e = Map::<Seq<char>, Seq<char>>::empty();
    let l1 = split_lines(s1);
    let a = l1.drop_last();
    let b = split_lines(s2);
    lemma_split_concat(s1, s2, 0, Seq::empty(), Seq::empty());
    lemma_split_concat(s1, Seq::empty(), 0, Seq::empty(), Seq::empty());
    assert(s1 + Seq::<char>::empty() =~= s1);
    let empty_lines = split_lines(Seq::<char>::empty());
    assert(empty_lines == Seq::<Seq<char>>::empty().push(Seq::<char>::empty()));
    assert(l1 == a + empty_lines);
    assert forall|t: int| 0 <= t < a.len() implies !continues(trim(#[trigger] a[t])) by {
        assert(a[t] == l1[t]);
    }
    let pa = parse_from(a, 0, None, e);
    lemma_parse_concat(a, b, 0, e);
    lemma_parse_acc(b, 0, None, pa);
    lemma_parse_concat(a, empty_lines, 0, e);
    assert(trim(empty_lines[0]) =~= Seq::<char>::empty());
    assert(parse_from(empty_lines, 0, None, pa) == parse_from(empty_lines, 1, None, pa));
}

// ---------------------------------------------------------------------------
// The parser
// ---------------------------------------------------------------------------

/// The views of a list of character vectors.
pub open spec fn views_of(v: Seq<Vec<char>>) -> Seq<Seq<char>> {
    v.map_values(|l: Vec<char>| l@)
}

fn split_lines_exec(s: &Vec<char>) -> (lines: Vec<Vec<char>>)
    ensures
        views_of(lines@) == split_lines(s@),
{
    let mut lines: Vec<Vec<char>> = Vec::new();
    let mut cur: Vec<char> = Vec::new();
    let mut i: usize = 0;
    assert(views_of(lines@) =~= Seq::<Seq<char>>::empty());
    assert(cur@ =~= Seq::<char>::empty());
    while i < s.len()
        invariant
            i <= s.len(),
            split_from(s@, i as int, cur@, views_of(lines@)) == split_lines(s@),
        decreases s.len() - i,
    {
        if s[i] == '\n' {
            let ghost before = views_of(lines@);
            let finished = cur;
            cur = Vec::new();
            lines.push(finished);
            assert(views_of(lines@) =~= before.push(finished@));
            assert(cur@ =~= Seq::<char>::empty());
        } else {
            cur.push(s[i]);
        }
        i = i + 1;
    }
    let ghost before = views_of(lines@);
    lines.push(cur);
    assert(views_of(lines@) =~= before.push(lines@.last()@));
    lines
}

/// `first_key_end` from `i` to the end.
fn find_key_end(v: &Vec<char>, i: usize) -> (r: usize)
    requires
        i <= v.len(),
    ensures
        r as int == first_key_end(v@, i as int),
    decreases v.len() - i,
{
    if i >= v.len() {
        v.len()
    } else if v[i] == '=' || v[i] == ':' || is_whitespace(v[i]) {
        i
    } else {
        find_key_end(v, i + 1)
    }
}

proof fn lemma_first_key_end_bounds(s: Seq<char>, i: int)
    requires
        0 <= i <= s.len(),
    ensures
        i <= first_key_end(s, i) <= s.len(),
    decreases s.len() - i,
{
    if i < s.len() && !is_key_end(s[i]) {
        lemma_first_key_end_bounds(s, i + 1);
    }
}

/// Splits the logical line `v` into its key and value.
fn split_entry_exec(v: &Vec<char>) -> (r: (String, String))
    ensures
        (r.0@, r.1@) == split_entry(v@),
{
    proof {
        lemma_first_key_end_bounds(v@, 0);
    }
    let n = v.len();
    let p = find_key_end(v, 0);
    let a = skip_ws_forward(v, p, n);
    assert(v@.skip(p as int) =~= v@.subrange(p as int, n as int));
    assert(v@.take(p as int) =~= v@.subrange(0, p as int));
    let key = string_from_range(v, 0, p);
    if a < n && (v[a] == '=' || v[a] == ':') {
        let b = skip_ws_forward(v, a + 1, n);
        assert(v@.subrange(a as int, n as int).skip(1) =~= v@.subrange(a + 1, n as int));
        (key, string_from_range(v, b, n))
    } else {
        (key, string_from_range(v, a, n))
    }
}

/// Stores the entry of the logical line `v` (if its key is not empty).
fn record_entry_exec(props: &mut Properties, v: &Vec<char>)
    requires
        old(props).wf(),
    ensures
        final(props).wf(),
        final(props)@ == record_entry(old(props)@, v@),
{
    let (k, val) = split_entry_exec(v);
    if !k.as_str().is_empty() {
        props.insert(k, val);
    }
}

/// Appends `trim(line)` to `logical`.
fn append_trimmed(logical: &mut Vec<char>, line: &Vec<char>)
    ensures
        final(logical)@ == old(logical)@ + trim(line@),
{
    let (c, d) = trim_bounds(line, 0, line.len());
    assert(line@.subrange(0, line@.len() as int) =~= line@);
    let mut u = c;
    while u < d
        invariant
            c <= u <= d <= line@.len(),
            trim(line@) == line@.subrange(c as int, d as int),
            logical@ == old(logical)@ + line@.subrange(c as int, u as int),
        decreases d - u,
    {
        logical.push(line[u]);
        assert(line@.subrange(c as int, u + 1) =~= line@.subrange(c as int, u as int).push(
            line@[u as int],
        ));
        u = u + 1;
    }
}

/// Joins continuation lines onto `logical` (which starts a logical line and
/// whose physical lines end before `i`), then records the result.
fn finish_logical_line(
    props: &mut Properties,
    lines: &Vec<Vec<char>>,
    i: usize,
    logical: Vec<char>,
    Ghost(target): Ghost<Map<Seq<char>, Seq<char>>>,
) -> (next: usize)
    requires
        i <= lines@.len(),
        old(props).wf(),
        parse_from(views_of(lines@), i as int, Some(logical@), old(props)@) == target,
    ensures
        final(props).wf(),
        i <= next <= lines@.len(),
        parse_from(views_of(lines@), next as int, None, final(props)@) == target,
{
    let ghost ls = views_of(lines@);
    let n = lines.len();
    let ghost i0 = i;
    let mut logical = logical;
    let mut i = i;
    let mut done = false;
    while !done && logical.len() > 0 && logical[logical.len() - 1] == '\\'
        invariant
            i0 <= i <= n,
            done ==> i == n,
            *props == *old(props),
            n == lines@.len(),
            ls == views_of(lines@),
            !done ==> parse_from(ls, i as int, Some(logical@), old(props)@) == target,
            done ==> record_entry(old(props)@, logical@) == target,
        decreases n - i + (if done {
            0int
        } else {
            1int
        }),
    {
        let ghost before = logical@;
        logical.pop();
        assert(logical@ =~= before.drop_last());
        if i < n {
            assert(ls[i as int] == lines@[i as int]@);
            append_trimmed(&mut logical, &lines[i]);
            i = i + 1;
        } else {
            done = true;
        }
    }
    record_entry_exec(props, &logical);
    proof {
        if !done {
            assert(parse_from(ls, i as int, Some(logical@), old(props)@) == parse_from(
                ls,
                i as int,
                None,
                record_entry(old(props)@, logical@),
            ));
        }
    }
    i
}

/// Parses a Java Properties format string into key-value pairs.
///
/// Supports `key=value`, `key: value` and `key value` separators, `#` and
/// `!` comment lines, trimming of whitespace around keys and values, blank
/// lines, and `\` at the end of a line to continue on the next line. When a
/// key occurs more than once the last value wins.
pub fn parse_properties(input: &str) -> (props: Properties)
    ensures
        props.wf(),
        props@ == spec_parse_properties(input@),
{
    let chars = chars_of(input);
    let lines = split_lines_exec(&chars);
    let ghost ls = views_of(lines@);
    let ghost target = spec_parse_properties(input@);
    let n = lines.len();
    let mut props = Properties::new();
    let mut i: usize = 0;
    while i < n
        invariant
            i <= n,
            n == lines@.len(),
            ls == views_of(lines@),
            ls == split_lines(input@),
            props.wf(),
            parse_from(ls, i as int, None, props@) == target,
        decreases n - i,
    {
        let line = &lines[i];
        assert(ls[i as int] == line@);
        let (a, b) = trim_bounds(line, 0, line.len());
        assert(line@.subrange(0, line@.len() as int) =~= line@);
        if a == b || line[a] == '#' || line[a] == '!' {
            i = i + 1;
        } else {
            let mut logical: Vec<char> = Vec::new();
            append_trimmed(&mut logical, line);
            assert(logical@ =~= trim(line@));
            i = finish_logical_line(&mut props, &lines, i + 1, logical, Ghost(target));
        }
    }
    props
}

} // verus!
