//! Saving a configuration and loading it back gives the same
//! configuration: the text [`ServerConfig::to_properties_text`] writes is
//! read back by [`parse_properties`] into exactly the values it was written
//! from.

use vstd::prelude::*;
use crate::config::{pair_lines, property_line};
use crate::sorting::{
    is_sorted_listing, lemma_lt_irreflexive, lemma_lt_total, lemma_lt_transitive, seq_lt, spec_sorted_entries,
};
use crate::properties::{
    first_key_end, is_key_end, is_skipped_line, parse_from, record_entry, separator_index, split_entry, split_from,
    split_lines, spec_parse_properties,
};
use crate::text::{
    all_digits, digit_char, digit_value, digits_value, int_digits, is_digit, is_ws, lemma_trim_end_fixed, lemma_trim_start_fixed,
    nat_digits, padded_digits, spec_parse_int, trim, trim_end, trim_start,
};

verus! {

// ---------------------------------------------------------------------------
// Texts made of lines
// ---------------------------------------------------------------------------

/// The lines `ls`, each followed by a line feed.
pub open spec fn lines_text(ls: Seq<Seq<char>>) -> Seq<char>
    decreases ls.len(),
{
    if ls.len() == 0 {
        Seq::empty()
    } else {
        lines_text(ls.drop_last()) + ls.last().push('\n')
    }
}

/// `s` holds no line feed.
pub open spec fn no_newline(s: Seq<char>) -> bool {
    forall|i: int| 0 <= i < s.len() ==> s[i] != '\n'
}

/// The text of two line lists one after the other.
pub proof fn lemma_lines_text_append(a: Seq<Seq<char>>, b: Seq<Seq<char>>)
    ensures
        lines_text(a + b) == lines_text(a) + lines_text(b),
    decreases b.len(),
{
    if b.len() == 0 {
        assert(a + b =~= a);
        assert(lines_text(a) + lines_text(b) =~= lines_text(a));
    } else {
        lemma_lines_text_append(a, b.drop_last());
        assert((a + b).drop_last() =~= a + b.drop_last());
        assert((a + b).last() == b.last());
        assert(lines_text(a + b) =~= lines_text(a) + lines_text(b));
    }
}

/// Splitting runs over a stretch without line feeds into the current line.
proof fn lemma_split_run(s: Seq<char>, i: int, j: int, cur: Seq<char>, acc: Seq<Seq<char>>)
    requires
        0 <= i <= j <= s.len(),
        forall|t: int| i <= t < j ==> s[t] != '\n',
    ensures
        split_from(s, i, cur, acc) == split_from(s, j, cur + s.subrange(i, j), acc),
    decreases j - i,
{
    if i < j {
        lemma_split_run(s, i + 1, j, cur.push(s[i]), acc);
        assert(cur.push(s[i]) + s.subrange(i + 1, j) =~= cur + s.subrange(i, j));
    } else {
        assert(cur + s.subrange(i, j) =~= cur);
    }
}

/// Splitting a text that continues with the lines `ls` and then a last
/// piece `tail` without line feed yields those lines and that piece.
proof fn lemma_split_lines_from(s: Seq<char>, i: int, ls: Seq<Seq<char>>, tail: Seq<char>, acc: Seq<Seq<char>>)
    requires
        0 <= i <= s.len(),
        s.skip(i) == lines_text(ls) + tail,
        forall|t: int| 0 <= t < ls.len() ==> no_newline(#[trigger] ls[t]),
        no_newline(tail),
    ensures
        split_from(s, i, Seq::empty(), acc) == acc + ls + seq![tail],
    decreases ls.len(),
{
    if ls.len() == 0 {
        assert(s.skip(i) =~= tail);
        assert forall|t: int| i <= t < s.len() implies s[t] != '\n' by {
            assert(s[t] == s.skip(i)[t - i]);
        }
        lemma_split_run(s, i, s.len() as int, Seq::empty(), acc);
        assert(Seq::<char>::empty() + s.subrange(i, s.len() as int) =~= tail);
        assert(acc + ls + seq![tail] =~= acc.push(tail));
    } else {
        let first = ls[0];
        let rest = ls.drop_first();
        assert(lines_text(ls) == first.push('\n') + lines_text(rest)) by {
            lemma_lines_text_append(seq![first], rest);
            assert(seq![first] + rest =~= ls);
            assert(seq![first].drop_last() =~= Seq::<Seq<char>>::empty());
            assert(lines_text(Seq::<Seq<char>>::empty()) == Seq::<char>::empty());
            assert(lines_text(seq![first]) == lines_text(seq![first].drop_last()) + seq![first].last().push(
                '\n',
            ));
            assert(lines_text(seq![first]) =~= first.push('\n'));
        }
        let j = i + first.len();
        assert(s.skip(i) =~= first.push('\n') + (lines_text(rest) + tail));
        assert forall|t: int| i <= t < j implies s[t] != '\n' by {
            assert(s[t] == s.skip(i)[t - i]);
            assert(s.skip(i)[t - i] == first[t - i]);
            assert(no_newline(ls[0]));
        }
        lemma_split_run(s, i, j, Seq::empty(), acc);
        assert(Seq::<char>::empty() + s.subrange(i, j) =~= first);
        assert(s[j] == s.skip(i)[first.len() as int]);
        assert(s[j] == '\n');
        let x = lines_text(rest) + tail;
        assert(s.skip(i).len() == s.len() - i);
        assert(s.skip(j + 1).len() == x.len());
        assert forall|t: int| 0 <= t < x.len() implies s.skip(j + 1)[t] == x[t] by {
            assert(s.skip(j + 1)[t] == s[j + 1 + t]);
            assert(s[j + 1 + t] == s.skip(i)[first.len() + 1 + t]);
            assert((first.push('\n') + x)[first.len() + 1 + t] == x[t]);
        }
        assert(s.skip(j + 1) =~= x);
        assert forall|t: int| 0 <= t < rest.len() implies no_newline(#[trigger] rest[t]) by {
            assert(rest[t] == ls[t + 1]);
        }
        lemma_split_lines_from(s, j + 1, rest, tail, acc.push(first));
        assert(acc.push(first) + rest + seq![tail] =~= acc + ls + seq![tail]);
    }
}

/// The lines of a text made of lines without line feeds are those lines,
/// followed by the empty piece after the last line feed.
pub proof fn lemma_split_lines_text(ls: Seq<Seq<char>>)
    requires
        forall|t: int| 0 <= t < ls.len() ==> no_newline(#[trigger] ls[t]),
    ensures
        split_lines(lines_text(ls)) == ls.push(Seq::empty()),
{
    let s = lines_text(ls);
    assert(s.skip(0) =~= lines_text(ls) + Seq::<char>::empty());
    lemma_split_lines_from(s, 0, ls, Seq::empty(), Seq::empty());
    assert(Seq::<Seq<char>>::empty() + ls + seq![Seq::<char>::empty()] =~= ls.push(Seq::empty()));
}

// ---------------------------------------------------------------------------
// Parsing line by line
// ---------------------------------------------------------------------------

/// What one line does to the map when it does not continue onto the next:
/// skipped lines do nothing, the others record their entry.
pub open spec fn line_effect(m: Map<Seq<char>, Seq<char>>, l: Seq<char>) -> Map<Seq<char>, Seq<char>> {
    if is_skipped_line(trim(l)) {
        m
    } else {
        record_entry(m, trim(l))
    }
}

/// The lines from index `i` applied to `m` in order.
pub open spec fn fold_lines(lines: Seq<Seq<char>>, i: int, m: Map<Seq<char>, Seq<char>>) -> Map<
    Seq<char>,
    Seq<char>,
>
    decreases lines.len() - i,
{
    if i >= lines.len() {
        m
    } else {
        fold_lines(lines, i + 1, line_effect(m, lines[i]))
    }
}

/// A line that does not continue onto the next: it is skipped, or its
/// trimmed text does not end with `\`.
pub open spec fn single_line(l: Seq<char>) -> bool {
    is_skipped_line(trim(l)) || trim(l).last() != '\\'
}

/// When no line continues onto the next, parsing reads the lines one by
/// one.
pub proof fn lemma_parse_fold(lines: Seq<Seq<char>>, i: int, m: Map<Seq<char>, Seq<char>>)
    requires
        0 <= i <= lines.len(),
        forall|t: int| i <= t < lines.len() ==> single_line(#[trigger] lines[t]),
    ensures
        parse_from(lines, i, None, m) == fold_lines(lines, i, m),
    decreases lines.len() - i,
{
    if i < lines.len() {
        let l = lines[i];
        assert(single_line(l));
        lemma_parse_fold(lines, i + 1, line_effect(m, l));
        if !is_skipped_line(trim(l)) {
            let tl = trim(l);
            assert(tl.len() > 0 && tl.last() != '\\');
            assert(parse_from(lines, i, None, m) == parse_from(lines, i + 1, Some(tl), m));
            assert(parse_from(lines, i + 1, Some(tl), m) == parse_from(
                lines,
                i + 1,
                None,
                record_entry(m, tl),
            ));
        } else {
            assert(parse_from(lines, i, None, m) == parse_from(lines, i + 1, None, m));
        }
        assert(fold_lines(lines, i, m) == fold_lines(lines, i + 1, line_effect(m, l)));
    }
}

// ---------------------------------------------------------------------------
// Key/value lines
// ---------------------------------------------------------------------------

/// The text of a `key=value` line, without its line feed.
pub open spec fn kv_line(k: Seq<char>, v: Seq<char>) -> Seq<char> {
    k + seq!['='] + v
}

/// A value that is read back unchanged: no line feed, no whitespace at
/// either end, and no `\` at the end.
pub open spec fn clean_value(v: Seq<char>) -> bool {
    &&& no_newline(v)
    &&& v.len() > 0 ==> !is_ws(v[0]) && !is_ws(v.last()) && v.last() != '\\'
}

/// A key that is read back unchanged: not empty, no line feed, `=`, `:`
/// or whitespace, and not starting a comment.
pub open spec fn clean_key(k: Seq<char>) -> bool {
    &&& k.len() > 0
    &&& forall|i: int| 0 <= i < k.len() ==> k[i] != '\n' && k[i] != '=' && k[i] != ':' && !is_ws(k[i])
    &&& k[0] != '#'
    &&& k[0] != '!'
}

proof fn lemma_first_key_end_skips(s: Seq<char>, i: int, p: int)
    requires
        0 <= i <= p < s.len(),
        s[p] == '=',
        forall|t: int| i <= t < p ==> !is_key_end(s[t]),
    ensures
        first_key_end(s, i) == p,
    decreases p - i,
{
    if i < p {
        lemma_first_key_end_skips(s, i + 1, p);
    }
}

/// A clean `key=value` line is read as that key and value.
pub proof fn lemma_kv_line(m: Map<Seq<char>, Seq<char>>, k: Seq<char>, v: Seq<char>)
    requires
        clean_key(k),
        clean_value(v),
    ensures
        no_newline(kv_line(k, v)),
        single_line(kv_line(k, v)),
        line_effect(m, kv_line(k, v)) == m.insert(k, v),
{
    let l = kv_line(k, v);
    assert(l[0] == k[0]);
    assert(l.last() == if v.len() > 0 {
        v.last()
    } else {
        '='
    });
    lemma_trim_start_fixed(l);
    lemma_trim_end_fixed(l);
    assert(trim(l) == l);
    assert forall|t: int| 0 <= t < l.len() implies l[t] != '\n' by {
        if t < k.len() {
            assert(l[t] == k[t]);
        } else if t > k.len() {
            assert(l[t] == v[t - k.len() - 1]);
        }
    }
    assert(l[k.len() as int] == '=');
    assert forall|t: int| 0 <= t < k.len() implies !is_key_end(l[t]) by {
        assert(l[t] == k[t]);
    }
    lemma_first_key_end_skips(l, 0, k.len() as int);
    assert(separator_index(l) == k.len());
    assert(l.take(k.len() as int) =~= k);
    let rest = l.skip(k.len() as int);
    assert(rest[0] == '=');
    lemma_trim_start_fixed(rest);
    assert(rest.skip(1) =~= v);
    lemma_trim_start_fixed(v);
    assert(split_entry(l) == (k, v));
}

/// A line that is skipped: blank, or a comment.
pub proof fn lemma_comment_line(m: Map<Seq<char>, Seq<char>>, l: Seq<char>)
    requires
        l.len() == 0 || l[0] == '#',
    ensures
        single_line(l),
        line_effect(m, l) == m,
{
    lemma_trim_start_fixed(l);
    if l.len() > 0 {
        assert(!is_ws('#'));
        assert(trim_start(l) == l);
        let t = trim_end(l);
        lemma_trim_end_prefix(l);
    }
}

/// `trim_end` keeps the first character of a text whose first character is
/// not whitespace.
proof fn lemma_trim_end_prefix(l: Seq<char>)
    requires
        l.len() > 0,
        !is_ws(l[0]),
    ensures
        trim_end(l).len() > 0,
        trim_end(l)[0] == l[0],
    decreases l.len(),
{
    if is_ws(l.last()) {
        assert(l.len() > 1);
        lemma_trim_end_prefix(l.drop_last());
    }
}

// ---------------------------------------------------------------------------
// Maps built by insertions
// ---------------------------------------------------------------------------

/// `m` with the pairs inserted in order.
pub open spec fn insert_all(m: Map<Seq<char>, Seq<char>>, pairs: Seq<(Seq<char>, Seq<char>)>) -> Map<
    Seq<char>,
    Seq<char>,
>
    decreases pairs.len(),
{
    if pairs.len() == 0 {
        m
    } else {
        insert_all(m, pairs.drop_last()).insert(pairs.last().0, pairs.last().1)
    }
}

/// The keys of a list of pairs.
pub open spec fn pair_keys(pairs: Seq<(Seq<char>, Seq<char>)>) -> Seq<Seq<char>> {
    pairs.map_values(|p: (Seq<char>, Seq<char>)| p.0)
}

/// Inserting pairs with distinct keys: each key gets its pair's value and
/// every other key keeps its value.
pub proof fn lemma_insert_all(m: Map<Seq<char>, Seq<char>>, pairs: Seq<(Seq<char>, Seq<char>)>)
    requires
        pair_keys(pairs).no_duplicates(),
    ensures
        forall|i: int|
            0 <= i < pairs.len() ==> #[trigger] insert_all(m, pairs).contains_key(pairs[i].0) && insert_all(
                m,
                pairs,
            )[pairs[i].0] == pairs[i].1,
        forall|k: Seq<char>|
            !pair_keys(pairs).contains(k) ==> (#[trigger] insert_all(m, pairs).contains_key(k)
                == m.contains_key(k) && (m.contains_key(k) ==> insert_all(m, pairs)[k] == m[k])),
    decreases pairs.len(),
{
    if pairs.len() > 0 {
        let init = pairs.drop_last();
        assert(pair_keys(init) =~= pair_keys(pairs).drop_last());
        assert forall|a: int, b: int|
            0 <= a < pair_keys(init).len() && 0 <= b < pair_keys(init).len() && a != b implies pair_keys(
            init,
        )[a] != pair_keys(init)[b] by {
            assert(pair_keys(init)[a] == pair_keys(pairs)[a]);
            assert(pair_keys(init)[b] == pair_keys(pairs)[b]);
        }
        lemma_insert_all(m, init);
        let last = pairs.last();
        let n = pairs.len() - 1;
        assert(insert_all(m, pairs) == insert_all(m, init).insert(last.0, last.1));
        assert(pair_keys(pairs)[n] == last.0);
        assert forall|i: int| 0 <= i < pairs.len() implies #[trigger] insert_all(m, pairs).contains_key(
            pairs[i].0,
        ) && insert_all(m, pairs)[pairs[i].0] == pairs[i].1 by {
            if i < n {
                assert(init[i] == pairs[i]);
                assert(pair_keys(pairs)[i] == pairs[i].0);
                assert(pair_keys(pairs)[i] != pair_keys(pairs)[n]);
                assert(insert_all(m, init).contains_key(init[i].0));
            }
        }
        assert forall|k: Seq<char>| !pair_keys(pairs).contains(k) implies (#[trigger] insert_all(
            m,
            pairs,
        ).contains_key(k) == m.contains_key(k) && (m.contains_key(k) ==> insert_all(m, pairs)[k]
            == m[k])) by {
            assert(k != last.0);
            if pair_keys(init).contains(k) {
                let j = choose|j: int| 0 <= j < pair_keys(init).len() && pair_keys(init)[j] == k;
                assert(pair_keys(pairs)[j] == k);
            }
            assert(insert_all(m, init).contains_key(k) == m.contains_key(k));
        }
    }
}

/// The lines of a list of pairs.
pub open spec fn kv_lines(pairs: Seq<(Seq<char>, Seq<char>)>) -> Seq<Seq<char>> {
    pairs.map_values(|p: (Seq<char>, Seq<char>)| kv_line(p.0, p.1))
}

/// Folding clean `key=value` lines inserts their pairs.
pub proof fn lemma_fold_kv_lines(
    lines: Seq<Seq<char>>,
    i: int,
    end: int,
    m: Map<Seq<char>, Seq<char>>,
    pairs: Seq<(Seq<char>, Seq<char>)>,
    done: Seq<(Seq<char>, Seq<char>)>,
)
    requires
        0 <= i <= end <= lines.len(),
        lines.subrange(i, end) == kv_lines(pairs.skip(done.len() as int)),
        done.len() <= pairs.len(),
        done == pairs.take(done.len() as int),
        forall|t: int| 0 <= t < pairs.len() ==> clean_key(#[trigger] pairs[t].0) && clean_value(pairs[t].1),
    ensures
        fold_lines(lines, i, insert_all(m, done)) == fold_lines(lines, end, insert_all(m, pairs)),
    decreases end - i,
{
    let rest = pairs.skip(done.len() as int);
    assert(kv_lines(rest).len() == rest.len());
    assert(lines.subrange(i, end).len() == end - i);
    if done.len() == pairs.len() {
        assert(done =~= pairs);
        assert(i == end);
    } else {
        let p = pairs[done.len() as int];
        assert(rest[0] == p);
        assert(kv_lines(rest)[0] == kv_line(p.0, p.1));
        assert(lines.subrange(i, end)[0] == lines[i]);
        lemma_kv_line(insert_all(m, done), p.0, p.1);
        let done2 = pairs.take(done.len() as int + 1);
        assert(done2.drop_last() =~= done);
        assert(done2.last() == p);
        let rest2 = pairs.skip(done2.len() as int);
        assert(kv_lines(rest2).len() == rest2.len());
        assert forall|t: int| 0 <= t < kv_lines(rest2).len() implies lines.subrange(i + 1, end)[t]
            == kv_lines(rest2)[t] by {
            assert(lines.subrange(i + 1, end)[t] == lines[i + 1 + t]);
            assert(lines[i + 1 + t] == lines.subrange(i, end)[1 + t]);
            assert(rest2[t] == rest[1 + t]);
            assert(kv_lines(rest)[1 + t] == kv_line(rest[1 + t].0, rest[1 + t].1));
        }
        assert(lines.subrange(i + 1, end) =~= kv_lines(rest2));
        lemma_fold_kv_lines(lines, i + 1, end, m, pairs, done2);
    }
}

/// Folding lines that are all skipped changes nothing.
pub proof fn lemma_fold_comments(lines: Seq<Seq<char>>, i: int, end: int, m: Map<Seq<char>, Seq<char>>)
    requires
        0 <= i <= end <= lines.len(),
        forall|t: int| i <= t < end ==> (#[trigger] lines[t]).len() == 0 || lines[t][0] == '#',
    ensures
        fold_lines(lines, i, m) == fold_lines(lines, end, m),
    decreases end - i,
{
    if i < end {
        lemma_comment_line(m, lines[i]);
        lemma_fold_comments(lines, i + 1, end, m);
    }
}

/// The lines of a list of pairs, once more.
pub proof fn lemma_pair_lines_push(pairs: Seq<(Seq<char>, Seq<char>)>, p: (Seq<char>, Seq<char>))
    ensures
        pair_lines(pairs.push(p)) == pair_lines(pairs) + property_line(p.0, p.1),
{
    assert(pairs.push(p).drop_last() =~= pairs);
}

/// The lines of a list of pairs as a text of lines.
pub proof fn lemma_pair_lines_text(pairs: Seq<(Seq<char>, Seq<char>)>)
    ensures
        pair_lines(pairs) == lines_text(kv_lines(pairs)),
    decreases pairs.len(),
{
    if pairs.len() > 0 {
        lemma_pair_lines_text(pairs.drop_last());
        assert(kv_lines(pairs).drop_last() =~= kv_lines(pairs.drop_last()));
        assert(kv_lines(pairs).last() == kv_line(pairs.last().0, pairs.last().1));
        assert(property_line(pairs.last().0, pairs.last().1) =~= kv_line(pairs.last().0, pairs.last().1).push(
            '\n',
        ));
        assert(pair_lines(pairs) =~= lines_text(kv_lines(pairs)));
    } else {
        assert(kv_lines(pairs) =~= Seq::<Seq<char>>::empty());
    }
}

/// Inserting one more pair.
pub proof fn lemma_insert_all_push(
    m: Map<Seq<char>, Seq<char>>,
    pairs: Seq<(Seq<char>, Seq<char>)>,
    p: (Seq<char>, Seq<char>),
)
    ensures
        insert_all(m, pairs.push(p)) == insert_all(m, pairs).insert(p.0, p.1),
{
    assert(pairs.push(p).drop_last() =~= pairs);
}

/// The keys of a sorted listing are distinct, and they are exactly the
/// keys of the map.
pub proof fn lemma_sorted_listing_keys(s: Seq<(Seq<char>, Seq<char>)>, m: Map<Seq<char>, Seq<char>>)
    requires
        is_sorted_listing(s, m),
    ensures
        pair_keys(s).no_duplicates(),
        forall|k: Seq<char>| #[trigger] pair_keys(s).contains(k) == m.contains_key(k),
        forall|i: int| 0 <= i < s.len() ==> #[trigger] m[s[i].0] == s[i].1,
{
    assert forall|a: int, b: int|
        0 <= a < pair_keys(s).len() && 0 <= b < pair_keys(s).len() && a != b implies pair_keys(s)[a]
        != pair_keys(s)[b] by {
        assert(pair_keys(s)[a] == s[a].0);
        assert(pair_keys(s)[b] == s[b].0);
        if a < b {
            assert(seq_lt(s[a].0, s[b].0));
            lemma_lt_irreflexive(s[a].0);
        } else {
            assert(seq_lt(s[b].0, s[a].0));
            lemma_lt_irreflexive(s[b].0);
        }
    }
    assert forall|k: Seq<char>| #[trigger] pair_keys(s).contains(k) == m.contains_key(k) by {
        if pair_keys(s).contains(k) {
            let i = choose|i: int| 0 <= i < pair_keys(s).len() && pair_keys(s)[i] == k;
            assert(s[i].0 == k);
        }
        if m.contains_key(k) {
            let i = choose|i: int| 0 <= i < s.len() && #[trigger] s[i].0 == k;
            assert(pair_keys(s)[i] == k);
        }
    }
}

/// `a` sorts before `b` when they agree on their first `d` characters and
/// then `a` ends or has the smaller character.
pub proof fn lemma_lt_at(a: Seq<char>, b: Seq<char>, d: int)
    requires
        0 <= d <= a.len(),
        d <= b.len(),
        a.take(d) == b.take(d),
        (d == a.len() && d < b.len()) || (d < a.len() && d < b.len() && (a[d] as int) < (b[d] as int)),
    ensures
        seq_lt(a, b),
    decreases d,
{
    if d > 0 {
        assert(a[0] == a.take(d)[0]);
        assert(b[0] == b.take(d)[0]);
        assert(a.drop_first().take(d - 1) =~= b.drop_first().take(d - 1)) by {
            assert forall|t: int| 0 <= t < d - 1 implies #[trigger] a.drop_first().take(d - 1)[t]
                == b.drop_first().take(d - 1)[t] by {
                assert(a.take(d)[t + 1] == b.take(d)[t + 1]);
                assert(a.take(d)[t + 1] == a[t + 1]);
                assert(b.take(d)[t + 1] == b[t + 1]);
                assert(a.drop_first().take(d - 1)[t] == a[t + 1]);
                assert(b.drop_first().take(d - 1)[t] == b[t + 1]);
            }
        }
        lemma_lt_at(a.drop_first(), b.drop_first(), d - 1);
    }
}

/// A strictly ascending sequence has no two equal entries.
pub proof fn lemma_ascending_distinct(s: Seq<Seq<char>>)
    requires
        forall|t: int| 0 <= t < s.len() - 1 ==> seq_lt(#[trigger] s[t], s[t + 1]),
    ensures
        forall|a: int, b: int|
            0 <= a < s.len() && 0 <= b < s.len() && a != b ==> #[trigger] s[a] != #[trigger] s[b],
{
    assert forall|a: int, b: int| 0 <= a < b < s.len() implies seq_lt(s[a], s[b]) by {
        lemma_ascending_from(s, a, b);
    }
    assert forall|a: int, b: int|
        0 <= a < s.len() && 0 <= b < s.len() && a != b implies #[trigger] s[a] != #[trigger] s[b] by {
        if a < b {
            assert(seq_lt(s[a], s[b]));
            lemma_lt_irreflexive(s[a]);
        } else {
            assert(seq_lt(s[b], s[a]));
            lemma_lt_irreflexive(s[b]);
        }
    }
}

proof fn lemma_ascending_from(s: Seq<Seq<char>>, a: int, b: int)
    requires
        forall|t: int| 0 <= t < s.len() - 1 ==> seq_lt(#[trigger] s[t], s[t + 1]),
        0 <= a < b < s.len(),
    ensures
        seq_lt(s[a], s[b]),
    decreases b - a,
{
    if b > a + 1 {
        lemma_ascending_from(s, a, b - 1);
        assert(seq_lt(s[b - 1], s[b]));
        lemma_lt_transitive(s[a], s[b - 1], s[b]);
    }
}

/// Every pair has a clean key and a clean value.
#[verifier::opaque]
pub open spec fn all_clean(pairs: Seq<(Seq<char>, Seq<char>)>) -> bool {
    forall|t: int| 0 <= t < pairs.len() ==> clean_key(#[trigger] pairs[t].0) && clean_value(pairs[t].1)
}

/// No pairs are all clean.
pub proof fn lemma_all_clean_empty()
    ensures
        all_clean(Seq::<(Seq<char>, Seq<char>)>::empty()),
{
    reveal(all_clean);
}

/// Appending a clean pair keeps all pairs clean.
pub proof fn lemma_all_clean_push(pairs: Seq<(Seq<char>, Seq<char>)>, p: (Seq<char>, Seq<char>))
    requires
        all_clean(pairs),
        clean_key(p.0),
        clean_value(p.1),
    ensures
        all_clean(pairs.push(p)),
{
    reveal(all_clean);
    assert forall|t: int| 0 <= t < pairs.push(p).len() implies clean_key(#[trigger] pairs.push(p)[t].0)
        && clean_value(pairs.push(p)[t].1) by {
        if t < pairs.len() {
            assert(pairs.push(p)[t] == pairs[t]);
        }
    }
}

/// The text of a boolean is a clean value.
pub proof fn lemma_bool_text_clean(b: bool)
    ensures
        clean_value(crate::config::bool_text(b)),
        crate::config::bool_text(b) == crate::config::true_text() <==> b,
        crate::config::bool_text(b) == crate::config::false_text() <==> !b,
{
    let t = crate::config::bool_text(b);
    assert(crate::config::true_text().len() != crate::config::false_text().len());
    assert forall|i: int| 0 <= i < t.len() implies t[i] != '\n' by {
        if b {
            assert(t =~= seq!['t', 'r', 'u', 'e']);
        } else {
            assert(t =~= seq!['f', 'a', 'l', 's', 'e']);
        }
    }
}

/// A sorted listing exists for every finite map.
pub proof fn lemma_sorted_listing_exists(m: Map<Seq<char>, Seq<char>>)
    requires
        m.dom().finite(),
    ensures
        is_sorted_listing(spec_sorted_entries(m), m),
    decreases m.dom().len(),
{
    if m.dom().len() == 0 {
        m.dom().lemma_len0_is_empty();
        let s = Seq::<(Seq<char>, Seq<char>)>::empty();
        assert(is_sorted_listing(s, m));
    } else {
        let k = m.dom().choose();
        let m2 = m.remove(k);
        lemma_sorted_listing_exists(m2);
        let s2 = spec_sorted_entries(m2);
        let p = position_of(s2, k);
        lemma_position_of(s2, k);
        let s = s2.insert(p, (k, m[k]));
        assert forall|a: int, b: int| 0 <= a < b < s.len() implies seq_lt(#[trigger] s[a].0, #[trigger] s[b].0) by {
            if a < p && b == p {
            } else if a == p && b > p {
                if b - 1 > p {
                    lemma_lt_transitive(k, s2[p].0, s2[b - 1].0);
                }
            } else if a < p && b > p {
            } else if a > p {
                assert(s[a] == s2[a - 1]);
                assert(s[b] == s2[b - 1]);
            } else {
            }
        }
        assert forall|i: int| 0 <= i < s.len() implies m.contains_key(#[trigger] s[i].0) && m[s[i].0]
            == s[i].1 by {
            if i < p {
                assert(s[i] == s2[i]);
            } else if i > p {
                assert(s[i] == s2[i - 1]);
            }
        }
        assert forall|kk: Seq<char>| m.contains_key(kk) implies exists|i: int|
            0 <= i < s.len() && #[trigger] s[i].0 == kk by {
            if kk == k {
                assert(s[p].0 == kk);
            } else {
                assert(m2.contains_key(kk));
                let t = choose|t: int| 0 <= t < s2.len() && s2[t].0 == kk;
                if t < p {
                    assert(s[t].0 == kk);
                } else {
                    assert(s[t + 1].0 == kk);
                }
            }
        }
        assert(is_sorted_listing(s, m));
    }
}

/// The number of leading entries of `s` whose key is below `k`.
pub open spec fn position_of(s: Seq<(Seq<char>, Seq<char>)>, k: Seq<char>) -> int
    decreases s.len(),
{
    if s.len() == 0 {
        0
    } else if seq_lt(s[0].0, k) {
        1 + position_of(s.drop_first(), k)
    } else {
        0
    }
}

/// In a strictly ascending listing that lacks `k`, the entries before
/// [`position_of`] are below `k` and the rest above it.
proof fn lemma_position_of(s: Seq<(Seq<char>, Seq<char>)>, k: Seq<char>)
    requires
        forall|a: int, b: int| 0 <= a < b < s.len() ==> seq_lt(#[trigger] s[a].0, #[trigger] s[b].0),
        forall|i: int| 0 <= i < s.len() ==> #[trigger] s[i].0 != k,
    ensures
        0 <= position_of(s, k) <= s.len(),
        forall|i: int| 0 <= i < position_of(s, k) ==> seq_lt(#[trigger] s[i].0, k),
        forall|i: int| position_of(s, k) <= i < s.len() ==> seq_lt(k, #[trigger] s[i].0),
    decreases s.len(),
{
    if s.len() > 0 {
        let t = s.drop_first();
        assert forall|a: int, b: int| 0 <= a < b < t.len() implies seq_lt(#[trigger] t[a].0, #[trigger] t[b].0) by {
            assert(seq_lt(s[a + 1].0, s[b + 1].0));
        }
        assert forall|i: int| 0 <= i < t.len() implies #[trigger] t[i].0 != k by {
            assert(s[i + 1].0 != k);
        }
        lemma_position_of(t, k);
        if seq_lt(s[0].0, k) {
            assert forall|i: int| 0 <= i < position_of(s, k) implies seq_lt(#[trigger] s[i].0, k) by {
                if i > 0 {
                    assert(s[i] == t[i - 1]);
                }
            }
            assert forall|i: int| position_of(s, k) <= i < s.len() implies seq_lt(k, #[trigger] s[i].0) by {
                assert(s[i] == t[i - 1]);
            }
        } else {
            assert(s[0].0 != k);
            lemma_lt_total(s[0].0, k);
            assert forall|i: int| 0 <= i < s.len() implies seq_lt(k, #[trigger] s[i].0) by {
                if i > 0 {
                    assert(seq_lt(s[0].0, s[i].0));
                    lemma_lt_transitive(k, s[0].0, s[i].0);
                }
            }
        }
    }
}

// ---------------------------------------------------------------------------
// Numbers
// ---------------------------------------------------------------------------

proof fn lemma_nat_digits(n: nat)
    ensures
        nat_digits(n).len() > 0,
        all_digits(nat_digits(n)),
        digits_value(nat_digits(n)) == n,
    decreases n,
{
    if n >= 10 {
        lemma_nat_digits(n / 10);
        let d = nat_digits(n / 10);
        let s = nat_digits(n);
        assert(s.drop_last() =~= d);
        assert(s.last() == digit_char((n % 10) as nat));
        assert(digit_value(digit_char((n % 10) as nat)) == n % 10);
        assert(digits_value(s) == digits_value(d) * 10 + n % 10);
        assert((n / 10) * 10 + n % 10 == n) by (nonlinear_arith);
        assert forall|i: int| 0 <= i < s.len() implies is_digit(#[trigger] s[i]) by {
            if i < d.len() {
                assert(s[i] == d[i]);
            }
        }
    } else {
        let s = nat_digits(n);
        assert(s.drop_last() =~= Seq::<char>::empty());
        assert(digit_value(digit_char(n)) == n);
        assert(digits_value(s) == digits_value(s.drop_last()) * 10 + digit_value(s.last()));
    }
}

/// Zero-padded decimal text holds digits only, so no line feed.
pub proof fn lemma_padded_digits_no_newline(n: nat, width: nat)
    ensures
        no_newline(padded_digits(n, width)),
{
    lemma_nat_digits(n);
    let d = nat_digits(n);
    let p = padded_digits(n, width);
    assert forall|i: int| 0 <= i < p.len() implies p[i] != '\n' by {
        if d.len() < width {
            let z = (width - d.len()) as nat;
            if i >= z {
                assert(p[i] == d[i - z]);
                assert(is_digit(d[i - z]));
            }
        } else {
            assert(is_digit(d[i]));
        }
    }
}

/// Two texts without line feeds make one without line feeds.
pub proof fn lemma_no_newline_concat(a: Seq<char>, b: Seq<char>)
    requires
        no_newline(a),
        no_newline(b),
    ensures
        no_newline(a + b),
{
    assert forall|i: int| 0 <= i < (a + b).len() implies (a + b)[i] != '\n' by {
        if i >= a.len() {
            assert((a + b)[i] == b[i - a.len()]);
        }
    }
}

/// The decimal text of an integer in range parses back to it.
pub proof fn lemma_int_digits_parse(v: int, min: int, max: int, signed: bool)
    requires
        min <= v <= max,
        v < 0 ==> signed,
    ensures
        spec_parse_int(int_digits(v), min, max, signed) == Some(v),
        clean_value(int_digits(v)),
        int_digits(v).len() > 0,
{
    if v < 0 {
        lemma_nat_digits((-v) as nat);
        let d = nat_digits((-v) as nat);
        let s = int_digits(v);
        assert(s.drop_first() =~= d);
        assert(s[0] == '-');
        assert forall|i: int| 0 <= i < s.len() implies s[i] != '\n' by {
            if i > 0 {
                assert(s[i] == d[i - 1]);
                assert(is_digit(d[i - 1]));
            }
        }
        assert(s.last() == d.last());
        assert(is_digit(d[d.len() - 1]));
    } else {
        lemma_nat_digits(v as nat);
        let d = nat_digits(v as nat);
        assert(is_digit(d[0]));
        assert(is_digit(d[d.len() - 1]));
        assert forall|i: int| 0 <= i < d.len() implies d[i] != '\n' by {
            assert(is_digit(d[i]));
        }
    }
}

} // verus!
