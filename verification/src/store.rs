//! The record store: loads the ordered record sequence from the source's
//! lines — atomically, a single malformed line rejects the whole load — and
//! derives the sorted, deduplicated index of span names.

use vstd::prelude::*;
use crate::json::{parse_log_message, spec_parse_record};
use crate::log_message::LogMessage;
use crate::text::{lex_lt, str_eq, str_lt};

verus! {

/// Loading the record store failed; nothing of the load is kept.
#[derive(Clone, Copy, PartialEq, Eq, Structural, Debug)]
pub enum LoadError {
    /// The source could not be read at all.
    Unreadable,
    /// The line at this index is not a valid record.
    Malformed { line: usize },
}

/// The names a vector of strings holds, as character sequences.
pub open spec fn name_views(names: Seq<String>) -> Seq<Seq<char>> {
    names.map_values(|s: String| s@)
}

/// Strictly ascending in lexicographic order; strictness makes the index
/// free of duplicates.
pub open spec fn sorted_unique(names: Seq<Seq<char>>) -> bool {
    forall|i: int, j: int| 0 <= i < j < names.len() ==> lex_lt(names[i], names[j])
}

proof fn lemma_lex_lt_trans(a: Seq<char>, b: Seq<char>, c: Seq<char>)
    requires
        lex_lt(a, b),
        lex_lt(b, c),
    ensures
        lex_lt(a, c),
    decreases a.len() + b.len() + c.len(),
{
    if a.len() > 0 && b.len() > 0 && c.len() > 0 && a[0] == b[0] && b[0] == c[0] {
        lemma_lex_lt_trans(a.drop_first(), b.drop_first(), c.drop_first());
    }
}

proof fn lemma_lex_trichotomy(a: Seq<char>, b: Seq<char>)
    ensures
        lex_lt(a, b) || lex_lt(b, a) || a == b,
    decreases a.len(),
{
    if a.len() == 0 && b.len() == 0 {
        assert(a =~= b);
    } else if a.len() > 0 && b.len() > 0 && a[0] == b[0] {
        lemma_lex_trichotomy(a.drop_first(), b.drop_first());
        if a.drop_first() == b.drop_first() {
            assert(a.drop_first().len() == a.len() - 1);
            assert(b.drop_first().len() == b.len() - 1);
            assert(a.len() == b.len());
            assert forall|i: int| 0 <= i < a.len() implies a[i] == b[i] by {
                if i > 0 {
                    assert(a[i] == a.drop_first()[i - 1]);
                    assert(b[i] == b.drop_first()[i - 1]);
                }
            }
            assert(a =~= b);
        }
    } else if a.len() == 0 {
        assert(lex_lt(a, b));
    } else if b.len() == 0 {
        assert(lex_lt(b, a));
    } else {
        assert(a[0] != b[0]);
        vstd::utf8::char_u32_cast(a[0], a[0] as u32);
        vstd::utf8::char_u32_cast(b[0], b[0] as u32);
        if (a[0] as u32) < (b[0] as u32) {
            assert(lex_lt(a, b));
        } else {
            assert((b[0] as u32) < (a[0] as u32));
            assert(lex_lt(b, a));
        }
    }
}

/// Place `name` into a strictly sorted index, keeping it sorted and adding
/// nothing when the name is already there.
fn insert_span_name(names: &mut Vec<String>, name: String)
    requires
        sorted_unique(name_views(old(names)@)),
    ensures
        sorted_unique(name_views(final(names)@)),
        forall|n: Seq<char>|
            #[trigger] name_views(final(names)@).contains(n) <==> (name_views(
                old(names)@,
            ).contains(n) || n == name@),
{
    let ghost old_views = name_views(names@);
    let mut j: usize = 0;
    while j < names.len() && str_lt(names[j].as_str(), name.as_str())
        invariant
            j <= names@.len(),
            names@ == old(names)@,
            old_views == name_views(names@),
            forall|i: int| 0 <= i < j ==> lex_lt(#[trigger] old_views[i], name@),
        decreases names@.len() - j,
    {
        proof {
            assert(old_views[j as int] == names@[j as int]@);
        }
        j = j + 1;
    }
    if j < names.len() {
        if str_eq(names[j].as_str(), name.as_str()) {
            // already present
            proof {
                assert(old_views[j as int] == name@);
                assert(name_views(names@).contains(name@));
            }
            return ;
        }
        proof {
            assert(old_views[j as int] == names@[j as int]@);
            lemma_lex_trichotomy(old_views[j as int], name@);
            assert(lex_lt(name@, old_views[j as int]));
        }
    }
    names.insert(j, name);
    proof {
        let new_views = name_views(names@);
        assert(new_views =~= old_views.insert(j as int, name@));
        // everything at or past the insertion point lies above `name`
        assert forall|k: int| j <= k < old_views.len() implies lex_lt(
            name@,
            #[trigger] old_views[k],
        ) by {
            if k > j {
                lemma_lex_lt_trans(name@, old_views[j as int], old_views[k]);
            }
        }
        assert forall|x: int, y: int| 0 <= x < y < new_views.len() implies lex_lt(
            new_views[x],
            new_views[y],
        ) by {
            if y < j {
                assert(lex_lt(old_views[x], old_views[y]));
            } else if y == j {
                assert(new_views[y] == name@);
                assert(lex_lt(old_views[x], name@));
            } else if x < j {
                assert(new_views[y] == old_views[y - 1]);
                lemma_lex_lt_trans(old_views[x], name@, old_views[y - 1]);
            } else if x == j {
                assert(new_views[y] == old_views[y - 1]);
                assert(lex_lt(name@, old_views[y - 1]));
            } else {
                assert(lex_lt(old_views[x - 1], old_views[y - 1]));
            }
        }
        assert forall|n: Seq<char>| #[trigger] new_views.contains(n) implies (old_views.contains(n)
            || n == name@) by {
            let k = choose|k: int| 0 <= k < new_views.len() && new_views[k] == n;
            if k < j {
                assert(old_views[k] == n);
            } else if k > j {
                assert(old_views[k - 1] == n);
            }
        }
        assert forall|n: Seq<char>| old_views.contains(n) implies new_views.contains(n) by {
            let k = choose|k: int| 0 <= k < old_views.len() && old_views[k] == n;
            if k < j {
                assert(new_views[k] == n);
            } else {
                assert(new_views[k + 1] == n);
            }
        }
        assert(new_views[j as int] == name@);
    }
}

/// The sorted, deduplicated index of every span name observed across the
/// records' span sets.
pub fn span_index(records: &Vec<LogMessage>) -> (names: Vec<String>)
    ensures
        sorted_unique(name_views(names@)),
        forall|n: Seq<char>|
            #[trigger] name_views(names@).contains(n) <==> exists|i: int|
                0 <= i < records@.len() && #[trigger] records@[i]@.has_span(n),
{
    let mut names: Vec<String> = Vec::new();
    let mut i: usize = 0;
    while i < records.len()
        invariant
            i <= records@.len(),
            sorted_unique(name_views(names@)),
            forall|n: Seq<char>|
                #[trigger] name_views(names@).contains(n) <==> exists|k: int|
                    0 <= k < i && #[trigger] records@[k]@.has_span(n),
        decreases records@.len() - i,
    {
        match &records[i].spans {
            None => {
                proof {
                    assert forall|n: Seq<char>| #[trigger] name_views(names@).contains(n) implies
                    exists|k: int| 0 <= k < i + 1 && #[trigger] records@[k]@.has_span(n) by {
                        let k = choose|k: int| 0 <= k < i && #[trigger] records@[k]@.has_span(n);
                        assert(records@[k]@.has_span(n));
                    }
                    assert forall|n: Seq<char>, k: int|
                        0 <= k < i + 1 && #[trigger] records@[k]@.has_span(n) implies name_views(
                        names@,
                    ).contains(n) by {
                        if k == i {
                            assert(records@[k]@.spans is None);
                        }
                    }
                }
            },
            Some(spans) => {
                let ghost rec_spans = records@[i as int]@.spans->0;
                let mut s: usize = 0;
                while s < spans.len()
                    invariant
                        s <= spans@.len(),
                        records@[i as int]@.spans == Some(rec_spans),
                        rec_spans == spans@.map_values(|sp: crate::log_message::Span| sp@),
                        sorted_unique(name_views(names@)),
                        forall|n: Seq<char>|
                            #[trigger] name_views(names@).contains(n) <==> ((exists|k: int|
                                0 <= k < i && #[trigger] records@[k]@.has_span(n)) || (exists|
                                t: int,
                            | 0 <= t < s && rec_spans[t] == n)),
                    decreases spans@.len() - s,
                {
                    insert_span_name(&mut names, spans[s].name.clone());
                    proof {
                        assert(rec_spans[s as int] == spans@[s as int]@);
                    }
                    s = s + 1;
                }
                proof {
                    assert forall|n: Seq<char>| #[trigger] name_views(names@).contains(n) implies
                    exists|k: int| 0 <= k < i + 1 && #[trigger] records@[k]@.has_span(n) by {
                        if exists|t: int| 0 <= t < s && rec_spans[t] == n {
                            assert(records@[i as int]@.has_span(n));
                        } else {
                            let k = choose|k: int|
                                0 <= k < i && #[trigger] records@[k]@.has_span(n);
                            assert(records@[k]@.has_span(n));
                        }
                    }
                }
            },
        }
        i = i + 1;
    }
    names
}

/// Load the record store from the source's lines. The load is atomic: it
/// succeeds exactly when every line parses into a record, and then holds
/// those records, in line order; otherwise it fails on the first malformed
/// line and nothing is kept. On success the second component is the sorted,
/// deduplicated span index of the loaded records.
pub fn load_records(lines: &Vec<String>) -> (r: Result<(Vec<LogMessage>, Vec<String>), LoadError>)
    ensures
        r is Ok <==> (forall|i: int|
            0 <= i < lines@.len() ==> #[trigger] spec_parse_record(lines@[i]@) is Some),
        (r matches Ok((records, spans)) ==> {
            &&& records@.len() == lines@.len()
            &&& forall|i: int|
                0 <= i < lines@.len() ==> Some(records@[i]@) == #[trigger] spec_parse_record(
                    lines@[i]@,
                )
            &&& sorted_unique(name_views(spans@))
            &&& forall|n: Seq<char>|
                #[trigger] name_views(spans@).contains(n) <==> exists|i: int|
                    0 <= i < records@.len() && #[trigger] records@[i]@.has_span(n)
        }),
        (r matches Err(e) ==> e matches LoadError::Malformed { line } && (line as nat)
            < lines@.len() && spec_parse_record(lines@[line as int]@) is None && (forall|k: int|
            0 <= k < line ==> #[trigger] spec_parse_record(lines@[k]@) is Some)),
{
    let mut records: Vec<LogMessage> = Vec::new();
    let mut i: usize = 0;
    while i < lines.len()
        invariant
            i <= lines@.len(),
            records@.len() == i,
            forall|k: int|
                0 <= k < i ==> Some(records@[k]@) == #[trigger] spec_parse_record(lines@[k]@),
        decreases lines@.len() - i,
    {
        match parse_log_message(lines[i].as_str()) {
            Some(m) => records.push(m),
            None => {
                return Err(LoadError::Malformed { line: i });
            },
        }
        i = i + 1;
    }
    let spans = span_index(&records);
    Ok((records, spans))
}

} // verus!
