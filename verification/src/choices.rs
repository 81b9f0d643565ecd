//! The list of choices that a command prints, one to a line.

use vstd::prelude::*;
use vstd::string::*;

verus! {

/// The number of characters before the first line break of `s`, or the
/// length of `s` where it has none.
pub open spec fn first_break(s: Seq<char>) -> int
    decreases s.len(),
{
    if s.len() == 0 || s[0] == '\n' {
        0
    } else {
        1 + first_break(s.skip(1))
    }
}

/// The lines of `s` that are not empty, in their order. A line ends at a
/// line break or at the end of the text.
pub open spec fn entries(s: Seq<char>) -> Seq<Seq<char>>
    decreases s.len(),
{
    if s.len() == 0 {
        Seq::empty()
    } else {
        let k = first_break(s);
        let rest = if 0 <= k < s.len() {
            entries(s.skip(k + 1))
        } else {
            Seq::empty()
        };
        if k == 0 {
            rest
        } else {
            seq![s.take(k)] + rest
        }
    }
}

/// The texts that a list of strings holds.
pub open spec fn texts(v: Seq<String>) -> Seq<Seq<char>> {
    Seq::new(v.len(), |i: int| v[i]@)
}

/// The first line break is where the first `'\n'` stands.
pub proof fn first_break_at(s: Seq<char>, j: int)
    requires
        0 <= j <= s.len(),
        forall|k: int| 0 <= k < j ==> s[k] != '\n',
        j == s.len() || s[j] == '\n',
    ensures
        first_break(s) == j,
    decreases s.len(),
{
    if j > 0 {
        let t = s.skip(1);
        assert forall|k: int| 0 <= k < j - 1 implies t[k] != '\n' by {
            assert(t[k] == s[k + 1]);
        }
        first_break_at(t, j - 1);
    }
}

/// The first line break lies within the text, and nothing before it is a
/// line break.
pub proof fn first_break_bounds(s: Seq<char>)
    ensures
        0 <= first_break(s) <= s.len(),
        forall|k: int| 0 <= k < first_break(s) ==> s[k] != '\n',
        first_break(s) < s.len() ==> s[first_break(s)] == '\n',
    decreases s.len(),
{
    if !(s.len() == 0 || s[0] == '\n') {
        let t = s.skip(1);
        first_break_bounds(t);
        assert forall|k: int| 0 <= k < first_break(s) implies s[k] != '\n' by {
            if k > 0 {
                assert(s[k] == t[k - 1]);
            }
        }
        if first_break(s) < s.len() {
            assert(s[first_break(s)] == t[first_break(t)]);
        }
    }
}

/// No entry is empty and none holds a line break.
pub proof fn entries_are_lines(s: Seq<char>)
    ensures
        forall|i: int|
            0 <= i < entries(s).len() ==> (#[trigger] entries(s)[i]).len() > 0 && !entries(
                s,
            )[i].contains('\n'),
    decreases s.len(),
{
    if s.len() > 0 {
        first_break_bounds(s);
        let k = first_break(s);
        let rest = if k < s.len() {
            entries(s.skip(k + 1))
        } else {
            Seq::empty()
        };
        if k < s.len() {
            entries_are_lines(s.skip(k + 1));
        }
        assert forall|i: int| 0 <= i < entries(s).len() implies (#[trigger] entries(s)[i]).len()
            > 0 && !entries(s)[i].contains('\n') by {
            if k == 0 {
                assert(entries(s)[i] == rest[i]);
            } else if i == 0 {
                let head = s.take(k);
                assert(entries(s)[0] == head);
                if head.contains('\n') {
                    let j = choose|j: int| 0 <= j < head.len() && head[j] == '\n';
                    assert(s[j] == '\n');
                }
            } else {
                assert(entries(s)[i] == rest[i - 1]);
            }
        }
    }
}

/// A text without a line break is its own single entry, unless it is empty.
pub proof fn entries_of_line(s: Seq<char>)
    requires
        forall|k: int| 0 <= k < s.len() ==> s[k] != '\n',
    ensures
        entries(s) == if s.len() == 0 {
            Seq::<Seq<char>>::empty()
        } else {
            seq![s]
        },
{
    first_break_at(s, s.len() as int);
    if s.len() > 0 {
        assert(s.take(s.len() as int) =~= s);
        assert(seq![s] + Seq::<Seq<char>>::empty() =~= seq![s]);
    }
}

/// The entries of a text whose first line break stands at `j`: the line
/// before it, unless empty, then the entries of what follows it.
pub proof fn entries_at_break(s: Seq<char>, j: int)
    requires
        0 <= j < s.len(),
        forall|k: int| 0 <= k < j ==> s[k] != '\n',
        s[j] == '\n',
    ensures
        entries(s) == if j == 0 {
            entries(s.skip(j + 1))
        } else {
            seq![s.take(j)] + entries(s.skip(j + 1))
        },
{
    first_break_at(s, j);
}

/// A selection as a choice control can show it: the id itself where it is
/// one of the entries, no selection where it is none of them or where
/// nothing was selected.
pub open spec fn admitted(entries: Seq<String>, choice: Option<String>) -> Option<String> {
    if choice is Some && texts(entries).contains(choice.unwrap()@) {
        choice
    } else {
        None
    }
}

/// Admitting twice is admitting once.
pub proof fn admitted_is_stable(entries: Seq<String>, choice: Option<String>)
    ensures
        admitted(entries, admitted(entries, choice)) == admitted(entries, choice),
{
}

/// Whether `id` is one of the entries.
pub fn is_entry(entries: &Vec<String>, id: &String) -> (found: bool)
    ensures
        found == texts(entries@).contains(id@),
{
    let mut i: usize = 0;
    while i < entries.len()
        invariant
            i <= entries.len(),
            forall|j: int| 0 <= j < i ==> entries@[j]@ != id@,
        decreases entries.len() - i,
    {
        if entries[i] == *id {
            assert(texts(entries@)[i as int] == id@);
            return true;
        }
        i = i + 1;
    }
    assert forall|j: int| 0 <= j < texts(entries@).len() implies texts(entries@)[j] != id@ by {
        assert(texts(entries@)[j] == entries@[j]@);
    }
    false
}

/// Holds a selection against the entries of its control: an id that is
/// none of them selects nothing.
pub fn keep_known(entries: &Vec<String>, choice: Option<String>) -> (kept: Option<String>)
    ensures
        kept == admitted(entries@, choice),
{
    match choice {
        Some(id) => {
            if is_entry(entries, &id) {
                Some(id)
            } else {
                None
            }
        },
        None => None,
    }
}

/// Splits what a command printed into its choices: the lines that are not
/// empty, in the order in which they were printed.
pub fn split_entries(text: &str) -> (out: Vec<String>)
    ensures
        texts(out@) == entries(text@),
{
    let n: usize = text.unicode_len();
    let mut out: Vec<String> = Vec::new();
    let mut start: usize = 0;
    let mut i: usize = 0;
    assert(text@.skip(0) =~= text@);
    assert(texts(out@) =~= Seq::<Seq<char>>::empty());
    assert(texts(out@) + entries(text@) =~= entries(text@));
    while i < n
        invariant
            n == text@.len(),
            start <= i <= n,
            forall|k: int| start <= k < i ==> text@[k] != '\n',
            entries(text@) == texts(out@) + entries(text@.skip(start as int)),
        decreases n - i,
    {
        let c = text.get_char(i);
        if c == '\n' {
            let ghost tail = text@.skip(start as int);
            proof {
                assert forall|k: int| 0 <= k < i - start implies tail[k] != '\n' by {
                    assert(tail[k] == text@[start + k]);
                }
                assert(tail[i - start] == text@[i as int]);
                entries_at_break(tail, i - start);
                assert(tail.skip(i - start + 1) =~= text@.skip(i + 1));
            }
            if i > start {
                let line = String::from_str(text.substring_char(start, i));
                proof {
                    assert(tail.take(i - start) =~= text@.subrange(start as int, i as int));
                    assert(texts(out@.push(line)) =~= texts(out@) + seq![line@]);
                    assert(texts(out@) + (seq![line@] + entries(text@.skip(i + 1))) =~= (texts(
                        out@,
                    ) + seq![line@]) + entries(text@.skip(i + 1)));
                }
                out.push(line);
            }
            start = i + 1;
        }
        i = i + 1;
    }
    let ghost tail = text@.skip(start as int);
    proof {
        assert forall|k: int| 0 <= k < tail.len() implies tail[k] != '\n' by {
            assert(tail[k] == text@[start + k]);
        }
        entries_of_line(tail);
    }
    if start < n {
        let line = String::from_str(text.substring_char(start, n));
        proof {
            assert(tail =~= text@.subrange(start as int, n as int));
            assert(texts(out@.push(line)) =~= texts(out@) + seq![line@]);
        }
        out.push(line);
    } else {
        assert(texts(out@) + Seq::<Seq<char>>::empty() =~= texts(out@));
    }
    out
}

} // verus!
