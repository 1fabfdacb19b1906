use vstd::prelude::*;
use vstd::string::*;

verus! {

/// Index of the first `'\n'` in `s` at or after `from`, or `s.len()` when
/// there is none.
pub open spec fn newline_index(s: Seq<char>, from: int) -> int
    decreases s.len() - from,
{
    if from < 0 || from >= s.len() {
        s.len() as int
    } else if s[from] == '\n' {
        from
    } else {
        newline_index(s, from + 1)
    }
}

/// A line taken before a `'\n'`: a `'\r'` right before the newline belongs to
/// the line ending, not to the line.
pub open spec fn strip_cr(line: Seq<char>) -> Seq<char> {
    if line.len() > 0 && line.last() == '\r' {
        line.drop_last()
    } else {
        line
    }
}

/// The lines of a text: split at `"\n"` or `"\r\n"`; the last line ending is
/// optional, and an empty text has no lines.
pub open spec fn lines_of(s: Seq<char>) -> Seq<Seq<char>>
    decreases s.len(),
{
    if s.len() == 0 {
        Seq::empty()
    } else {
        let k = newline_index(s, 0);
        if k < 0 || k >= s.len() {
            seq![s]
        } else {
            seq![strip_cr(s.subrange(0, k))] + lines_of(s.subrange(k + 1, s.len() as int))
        }
    }
}

proof fn lemma_newline_index(s: Seq<char>, from: int, k: int)
    requires
        0 <= from <= k <= s.len(),
        forall|j: int| from <= j < k ==> s[j] != '\n',
        k == s.len() || s[k] == '\n',
    ensures
        newline_index(s, from) == k,
    decreases k - from,
{
    if from < k {
        lemma_newline_index(s, from + 1, k);
    }
}

/// Splits `text` into its lines (see `lines_of`).
pub fn split_lines(text: &str) -> (r: Vec<String>)
    ensures
        r.deep_view() == lines_of(text@),
{
    let n = text.unicode_len();
    let mut r: Vec<String> = Vec::new();
    let mut start: usize = 0;
    let mut i: usize = 0;
    assert(text@.subrange(0, n as int) =~= text@);
    assert(r.deep_view() =~= Seq::<Seq<char>>::empty());
    assert(r.deep_view() + lines_of(text@) =~= lines_of(text@));
    while i < n
        invariant
            n == text@.len(),
            start <= i <= n,
            forall|j: int| start <= j < i ==> text@[j] != '\n',
            r.deep_view() + lines_of(text@.subrange(start as int, n as int)) == lines_of(text@),
        decreases n - i,
    {
        let c = text.get_char(i);
        if c == '\n' {
            let ghost rest = text@.subrange(start as int, n as int);
            proof {
                lemma_newline_index(rest, 0, i - start);
                assert(rest.subrange(0, i - start) =~= text@.subrange(start as int, i as int));
                assert(rest.subrange(i - start + 1, rest.len() as int) =~= text@.subrange(
                    i + 1,
                    n as int,
                ));
            }
            let mut end = i;
            if i > start && text.get_char(i - 1) == '\r' {
                end = i - 1;
            }
            let line = text.substring_char(start, end).to_string();
            proof {
                assert(line@ == strip_cr(text@.subrange(start as int, i as int)));
            }
            r.push(line);
            start = i + 1;
        }
        i = i + 1;
    }
    if start < n {
        let ghost rest = text@.subrange(start as int, n as int);
        proof {
            lemma_newline_index(rest, 0, rest.len() as int);
        }
        let line = text.substring_char(start, n).to_string();
        r.push(line);
    }
    r
}

} // verus!
