use vstd::prelude::*;
use crate::env_file::{find_char, index_of};
use crate::text::{char_is_space, chars_of, is_space, string_of_range};

verus! {

/// One row of the `docker-compose ps` table.
#[derive(Debug, Clone, PartialEq, Eq)]
pub struct ContainerStatus {
    pub name: String,
    pub command: String,
    pub service: String,
    pub state: String,
    /// Empty where the row has no fifth column.
    pub ports: String,
}

/// A row as text: name, command, service, state, ports.
pub type RowText = (Seq<char>, Seq<char>, Seq<char>, Seq<char>, Seq<char>);

impl View for ContainerStatus {
    type V = RowText;

    open spec fn view(&self) -> RowText {
        (self.name@, self.command@, self.service@, self.state@, self.ports@)
    }
}

/// How many characters at the start of `s` are not white space.
pub open spec fn word_len(s: Seq<char>) -> nat
    decreases s.len(),
{
    if s.len() == 0 || is_space(s[0]) {
        0
    } else {
        1 + word_len(s.drop_first())
    }
}

/// The runs of non-white-space characters of `s`, in order.
pub open spec fn words(s: Seq<char>) -> Seq<Seq<char>>
    decreases s.len(),
    via words_decreases
{
    if s.len() == 0 {
        Seq::empty()
    } else if is_space(s[0]) {
        words(s.drop_first())
    } else {
        seq![s.subrange(0, word_len(s) as int)] + words(s.subrange(word_len(s) as int, s.len() as int))
    }
}

proof fn lemma_word_len_bound(s: Seq<char>)
    ensures
        word_len(s) <= s.len(),
    decreases s.len(),
{
    if s.len() > 0 && !is_space(s[0]) {
        lemma_word_len_bound(s.drop_first());
    }
}

#[via_fn]
proof fn words_decreases(s: Seq<char>) {
    lemma_word_len_bound(s);
}

/// The row that a table line gives: its first four words, and the fifth or
/// nothing; no row where the line has fewer than four words.
pub open spec fn row_of(line: Seq<char>) -> Option<RowText> {
    let w = words(line);
    if w.len() >= 4 {
        Some((w[0], w[1], w[2], w[3], if w.len() > 4 { w[4] } else { Seq::empty() }))
    } else {
        None
    }
}

/// The rows of the `\n`-separated lines of `s`, the first line left out
/// where `header` holds.
pub open spec fn table_rows(s: Seq<char>, header: bool) -> Seq<RowText>
    decreases s.len(),
{
    if s.len() == 0 {
        Seq::empty()
    } else {
        let e = index_of(s, '\n');
        let here = if header {
            Seq::empty()
        } else {
            match row_of(s.subrange(0, e as int)) {
                Some(r) => seq![r],
                None => Seq::empty(),
            }
        };
        here + if e < s.len() {
            table_rows(s.subrange((e + 1) as int, s.len() as int), false)
        } else {
            Seq::empty()
        }
    }
}

proof fn lemma_word_len(s: Seq<char>, k: int)
    requires
        0 <= k <= s.len(),
        forall|j: int| 0 <= j < k ==> !is_space(s[j]),
        k == s.len() || is_space(s[k]),
    ensures
        word_len(s) == k,
    decreases k,
{
    if k > 0 {
        lemma_word_len(s.drop_first(), k - 1);
    }
}

/// The bounds of the words of `cs[lo..hi]`, in order.
fn word_bounds(cs: &Vec<char>, lo: usize, hi: usize) -> (r: Vec<(usize, usize)>)
    requires
        lo <= hi <= cs@.len(),
    ensures
        forall|i: int| 0 <= i < r@.len() ==> (#[trigger] r@[i]).0 <= r@[i].1 <= hi,
        r@.map_values(|b: (usize, usize)| cs@.subrange(b.0 as int, b.1 as int)) == words(
            cs@.subrange(lo as int, hi as int),
        ),
{
    let mut out: Vec<(usize, usize)> = Vec::new();
    let mut pos: usize = lo;
    assert(out@.map_values(|b: (usize, usize)| cs@.subrange(b.0 as int, b.1 as int)) =~= Seq::<
        Seq<char>,
    >::empty());
    while pos < hi
        invariant
            lo <= pos <= hi <= cs@.len(),
            forall|i: int| 0 <= i < out@.len() ==> (#[trigger] out@[i]).0 <= out@[i].1 <= hi,
            words(cs@.subrange(lo as int, hi as int)) == out@.map_values(
                |b: (usize, usize)| cs@.subrange(b.0 as int, b.1 as int),
            ) + words(cs@.subrange(pos as int, hi as int)),
        decreases hi - pos,
    {
        let ghost rest = cs@.subrange(pos as int, hi as int);
        let ghost before = out@.map_values(|b: (usize, usize)| cs@.subrange(b.0 as int, b.1 as int));
        if char_is_space(cs[pos]) {
            assert(rest.drop_first() =~= cs@.subrange(pos + 1, hi as int));
            pos = pos + 1;
        } else {
            let mut e: usize = pos;
            while e < hi && !char_is_space(cs[e])
                invariant
                    pos <= e <= hi <= cs@.len(),
                    forall|j: int| pos <= j < e ==> !is_space(cs@[j]),
                decreases hi - e,
            {
                e = e + 1;
            }
            proof {
                assert forall|j: int| 0 <= j < e - pos implies !is_space(rest[j]) by {
                    assert(rest[j] == cs@[pos + j]);
                }
                lemma_word_len(rest, e - pos);
                assert(rest.subrange(0, e - pos) =~= cs@.subrange(pos as int, e as int));
                assert(rest.subrange(e - pos, rest.len() as int) =~= cs@.subrange(
                    e as int,
                    hi as int,
                ));
            }
            out.push((pos, e));
            assert(out@.map_values(|b: (usize, usize)| cs@.subrange(b.0 as int, b.1 as int))
                =~= before.push(cs@.subrange(pos as int, e as int)));
            assert(before.push(cs@.subrange(pos as int, e as int)) + words(
                cs@.subrange(e as int, hi as int),
            ) =~= before + words(rest));
            pos = e;
        }
    }
    assert(words(cs@.subrange(hi as int, hi as int)) =~= Seq::<Seq<char>>::empty());
    assert(out@.map_values(|b: (usize, usize)| cs@.subrange(b.0 as int, b.1 as int)) + Seq::<
        Seq<char>,
    >::empty() =~= out@.map_values(|b: (usize, usize)| cs@.subrange(b.0 as int, b.1 as int)));
    out
}

/// The row of the line `cs[lo..hi]`, if it has four words or more.
fn row_of_line(cs: &Vec<char>, lo: usize, hi: usize) -> (r: Option<ContainerStatus>)
    requires
        lo <= hi <= cs@.len(),
    ensures
        match r {
            Some(st) => row_of(cs@.subrange(lo as int, hi as int)) == Some(st@),
            None => row_of(cs@.subrange(lo as int, hi as int)) is None,
        },
{
    let b = word_bounds(cs, lo, hi);
    let ghost w = words(cs@.subrange(lo as int, hi as int));
    if b.len() < 4 {
        return None;
    }
    assert(w[0] == cs@.subrange(b@[0].0 as int, b@[0].1 as int));
    assert(w[1] == cs@.subrange(b@[1].0 as int, b@[1].1 as int));
    assert(w[2] == cs@.subrange(b@[2].0 as int, b@[2].1 as int));
    assert(w[3] == cs@.subrange(b@[3].0 as int, b@[3].1 as int));
    let ports = if b.len() > 4 {
        assert(w[4] == cs@.subrange(b@[4].0 as int, b@[4].1 as int));
        string_of_range(cs, b[4].0, b[4].1)
    } else {
        String::new()
    };
    Some(
        ContainerStatus {
            name: string_of_range(cs, b[0].0, b[0].1),
            command: string_of_range(cs, b[1].0, b[1].1),
            service: string_of_range(cs, b[2].0, b[2].1),
            state: string_of_range(cs, b[3].0, b[3].1),
            ports,
        },
    )
}

/// Reads the table that `docker-compose ps` prints: the header line is
/// skipped; each later line with at least four words gives a row, the fifth
/// word (if any) being the ports; lines with fewer words are dropped.
pub fn parse_status_output(output: &str) -> (r: Vec<ContainerStatus>)
    ensures
        r@.map_values(|c: ContainerStatus| c@) == table_rows(output@, true),
{
    let cs = chars_of(output);
    let n = cs.len();
    let mut rows: Vec<ContainerStatus> = Vec::new();
    let mut start: usize = 0;
    let mut header = true;
    assert(cs@.subrange(0, n as int) =~= cs@);
    assert(rows@.map_values(|c: ContainerStatus| c@) =~= Seq::<RowText>::empty());
    while start < n
        invariant
            start <= n,
            n == cs@.len(),
            cs@ == output@,
            table_rows(output@, true) == rows@.map_values(|c: ContainerStatus| c@) + table_rows(
                cs@.subrange(start as int, n as int),
                header,
            ),
        decreases n - start,
    {
        let ghost rest = cs@.subrange(start as int, n as int);
        let ghost before = rows@.map_values(|c: ContainerStatus| c@);
        let e = find_char(&cs, start, n, '\n');
        assert(rest.subrange(0, e - start) =~= cs@.subrange(start as int, e as int));
        let ghost here = if header {
            Seq::<RowText>::empty()
        } else {
            match row_of(cs@.subrange(start as int, e as int)) {
                Some(r) => seq![r],
                None => Seq::empty(),
            }
        };
        if !header {
            match row_of_line(&cs, start, e) {
                Some(st) => {
                    rows.push(st);
                },
                None => {},
            }
        }
        assert(rows@.map_values(|c: ContainerStatus| c@) =~= before + here);
        let ghost was_header = header;
        header = false;
        if e < n {
            let ghost next = cs@.subrange(e + 1, n as int);
            assert(rest.subrange(e - start + 1, rest.len() as int) =~= next);
            assert(table_rows(rest, was_header) == here + table_rows(next, false));
            assert((before + here) + table_rows(next, false) =~= before + (here + table_rows(
                next,
                false,
            )));
            start = e + 1;
        } else {
            assert(table_rows(rest, was_header) == here + Seq::<RowText>::empty());
            assert(cs@.subrange(n as int, n as int) =~= Seq::<char>::empty());
            assert(before + (here + Seq::<RowText>::empty()) =~= (before + here) + Seq::<
                RowText,
            >::empty());
            start = n;
        }
    }
    rows
}

} // verus!
