use vstd::prelude::*;
use crate::strutil::{spec_starts_with, str_starts_with};

verus! {

// ---------------------------------------------------------------------------
// Lines of a text
//
// A configuration file is its sequence of newline-separated lines; splitting
// and joining are exact inverses, so rewriting one line and joining again
// leaves every other byte of the file untouched.
// ---------------------------------------------------------------------------

pub open spec fn has_nl(s: Seq<char>) -> bool {
    exists|i: int| 0 <= i < s.len() && #[trigger] s[i] == '\n'
}

/// Index of the first newline of `s`, or -1 when there is none.
pub open spec fn first_nl(s: Seq<char>) -> int
    decreases s.len(),
{
    if s.len() == 0 {
        -1
    } else if s[0] == '\n' {
        0
    } else if first_nl(s.skip(1)) < 0 {
        -1
    } else {
        first_nl(s.skip(1)) + 1
    }
}

pub proof fn lemma_first_nl(s: Seq<char>)
    ensures
        has_nl(s) ==> 0 <= first_nl(s) < s.len() && s[first_nl(s)] == '\n' && forall|j: int|
            0 <= j < first_nl(s) ==> #[trigger] s[j] != '\n',
        !has_nl(s) ==> first_nl(s) == -1,
    decreases s.len(),
{
    if s.len() == 0 {
    } else if s[0] == '\n' {
        assert(has_nl(s));
    } else {
        lemma_first_nl(s.skip(1));
        assert(forall|k: int| 0 <= k < s.skip(1).len() ==> #[trigger] s.skip(1)[k] == s[k + 1]);
        if has_nl(s) {
            let i = choose|i: int| 0 <= i < s.len() && #[trigger] s[i] == '\n';
            assert(s.skip(1)[i - 1] == '\n');
            assert(has_nl(s.skip(1)));
        }
        if has_nl(s.skip(1)) {
            let k = first_nl(s.skip(1));
            assert(s[k + 1] == '\n');
            assert(has_nl(s));
            assert forall|j: int| 0 <= j < k + 1 implies #[trigger] s[j] != '\n' by {
                if j >= 1 {
                    assert(s.skip(1)[j - 1] != '\n');
                }
            }
        }
    }
}

/// The lines of `s`: what stands between the newlines, the newlines
/// themselves dropped.  A text without newlines is one line; a trailing
/// newline yields a final empty line.
pub open spec fn spec_split_lines(s: Seq<char>) -> Seq<Seq<char>>
    decreases s.len(),
    via spec_split_lines_decreases
{
    if has_nl(s) {
        seq![s.take(first_nl(s))] + spec_split_lines(s.skip(first_nl(s) + 1))
    } else {
        seq![s]
    }
}

#[via_fn]
proof fn spec_split_lines_decreases(s: Seq<char>) {
    lemma_first_nl(s);
}

/// The text whose lines are `ls`, re-joined with single newlines.
pub open spec fn spec_join_lines(ls: Seq<Seq<char>>) -> Seq<char>
    decreases ls.len(),
{
    if ls.len() == 0 {
        Seq::empty()
    } else if ls.len() == 1 {
        ls[0]
    } else {
        ls[0] + seq!['\n'] + spec_join_lines(ls.skip(1))
    }
}

pub proof fn lemma_split_lines_len(s: Seq<char>)
    ensures
        spec_split_lines(s).len() >= 1,
    decreases s.len(),
{
    lemma_first_nl(s);
}

/// No line of a split carries a newline.
pub proof fn lemma_split_lines_no_nl(s: Seq<char>)
    ensures
        forall|i: int|
            0 <= i < spec_split_lines(s).len() ==> !has_nl(#[trigger] spec_split_lines(s)[i]),
    decreases s.len(),
{
    lemma_first_nl(s);
    if has_nl(s) {
        let k = first_nl(s);
        lemma_split_lines_no_nl(s.skip(k + 1));
        assert(forall|j: int| 0 <= j < k ==> #[trigger] s.take(k)[j] == s[j]);
        assert(!has_nl(s.take(k)));
        assert(forall|i: int|
            1 <= i < spec_split_lines(s).len() ==> spec_split_lines(s)[i]
                == spec_split_lines(s.skip(k + 1))[i - 1]);
    }
}

/// Joining the lines of a text gives the text back.
pub proof fn lemma_join_split(s: Seq<char>)
    ensures
        spec_join_lines(spec_split_lines(s)) == s,
    decreases s.len(),
{
    lemma_first_nl(s);
    if has_nl(s) {
        let k = first_nl(s);
        lemma_join_split(s.skip(k + 1));
        lemma_split_lines_len(s.skip(k + 1));
        let ls = spec_split_lines(s);
        assert(ls.skip(1) =~= spec_split_lines(s.skip(k + 1)));
        assert(s.take(k) + seq!['\n'] + s.skip(k + 1) =~= s);
    }
}

/// Splitting a joined sequence of newline-free lines gives the lines back.
pub proof fn lemma_split_join(ls: Seq<Seq<char>>)
    requires
        ls.len() >= 1,
        forall|i: int| 0 <= i < ls.len() ==> !has_nl(#[trigger] ls[i]),
    ensures
        spec_split_lines(spec_join_lines(ls)) == ls,
    decreases ls.len(),
{
    let s = spec_join_lines(ls);
    lemma_first_nl(s);
    if ls.len() == 1 {
        assert(!has_nl(s));
        assert(spec_split_lines(s) =~= ls);
    } else {
        let rest = spec_join_lines(ls.skip(1));
        assert(s == ls[0] + seq!['\n'] + rest);
        assert(s[ls[0].len() as int] == '\n');
        assert(has_nl(s));
        assert(forall|j: int| 0 <= j < ls[0].len() ==> #[trigger] s[j] == ls[0][j]);
        assert(first_nl(s) == ls[0].len()) by {
            let k = first_nl(s);
            if k < ls[0].len() {
                assert(s[k] == ls[0][k]);
                assert(!has_nl(ls[0]));
                assert(forall|i: int|
                    0 <= i < ls[0].len() ==> #[trigger] ls[0][i] != '\n');
            }
        }
        let k = first_nl(s);
        assert(s.take(k) =~= ls[0]);
        assert(s.skip(k + 1) =~= rest);
        lemma_split_join(ls.skip(1));
        assert(spec_split_lines(s) =~= ls);
    }
}

// ---------------------------------------------------------------------------
// The miner_address field
// ---------------------------------------------------------------------------

/// A line that assigns the miner address: the field name itself, followed
/// by whitespace or the equals sign.  A longer identifier that merely
/// begins with the field name is another field and is left alone.
pub open spec fn is_miner_line(l: Seq<char>) -> bool {
    &&& spec_starts_with(l, "miner_address"@)
    &&& l.len() > "miner_address"@.len()
    &&& {
        let c = l["miner_address"@.len() as int];
        c == ' ' || c == '\t' || c == '='
    }
}

pub fn check_miner_line(l: &str) -> (r: bool)
    ensures
        r == is_miner_line(l@),
{
    if !str_starts_with(l, "miner_address") {
        return false;
    }
    let n: usize = "miner_address".unicode_len();
    if l.unicode_len() <= n {
        return false;
    }
    let c = l.get_char(n);
    c == ' ' || c == '\t' || c == '='
}

/// The section header that owns the field.
pub open spec fn is_mining_header(l: Seq<char>) -> bool {
    l == "[mining]"@
}

/// The single canonical form the reconciler writes.
pub open spec fn canonical_miner_line(addr: Seq<char>) -> Seq<char> {
    "miner_address = \""@ + addr + "\""@
}

pub open spec fn any_miner_line(ls: Seq<Seq<char>>) -> bool {
    exists|i: int| 0 <= i < ls.len() && is_miner_line(#[trigger] ls[i])
}

pub open spec fn any_mining_header(ls: Seq<Seq<char>>) -> bool {
    exists|i: int| 0 <= i < ls.len() && is_mining_header(#[trigger] ls[i])
}

/// Index of the first miner-address line, or -1 when there is none.
pub open spec fn first_miner_line(ls: Seq<Seq<char>>) -> int
    decreases ls.len(),
{
    if ls.len() == 0 {
        -1
    } else if is_miner_line(ls[0]) {
        0
    } else if first_miner_line(ls.skip(1)) < 0 {
        -1
    } else {
        first_miner_line(ls.skip(1)) + 1
    }
}

/// Index of the first `[mining]` header line, or -1 when there is none.
pub open spec fn first_mining_header(ls: Seq<Seq<char>>) -> int
    decreases ls.len(),
{
    if ls.len() == 0 {
        -1
    } else if is_mining_header(ls[0]) {
        0
    } else if first_mining_header(ls.skip(1)) < 0 {
        -1
    } else {
        first_mining_header(ls.skip(1)) + 1
    }
}

pub proof fn lemma_first_miner_line(ls: Seq<Seq<char>>)
    ensures
        any_miner_line(ls) ==> 0 <= first_miner_line(ls) < ls.len() && is_miner_line(
            ls[first_miner_line(ls)],
        ) && forall|j: int| 0 <= j < first_miner_line(ls) ==> !is_miner_line(#[trigger] ls[j]),
        !any_miner_line(ls) ==> first_miner_line(ls) == -1,
    decreases ls.len(),
{
    if ls.len() == 0 {
    } else if is_miner_line(ls[0]) {
        assert(any_miner_line(ls));
    } else {
        lemma_first_miner_line(ls.skip(1));
        assert(forall|k: int| 0 <= k < ls.skip(1).len() ==> #[trigger] ls.skip(1)[k] == ls[k + 1]);
        if any_miner_line(ls) {
            let i = choose|i: int| 0 <= i < ls.len() && is_miner_line(#[trigger] ls[i]);
            assert(is_miner_line(ls.skip(1)[i - 1]));
            assert(any_miner_line(ls.skip(1)));
        }
        if any_miner_line(ls.skip(1)) {
            let k = first_miner_line(ls.skip(1));
            assert(is_miner_line(ls[k + 1]));
            assert(any_miner_line(ls));
            assert forall|j: int| 0 <= j < k + 1 implies !is_miner_line(#[trigger] ls[j]) by {
                if j >= 1 {
                    assert(!is_miner_line(ls.skip(1)[j - 1]));
                }
            }
        }
    }
}

pub proof fn lemma_first_mining_header(ls: Seq<Seq<char>>)
    ensures
        any_mining_header(ls) ==> 0 <= first_mining_header(ls) < ls.len() && is_mining_header(
            ls[first_mining_header(ls)],
        ) && forall|j: int|
            0 <= j < first_mining_header(ls) ==> !is_mining_header(#[trigger] ls[j]),
        !any_mining_header(ls) ==> first_mining_header(ls) == -1,
    decreases ls.len(),
{
    if ls.len() == 0 {
    } else if is_mining_header(ls[0]) {
        assert(any_mining_header(ls));
    } else {
        lemma_first_mining_header(ls.skip(1));
        assert(forall|k: int| 0 <= k < ls.skip(1).len() ==> #[trigger] ls.skip(1)[k] == ls[k + 1]);
        if any_mining_header(ls) {
            let i = choose|i: int| 0 <= i < ls.len() && is_mining_header(#[trigger] ls[i]);
            assert(is_mining_header(ls.skip(1)[i - 1]));
            assert(any_mining_header(ls.skip(1)));
        }
        if any_mining_header(ls.skip(1)) {
            let k = first_mining_header(ls.skip(1));
            assert(is_mining_header(ls[k + 1]));
            assert(any_mining_header(ls));
            assert forall|j: int| 0 <= j < k + 1 implies !is_mining_header(
                #[trigger] ls[j],
            ) by {
                if j >= 1 {
                    assert(!is_mining_header(ls.skip(1)[j - 1]));
                }
            }
        }
    }
}

/// What reconciliation does to the lines of the file: replace the first
/// miner-address assignment, or insert one right after the `[mining]`
/// header, or, with neither present, change nothing.  Every other line is
/// kept as it stands.
pub open spec fn spec_reconcile_lines(ls: Seq<Seq<char>>, addr: Seq<char>) -> Seq<Seq<char>> {
    if first_miner_line(ls) >= 0 {
        ls.update(first_miner_line(ls), canonical_miner_line(addr))
    } else if first_mining_header(ls) >= 0 {
        ls.insert(first_mining_header(ls) + 1, canonical_miner_line(addr))
    } else {
        ls
    }
}

/// What reconciliation does to the whole file text.
pub open spec fn spec_reconcile_text(s: Seq<char>, addr: Seq<char>) -> Seq<char> {
    spec_join_lines(spec_reconcile_lines(spec_split_lines(s), addr))
}

pub proof fn lemma_canonical_is_miner(addr: Seq<char>)
    ensures
        is_miner_line(canonical_miner_line(addr)),
{
    reveal_strlit("miner_address = \"");
    reveal_strlit("miner_address");
    assert("miner_address = \""@.len() == 17);
    assert("miner_address"@.len() == 13);
    assert(canonical_miner_line(addr).subrange(0, 13) =~= "miner_address"@);
    assert(canonical_miner_line(addr)[13] == "miner_address = \""@[13]);
    assert("miner_address = \""@[13] == ' ');
}

pub proof fn lemma_canonical_no_nl(addr: Seq<char>)
    requires
        !has_nl(addr),
    ensures
        !has_nl(canonical_miner_line(addr)),
{
    reveal_strlit("miner_address = \"");
    reveal_strlit("\"");
    let c = canonical_miner_line(addr);
    assert forall|i: int| 0 <= i < c.len() implies #[trigger] c[i] != '\n' by {
        if i < 17 {
            assert(c[i] == "miner_address = \""@[i]);
        } else if i < 17 + addr.len() {
            assert(c[i] == addr[i - 17]);
        } else {
            assert(c[i] == "\""@[i - 17 - addr.len()]);
        }
    }
}

// ---------------------------------------------------------------------------
// Executable splitting, joining, reconciling
// ---------------------------------------------------------------------------

/// The views of a sequence of owned lines.
pub open spec fn views(ls: Seq<String>) -> Seq<Seq<char>> {
    ls.map_values(|l: String| l@)
}

/// Splits a text into its lines, dropping the newlines.
pub fn split_lines(s: &str) -> (lines: Vec<String>)
    ensures
        views(lines@) == spec_split_lines(s@),
{
    let n: usize = s.unicode_len();
    let mut lines: Vec<String> = Vec::new();
    let mut start: usize = 0;
    let mut i: usize = 0;
    proof {
        assert(s@.skip(0) =~= s@);
        assert(views(lines@) =~= Seq::<Seq<char>>::empty());
    }
    while i < n
        invariant
            start <= i <= n,
            n == s@.len(),
            spec_split_lines(s@) =~= views(lines@) + spec_split_lines(s@.skip(start as int)),
            forall|j: int| start <= j < i ==> #[trigger] s@[j] != '\n',
        decreases n - i,
    {
        if s.get_char(i) == '\n' {
            let line = s.substring_char(start, i).to_owned();
            let ghost prev = lines@;
            lines.push(line);
            proof {
                let t = s@.skip(start as int);
                assert(forall|k: int| 0 <= k < t.len() ==> #[trigger] t[k] == s@[k
                    + start]);
                assert(t[i - start] == '\n');
                assert(has_nl(t));
                lemma_first_nl(t);
                assert(first_nl(t) == i - start) by {
                    let f = first_nl(t);
                    if f < i - start {
                        assert(s@[f + start] != '\n');
                    }
                    if f > i - start {
                        assert(t[i - start] != '\n');
                    }
                }
                assert(t.take(i - start) =~= line@);
                assert(t.skip(i - start + 1) =~= s@.skip(i + 1));
                assert(views(lines@) =~= views(prev).push(line@));
                assert(views(prev) + spec_split_lines(t) =~= views(lines@)
                    + spec_split_lines(s@.skip(i + 1)));
            }
            start = i + 1;
        }
        i = i + 1;
    }
    let last = s.substring_char(start, n).to_owned();
    let ghost prev = lines@;
    lines.push(last);
    proof {
        let t = s@.skip(start as int);
        assert(forall|k: int| 0 <= k < t.len() ==> #[trigger] t[k] == s@[k + start]);
        assert(!has_nl(t));
        assert(t =~= last@);
        assert(spec_split_lines(t) =~= seq![last@]);
        assert(views(lines@) =~= views(prev).push(last@));
        assert(views(prev) + spec_split_lines(t) =~= views(lines@));
    }
    lines
}

/// Appending one more line to a join costs one newline and the line.
pub proof fn lemma_join_push(ls: Seq<Seq<char>>, x: Seq<char>)
    requires
        ls.len() >= 1,
    ensures
        spec_join_lines(ls.push(x)) == spec_join_lines(ls) + seq!['\n'] + x,
    decreases ls.len(),
{
    if ls.len() == 1 {
        assert(ls.push(x).skip(1) =~= seq![x]);
        assert(spec_join_lines(seq![x]) == x);
        assert(spec_join_lines(ls.push(x)) =~= ls[0] + seq!['\n'] + x);
    } else {
        lemma_join_push(ls.skip(1), x);
        assert(ls.push(x).skip(1) =~= ls.skip(1).push(x));
        assert(spec_join_lines(ls.push(x)) == ls[0] + seq!['\n'] + spec_join_lines(
            ls.skip(1).push(x),
        ));
        assert(ls[0] + seq!['\n'] + (spec_join_lines(ls.skip(1)) + seq!['\n'] + x) =~= (ls[0]
            + seq!['\n'] + spec_join_lines(ls.skip(1))) + seq!['\n'] + x);
    }
}

/// Joins lines back into a text with single newlines between them.
pub fn join_lines(lines: &Vec<String>) -> (s: String)
    ensures
        s@ == spec_join_lines(views(lines@)),
{
    let mut out = String::new();
    if lines.len() == 0 {
        return out;
    }
    out.append(lines[0].as_str());
    proof {
        assert(views(lines@).take(1) =~= seq![lines@[0]@]);
    }
    let mut i: usize = 1;
    while i < lines.len()
        invariant
            1 <= i <= lines@.len(),
            out@ == spec_join_lines(views(lines@).take(i as int)),
        decreases lines@.len() - i,
    {
        out.append("\n");
        out.append(lines[i].as_str());
        proof {
            reveal_strlit("\n");
            assert("\n"@ =~= seq!['\n']);
            lemma_join_push(views(lines@).take(i as int), lines@[i as int]@);
            assert(views(lines@).take(i + 1) =~= views(lines@).take(i as int).push(
                lines@[i as int]@,
            ));
        }
        i = i + 1;
    }
    proof {
        assert(views(lines@).take(lines@.len() as int) =~= views(lines@));
    }
    out
}

/// The canonical assignment line for the given address.
pub fn canonical_line(addr: &str) -> (l: String)
    ensures
        l@ == canonical_miner_line(addr@),
{
    let mut l = String::from_str("miner_address = \"");
    l.append(addr);
    l.append("\"");
    l
}

/// Rewrites one sequence of lines as the reconciler prescribes: the first
/// miner-address assignment is replaced, or one is inserted right after the
/// `[mining]` header, or the lines come back unchanged.
pub fn reconcile_lines(lines: Vec<String>, addr: &str) -> (out: Vec<String>)
    ensures
        views(out@) == spec_reconcile_lines(views(lines@), addr@),
{
    let ghost orig = views(lines@);
    let mut ls = lines;
    let n: usize = ls.len();
    let mut found_miner: Option<usize> = None;
    let mut found_header: Option<usize> = None;
    let mut i: usize = 0;
    while i < n
        invariant
            i <= n,
            n == ls@.len(),
            views(ls@) == orig,
            match found_miner {
                Some(k) => k < i && is_miner_line(orig[k as int]) && forall|j: int|
                    0 <= j < k ==> !is_miner_line(#[trigger] orig[j]),
                None => forall|j: int| 0 <= j < i ==> !is_miner_line(#[trigger] orig[j]),
            },
            match found_header {
                Some(k) => k < i && is_mining_header(orig[k as int]) && forall|j: int|
                    0 <= j < k ==> !is_mining_header(#[trigger] orig[j]),
                None => forall|j: int| 0 <= j < i ==> !is_mining_header(#[trigger] orig[j]),
            },
        decreases n - i,
    {
        proof {
            assert(orig[i as int] == ls@[i as int]@);
        }
        if found_miner.is_none() && check_miner_line(ls[i].as_str()) {
            found_miner = Some(i);
        }
        if found_header.is_none() && crate::strutil::str_eq(ls[i].as_str(), "[mining]") {
            found_header = Some(i);
        }
        i = i + 1;
    }
    proof {
        lemma_first_miner_line(orig);
        lemma_first_mining_header(orig);
    }
    match found_miner {
        Some(k) => {
            proof {
                assert(any_miner_line(orig));
                assert(first_miner_line(orig) == k);
            }
            ls[k] = canonical_line(addr);
            proof {
                assert(views(ls@) =~= orig.update(k as int, canonical_miner_line(addr@)));
            }
            ls
        },
        None => {
            proof {
                assert(!any_miner_line(orig));
            }
            match found_header {
                Some(h) => {
                    proof {
                        assert(any_mining_header(orig));
                        assert(first_mining_header(orig) == h);
                    }
                    let c = canonical_line(addr);
                    ls.insert(h + 1, c);
                    proof {
                        assert(views(ls@) =~= orig.insert(
                            h + 1,
                            canonical_miner_line(addr@),
                        ));
                    }
                    ls
                },
                None => {
                    proof {
                        assert(!any_mining_header(orig));
                    }
                    ls
                },
            }
        },
    }
}

/// Idempotently rewrites the `miner_address` field of a configuration text.
///
/// When an assignment already exists, the first one is replaced in place;
/// otherwise one is inserted immediately after the `[mining]` header; a text
/// with neither comes back unchanged.  All other lines are byte-identical to
/// the input.
pub fn reconcile_miner_address(content: &str, addr: &str) -> (out: String)
    ensures
        out@ == spec_reconcile_text(content@, addr@),
{
    let lines = split_lines(content);
    let new_lines = reconcile_lines(lines, addr);
    join_lines(&new_lines)
}

// ---------------------------------------------------------------------------
// Laws of the reconciler
// ---------------------------------------------------------------------------

/// No two distinct lines both assign the miner address.
pub open spec fn at_most_one_miner(ls: Seq<Seq<char>>) -> bool {
    forall|i: int, j: int|
        0 <= i < ls.len() && 0 <= j < ls.len() && is_miner_line(#[trigger] ls[i])
            && is_miner_line(#[trigger] ls[j]) ==> i == j
}

/// Exactly one line assigns the miner address.
pub open spec fn exactly_one_miner(ls: Seq<Seq<char>>) -> bool {
    any_miner_line(ls) && at_most_one_miner(ls)
}

proof fn lemma_reconcile_lines_fixed(ls: Seq<Seq<char>>, addr: Seq<char>)
    requires
        !has_nl(addr),
        ls.len() >= 1,
    ensures
        spec_reconcile_lines(spec_reconcile_lines(ls, addr), addr) == spec_reconcile_lines(
            ls,
            addr,
        ),
        spec_reconcile_lines(ls, addr).len() >= 1,
        forall|i: int|
            (forall|k: int| 0 <= k < ls.len() ==> !has_nl(#[trigger] ls[k])) && 0 <= i
                < spec_reconcile_lines(ls, addr).len() ==> !has_nl(
                #[trigger] spec_reconcile_lines(ls, addr)[i],
            ),
{
    let c = canonical_miner_line(addr);
    let out = spec_reconcile_lines(ls, addr);
    lemma_canonical_is_miner(addr);
    lemma_canonical_no_nl(addr);
    lemma_first_miner_line(ls);
    lemma_first_mining_header(ls);
    lemma_first_miner_line(out);
    lemma_first_mining_header(out);
    let m = first_miner_line(ls);
    let h = first_mining_header(ls);
    if m >= 0 {
        assert(out == ls.update(m, c));
        assert(is_miner_line(out[m]));
        assert(any_miner_line(out));
        assert(first_miner_line(out) == m) by {
            let f = first_miner_line(out);
            if f < m {
                assert(out[f] == ls[f]);
            }
            if f > m {
                assert(!is_miner_line(out[m]));
            }
        }
        assert(out.update(m, c) =~= out);
    } else if h >= 0 {
        assert(out == ls.insert(h + 1, c));
        assert(out.len() == ls.len() + 1);
        assert(forall|j: int| 0 <= j <= h ==> #[trigger] out[j] == ls[j]);
        assert(out[h + 1] == c);
        assert(forall|j: int| h + 1 < j < out.len() ==> #[trigger] out[j] == ls[j - 1]);
        assert(is_miner_line(out[h + 1]));
        assert(any_miner_line(out));
        assert(first_miner_line(out) == h + 1) by {
            let f = first_miner_line(out);
            if f < h + 1 {
                assert(out[f] == ls[f]);
                assert(!is_miner_line(ls[f]));
            }
            if f > h + 1 {
                assert(!is_miner_line(out[h + 1]));
            }
        }
        assert(out.update(h + 1, c) =~= out);
    } else {
        assert(out == ls);
    }
}

/// Law: applying the reconciler twice with one address yields the same text
/// as applying it once; repeated application is stable byte for byte.
pub proof fn lemma_reconcile_idempotent(s: Seq<char>, addr: Seq<char>)
    requires
        !has_nl(addr),
    ensures
        spec_reconcile_text(spec_reconcile_text(s, addr), addr) == spec_reconcile_text(s, addr),
{
    let ls = spec_split_lines(s);
    lemma_split_lines_len(s);
    lemma_split_lines_no_nl(s);
    let out = spec_reconcile_lines(ls, addr);
    lemma_reconcile_lines_fixed(ls, addr);
    let text1 = spec_join_lines(out);
    lemma_split_join(out);
    assert(spec_split_lines(text1) == out);
    assert(spec_reconcile_lines(out, addr) == out);
}

/// Law: the reconciled file holds exactly one miner-address line whenever
/// the input held one, or held none but had a `[mining]` header; a file
/// with neither is returned unchanged.  The input must respect the file
/// invariant of at most one assignment.
pub proof fn lemma_reconcile_occurrences(s: Seq<char>, addr: Seq<char>)
    requires
        !has_nl(addr),
        at_most_one_miner(spec_split_lines(s)),
    ensures
        any_miner_line(spec_split_lines(s)) || any_mining_header(spec_split_lines(s))
            ==> exactly_one_miner(spec_split_lines(spec_reconcile_text(s, addr))),
        !any_miner_line(spec_split_lines(s)) && !any_mining_header(spec_split_lines(s))
            ==> spec_reconcile_text(s, addr) == s,
{
    let ls = spec_split_lines(s);
    lemma_split_lines_len(s);
    lemma_split_lines_no_nl(s);
    let c = canonical_miner_line(addr);
    let out = spec_reconcile_lines(ls, addr);
    lemma_canonical_is_miner(addr);
    lemma_canonical_no_nl(addr);
    lemma_reconcile_lines_fixed(ls, addr);
    lemma_first_miner_line(ls);
    lemma_first_mining_header(ls);
    lemma_split_join(out);
    assert(spec_split_lines(spec_reconcile_text(s, addr)) == out);
    let m = first_miner_line(ls);
    let h = first_mining_header(ls);
    if m >= 0 {
        assert(out == ls.update(m, c));
        assert(is_miner_line(out[m]));
        assert(any_miner_line(out));
        assert forall|i: int, j: int|
            0 <= i < out.len() && 0 <= j < out.len() && is_miner_line(#[trigger] out[i])
                && is_miner_line(#[trigger] out[j]) implies i == j by {
            if i != m {
                assert(out[i] == ls[i]);
            }
            if j != m {
                assert(out[j] == ls[j]);
            }
        }
    } else if h >= 0 {
        assert(out == ls.insert(h + 1, c));
        assert(forall|j: int| 0 <= j <= h ==> #[trigger] out[j] == ls[j]);
        assert(out[h + 1] == c);
        assert(forall|j: int| h + 1 < j < out.len() ==> #[trigger] out[j] == ls[j - 1]);
        assert(is_miner_line(out[h + 1]));
        assert(any_miner_line(out));
        assert forall|i: int, j: int|
            0 <= i < out.len() && 0 <= j < out.len() && is_miner_line(#[trigger] out[i])
                && is_miner_line(#[trigger] out[j]) implies i == j by {
            if i < h + 1 {
                assert(!is_miner_line(ls[i]));
            }
            if i > h + 1 {
                assert(!is_miner_line(ls[i - 1]));
            }
            if j < h + 1 {
                assert(!is_miner_line(ls[j]));
            }
            if j > h + 1 {
                assert(!is_miner_line(ls[j - 1]));
            }
        }
    } else {
        assert(out == ls);
        lemma_join_split(s);
    }
}

} // verus!
