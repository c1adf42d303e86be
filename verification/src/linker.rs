//! The linker: resolves the code labels of an object file to XSM addresses.
//!
//! An object file is the assembly that the code generator writes, with label
//! definitions (`L<n>:` lines) and label uses (`CALL L<n>`, `JMP L<n>`, ...).
//! The label definitions come as spans of the text (one span for a group of
//! consecutive definitions); each label gets the address of the instruction
//! that follows its group, the definitions are removed, and the uses are
//! replaced by addresses.
use vstd::prelude::*;
use crate::list::{List, SymTable};
use crate::strs::{views, dec, usize_to_string, to_chars};

verus! {

/// Address of the first instruction: the header takes the lines before it.
pub const XSM_START: usize = 2056;

/// The XSM address of the instruction on line `line` (counted from 1): each
/// instruction takes two words, and the 8 header lines have no address.
pub open spec fn xsm_address(line: int) -> int {
    if line < 9 {
        0
    } else {
        XSM_START + (line - 9) * 2
    }
}

/// The address of the instruction on line `line`.
pub fn __get_xsm_address(line: usize) -> (r: usize)
    requires
        xsm_address(line as int) <= usize::MAX,
    ensures
        r == xsm_address(line as int),
{
    if line < 9 {
        return 0;
    }
    XSM_START + (line - 9) * 2
}

// ---------------------------------------------------------------------------
// Text: lines, occurrences and replacement, over characters.
// ---------------------------------------------------------------------------

/// `p` occurs in `t` at `i`.
pub open spec fn starts_at(t: Seq<char>, p: Seq<char>, i: int) -> bool {
    0 <= i && i + p.len() <= t.len() && t.subrange(i, i + p.len()) == p
}

/// `p` occurs in `t` (the empty pattern occurs in every text).
pub open spec fn contains(t: Seq<char>, p: Seq<char>) -> bool {
    exists|i: int| #[trigger] starts_at(t, p, i)
}

/// `t` from `i` on, with each occurrence of the non-empty `p` replaced by
/// `r`, scanning from the left and resuming after each occurrence.
pub open spec fn replace_from(t: Seq<char>, p: Seq<char>, r: Seq<char>, i: nat) -> Seq<char>
    decreases t.len() - i,
{
    if i >= t.len() {
        Seq::empty()
    } else if p.len() > 0 && starts_at(t, p, i as int) {
        r + replace_from(t, p, r, i + p.len())
    } else {
        seq![t[i as int]] + replace_from(t, p, r, i + 1)
    }
}

/// `r` before, between and after the characters of `t`.
pub open spec fn interleave(t: Seq<char>, r: Seq<char>) -> Seq<char>
    decreases t.len(),
{
    if t.len() == 0 {
        r
    } else {
        r + seq![t[0]] + interleave(t.subrange(1, t.len() as int), r)
    }
}

/// `t` with every match of `p` replaced by `r`, as `str::replace` does.
pub open spec fn replace_all(t: Seq<char>, p: Seq<char>, r: Seq<char>) -> Seq<char> {
    if p.len() == 0 {
        interleave(t, r)
    } else {
        replace_from(t, p, r, 0)
    }
}

/// The first `\n` in `t` at or after `i`, or the length of `t`.
pub open spec fn next_newline(t: Seq<char>, i: nat) -> nat
    decreases t.len() - i,
{
    if i >= t.len() {
        t.len()
    } else if t[i as int] == '\n' {
        i
    } else {
        next_newline(t, i + 1)
    }
}

/// `l` without a final carriage return.
pub open spec fn strip_cr(l: Seq<char>) -> Seq<char> {
    if l.len() > 0 && l.last() == '\r' {
        l.drop_last()
    } else {
        l
    }
}

/// The lines of `t` from `i` on, as `str::lines` gives them: split at each
/// `\n`, a `\r` before it dropped, and no empty line after a final `\n`.
pub open spec fn lines_from(t: Seq<char>, i: nat) -> Seq<Seq<char>>
    decreases t.len() - i,
{
    if i >= t.len() {
        Seq::empty()
    } else {
        let j = next_newline(t, i);
        proof {
            lemma_next_newline_bounds(t, i);
        }
        if j >= t.len() {
            seq![t.subrange(i as int, t.len() as int)]
        } else {
            seq![strip_cr(t.subrange(i as int, j as int))] + lines_from(t, j + 1)
        }
    }
}

pub open spec fn lines_of(t: Seq<char>) -> Seq<Seq<char>> {
    lines_from(t, 0)
}

pub proof fn lemma_next_newline_bounds(t: Seq<char>, i: nat)
    requires
        i <= t.len(),
    ensures
        i <= next_newline(t, i) <= t.len(),
    decreases t.len() - i,
{
    if i < t.len() && t[i as int] != '\n' {
        lemma_next_newline_bounds(t, i + 1);
    }
}

proof fn lemma_next_newline(t: Seq<char>, i: nat, k: nat)
    requires
        i <= k <= t.len(),
        forall|m: int| i <= m < k ==> t[m] != '\n',
    ensures
        next_newline(t, i) == next_newline(t, k),
    decreases k - i,
{
    if i < k {
        lemma_next_newline(t, i + 1, k);
    }
}

/// The lines of `t`.
pub fn split_lines(t: &Vec<char>) -> (r: Vec<Vec<char>>)
    ensures
        r@.map_values(|l: Vec<char>| l@) == lines_of(t@),
{
    let mut out: Vec<Vec<char>> = Vec::new();
    let mut cur: Vec<char> = Vec::new();
    let mut start: usize = 0;
    let mut i: usize = 0;
    while i < t.len()
        invariant
            start <= i <= t.len(),
            cur@ == t@.subrange(start as int, i as int),
            forall|m: int| start <= m < i ==> t@[m] != '\n',
            out@.map_values(|l: Vec<char>| l@) + lines_from(t@, start as nat) == lines_of(t@),
        decreases t.len() - i,
    {
        if t[i] == '\n' {
            proof {
                lemma_next_newline(t@, start as nat, i as nat);
            }
            let mut line = cur;
            if line.len() > 0 && line[line.len() - 1] == '\r' {
                line.pop();
            }
            assert(line@ =~= strip_cr(t@.subrange(start as int, i as int)));
            let ghost before = out@.map_values(|l: Vec<char>| l@);
            out.push(line);
            assert(out@.map_values(|l: Vec<char>| l@) =~= before.push(line@));
            assert(lines_from(t@, start as nat) == seq![line@] + lines_from(t@, (i + 1) as nat));
            assert(out@.map_values(|l: Vec<char>| l@) + lines_from(t@, (i + 1) as nat) =~= before + lines_from(
                t@,
                start as nat,
            ));
            cur = Vec::new();
            start = i + 1;
        } else {
            cur.push(t[i]);
        }
        i += 1;
        assert(cur@ =~= t@.subrange(start as int, i as int));
    }
    if start < t.len() {
        proof {
            lemma_next_newline(t@, start as nat, t.len() as nat);
        }
        let ghost before = out@.map_values(|l: Vec<char>| l@);
        let ghost last = cur@;
        out.push(cur);
        assert(out@.map_values(|l: Vec<char>| l@) =~= before.push(last));
        assert(out@.map_values(|l: Vec<char>| l@) =~= before + lines_from(t@, start as nat));
    } else {
        assert(out@.map_values(|l: Vec<char>| l@) =~= out@.map_values(|l: Vec<char>| l@) + lines_from(
            t@,
            start as nat,
        ));
    }
    out
}

/// Whether `p` occurs in `t` at `i`.
fn occurs_at(t: &Vec<char>, p: &Vec<char>, i: usize) -> (r: bool)
    ensures
        r == starts_at(t@, p@, i as int),
{
    if i > t.len() || p.len() > t.len() - i {
        return false;
    }
    let mut k: usize = 0;
    while k < p.len()
        invariant
            k <= p.len(),
            i + p.len() <= t.len(),
            forall|m: int| 0 <= m < k ==> t@[i + m] == p@[m],
        decreases p.len() - k,
    {
        if t[i + k] != p[k] {
            assert(t@.subrange(i as int, i + p.len())[k as int] != p@[k as int]);
            return false;
        }
        k += 1;
    }
    assert(t@.subrange(i as int, i + p.len()) =~= p@);
    true
}

/// Whether `p` occurs in `t`.
pub fn contains_exec(t: &Vec<char>, p: &Vec<char>) -> (r: bool)
    ensures
        r == contains(t@, p@),
{
    let mut i: usize = 0;
    while i < t.len()
        invariant
            i <= t.len(),
            forall|m: int| 0 <= m < i ==> !starts_at(t@, p@, m),
        decreases t.len() - i,
    {
        if occurs_at(t, p, i) {
            return true;
        }
        i += 1;
    }
    if occurs_at(t, p, i) {
        return true;
    }
    assert forall|m: int| !(#[trigger] starts_at(t@, p@, m)) by {
        if 0 <= m && m <= i {
        } else if m > i {
        }
    }
    false
}

/// `t` with every match of `p` replaced by `r`.
pub fn replace_all_exec(t: &Vec<char>, p: &Vec<char>, r: &Vec<char>) -> (out: Vec<char>)
    ensures
        out@ == replace_all(t@, p@, r@),
{
    let mut out: Vec<char> = Vec::new();
    if p.len() == 0 {
        let mut i: usize = 0;
        assert(t@.subrange(0, t.len() as int) =~= t@);
        while i < t.len()
            invariant
                i <= t.len(),
                out@ + interleave(t@.subrange(i as int, t.len() as int), r@) == interleave(t@, r@),
            decreases t.len() - i,
        {
            let ghost rest = t@.subrange(i as int, t.len() as int);
            assert(rest.subrange(1, rest.len() as int) =~= t@.subrange(i + 1, t.len() as int));
            let ghost before = out@;
            let mut k: usize = 0;
            while k < r.len()
                invariant
                    k <= r.len(),
                    out@ == before + r@.subrange(0, k as int),
                decreases r.len() - k,
            {
                out.push(r[k]);
                k += 1;
                assert(out@ =~= before + r@.subrange(0, k as int));
            }
            out.push(t[i]);
            assert(out@ =~= before + r@ + seq![rest[0]]);
            i += 1;
            assert(out@ + interleave(t@.subrange(i as int, t.len() as int), r@) =~= before + interleave(rest, r@));
        }
        let ghost before = out@;
        let mut k: usize = 0;
        while k < r.len()
            invariant
                k <= r.len(),
                out@ == before + r@.subrange(0, k as int),
            decreases r.len() - k,
        {
            out.push(r[k]);
            k += 1;
            assert(out@ =~= before + r@.subrange(0, k as int));
        }
        assert(t@.subrange(i as int, t.len() as int) =~= Seq::<char>::empty());
        assert(out@ =~= before + r@);
        return out;
    }
    let mut i: usize = 0;
    while i < t.len()
        invariant
            i <= t.len(),
            p@.len() > 0,
            out@ + replace_from(t@, p@, r@, i as nat) == replace_all(t@, p@, r@),
        decreases t.len() - i,
    {
        let ghost before = out@;
        if occurs_at(t, p, i) {
            let mut k: usize = 0;
            while k < r.len()
                invariant
                    k <= r.len(),
                    out@ == before + r@.subrange(0, k as int),
                decreases r.len() - k,
            {
                out.push(r[k]);
                k += 1;
                assert(out@ =~= before + r@.subrange(0, k as int));
            }
            assert(out@ =~= before + r@);
            assert(out@ + replace_from(t@, p@, r@, (i + p.len()) as nat) =~= before + replace_from(
                t@,
                p@,
                r@,
                i as nat,
            ));
            i = i + p.len();
        } else {
            out.push(t[i]);
            assert(out@ + replace_from(t@, p@, r@, (i + 1) as nat) =~= before + replace_from(
                t@,
                p@,
                r@,
                i as nat,
            ));
            i = i + 1;
        }
    }
    assert(out@ =~= replace_all(t@, p@, r@));
    out
}

} // verus!

verus! {

// ---------------------------------------------------------------------------
// Labels and their addresses.
// ---------------------------------------------------------------------------

/// The successive matches of the pattern `L(\d+)` in `text`, leftmost first
/// and not overlapping, as `regex::Regex::find_iter` finds them.
pub uninterp spec fn label_matches(text: Seq<char>) -> Seq<Seq<char>>;

/// The labels in `text`, by `regex::Regex::find_iter` with the pattern
/// `L(\d+)` (a capital `L` and one or more Unicode decimal digits). The
/// contract names the matches and claims only that they are a function of
/// `text`; what `\d` matches is left to the regex crate.
#[verifier::external_body]
fn find_labels(text: &str) -> (r: Vec<String>)
    ensures
        views(r@) == label_matches(text@),
{
    let re = regex::Regex::new(r"L(\d+)").unwrap();
    let mut v: Vec<String> = Vec::new();
    for m in re.find_iter(text) {
        v.push(m.as_str().to_owned());
    }
    v
}

/// Each span lies within `t`.
pub open spec fn spans_within(t: Seq<char>, spans: Seq<(usize, usize)>) -> bool {
    forall|i: int| 0 <= i < spans.len() ==> #[trigger] spans[i].0 <= spans[i].1 <= t.len()
}

/// The labels of each span of `t`.
pub open spec fn tags_of(t: Seq<char>, spans: Seq<(usize, usize)>) -> Seq<Seq<Seq<char>>> {
    Seq::new(spans.len(), |i: int| label_matches(t.subrange(spans[i].0 as int, spans[i].1 as int)))
}

/// Whether `line` defines a label of `tag` (from the `j`-th on) before a
/// label of `tag` that already has an address.
pub open spec fn scan_tag(map: Map<Seq<char>, usize>, tag: Seq<Seq<char>>, line: Seq<char>, j: nat) -> bool
    decreases tag.len() - j,
{
    if j >= tag.len() {
        false
    } else if map.dom().contains(tag[j as int]) {
        false
    } else if contains(line, tag[j as int] + ":"@) {
        true
    } else {
        scan_tag(map, tag, line, j + 1)
    }
}

/// The first tag from the `k`-th on that `line` defines.
pub open spec fn first_tag(map: Map<Seq<char>, usize>, tags: Seq<Seq<Seq<char>>>, line: Seq<char>, k: nat) -> Option<
    nat,
>
    decreases tags.len() - k,
{
    if k >= tags.len() {
        None
    } else if scan_tag(map, tags[k as int], line, 0) {
        Some(k)
    } else {
        first_tag(map, tags, line, k + 1)
    }
}

/// `map` with each label of `tag` at `addr`.
pub open spec fn bind_all(map: Map<Seq<char>, usize>, tag: Seq<Seq<char>>, addr: usize) -> Map<Seq<char>, usize>
    decreases tag.len(),
{
    if tag.len() == 0 {
        map
    } else {
        bind_all(map.insert(tag[0], addr), tag.subrange(1, tag.len() as int), addr)
    }
}

/// The addresses of the labels, going through the lines from the `i`-th
/// with `lineno` the line number of the next instruction: the labels of a
/// tag whose definition is met get the address of `lineno`, and the lines of
/// the tag's definitions do not count. `None` where the arithmetic on line
/// numbers and addresses leaves the machine word.
pub open spec fn assign(
    map: Map<Seq<char>, usize>,
    lineno: int,
    tags: Seq<Seq<Seq<char>>>,
    lines: Seq<Seq<char>>,
    i: nat,
) -> Option<Map<Seq<char>, usize>>
    decreases lines.len() - i,
{
    if i >= lines.len() {
        Some(map)
    } else {
        match first_tag(map, tags, lines[i as int], 0) {
            Some(k) => {
                let a = xsm_address(lineno);
                let next = lineno - tags[k as int].len();
                if a > usize::MAX || next < 0 || next + 1 > usize::MAX {
                    None
                } else {
                    assign(bind_all(map, tags[k as int], a as usize), next + 1, tags, lines, i + 1)
                }
            },
            None => if lineno + 1 > usize::MAX {
                None
            } else {
                assign(map, lineno + 1, tags, lines, i + 1)
            },
        }
    }
}

/// The address of each label of the object text `t` whose label
/// definitions are at `spans`; `None` where the linker stops (a span out
/// of the text, or a line number or address out of the machine word).
pub open spec fn label_map_of(t: Seq<char>, spans: Seq<(usize, usize)>) -> Option<Map<Seq<char>, usize>> {
    if spans_within(t, spans) {
        assign(Map::empty(), 1, tags_of(t, spans), lines_of(t), 0)
    } else {
        None
    }
}

/// The bindings of a table, as a map.
pub open spec fn table_map(t: SymTable<usize>) -> Map<Seq<char>, usize> {
    Map::new(|q: Seq<char>| t.lookup(q) is Some, |q: Seq<char>| t.lookup(q)->0)
}

/// The characters of `s` followed by `:`.
fn definition_of(s: &String) -> (r: Vec<char>)
    ensures
        r@ == s@ + ":"@,
{
    let mut v = to_chars(s.as_str());
    v.push(':');
    proof {
        reveal_strlit(":");
    }
    assert(v@ =~= s@ + ":"@);
    v
}

fn scan_tag_exec(table: &SymTable<usize>, tag: &Vec<String>, defs: &Vec<Vec<char>>, line: &Vec<char>, j: usize) -> (r: bool)
    requires
        defs.len() == tag.len(),
        forall|m: int| 0 <= m < tag.len() ==> #[trigger] defs@[m]@ == tag@[m]@ + ":"@,
        j <= tag.len(),
    ensures
        r == scan_tag(table_map(*table), views(tag@), line@, j as nat),
    decreases tag.len() - j,
{
    if j >= tag.len() {
        return false;
    }
    assert(views(tag@)[j as int] == tag@[j as int]@);
    if table.contains_key(&tag[j]) {
        return false;
    }
    if contains_exec(line, &defs[j]) {
        return true;
    }
    scan_tag_exec(table, tag, defs, line, j + 1)
}

fn first_tag_exec(
    table: &SymTable<usize>,
    tags: &Vec<Vec<String>>,
    defs: &Vec<Vec<Vec<char>>>,
    line: &Vec<char>,
    k: usize,
) -> (r: Option<usize>)
    requires
        defs.len() == tags.len(),
        forall|a: int| 0 <= a < tags.len() ==> #[trigger] defs@[a]@.len() == tags@[a]@.len(),
        forall|a: int, m: int|
            0 <= a < tags.len() && 0 <= m < tags@[a]@.len() ==> #[trigger] defs@[a]@[m]@ == tags@[a]@[m]@ + ":"@,
        k <= tags.len(),
    ensures
        r matches Some(x) ==> x < tags.len(),
        r matches Some(x) ==> first_tag(table_map(*table), tags@.map_values(|t: Vec<String>| views(t@)), line@, k as nat)
            == Some(x as nat),
        r is None ==> first_tag(table_map(*table), tags@.map_values(|t: Vec<String>| views(t@)), line@, k as nat)
            is None,
    decreases tags.len() - k,
{
    if k >= tags.len() {
        return None;
    }
    assert(tags@.map_values(|t: Vec<String>| views(t@))[k as int] == views(tags@[k as int]@));
    assert forall|m: int| 0 <= m < tags@[k as int].len() implies #[trigger] defs@[k as int]@[m]@ == tags@[k as int]@[m]@
        + ":"@ by {}
    if scan_tag_exec(table, &tags[k], &defs[k], line, 0) {
        return Some(k);
    }
    first_tag_exec(table, tags, defs, line, k + 1)
}

fn bind_all_exec(table: &mut SymTable<usize>, tag: &Vec<String>, addr: usize)
    ensures
        table_map(*final(table)) == bind_all(table_map(*old(table)), views(tag@), addr),
        old(table).wf() ==> final(table).wf(),
{
    let mut j: usize = 0;
    assert(views(tag@).subrange(0, tag.len() as int) =~= views(tag@));
    while j < tag.len()
        invariant
            j <= tag.len(),
            old(table).wf() ==> table.wf(),
            bind_all(table_map(*table), views(tag@).subrange(j as int, tag.len() as int), addr) == bind_all(
                table_map(*old(table)),
                views(tag@),
                addr,
            ),
        decreases tag.len() - j,
    {
        let ghost before = table_map(*table);
        let ghost rest = views(tag@).subrange(j as int, tag.len() as int);
        table.insert(tag[j].clone(), addr);
        assert(table_map(*table) =~= before.insert(tag@[j as int]@, addr));
        assert(rest[0] == tag@[j as int]@);
        assert(rest.subrange(1, rest.len() as int) =~= views(tag@).subrange(j + 1, tag.len() as int));
        j += 1;
    }
    assert(views(tag@).subrange(tag.len() as int, tag.len() as int) =~= Seq::<Seq<char>>::empty());
    assert(views(tag@).subrange(0, tag.len() as int) =~= views(tag@));
}

/// The address of each label of the object text `input`, whose groups of
/// label definitions are at the character spans `spans` (in text order); as
/// the linker's first two passes compute it. `None` where they stop.
pub fn label_addresses(input: &str, spans: &Vec<(usize, usize)>) -> (r: Option<SymTable<usize>>)
    ensures
        r is Some <==> label_map_of(input@, spans@) is Some,
        r matches Some(t) ==> t.wf() && table_map(t) == label_map_of(input@, spans@)->0,
{
    let n = input.unicode_len();
    let mut tags: Vec<Vec<String>> = Vec::new();
    let mut k: usize = 0;
    while k < spans.len()
        invariant
            k <= spans.len(),
            n == input@.len(),
            tags.len() == k,
            forall|a: int| 0 <= a < k ==> (#[trigger] spans@[a]).0 <= spans@[a].1 <= n,
            forall|a: int| 0 <= a < k ==> #[trigger] views(tags@[a]@) == tags_of(input@, spans@)[a],
        decreases spans.len() - k,
    {
        let (s, e) = spans[k];
        if !(s <= e && e <= n) {
            assert(!spans_within(input@, spans@));
            return None;
        }
        tags.push(find_labels(input.substring_char(s, e)));
        k += 1;
    }
    assert(tags@.map_values(|t: Vec<String>| views(t@)) =~= tags_of(input@, spans@));
    assign_addresses(input, &tags)
}

/// The address of each label of the object text `input`, given the labels
/// of each group of label definitions in `tags` (in text order): the second
/// pass of the linker. `None` where the arithmetic on line numbers and
/// addresses leaves the machine word.
pub fn assign_addresses(input: &str, tags: &Vec<Vec<String>>) -> (r: Option<SymTable<usize>>)
    ensures
        r is Some <==> assign(Map::empty(), 1, tags@.map_values(|t: Vec<String>| views(t@)), lines_of(input@), 0)
            is Some,
        r matches Some(t) ==> t.wf() && table_map(t) == assign(
            Map::empty(),
            1,
            tags@.map_values(|t: Vec<String>| views(t@)),
            lines_of(input@),
            0,
        )->0,
{
    let ghost tg = tags@.map_values(|t: Vec<String>| views(t@));
    let mut defs: Vec<Vec<Vec<char>>> = Vec::new();
    let mut k: usize = 0;
    while k < tags.len()
        invariant
            k <= tags.len(),
            defs.len() == k,
            forall|a: int| 0 <= a < k ==> #[trigger] defs@[a]@.len() == tags@[a]@.len(),
            forall|a: int, m: int|
                0 <= a < k && 0 <= m < tags@[a]@.len() ==> #[trigger] defs@[a]@[m]@ == tags@[a]@[m]@ + ":"@,
        decreases tags.len() - k,
    {
        let labels = &tags[k];
        let mut d: Vec<Vec<char>> = Vec::new();
        let mut m: usize = 0;
        while m < labels.len()
            invariant
                m <= labels.len(),
                d.len() == m,
                forall|x: int| 0 <= x < m ==> #[trigger] d@[x]@ == labels@[x]@ + ":"@,
            decreases labels.len() - m,
        {
            d.push(definition_of(&labels[m]));
            m += 1;
        }
        defs.push(d);
        k += 1;
    }
    let chars = to_chars(input);
    let lines = split_lines(&chars);
    let ghost ls = lines_of(input@);
    let mut table: SymTable<usize> = SymTable::new();
    assert(table_map(table) =~= Map::<Seq<char>, usize>::empty());
    let mut lineno: usize = 1;
    let mut i: usize = 0;
    while i < lines.len()
        invariant
            i <= lines.len(),
            lines@.map_values(|l: Vec<char>| l@) == ls,
            tags@.map_values(|t: Vec<String>| views(t@)) == tg,
            defs.len() == tags.len(),
            forall|a: int| 0 <= a < tags.len() ==> #[trigger] defs@[a]@.len() == tags@[a]@.len(),
            forall|a: int, m: int|
                0 <= a < tags.len() && 0 <= m < tags@[a]@.len() ==> #[trigger] defs@[a]@[m]@ == tags@[a]@[m]@ + ":"@,
            table.wf(),
            ls == lines_of(input@),
            assign(table_map(table), lineno as int, tg, ls, i as nat) == assign(Map::empty(), 1, tg, ls, 0),
        decreases lines.len() - i,
    {
        assert(ls[i as int] == lines@[i as int]@);
        match first_tag_exec(&table, &tags, &defs, &lines[i], 0) {
            Some(k) => {
                assert(tg[k as int] == views(tags@[k as int]@));
                let len = tags[k].len();
                assert(tg[k as int].len() == len);
                let a: usize = if lineno < 9 {
                    0
                } else {
                    match (lineno - 9).checked_mul(2) {
                        Some(x) => match x.checked_add(XSM_START) {
                            Some(y) => y,
                            None => {
                                return None;
                            },
                        },
                        None => {
                            return None;
                        },
                    }
                };
                if lineno < len || lineno - len == usize::MAX {
                    return None;
                }
                bind_all_exec(&mut table, &tags[k], a);
                lineno = lineno - len + 1;
            },
            None => {
                if lineno == usize::MAX {
                    return None;
                }
                lineno = lineno + 1;
            },
        }
        i += 1;
    }
    Some(table)
}

// ---------------------------------------------------------------------------
// Removing the label definitions.
// ---------------------------------------------------------------------------

/// `t` after removing, for each span from the `k`-th down to the first, every
/// occurrence of the text that the span covers in the current text; `None`
/// where a span falls outside the current text.
pub open spec fn strip(t: Seq<char>, spans: Seq<(usize, usize)>, k: nat) -> Option<Seq<char>>
    decreases k,
{
    if k == 0 || k > spans.len() {
        Some(t)
    } else {
        let sp = spans[k - 1];
        if sp.0 <= sp.1 <= t.len() {
            strip(replace_all(t, t.subrange(sp.0 as int, sp.1 as int), Seq::empty()), spans, (k - 1) as nat)
        } else {
            None
        }
    }
}

/// The object text `input` without its label definitions at `spans`: the
/// spans are taken last first, each against the text as it stands, and every
/// occurrence of what it covers is removed.
pub fn strip_labels(input: &str, spans: &Vec<(usize, usize)>) -> (r: Option<Vec<char>>)
    ensures
        r is Some <==> strip(input@, spans@, spans@.len()) is Some,
        r matches Some(t) ==> t@ == strip(input@, spans@, spans@.len())->0,
{
    let mut t = to_chars(input);
    let empty: Vec<char> = Vec::new();
    let mut k: usize = spans.len();
    while k > 0
        invariant
            k <= spans.len(),
            empty@ == Seq::<char>::empty(),
            strip(t@, spans@, k as nat) == strip(input@, spans@, spans@.len()),
        decreases k,
    {
        let (s, e) = spans[k - 1];
        if !(s <= e && e <= t.len()) {
            return None;
        }
        let mut pat: Vec<char> = Vec::new();
        let mut m: usize = s;
        while m < e
            invariant
                s <= m <= e <= t.len(),
                pat@ == t@.subrange(s as int, m as int),
            decreases e - m,
        {
            pat.push(t[m]);
            m += 1;
            assert(pat@ =~= t@.subrange(s as int, m as int));
        }
        t = replace_all_exec(&t, &pat, &empty);
        k -= 1;
    }
    Some(t)
}

// ---------------------------------------------------------------------------
// Replacing the label uses.
// ---------------------------------------------------------------------------

/// An ASCII decimal digit.
pub open spec fn is_digit_char(c: char) -> bool {
    '0' <= c && c <= '9'
}

/// The label `p` stands in `t` at `i` as a whole: it occurs there and no
/// digit follows it.
pub open spec fn label_at(t: Seq<char>, p: Seq<char>, i: int) -> bool {
    &&& p.len() > 0
    &&& starts_at(t, p, i)
    &&& (i + p.len() == t.len() || !is_digit_char(t[i + p.len()]))
}

/// The first label of `order`, from the `j`-th on, that stands in `t` at `i`.
pub open spec fn label_here(t: Seq<char>, order: Seq<(Seq<char>, usize)>, i: int, j: nat) -> Option<nat>
    decreases order.len() - j,
{
    if j >= order.len() {
        None
    } else if label_at(t, order[j as int].0, i) {
        Some(j)
    } else {
        label_here(t, order, i, j + 1)
    }
}

pub proof fn lemma_label_here(t: Seq<char>, order: Seq<(Seq<char>, usize)>, i: int, j: nat)
    ensures
        label_here(t, order, i, j) matches Some(k) ==> j <= k < order.len() && label_at(t, order[k as int].0, i),
        label_here(t, order, i, j) is None ==> forall|k: int| j <= k < order.len() ==> !label_at(t, #[trigger] order[k].0, i),
    decreases order.len() - j,
{
    if j < order.len() && !label_at(t, order[j as int].0, i) {
        lemma_label_here(t, order, i, j + 1);
    }
}

/// `t` from `i` on with each label of `order` that stands in it as a whole
/// replaced by its address.
pub open spec fn relocate_from(t: Seq<char>, order: Seq<(Seq<char>, usize)>, i: nat) -> Seq<char>
    decreases t.len() - i,
{
    if i >= t.len() {
        Seq::empty()
    } else {
        match label_here(t, order, i as int, 0) {
            Some(j) => {
                proof {
                    lemma_label_here(t, order, i as int, 0);
                }
                dec(order[j as int].1 as nat) + relocate_from(t, order, i + order[j as int].0.len())
            },
            None => seq![t[i as int]] + relocate_from(t, order, i + 1),
        }
    }
}

/// `line` with each use of a label of `order` replaced by the label's address.
pub open spec fn relocate_line(line: Seq<char>, order: Seq<(Seq<char>, usize)>) -> Seq<char> {
    relocate_from(line, order, 0)
}

pub open spec fn order_view(order: Seq<(String, usize)>) -> Seq<(Seq<char>, usize)> {
    order.map_values(|e: (String, usize)| (e.0@, e.1))
}

/// The lines of the text `t` with their label uses replaced.
pub open spec fn relocated(t: Seq<char>, order: Seq<(String, usize)>) -> Seq<Seq<char>> {
    lines_of(t).map_values(|l: Seq<char>| relocate_line(l, order_view(order)))
}

/// Whether `p` stands in `t` at `i` as a whole label.
fn label_at_exec(t: &Vec<char>, p: &Vec<char>, i: usize) -> (r: bool)
    ensures
        r == label_at(t@, p@, i as int),
{
    if p.len() == 0 {
        return false;
    }
    if !occurs_at(t, p, i) {
        return false;
    }
    assert(i + p.len() <= t.len());
    let e = i + p.len();
    e == t.len() || !('0' <= t[e] && t[e] <= '9')
}

fn label_here_exec(t: &Vec<char>, keys: &Vec<Vec<char>>, ov: Ghost<Seq<(Seq<char>, usize)>>, i: usize, j: usize) -> (r:
    Option<usize>)
    requires
        keys.len() == ov@.len(),
        forall|x: int| 0 <= x < keys.len() ==> #[trigger] keys@[x]@ == ov@[x].0,
        j <= keys.len(),
    ensures
        r matches Some(k) ==> label_here(t@, ov@, i as int, j as nat) == Some(k as nat),
        r is None ==> label_here(t@, ov@, i as int, j as nat) is None,
    decreases keys.len() - j,
{
    if j >= keys.len() {
        return None;
    }
    if label_at_exec(t, &keys[j], i) {
        return Some(j);
    }
    label_here_exec(t, keys, ov, i, j + 1)
}

fn relocate_line_exec(t: &Vec<char>, keys: &Vec<Vec<char>>, vals: &Vec<Vec<char>>, ov: Ghost<Seq<(Seq<char>, usize)>>) -> (r: Vec<char>)
    requires
        keys.len() == ov@.len(),
        vals.len() == ov@.len(),
        forall|x: int| 0 <= x < keys.len() ==> #[trigger] keys@[x]@ == ov@[x].0,
        forall|x: int| 0 <= x < vals.len() ==> #[trigger] vals@[x]@ == dec(ov@[x].1 as nat),
    ensures
        r@ == relocate_line(t@, ov@),
{
    let mut out: Vec<char> = Vec::new();
    let mut i: usize = 0;
    while i < t.len()
        invariant
            i <= t.len(),
            keys.len() == ov@.len(),
            vals.len() == ov@.len(),
            forall|x: int| 0 <= x < keys.len() ==> #[trigger] keys@[x]@ == ov@[x].0,
            forall|x: int| 0 <= x < vals.len() ==> #[trigger] vals@[x]@ == dec(ov@[x].1 as nat),
            out@ + relocate_from(t@, ov@, i as nat) == relocate_line(t@, ov@),
        decreases t.len() - i,
    {
        let ghost before = out@;
        proof {
            lemma_label_here(t@, ov@, i as int, 0);
        }
        match label_here_exec(t, keys, ov, i, 0) {
            Some(k) => {
                let v = &vals[k];
                let mut m: usize = 0;
                while m < v.len()
                    invariant
                        m <= v.len(),
                        out@ == before + v@.subrange(0, m as int),
                    decreases v.len() - m,
                {
                    out.push(v[m]);
                    m += 1;
                    assert(out@ =~= before + v@.subrange(0, m as int));
                }
                assert(out@ =~= before + v@);
                let klen = keys[k].len();
                assert(out@ + relocate_from(t@, ov@, (i + klen) as nat) =~= before + relocate_from(
                    t@,
                    ov@,
                    i as nat,
                ));
                i = i + klen;
            },
            None => {
                out.push(t[i]);
                assert(out@ + relocate_from(t@, ov@, (i + 1) as nat) =~= before + relocate_from(t@, ov@, i as nat));
                i = i + 1;
            },
        }
    }
    assert(out@ =~= relocate_line(t@, ov@));
    out
}

/// The lines of the object text `text` with each use of a label of `order`
/// (a whole label, not followed by a digit) replaced by the label's address.
pub fn relocate(text: &Vec<char>, order: &Vec<(String, usize)>) -> (r: Vec<Vec<char>>)
    ensures
        r@.map_values(|l: Vec<char>| l@) == relocated(text@, order@),
{
    let ghost ov = order_view(order@);
    let mut keys: Vec<Vec<char>> = Vec::new();
    let mut vals: Vec<Vec<char>> = Vec::new();
    let mut j: usize = 0;
    while j < order.len()
        invariant
            j <= order.len(),
            ov == order_view(order@),
            keys.len() == j,
            vals.len() == j,
            forall|x: int| 0 <= x < j ==> #[trigger] keys@[x]@ == ov[x].0,
            forall|x: int| 0 <= x < j ==> #[trigger] vals@[x]@ == dec(ov[x].1 as nat),
        decreases order.len() - j,
    {
        keys.push(to_chars(order[j].0.as_str()));
        let num = usize_to_string(order[j].1);
        vals.push(to_chars(num.as_str()));
        j += 1;
    }
    let lines = split_lines(text);
    let ghost ls = lines_of(text@);
    let mut out: Vec<Vec<char>> = Vec::new();
    let mut i: usize = 0;
    while i < lines.len()
        invariant
            i <= lines.len(),
            lines@.map_values(|l: Vec<char>| l@) == ls,
            ov == order_view(order@),
            keys.len() == order.len(),
            vals.len() == order.len(),
            forall|x: int| 0 <= x < order.len() ==> #[trigger] keys@[x]@ == ov[x].0,
            forall|x: int| 0 <= x < order.len() ==> #[trigger] vals@[x]@ == dec(ov[x].1 as nat),
            out@.map_values(|l: Vec<char>| l@) == ls.subrange(0, i as int).map_values(
                |l: Seq<char>| relocate_line(l, ov),
            ),
        decreases lines.len() - i,
    {
        assert(ls[i as int] == lines@[i as int]@);
        let res = relocate_line_exec(&lines[i], &keys, &vals, Ghost(ov));
        let ghost before = out@.map_values(|l: Vec<char>| l@);
        let ghost rv = res@;
        out.push(res);
        assert(out@.map_values(|l: Vec<char>| l@) =~= before.push(rv));
        assert(ls.subrange(0, (i + 1) as int).map_values(|l: Seq<char>| relocate_line(l, ov)) =~= ls.subrange(
            0,
            i as int,
        ).map_values(|l: Seq<char>| relocate_line(l, ov)).push(relocate_line(ls[i as int], ov)));
        i += 1;
    }
    assert(ls.subrange(0, ls.len() as int) =~= ls);
    out
}

} // verus!

verus! {

// ---------------------------------------------------------------------------
// Laws of addresses and relocation.
// ---------------------------------------------------------------------------

/// Consecutive instruction lines are two words apart, from the first
/// instruction on; the header lines have address 0.
pub proof fn lemma_address_step(line: int)
    ensures
        line >= 9 ==> xsm_address(line + 1) == xsm_address(line) + 2,
        line < 9 ==> xsm_address(line) == 0,
        xsm_address(9) == XSM_START,
{
}

proof fn lemma_replace_from_absent(t: Seq<char>, p: Seq<char>, r: Seq<char>, i: nat)
    requires
        p.len() > 0,
        !contains(t, p),
        i <= t.len(),
    ensures
        replace_from(t, p, r, i) == t.subrange(i as int, t.len() as int),
    decreases t.len() - i,
{
    if i < t.len() {
        assert(!starts_at(t, p, i as int));
        lemma_replace_from_absent(t, p, r, i + 1);
        assert(t.subrange(i as int, t.len() as int) =~= seq![t[i as int]] + t.subrange((i + 1) as int, t.len() as int));
    } else {
        assert(t.subrange(i as int, t.len() as int) =~= Seq::<char>::empty());
    }
}

/// Replacing a non-empty text that does not occur leaves the text as it is.
pub proof fn lemma_replace_absent(t: Seq<char>, p: Seq<char>, r: Seq<char>)
    requires
        p.len() > 0,
        !contains(t, p),
    ensures
        replace_all(t, p, r) == t,
{
    lemma_replace_from_absent(t, p, r, 0);
    assert(t.subrange(0, t.len() as int) =~= t);
}

/// A label of the form `L` and digits is the only such label that stands at
/// a place, so each use of a label is replaced by that label's own address,
/// whatever the order in which the labels are tried.
pub proof fn lemma_label_own_address(t: Seq<char>, order: Seq<(Seq<char>, usize)>, i: int, j: int)
    requires
        0 <= j < order.len(),
        label_at(t, order[j].0, i),
        forall|x: int| 0 <= x < order.len() ==> is_label_name(#[trigger] order[x].0),
        forall|x: int, y: int| 0 <= x < y < order.len() ==> #[trigger] order[x].0 != #[trigger] order[y].0,
    ensures
        label_here(t, order, i, 0) == Some(j as nat),
{
    lemma_label_here(t, order, i, 0);
    let k = label_here(t, order, i, 0)->0 as int;
    let a = order[j].0;
    let b = order[k].0;
    if a.len() < b.len() {
        assert(t[i + a.len()] == b[a.len() as int]);
    } else if b.len() < a.len() {
        assert(t[i + b.len()] == a[b.len() as int]);
    }
    assert(a =~= t.subrange(i, i + a.len()));
    assert(b =~= t.subrange(i, i + b.len()));
    assert(a == b);
}

/// `L` followed by one or more ASCII digits.
pub open spec fn is_label_name(p: Seq<char>) -> bool {
    p.len() >= 2 && p[0] == 'L' && forall|m: int| 1 <= m < p.len() ==> is_digit_char(#[trigger] p[m])
}

/// A line in which no label stands is written as it is.
pub proof fn lemma_relocate_plain(line: Seq<char>, order: Seq<(Seq<char>, usize)>, i: nat)
    requires
        forall|k: int, x: int| 0 <= k < order.len() ==> !#[trigger] label_at(line, order[k].0, x),
        i <= line.len(),
    ensures
        relocate_from(line, order, i) == line.subrange(i as int, line.len() as int),
    decreases line.len() - i,
{
    if i < line.len() {
        lemma_label_here(line, order, i as int, 0);
        lemma_relocate_plain(line, order, i + 1);
        assert(line.subrange(i as int, line.len() as int) =~= seq![line[i as int]] + line.subrange(
            (i + 1) as int,
            line.len() as int,
        ));
    } else {
        assert(line.subrange(i as int, line.len() as int) =~= Seq::<char>::empty());
    }
}

} // verus!

verus! {

/// All the labels of a group of definitions get the same address, and the
/// other labels keep theirs.
pub proof fn lemma_group_same_address(map: Map<Seq<char>, usize>, tag: Seq<Seq<char>>, addr: usize)
    ensures
        forall|k: int| 0 <= k < tag.len() ==> bind_all(map, tag, addr)[#[trigger] tag[k]] == addr,
        forall|k: int| 0 <= k < tag.len() ==> bind_all(map, tag, addr).dom().contains(#[trigger] tag[k]),
        forall|q: Seq<char>| !tag.contains(q) ==> #[trigger] bind_all(map, tag, addr).dom().contains(q)
            == map.dom().contains(q) && (map.dom().contains(q) ==> bind_all(map, tag, addr)[q] == map[q]),
    decreases tag.len(),
{
    if tag.len() > 0 {
        let rest = tag.subrange(1, tag.len() as int);
        let m1 = map.insert(tag[0], addr);
        lemma_group_same_address(m1, rest, addr);
        assert(bind_all(map, tag, addr) == bind_all(m1, rest, addr));
        assert forall|k: int| 0 <= k < tag.len() implies bind_all(map, tag, addr)[#[trigger] tag[k]] == addr
            && bind_all(map, tag, addr).dom().contains(tag[k]) by {
            if k > 0 {
                assert(tag[k] == rest[k - 1]);
            } else if rest.contains(tag[0]) {
                let j = choose|j: int| 0 <= j < rest.len() && rest[j] == tag[0];
                assert(rest[j] == tag[0]);
            } else {
                assert(m1.dom().contains(tag[0]) && m1[tag[0]] == addr);
                assert(bind_all(m1, rest, addr).dom().contains(tag[0]) == m1.dom().contains(tag[0]));
            }
        }
        assert forall|q: Seq<char>| !tag.contains(q) implies #[trigger] bind_all(map, tag, addr).dom().contains(q)
            == map.dom().contains(q) && (map.dom().contains(q) ==> bind_all(map, tag, addr)[q] == map[q]) by {
            assert(q != tag[0]);
            if rest.contains(q) {
                let j = choose|j: int| 0 <= j < rest.len() && rest[j] == q;
                assert(tag[j + 1] == q);
            }
        }
    }
}

} // verus!
