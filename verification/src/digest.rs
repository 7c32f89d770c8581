//! Compact digests of the model-visible output of baseline commands.
use vstd::prelude::*;

use crate::json_fields::json_member_str;
use crate::json_fields::opt_view;
use crate::json_fields::rg_json_fields;
use crate::json_fields::RgJsonLine;
use crate::json_fields::RgJsonLineView;
use crate::json_fields::json_str_member;
use crate::text::append_chars;
use crate::text::append_str;
use crate::text::chars_lt;
use crate::text::chars_eq;
use crate::text::chars_of;
use crate::text::ends_with;
use crate::text::ends_with_str;
use crate::text::eq_str;
use crate::text::replace_char;
use crate::text::replace_char_exec;
use crate::text::split_on;
use crate::text::split_on_char;
use crate::text::compare_chars;
use crate::text::clone_chars;
use crate::text::contains;
use crate::text::contains_str;
use crate::text::dec;
use crate::text::find_chars;
use crate::text::first_index;
use crate::text::join;
use crate::text::join_chars;
use crate::text::lemma_first_index;
use crate::text::lines;
use crate::text::lines_of;
use crate::text::lower;
use crate::text::lowercase;
use crate::text::occurs_at;
use crate::text::push_dec;
use crate::text::slice_chars;
use crate::text::starts_with;
use crate::text::starts_with_str;
use crate::text::string_of;
use crate::text::trim;
use crate::text::trim_chars;
use crate::text::trim_end;
use crate::text::trim_end_chars;
use crate::text::trim_start;
use crate::text::trim_start_chars;
use crate::text::utf8_width;
use crate::text::views;
use crate::text::words;
use crate::text::words_of;

verus! {

/// How many rows, paths or lines a digest shows at most.
pub const SUMMARY_LIMIT: usize = 80;

/// How many diagnostics or samples a digest shows at most.
pub const DIAGNOSTIC_LIMIT: usize = 40;

/// How many leading process rows are always kept.
pub const PROCESS_TOP_ROWS: usize = 8;

pub open spec fn sat_sub(a: nat, b: nat) -> nat {
    if a > b {
        (a - b) as nat
    } else {
        0
    }
}

pub open spec fn min_nat(a: nat, b: nat) -> nat {
    if a < b {
        a
    } else {
        b
    }
}

// ------------------------------------------------------------ the output part

pub open spec fn crlf_output_marker() -> Seq<char> {
    "\r\nOutput:\r\n"@
}

pub open spec fn lf_output_marker() -> Seq<char> {
    "\nOutput:\n"@
}

/// The command output inside a baseline record: the text after the first
/// `Output:` header line, else the `output` member of a JSON record, else the
/// whole text.
pub open spec fn spec_baseline_output(b: Seq<char>) -> Seq<char> {
    if contains(b, crlf_output_marker()) {
        b.skip(first_index(b, crlf_output_marker()) + crlf_output_marker().len())
    } else if contains(b, lf_output_marker()) {
        b.skip(first_index(b, lf_output_marker()) + lf_output_marker().len())
    } else {
        match json_member_str(b, "output"@) {
            Some(o) => o,
            None => b,
        }
    }
}

fn after_marker(b: &[char], marker: &str) -> (r: Option<Vec<char>>)
    ensures
        match r {
            Some(o) => contains(b@, marker@) && o@ == b@.skip(
                first_index(b@, marker@) + marker@.len(),
            ),
            None => !contains(b@, marker@),
        },
{
    let m = chars_of(marker);
    match find_chars(b, &m) {
        Some(i) => {
            proof {
                lemma_first_index(b@, m@, i as int);
            }
            assert(contains(b@, m@));
            assert(occurs_at(b@, m@, i as int));
            let mlen = m.len();
            assert(i + mlen <= b.len());
            let r = slice_chars(b, i + mlen, b.len());
            assert(r@ =~= b@.skip(i + m@.len()));
            Some(r)
        },
        None => None,
    }
}

fn baseline_output_text(b: &str) -> (r: Vec<char>)
    ensures
        r@ == spec_baseline_output(b@),
{
    let c = chars_of(b);
    if let Some(o) = after_marker(&c, "\r\nOutput:\r\n") {
        return o;
    }
    if let Some(o) = after_marker(&c, "\nOutput:\n") {
        return o;
    }
    match json_str_member(b, "output") {
        Some(o) => chars_of(o.as_str()),
        None => c,
    }
}

// ------------------------------------------------------------ kept rows

/// Which rows of the output a digest keeps, and in which form.
#[derive(Clone, Copy, PartialEq, Eq)]
pub enum RowKind {
    /// Trimmed, non-empty, not a `warning:` line.
    Paths,
    /// Right-trimmed, not blank, not a `warning:` line.
    DiffStat,
    /// Right-trimmed, non-empty.
    Matches,
    /// Right-trimmed, not blank.
    Entries,
    /// Trimmed, non-empty.
    Counts,
    /// Right-trimmed, not blank, not a `---` separator.
    Processes,
    /// Trimmed diagnostic lines.
    Diagnostics,
    /// Lines as they are, not blank.
    NonBlank,
}

pub open spec fn diagnostic_marks() -> Seq<Seq<char>> {
    seq![
        "error:"@,
        "error["@,
        "warning:"@,
        "warning["@,
        "failed"@,
        "panic"@,
        "test result:"@,
    ]
}

/// Whether a line looks like a compiler or test diagnostic.
pub open spec fn spec_is_diagnostic(line: Seq<char>) -> bool {
    let l = lower(line);
    (exists|j: int| 0 <= j < diagnostic_marks().len() && contains(l, #[trigger] diagnostic_marks()[j]))
        || starts_with(l, "failures:"@)
}

fn is_diagnostic_line(line: &[char]) -> (r: bool)
    ensures
        r == spec_is_diagnostic(line@),
{
    let l = lowercase(line);
    let marks: [&str; 7] = ["error:", "error[", "warning:", "warning[", "failed", "panic", "test result:"];
    let ghost dm = diagnostic_marks();
    for k in 0..marks.len()
        invariant
            marks.len() == 7,
            dm == diagnostic_marks(),
            forall|j: int| 0 <= j < 7 ==> dm[j] == (#[trigger] marks@[j])@,
            l@ == lower(line@),
            forall|j: int| 0 <= j < k ==> !contains(l@, #[trigger] dm[j]),
    {
        if contains_str(&l, marks[k]) {
            assert(contains(l@, dm[k as int]));
            return true;
        }
    }
    starts_with_str(&l, "failures:")
}

pub open spec fn row_form(kind: RowKind, line: Seq<char>) -> Seq<char> {
    match kind {
        RowKind::Paths | RowKind::Counts | RowKind::Diagnostics => trim(line),
        RowKind::NonBlank => line,
        _ => trim_end(line),
    }
}

pub open spec fn row_kept(kind: RowKind, row: Seq<char>) -> bool {
    match kind {
        RowKind::Paths => row.len() > 0 && !starts_with(row, "warning:"@),
        RowKind::DiffStat => trim(row).len() > 0 && !starts_with(trim_start(row), "warning:"@),
        RowKind::Matches | RowKind::Counts => row.len() > 0,
        RowKind::Entries => trim(row).len() > 0,
        RowKind::Processes => trim(row).len() > 0 && !starts_with(trim_start(row), "---"@),
        RowKind::Diagnostics => spec_is_diagnostic(row),
        RowKind::NonBlank => trim(row).len() > 0,
    }
}

/// The rows of `ls` that a digest of the given kind keeps, in order.
pub open spec fn kept_rows(kind: RowKind, ls: Seq<Seq<char>>) -> Seq<Seq<char>>
    decreases ls.len(),
{
    if ls.len() == 0 {
        Seq::<Seq<char>>::empty()
    } else {
        let r = kept_rows(kind, ls.drop_last());
        let x = row_form(kind, ls.last());
        if row_kept(kind, x) {
            r.push(x)
        } else {
            r
        }
    }
}

pub proof fn lemma_kept_rows_len(kind: RowKind, ls: Seq<Seq<char>>)
    ensures
        kept_rows(kind, ls).len() <= ls.len(),
    decreases ls.len(),
{
    if ls.len() > 0 {
        lemma_kept_rows_len(kind, ls.drop_last());
    }
}

fn keep_rows(kind: RowKind, ls: &[Vec<char>]) -> (r: Vec<Vec<char>>)
    ensures
        views(r@) == kept_rows(kind, views(ls@)),
{
    let mut r: Vec<Vec<char>> = Vec::new();
    for i in 0..ls.len()
        invariant
            views(r@) == kept_rows(kind, views(ls@).take(i as int)),
    {
        let ghost before = r@;
        let ghost t = views(ls@).take(i + 1);
        assert(t.drop_last() =~= views(ls@).take(i as int));
        assert(t.last() == ls@[i as int]@);
        let x = match kind {
            RowKind::Paths | RowKind::Counts | RowKind::Diagnostics => trim_chars(&ls[i]),
            RowKind::NonBlank => clone_chars(&ls[i]),
            _ => trim_end_chars(&ls[i]),
        };
        let keep = match kind {
            RowKind::Paths => x.len() > 0 && !starts_with_str(&x, "warning:"),
            RowKind::DiffStat => trim_chars(&x).len() > 0 && !starts_with_str(
                &trim_start_chars(&x),
                "warning:",
            ),
            RowKind::Matches | RowKind::Counts => x.len() > 0,
            RowKind::Entries => trim_chars(&x).len() > 0,
            RowKind::Processes => trim_chars(&x).len() > 0 && !starts_with_str(
                &trim_start_chars(&x),
                "---",
            ),
            RowKind::Diagnostics => is_diagnostic_line(&x),
            RowKind::NonBlank => trim_chars(&x).len() > 0,
        };
        if keep {
            r.push(x);
            assert(views(r@) =~= views(before).push(x@));
        }
    }
    assert(views(ls@).take(ls.len() as int) =~= views(ls@));
    r
}

// ------------------------------------------------------------ line builders

/// `key` followed by the decimal value.
pub open spec fn field(key: Seq<char>, n: nat) -> Seq<char> {
    key + dec(n)
}

/// `label`, then `{shown} shown, {omitted} omitted`.
pub open spec fn shown(label: Seq<char>, n: nat, omitted: nat) -> Seq<char> {
    label + dec(n) + " shown, "@ + dec(omitted) + " omitted"@
}

fn field_line(key: &str, n: usize) -> (r: Vec<char>)
    ensures
        r@ == field(key@, n as nat),
{
    let mut r = chars_of(key);
    push_dec(&mut r, n);
    r
}

fn shown_line(label: &str, n: usize, omitted: usize) -> (r: Vec<char>)
    ensures
        r@ == shown(label@, n as nat, omitted as nat),
{
    let mut r = chars_of(label);
    push_dec(&mut r, n);
    append_str(&mut r, " shown, ");
    push_dec(&mut r, omitted);
    append_str(&mut r, " omitted");
    r
}

pub(crate) fn push_text(out: &mut Vec<Vec<char>>, s: &str)
    ensures
        views(final(out)@) == views(old(out)@).push(s@),
{
    let ghost before = out@;
    out.push(chars_of(s));
    assert(views(out@) =~= views(before).push(s@));
}

pub(crate) fn push_row(out: &mut Vec<Vec<char>>, row: Vec<char>)
    ensures
        views(final(out)@) == views(old(out)@).push(row@),
{
    let ghost before = out@;
    let ghost v = row@;
    out.push(row);
    assert(views(out@) =~= views(before).push(v));
}

pub(crate) fn push_rows(out: &mut Vec<Vec<char>>, rows: &[Vec<char>], k: usize)
    requires
        k <= rows.len(),
    ensures
        views(final(out)@) == views(old(out)@) + views(rows@).take(k as int),
{
    let ghost start = views(out@);
    for i in 0..k
        invariant
            k <= rows.len(),
            views(out@) == start + views(rows@).take(i as int),
    {
        let ghost before = out@;
        out.push(clone_chars(&rows[i]));
        assert(views(out@) =~= views(before).push(rows@[i as int]@));
        assert(views(rows@).take(i + 1) =~= views(rows@).take(i as int).push(views(rows@)[i as int]));
    }
}

pub(crate) fn joined_lines(out: &Vec<Vec<char>>) -> (r: String)
    ensures
        r@ == join(views(out@), "\n"@),
{
    string_of(&join_chars(out, "\n"))
}

pub(crate) fn min_usize(a: usize, b: usize) -> (r: usize)
    ensures
        r as nat == min_nat(a as nat, b as nat),
{
    if a < b {
        a
    } else {
        b
    }
}

pub(crate) fn sat_sub_usize(a: usize, b: usize) -> (r: usize)
    ensures
        r as nat == sat_sub(a as nat, b as nat),
{
    if a > b {
        a - b
    } else {
        0
    }
}

/// The lines of the output part of a baseline record.
pub open spec fn output_lines(b: Seq<char>) -> Seq<Seq<char>> {
    lines(spec_baseline_output(b))
}

fn output_lines_of(b: &str) -> (r: Vec<Vec<char>>)
    ensures
        views(r@) == output_lines(b@),
{
    let o = baseline_output_text(b);
    let r = lines_of(&o);
    assert(views(r@) =~= r@.map_values(|p: Vec<char>| p@));
    r
}

// ------------------------------------------------------------ tallies

/// The plain view of tally entries.
pub open spec fn entries_view(v: Seq<(Vec<char>, usize)>) -> Seq<(Seq<char>, nat)> {
    v.map_values(|e: (Vec<char>, usize)| (e.0@, e.1 as nat))
}

/// Counts `k` once more in a tally sorted by key.
pub open spec fn insert_key(es: Seq<(Seq<char>, nat)>, k: Seq<char>) -> Seq<(Seq<char>, nat)>
    decreases es.len(),
{
    if es.len() == 0 {
        seq![(k, 1nat)]
    } else if es[0].0 == k {
        es.update(0, (k, es[0].1 + 1))
    } else if chars_lt(k, es[0].0) {
        seq![(k, 1nat)] + es
    } else {
        seq![es[0]] + insert_key(es.drop_first(), k)
    }
}

/// How often each key occurs, as entries sorted by key.
pub open spec fn tally(keys: Seq<Seq<char>>) -> Seq<(Seq<char>, nat)>
    decreases keys.len(),
{
    if keys.len() == 0 {
        Seq::<(Seq<char>, nat)>::empty()
    } else {
        insert_key(tally(keys.drop_last()), keys.last())
    }
}

proof fn lemma_insert_key_bound(es: Seq<(Seq<char>, nat)>, k: Seq<char>, n: nat)
    requires
        forall|j: int| 0 <= j < es.len() ==> (#[trigger] es[j]).1 <= n,
    ensures
        forall|j: int|
            0 <= j < insert_key(es, k).len() ==> (#[trigger] insert_key(es, k)[j]).1 <= n + 1,
        insert_key(es, k).len() <= es.len() + 1,
    decreases es.len(),
{
    if es.len() > 0 && es[0].0 != k && !chars_lt(k, es[0].0) {
        lemma_insert_key_bound(es.drop_first(), k, n);
        let r = insert_key(es, k);
        assert forall|j: int| 0 <= j < r.len() implies (#[trigger] r[j]).1 <= n + 1 by {
            if j > 0 {
                assert(r[j] == insert_key(es.drop_first(), k)[j - 1]);
            }
        }
    }
}

fn tally_insert(es: &mut Vec<(Vec<char>, usize)>, k: &[char])
    requires
        forall|j: int| 0 <= j < old(es)@.len() ==> (#[trigger] old(es)@[j]).1 < usize::MAX,
    ensures
        entries_view(final(es)@) == insert_key(entries_view(old(es)@), k@),
{
    let ghost ev = entries_view(es@);
    assert(ev.take(0) =~= Seq::<(Seq<char>, nat)>::empty());
    assert(ev.skip(0) =~= ev);
    let mut j: usize = 0;
    while j < es.len()
        invariant
            ev == entries_view(es@),
            es@ == old(es)@,
            j <= es.len(),
            forall|i: int| 0 <= i < es@.len() ==> (#[trigger] es@[i]).1 < usize::MAX,
            insert_key(ev, k@) == ev.take(j as int) + insert_key(ev.skip(j as int), k@),
        decreases es.len() - j,
    {
        let c = compare_chars(&es[j].0, k);
        let ghost rest = ev.skip(j as int);
        assert(rest[0] == ev[j as int]);
        assert(ev[j as int] == (es@[j as int].0@, es@[j as int].1 as nat));
        if c == 0 {
            let key = clone_chars(&es[j].0);
            let count = es[j].1 + 1;
            es.set(j, (key, count));
            assert(insert_key(rest, k@) == rest.update(0, (k@, rest[0].1 + 1)));
            assert(entries_view(es@) =~= ev.take(j as int) + rest.update(0, (k@, rest[0].1 + 1)));
            return;
        }
        if c > 0 {
            es.insert(j, (clone_chars(k), 1));
            assert(insert_key(rest, k@) == seq![(k@, 1nat)] + rest);
            assert(entries_view(es@) =~= ev.take(j as int) + (seq![(k@, 1nat)] + rest));
            return;
        }
        assert(rest.drop_first() =~= ev.skip(j + 1));
        assert(ev.take(j + 1) =~= ev.take(j as int) + seq![ev[j as int]]);
        j += 1;
    }
    assert(ev.skip(j as int) =~= Seq::<(Seq<char>, nat)>::empty());
    let ghost before = es@;
    es.push((clone_chars(k), 1));
    assert(ev.take(j as int) =~= ev);
    assert(entries_view(es@) =~= ev + seq![(k@, 1nat)]);
}

pub(crate) fn tally_keys(keys: &[Vec<char>]) -> (r: Vec<(Vec<char>, usize)>)
    ensures
        entries_view(r@) == tally(views(keys@)),
        forall|j: int| 0 <= j < r@.len() ==> (#[trigger] r@[j]).1 <= keys@.len(),
{
    let mut r: Vec<(Vec<char>, usize)> = Vec::new();
    for i in 0..keys.len()
        invariant
            entries_view(r@) == tally(views(keys@).take(i as int)),
            forall|j: int| 0 <= j < r@.len() ==> (#[trigger] r@[j]).1 <= i,
    {
        let ghost t = views(keys@).take(i + 1);
        assert(t.drop_last() =~= views(keys@).take(i as int));
        assert(t.last() == keys@[i as int]@);
        let ghost ev = entries_view(r@);
        proof {
            assert forall|j: int| 0 <= j < ev.len() implies (#[trigger] ev[j]).1 <= i by {
                assert(ev[j].1 == r@[j].1);
            }
            lemma_insert_key_bound(ev, keys@[i as int]@, i as nat);
        }
        tally_insert(&mut r, &keys[i]);
        assert forall|j: int| 0 <= j < r@.len() implies (#[trigger] r@[j]).1 <= i + 1 by {
            assert(entries_view(r@)[j].1 == r@[j].1);
        }
    }
    assert(views(keys@).take(keys.len() as int) =~= views(keys@));
    r
}

/// `key=count` for each entry.
pub open spec fn count_parts(es: Seq<(Seq<char>, nat)>) -> Seq<Seq<char>> {
    es.map_values(|e: (Seq<char>, nat)| e.0 + "="@ + dec(e.1))
}

/// The entries as `key=count`, joined by `, `.
pub open spec fn render_counts(es: Seq<(Seq<char>, nat)>) -> Seq<char> {
    join(count_parts(es), ", "@)
}

fn count_parts_of(es: &[(Vec<char>, usize)], k: usize) -> (r: Vec<Vec<char>>)
    requires
        k <= es.len(),
    ensures
        views(r@) == count_parts(entries_view(es@).take(k as int)),
{
    let mut r: Vec<Vec<char>> = Vec::new();
    for i in 0..k
        invariant
            k <= es.len(),
            views(r@) == count_parts(entries_view(es@).take(i as int)),
    {
        let mut part = clone_chars(&es[i].0);
        append_str(&mut part, "=");
        push_dec(&mut part, es[i].1);
        let ghost before = r@;
        r.push(part);
        assert(views(r@) =~= views(before).push(part@));
        assert(entries_view(es@).take(i + 1) =~= entries_view(es@).take(i as int).push(
            entries_view(es@)[i as int],
        ));
        assert(count_parts(entries_view(es@).take(i + 1)) =~= count_parts(
            entries_view(es@).take(i as int),
        ).push(part@));
    }
    r
}

fn render_counts_of(es: &[(Vec<char>, usize)]) -> (r: Vec<char>)
    ensures
        r@ == render_counts(entries_view(es@)),
{
    let parts = count_parts_of(es, es.len());
    assert(entries_view(es@).take(es.len() as int) =~= entries_view(es@));
    join_chars(&parts, ", ")
}

/// Larger counts first, then keys in order.
pub open spec fn ranks_before(a: (Seq<char>, nat), b: (Seq<char>, nat)) -> bool {
    a.1 > b.1 || (a.1 == b.1 && chars_lt(a.0, b.0))
}

pub open spec fn insert_ranked(es: Seq<(Seq<char>, nat)>, e: (Seq<char>, nat)) -> Seq<
    (Seq<char>, nat),
>
    decreases es.len(),
{
    if es.len() == 0 {
        seq![e]
    } else if ranks_before(e, es[0]) {
        seq![e] + es
    } else {
        seq![es[0]] + insert_ranked(es.drop_first(), e)
    }
}

/// The entries ordered by [`ranks_before`] (a stable insertion order).
pub open spec fn ranked(es: Seq<(Seq<char>, nat)>) -> Seq<(Seq<char>, nat)>
    decreases es.len(),
{
    if es.len() == 0 {
        Seq::<(Seq<char>, nat)>::empty()
    } else {
        insert_ranked(ranked(es.drop_last()), es.last())
    }
}

proof fn lemma_ranked_len(es: Seq<(Seq<char>, nat)>)
    ensures
        ranked(es).len() == es.len(),
    decreases es.len(),
{
    if es.len() > 0 {
        lemma_ranked_len(es.drop_last());
        lemma_insert_ranked_len(ranked(es.drop_last()), es.last());
    }
}

proof fn lemma_insert_ranked_len(es: Seq<(Seq<char>, nat)>, e: (Seq<char>, nat))
    ensures
        insert_ranked(es, e).len() == es.len() + 1,
    decreases es.len(),
{
    if es.len() > 0 && !ranks_before(e, es[0]) {
        lemma_insert_ranked_len(es.drop_first(), e);
    }
}

/// The `limit` highest counts, then `...+{omitted}` when some were left out.
pub open spec fn render_top_counts(es: Seq<(Seq<char>, nat)>, limit: nat) -> Seq<char> {
    let r = ranked(es);
    let omitted = sat_sub(r.len(), limit);
    let parts = count_parts(r.take(min_nat(r.len(), limit) as int));
    join(
        if omitted > 0 {
            parts.push("...+"@ + dec(omitted))
        } else {
            parts
        },
        ", "@,
    )
}

fn ranks_before_exec(a: &(Vec<char>, usize), b: &(Vec<char>, usize)) -> (r: bool)
    ensures
        r == ranks_before((a.0@, a.1 as nat), (b.0@, b.1 as nat)),
{
    a.1 > b.1 || (a.1 == b.1 && compare_chars(&a.0, &b.0) < 0)
}

fn ranked_of(es: &[(Vec<char>, usize)]) -> (r: Vec<(Vec<char>, usize)>)
    ensures
        entries_view(r@) == ranked(entries_view(es@)),
{
    let mut r: Vec<(Vec<char>, usize)> = Vec::new();
    for i in 0..es.len()
        invariant
            entries_view(r@) == ranked(entries_view(es@).take(i as int)),
    {
        let ghost t = entries_view(es@).take(i + 1);
        assert(t.drop_last() =~= entries_view(es@).take(i as int));
        let e = (clone_chars(&es[i].0), es[i].1);
        let ghost ev_e = (e.0@, e.1 as nat);
        assert(t.last() == ev_e);
        let ghost rv = entries_view(r@);
        assert(rv.take(0) =~= Seq::<(Seq<char>, nat)>::empty());
        assert(rv.skip(0) =~= rv);
        let mut j: usize = 0;
        while j < r.len() && !ranks_before_exec(&e, &r[j])
            invariant
                rv == entries_view(r@),
                j <= r.len(),
                ev_e == (e.0@, e.1 as nat),
                insert_ranked(rv, ev_e) == rv.take(j as int) + insert_ranked(rv.skip(j as int), ev_e),
                forall|m: int| 0 <= m < j ==> !ranks_before(ev_e, #[trigger] rv[m]),
            decreases r.len() - j,
        {
            let ghost rest = rv.skip(j as int);
            assert(rest[0] == rv[j as int]);
            assert(rest.drop_first() =~= rv.skip(j + 1));
            assert(rv.take(j + 1) =~= rv.take(j as int) + seq![rv[j as int]]);
            j += 1;
        }
        proof {
            let rest = rv.skip(j as int);
            if j < r.len() {
                assert(rest[0] == rv[j as int]);
                assert(ranks_before(ev_e, rest[0]));
            } else {
                assert(rest =~= Seq::<(Seq<char>, nat)>::empty());
            }
            assert(insert_ranked(rest, ev_e) == seq![ev_e] + rest);
        }
        r.insert(j, e);
        assert(entries_view(r@) =~= rv.take(j as int) + (seq![ev_e] + rv.skip(j as int)));
    }
    assert(entries_view(es@).take(es.len() as int) =~= entries_view(es@));
    r
}

fn render_top_counts_of(es: &[(Vec<char>, usize)], limit: usize) -> (r: Vec<char>)
    ensures
        r@ == render_top_counts(entries_view(es@), limit as nat),
{
    let ranked_entries = ranked_of(es);
    proof {
        lemma_ranked_len(entries_view(es@));
    }
    let n = ranked_entries.len();
    let omitted = sat_sub_usize(n, limit);
    let shown_count = min_usize(n, limit);
    let mut parts = count_parts_of(&ranked_entries, shown_count);
    if omitted > 0 {
        let mut tail = chars_of("...+");
        push_dec(&mut tail, omitted);
        let ghost before = parts@;
        parts.push(tail);
        assert(views(parts@) =~= views(before).push(tail@));
    }
    join_chars(&parts, ", ")
}

// ------------------------------------------------------------ paths

pub open spec fn normalize_slashes(path: Seq<char>) -> Seq<char> {
    replace_char(path, '\\', '/')
}

/// The first two directories of a path, its first directory, or `(root)`.
pub open spec fn spec_path_group(path: Seq<char>) -> Seq<char> {
    let parts = split_on(normalize_slashes(path), '/');
    if parts.len() <= 1 {
        "(root)"@
    } else if parts.len() == 2 {
        parts[0]
    } else {
        parts[0] + "/"@ + parts[1]
    }
}

fn path_group(path: &[char]) -> (r: Vec<char>)
    ensures
        r@ == spec_path_group(path@),
{
    let normalized = replace_char_exec(path, '\\', '/');
    let parts = split_on_char(&normalized, '/');
    assert(parts@.map_values(|p: Vec<char>| p@) =~= views(parts@));
    if parts.len() <= 1 {
        chars_of("(root)")
    } else if parts.len() == 2 {
        assert(views(parts@)[0] == parts@[0]@);
        clone_chars(&parts[0])
    } else {
        assert(views(parts@)[0] == parts@[0]@);
        assert(views(parts@)[1] == parts@[1]@);
        let mut r = clone_chars(&parts[0]);
        append_str(&mut r, "/");
        append_chars(&mut r, &parts[1]);
        r
    }
}

/// The last component of a `/`-separated path that is neither empty nor `.`.
pub open spec fn last_named(parts: Seq<Seq<char>>) -> Option<Seq<char>>
    decreases parts.len(),
{
    if parts.len() == 0 {
        None
    } else if parts.last().len() == 0 || parts.last() == "."@ {
        last_named(parts.drop_last())
    } else {
        Some(parts.last())
    }
}

/// The final component of a `/`-separated path, as `Path::file_name`
/// documents it: none for a path without one or ending in `..`.
pub open spec fn file_name(path: Seq<char>) -> Option<Seq<char>> {
    match last_named(split_on(path, '/')) {
        Some(n) => if n == ".."@ {
            None
        } else {
            Some(n)
        },
        None => None,
    }
}

/// Index of the last `c` in `s`, or -1.
pub open spec fn last_index_of(s: Seq<char>, c: char) -> int
    decreases s.len(),
{
    if s.len() == 0 {
        -1
    } else if s.last() == c {
        s.len() - 1
    } else {
        last_index_of(s.drop_last(), c)
    }
}

/// The extension of the file name (the text after its last `.`, when that
/// `.` does not start the name), or `(none)` when there is none or it is empty.
pub open spec fn extension_key(path: Seq<char>) -> Seq<char> {
    match file_name(path) {
        Some(n) => {
            let i = last_index_of(n, '.');
            if i > 0 && i + 1 < n.len() {
                n.skip(i + 1)
            } else {
                "(none)"@
            }
        },
        None => "(none)"@,
    }
}

fn last_index_of_exec(s: &[char], c: char) -> (r: Option<usize>)
    ensures
        match r {
            Some(i) => i as int == last_index_of(s@, c) && i < s.len(),
            None => last_index_of(s@, c) == -1,
        },
{
    let mut k = s.len();
    assert(s@.take(k as int) =~= s@);
    while k > 0
        invariant
            k <= s.len(),
            last_index_of(s@, c) == last_index_of(s@.take(k as int), c),
        decreases k,
    {
        assert(s@.take(k as int).drop_last() =~= s@.take(k - 1));
        if s[k - 1] == c {
            return Some(k - 1);
        }
        k -= 1;
    }
    None
}

pub(crate) fn file_name_of(path: &[char]) -> (r: Option<Vec<char>>)
    ensures
        match r {
            Some(n) => file_name(path@) == Some(n@),
            None => file_name(path@) is None,
        },
{
    let parts = split_on_char(path, '/');
    let ghost ps = split_on(path@, '/');
    assert(views(parts@) =~= ps);
    let mut k = parts.len();
    assert(ps.take(k as int) =~= ps);
    while k > 0
        invariant
            k <= parts.len(),
            views(parts@) == ps,
            ps == split_on(path@, '/'),
            last_named(ps) == last_named(ps.take(k as int)),
        decreases k,
    {
        assert(ps.take(k as int).drop_last() =~= ps.take(k - 1));
        assert(ps.take(k as int).last() == parts@[k - 1]@);
        let part = &parts[k - 1];
        if part.len() > 0 && !eq_str(part, ".") {
            if eq_str(part, "..") {
                return None;
            }
            return Some(clone_chars(part));
        }
        k -= 1;
    }
    None
}

fn extension_key_of(path: &[char]) -> (r: Vec<char>)
    ensures
        r@ == extension_key(path@),
{
    match file_name_of(path) {
        Some(n) => match last_index_of_exec(&n, '.') {
            Some(i) => {
                if i > 0 && i + 1 < n.len() {
                    let r = slice_chars(&n, i + 1, n.len());
                    assert(r@ =~= n@.skip(i + 1));
                    r
                } else {
                    chars_of("(none)")
                }
            },
            None => chars_of("(none)"),
        },
        None => chars_of("(none)"),
    }
}

pub open spec fn important_names() -> Seq<Seq<char>> {
    seq![
        "agents.md"@,
        "build.rs"@,
        "cargo.lock"@,
        "cargo.toml"@,
        "cmakelists.txt"@,
        "package-lock.json"@,
        "package.json"@,
        "pnpm-lock.yaml"@,
        "pyproject.toml"@,
        "readme.md"@,
        "yarn.lock"@,
    ]
}

pub open spec fn important_suffixes() -> Seq<Seq<char>> {
    seq![
        "/agents.md"@,
        "/cargo.lock"@,
        "/cargo.toml"@,
        "/cmakelists.txt"@,
        "/package-lock.json"@,
        "/package.json"@,
        "/pnpm-lock.yaml"@,
        "/pyproject.toml"@,
        "/readme.md"@,
        "/yarn.lock"@,
    ]
}

/// Whether a path names a manifest, lock file or top-level document.
pub open spec fn spec_important_repo_file(path: Seq<char>) -> bool {
    let l = lower(normalize_slashes(path));
    important_names().contains(l) || exists|j: int|
        0 <= j < important_suffixes().len() && ends_with(l, #[trigger] important_suffixes()[j])
}

fn important_repo_file(path: &[char]) -> (r: bool)
    ensures
        r == spec_important_repo_file(path@),
{
    let l = lowercase(&replace_char_exec(path, '\\', '/'));
    let names: [&str; 11] = [
        "agents.md",
        "build.rs",
        "cargo.lock",
        "cargo.toml",
        "cmakelists.txt",
        "package-lock.json",
        "package.json",
        "pnpm-lock.yaml",
        "pyproject.toml",
        "readme.md",
        "yarn.lock",
    ];
    let suffixes: [&str; 10] = [
        "/agents.md",
        "/cargo.lock",
        "/cargo.toml",
        "/cmakelists.txt",
        "/package-lock.json",
        "/package.json",
        "/pnpm-lock.yaml",
        "/pyproject.toml",
        "/readme.md",
        "/yarn.lock",
    ];
    let ghost nm = important_names();
    let ghost sf = important_suffixes();
    assert(forall|j: int| 0 <= j < 11 ==> nm[j] == (#[trigger] names@[j])@);
    assert(forall|j: int| 0 <= j < 10 ==> sf[j] == (#[trigger] suffixes@[j])@);
    for k in 0..names.len()
        invariant
            names.len() == 11,
            nm == important_names(),
            l@ == lower(normalize_slashes(path@)),
            forall|j: int| 0 <= j < 11 ==> nm[j] == (#[trigger] names@[j])@,
            forall|j: int| 0 <= j < k ==> nm[j] != l@,
    {
        if eq_str(&l, names[k]) {
            assert(nm[k as int] == l@);
            assert(important_names().contains(l@));
            return true;
        }
    }
    assert(!nm.contains(l@)) by {
        if nm.contains(l@) {
            let j = choose|j: int| 0 <= j < nm.len() && nm[j] == l@;
            assert(nm[j] != l@);
        }
    }
    for k in 0..suffixes.len()
        invariant
            suffixes.len() == 10,
            sf == important_suffixes(),
            !nm.contains(l@),
            nm == important_names(),
            l@ == lower(normalize_slashes(path@)),
            forall|j: int| 0 <= j < 10 ==> sf[j] == (#[trigger] suffixes@[j])@,
            forall|j: int| 0 <= j < k ==> !ends_with(l@, #[trigger] sf[j]),
    {
        if ends_with_str(&l, suffixes[k]) {
            assert(ends_with(l@, important_suffixes()[k as int]));
            return true;
        }
    }
    false
}

// ------------------------------------------------------------ the diverse path sample

/// The important paths, in order.
pub open spec fn important_paths(paths: Seq<Seq<char>>) -> Seq<Seq<char>>
    decreases paths.len(),
{
    if paths.len() == 0 {
        Seq::<Seq<char>>::empty()
    } else if spec_important_repo_file(paths.last()) {
        important_paths(paths.drop_last()).push(paths.last())
    } else {
        important_paths(paths.drop_last())
    }
}

/// The other paths, in order.
pub open spec fn other_paths(paths: Seq<Seq<char>>) -> Seq<Seq<char>>
    decreases paths.len(),
{
    if paths.len() == 0 {
        Seq::<Seq<char>>::empty()
    } else if spec_important_repo_file(paths.last()) {
        other_paths(paths.drop_last())
    } else {
        other_paths(paths.drop_last()).push(paths.last())
    }
}

/// The paths of one group, in order.
pub open spec fn group_members(paths: Seq<Seq<char>>, group: Seq<char>) -> Seq<Seq<char>>
    decreases paths.len(),
{
    if paths.len() == 0 {
        Seq::<Seq<char>>::empty()
    } else if spec_path_group(paths.last()) == group {
        group_members(paths.drop_last(), group).push(paths.last())
    } else {
        group_members(paths.drop_last(), group)
    }
}

/// The paths split by group, groups in order of their names.
pub open spec fn grouped_paths(paths: Seq<Seq<char>>) -> Seq<Seq<Seq<char>>> {
    tally(paths.map_values(|p: Seq<char>| spec_path_group(p))).map_values(
        |e: (Seq<char>, nat)| group_members(paths, e.0),
    )
}

/// The `r`-th path of each group that has one, groups in order.
pub open spec fn round(groups: Seq<Seq<Seq<char>>>, r: nat) -> Seq<Seq<char>>
    decreases groups.len(),
{
    if groups.len() == 0 {
        Seq::<Seq<char>>::empty()
    } else if r < groups.last().len() {
        round(groups.drop_last(), r).push(groups.last()[r as int])
    } else {
        round(groups.drop_last(), r)
    }
}

/// The first `k` rounds, one after the other.
pub open spec fn rounds(groups: Seq<Seq<Seq<char>>>, k: nat) -> Seq<Seq<char>>
    decreases k,
{
    if k == 0 {
        Seq::<Seq<char>>::empty()
    } else {
        rounds(groups, (k - 1) as nat) + round(groups, (k - 1) as nat)
    }
}

/// Up to `limit` paths: the important ones first, then the others taken one
/// group at a time, round after round.
pub open spec fn spec_diverse_sample(paths: Seq<Seq<char>>, limit: nat) -> Seq<Seq<char>> {
    let important = important_paths(paths);
    if limit == 0 {
        Seq::<Seq<char>>::empty()
    } else if important.len() >= limit {
        important.take(limit as int)
    } else {
        let others = other_paths(paths);
        let spread = rounds(grouped_paths(others), others.len());
        important + spread.take(min_nat(spread.len(), (limit - important.len()) as nat) as int)
    }
}

pub proof fn lemma_important_paths_from(paths: Seq<Seq<char>>)
    ensures
        forall|x: Seq<char>| important_paths(paths).contains(x) ==> paths.contains(x),
        forall|x: Seq<char>| other_paths(paths).contains(x) ==> paths.contains(x),
        forall|x: Seq<char>| important_paths(paths).contains(x) ==> spec_important_repo_file(x),
    decreases paths.len(),
{
    if paths.len() > 0 {
        let init = paths.drop_last();
        lemma_important_paths_from(init);
        assert forall|x: Seq<char>| init.contains(x) implies paths.contains(x) by {
            let i = choose|i: int| 0 <= i < init.len() && init[i] == x;
            assert(paths[i] == x);
        }
        assert(paths.contains(paths.last())) by {
            assert(paths[paths.len() - 1] == paths.last());
        }
    }
}

proof fn lemma_group_members_from(paths: Seq<Seq<char>>, group: Seq<char>)
    ensures
        forall|x: Seq<char>| group_members(paths, group).contains(x) ==> paths.contains(x),
    decreases paths.len(),
{
    if paths.len() > 0 {
        let init = paths.drop_last();
        lemma_group_members_from(init, group);
        assert forall|x: Seq<char>| init.contains(x) implies paths.contains(x) by {
            let i = choose|i: int| 0 <= i < init.len() && init[i] == x;
            assert(paths[i] == x);
        }
        assert(paths.contains(paths.last())) by {
            assert(paths[paths.len() - 1] == paths.last());
        }
    }
}

/// Every path of a round is a path of one of the groups.
proof fn lemma_round_from(groups: Seq<Seq<Seq<char>>>, r: nat, pool: Seq<Seq<char>>)
    requires
        forall|i: int, x: Seq<char>| 0 <= i < groups.len() && groups[i].contains(x) ==> pool.contains(x),
    ensures
        forall|x: Seq<char>| round(groups, r).contains(x) ==> pool.contains(x),
    decreases groups.len(),
{
    if groups.len() > 0 {
        let init = groups.drop_last();
        assert forall|i: int, x: Seq<char>| 0 <= i < init.len() && init[i].contains(x) implies pool.contains(x) by {
            assert(groups[i] == init[i]);
        }
        lemma_round_from(init, r, pool);
        if r < groups.last().len() {
            assert(groups[groups.len() - 1].contains(groups.last()[r as int]));
        }
    }
}

proof fn lemma_rounds_from(groups: Seq<Seq<Seq<char>>>, k: nat, pool: Seq<Seq<char>>)
    requires
        forall|i: int, x: Seq<char>| 0 <= i < groups.len() && groups[i].contains(x) ==> pool.contains(x),
    ensures
        forall|x: Seq<char>| rounds(groups, k).contains(x) ==> pool.contains(x),
    decreases k,
{
    if k > 0 {
        lemma_rounds_from(groups, (k - 1) as nat, pool);
        lemma_round_from(groups, (k - 1) as nat, pool);
        let a = rounds(groups, (k - 1) as nat);
        let b = round(groups, (k - 1) as nat);
        assert forall|x: Seq<char>| (a + b).contains(x) implies pool.contains(x) by {
            let i = choose|i: int| 0 <= i < (a + b).len() && (a + b)[i] == x;
            if i < a.len() {
                assert(a[i] == x);
            } else {
                assert(b[i - a.len()] == x);
            }
        }
    }
}

/// The diverse sample holds at most `limit` paths, every one taken from the
/// input, and opens with the important repository files in input order: as
/// many of them as fit.
pub proof fn law_diverse_sample_shape(paths: Seq<Seq<char>>, limit: nat)
    ensures
        spec_diverse_sample(paths, limit).len() <= limit,
        forall|x: Seq<char>| spec_diverse_sample(paths, limit).contains(x) ==> paths.contains(x),
        ({
            let important = important_paths(paths);
            let k = min_nat(important.len(), limit) as int;
            spec_diverse_sample(paths, limit).len() >= k && spec_diverse_sample(paths, limit).take(k)
                == important.take(k)
        }),
        forall|x: Seq<char>| important_paths(paths).contains(x) ==> spec_important_repo_file(x),
{
    let important = important_paths(paths);
    let others = other_paths(paths);
    let groups = grouped_paths(others);
    let r = spec_diverse_sample(paths, limit);
    lemma_important_paths_from(paths);
    assert forall|i: int, x: Seq<char>| 0 <= i < groups.len() && groups[i].contains(x) implies others.contains(x) by {
        let keys = tally(others.map_values(|p: Seq<char>| spec_path_group(p)));
        assert(groups[i] == group_members(others, keys[i].0));
        lemma_group_members_from(others, keys[i].0);
    }
    let spread = rounds(groups, others.len());
    lemma_rounds_from(groups, others.len(), others);
    let k = min_nat(important.len(), limit) as int;
    if limit == 0 {
    } else if important.len() >= limit {
        assert forall|x: Seq<char>| r.contains(x) implies paths.contains(x) by {
            let i = choose|i: int| 0 <= i < r.len() && r[i] == x;
            assert(important.contains(important[i]));
        }
        assert(r.take(k) =~= important.take(k));
    } else {
        let t = spread.take(min_nat(spread.len(), (limit - important.len()) as nat) as int);
        assert(r =~= important + t);
        assert(r.take(k) =~= important.take(k));
        assert forall|x: Seq<char>| r.contains(x) implies paths.contains(x) by {
            let i = choose|i: int| 0 <= i < r.len() && r[i] == x;
            if i < important.len() {
                assert(important.contains(important[i]));
            } else {
                assert(t[i - important.len()] == x);
                assert(spread.contains(spread[i - important.len()]));
                assert(others.contains(x));
            }
        }
    }
}

fn split_important(paths: &[Vec<char>]) -> (r: (Vec<Vec<char>>, Vec<Vec<char>>))
    ensures
        views(r.0@) == important_paths(views(paths@)),
        views(r.1@) == other_paths(views(paths@)),
{
    let mut important: Vec<Vec<char>> = Vec::new();
    let mut others: Vec<Vec<char>> = Vec::new();
    for i in 0..paths.len()
        invariant
            views(important@) == important_paths(views(paths@).take(i as int)),
            views(others@) == other_paths(views(paths@).take(i as int)),
    {
        let ghost t = views(paths@).take(i + 1);
        assert(t.drop_last() =~= views(paths@).take(i as int));
        assert(t.last() == paths@[i as int]@);
        if important_repo_file(&paths[i]) {
            push_row(&mut important, clone_chars(&paths[i]));
        } else {
            push_row(&mut others, clone_chars(&paths[i]));
        }
    }
    assert(views(paths@).take(paths.len() as int) =~= views(paths@));
    (important, others)
}

fn members_of(paths: &[Vec<char>], groups: &[Vec<char>], group: &[char]) -> (r: Vec<Vec<char>>)
    requires
        groups@.len() == paths@.len(),
        forall|j: int| 0 <= j < paths@.len() ==> (#[trigger] groups@[j])@ == spec_path_group(paths@[j]@),
    ensures
        views(r@) == group_members(views(paths@), group@),
{
    let mut r: Vec<Vec<char>> = Vec::new();
    for i in 0..paths.len()
        invariant
            groups@.len() == paths@.len(),
            forall|j: int| 0 <= j < paths@.len() ==> (#[trigger] groups@[j])@ == spec_path_group(paths@[j]@),
            views(r@) == group_members(views(paths@).take(i as int), group@),
    {
        let ghost t = views(paths@).take(i + 1);
        assert(t.drop_last() =~= views(paths@).take(i as int));
        assert(t.last() == paths@[i as int]@);
        assert(groups@[i as int]@ == spec_path_group(paths@[i as int]@));
        if chars_eq(&groups[i], group) {
            push_row(&mut r, clone_chars(&paths[i]));
        }
    }
    assert(views(paths@).take(paths.len() as int) =~= views(paths@));
    r
}

fn grouped_of(paths: &[Vec<char>]) -> (r: Vec<Vec<Vec<char>>>)
    ensures
        r@.map_values(|g: Vec<Vec<char>>| views(g@)) == grouped_paths(views(paths@)),
        forall|j: int| 0 <= j < r@.len() ==> (#[trigger] r@[j])@.len() <= paths@.len(),
{
    let mut groups: Vec<Vec<char>> = Vec::new();
    for i in 0..paths.len()
        invariant
            groups@.len() == i,
            forall|j: int| 0 <= j < i ==> (#[trigger] groups@[j])@ == spec_path_group(paths@[j]@),
    {
        groups.push(path_group(&paths[i]));
    }
    let ghost gv = views(paths@).map_values(|p: Seq<char>| spec_path_group(p));
    assert(views(groups@) =~= gv);
    let keys = tally_keys(&groups);
    let mut r: Vec<Vec<Vec<char>>> = Vec::new();
    for k in 0..keys.len()
        invariant
            groups@.len() == paths@.len(),
            forall|j: int| 0 <= j < paths@.len() ==> (#[trigger] groups@[j])@ == spec_path_group(paths@[j]@),
            entries_view(keys@) == tally(gv),
            gv == views(paths@).map_values(|p: Seq<char>| spec_path_group(p)),
            r@.map_values(|g: Vec<Vec<char>>| views(g@)) == tally(gv).take(k as int).map_values(
                |e: (Seq<char>, nat)| group_members(views(paths@), e.0),
            ),
            forall|j: int| 0 <= j < r@.len() ==> (#[trigger] r@[j])@.len() <= paths@.len(),
    {
        let m = members_of(paths, &groups, &keys[k].0);
        proof {
            lemma_group_members_len(views(paths@), keys@[k as int].0@);
        }
        let ghost before = r@;
        r.push(m);
        assert(entries_view(keys@)[k as int].0 == keys@[k as int].0@);
        assert(r@.map_values(|g: Vec<Vec<char>>| views(g@)) =~= before.map_values(
            |g: Vec<Vec<char>>| views(g@),
        ).push(views(m@)));
        assert(tally(gv).take(k + 1) =~= tally(gv).take(k as int).push(tally(gv)[k as int]));
        assert(tally(gv).take(k + 1).map_values(
            |e: (Seq<char>, nat)| group_members(views(paths@), e.0),
        ) =~= tally(gv).take(k as int).map_values(
            |e: (Seq<char>, nat)| group_members(views(paths@), e.0),
        ).push(group_members(views(paths@), tally(gv)[k as int].0)));
    }
    proof {
        assert(tally(gv).len() == keys@.len());
        assert(tally(gv).take(keys.len() as int) =~= tally(gv));
    }
    r
}

proof fn lemma_group_members_len(paths: Seq<Seq<char>>, group: Seq<char>)
    ensures
        group_members(paths, group).len() <= paths.len(),
    decreases paths.len(),
{
    if paths.len() > 0 {
        lemma_group_members_len(paths.drop_last(), group);
    }
}

fn round_of(groups: &Vec<Vec<Vec<char>>>, r: usize) -> (out: Vec<Vec<char>>)
    ensures
        views(out@) == round(groups@.map_values(|g: Vec<Vec<char>>| views(g@)), r as nat),
{
    let ghost gs = groups@.map_values(|g: Vec<Vec<char>>| views(g@));
    let mut out: Vec<Vec<char>> = Vec::new();
    for i in 0..groups.len()
        invariant
            gs == groups@.map_values(|g: Vec<Vec<char>>| views(g@)),
            views(out@) == round(gs.take(i as int), r as nat),
    {
        let ghost t = gs.take(i + 1);
        assert(t.drop_last() =~= gs.take(i as int));
        assert(t.last() == views(groups@[i as int]@));
        if r < groups[i].len() {
            assert(views(groups@[i as int]@)[r as int] == groups@[i as int]@[r as int]@);
            push_row(&mut out, clone_chars(&groups[i][r]));
        }
    }
    assert(gs.take(groups.len() as int) =~= gs);
    out
}

fn diverse_sample_of(paths: &[Vec<char>], limit: usize) -> (r: Vec<Vec<char>>)
    ensures
        views(r@) == spec_diverse_sample(views(paths@), limit as nat),
{
    if limit == 0 {
        return Vec::new();
    }
    let (important, others) = split_important(paths);
    if important.len() >= limit {
        let mut r: Vec<Vec<char>> = Vec::new();
        push_rows(&mut r, &important, limit);
        assert(views(r@) =~= views(important@).take(limit as int));
        return r;
    }
    let groups = grouped_of(&others);
    let ghost gs = groups@.map_values(|g: Vec<Vec<char>>| views(g@));
    let mut spread: Vec<Vec<char>> = Vec::new();
    for k in 0..others.len()
        invariant
            gs == groups@.map_values(|g: Vec<Vec<char>>| views(g@)),
            views(spread@) == rounds(gs, k as nat),
    {
        let next = round_of(&groups, k);
        let ghost before = views(spread@);
        let n = next.len();
        push_rows(&mut spread, &next, n);
        assert(views(next@).take(n as int) =~= views(next@));
    }
    let mut r = important;
    let take = min_usize(spread.len(), limit - r.len());
    push_rows(&mut r, &spread, take);
    r
}

/// Up to `limit` paths: the important repository files first, then the other
/// paths grouped by their first two path levels, groups in order of their
/// names, one path of each group in turn, round after round.
pub fn select_diverse_path_sample(paths: &[String], limit: usize) -> (r: Vec<String>)
    ensures
        r@.map_values(|s: String| s@) == spec_diverse_sample(paths@.map_values(|s: String| s@), limit as nat),
{
    let ghost pv = paths@.map_values(|s: String| s@);
    let mut rows: Vec<Vec<char>> = Vec::new();
    for i in 0..paths.len()
        invariant
            pv == paths@.map_values(|s: String| s@),
            views(rows@) == pv.take(i as int),
    {
        push_row(&mut rows, chars_of(paths[i].as_str()));
        assert(pv.take(i + 1) =~= pv.take(i as int).push(pv[i as int]));
    }
    assert(pv.take(paths.len() as int) =~= pv);
    let sample = diverse_sample_of(&rows, limit);
    let ghost sv = views(sample@);
    let mut r: Vec<String> = Vec::new();
    for i in 0..sample.len()
        invariant
            sv == views(sample@),
            r@.map_values(|s: String| s@) == sv.take(i as int),
    {
        let ghost before = r@;
        r.push(string_of(&sample[i]));
        assert(r@.map_values(|s: String| s@) =~= before.map_values(|s: String| s@).push(sv[i as int]));
        assert(sv.take(i + 1) =~= sv.take(i as int).push(sv[i as int]));
    }
    assert(sv.take(sample.len() as int) =~= sv);
    r
}

// ------------------------------------------------------------ line sections

/// The two fallback lines with the given reason, when `on` holds.
pub open spec fn fallback(on: bool, reason: Seq<char>) -> Seq<Seq<char>> {
    if on {
        seq!["fallback_required: true"@, "fallback_reason: "@ + reason]
    } else {
        Seq::<Seq<char>>::empty()
    }
}

/// `label` followed by the rendered counts, when there are any.
pub open spec fn counts_section(label: Seq<char>, es: Seq<(Seq<char>, nat)>) -> Seq<Seq<char>> {
    if es.len() > 0 {
        seq![label + render_counts(es)]
    } else {
        Seq::<Seq<char>>::empty()
    }
}

/// The status line when there are no rows, else the first rows.
pub open spec fn rows_or_status(rows: Seq<Seq<char>>, limit: nat, status: Seq<char>) -> Seq<Seq<char>> {
    if rows.len() == 0 {
        seq![status]
    } else {
        rows.take(min_nat(rows.len(), limit) as int)
    }
}

fn push_fallback(out: &mut Vec<Vec<char>>, on: bool, reason: &str)
    ensures
        views(final(out)@) == views(old(out)@) + fallback(on, reason@),
{
    if on {
        push_text(out, "fallback_required: true");
        let mut line = chars_of("fallback_reason: ");
        append_str(&mut line, reason);
        push_row(out, line);
    }
    assert(views(out@) =~= views(old(out)@) + fallback(on, reason@));
}

fn push_counts(out: &mut Vec<Vec<char>>, label: &str, es: &[(Vec<char>, usize)])
    ensures
        views(final(out)@) == views(old(out)@) + counts_section(label@, entries_view(es@)),
{
    if es.len() > 0 {
        let mut line = chars_of(label);
        let rendered = render_counts_of(es);
        append_chars(&mut line, &rendered);
        push_row(out, line);
    }
    assert(views(out@) =~= views(old(out)@) + counts_section(label@, entries_view(es@)));
}

fn push_rows_or_status(out: &mut Vec<Vec<char>>, rows: &[Vec<char>], limit: usize, status: &str)
    ensures
        views(final(out)@) == views(old(out)@) + rows_or_status(views(rows@), limit as nat, status@),
{
    if rows.len() == 0 {
        push_text(out, status);
    } else {
        let k = min_usize(rows.len(), limit);
        push_rows(out, rows, k);
    }
    assert(views(out@) =~= views(old(out)@) + rows_or_status(views(rows@), limit as nat, status@));
}

fn tally_of(keys: &Vec<Vec<char>>) -> (r: Vec<(Vec<char>, usize)>)
    ensures
        entries_view(r@) == tally(views(keys@)),
{
    tally_keys(keys)
}

// ------------------------------------------------------------ file excerpts

pub open spec fn spec_file_excerpt_digest(b: Seq<char>) -> Seq<char> {
    let ls = output_lines(b);
    let n = ls.len();
    let omitted = sat_sub(n, 80);
    join(
        seq![
            "file_excerpt_digest"@,
            field("lines_total: "@, n),
            shown("lines: "@, min_nat(n, 80), omitted),
        ] + fallback(omitted > 0, "max_lines"@) + rows_or_status(ls, 80, "status: empty_output"@),
        "\n"@,
    )
}

pub fn render_file_excerpt_digest(b: &str) -> (r: String)
    ensures
        r@ == spec_file_excerpt_digest(b@),
{
    let ls = output_lines_of(b);
    let n = ls.len();
    let omitted = sat_sub_usize(n, SUMMARY_LIMIT);
    let mut out: Vec<Vec<char>> = Vec::new();
    push_text(&mut out, "file_excerpt_digest");
    push_row(&mut out, field_line("lines_total: ", n));
    push_row(&mut out, shown_line("lines: ", min_usize(n, SUMMARY_LIMIT), omitted));
    push_fallback(&mut out, omitted > 0, "max_lines");
    push_rows_or_status(&mut out, &ls, SUMMARY_LIMIT, "status: empty_output");
    assert(views(out@) =~= seq![
        "file_excerpt_digest"@,
        field("lines_total: "@, n as nat),
        shown("lines: "@, min_nat(n as nat, 80), omitted as nat),
    ] + fallback(omitted > 0, "max_lines"@) + rows_or_status(views(ls@), 80, "status: empty_output"@));
    joined_lines(&out)
}

// ------------------------------------------------------------ Select-String output

/// The path at the start of a `path:line:text` match, a drive letter kept.
pub open spec fn spec_select_string_path(line: Seq<char>) -> Option<Seq<char>> {
    if !line.contains(':') {
        None
    } else {
        let colon = first_index(line, seq![':']);
        if colon == 1 && utf8_width(line[0]) == 1 && line.len() > 2 && (line[2] == '\\'
            || line[2] == '/') {
            let rest = line.skip(3);
            if !rest.contains(':') {
                None
            } else {
                Some(trim(line.take(3 + first_index(rest, seq![':']))))
            }
        } else {
            Some(trim(line.take(colon)))
        }
    }
}

proof fn lemma_contains_char(s: Seq<char>, c: char)
    ensures
        s.contains(c) == contains(s, seq![c]),
{
    if s.contains(c) {
        let i = choose|i: int| 0 <= i < s.len() && s[i] == c;
        assert(s.subrange(i, i + 1) =~= seq![c]);
        assert(occurs_at(s, seq![c], i));
    }
    if contains(s, seq![c]) {
        let i = choose|i: int| occurs_at(s, seq![c], i);
        assert(s.subrange(i, i + 1)[0] == s[i]);
    }
}

proof fn lemma_utf8_len_single(c: char)
    ensures
        crate::text::utf8_len(seq![c]) == utf8_width(c),
{
    assert(seq![c].drop_last() =~= Seq::<char>::empty());
    assert(seq![c].last() == c);
    assert(crate::text::utf8_len(Seq::<char>::empty()) == 0);
}

fn select_string_path(line: &[char]) -> (r: Option<Vec<char>>)
    ensures
        match r {
            Some(p) => spec_select_string_path(line@) == Some(p@),
            None => spec_select_string_path(line@) is None,
        },
{
    let colon_pat = chars_of(":");
    proof {
        reveal_strlit(":");
    }
    assert(colon_pat@ =~= seq![':']);
    proof {
        lemma_contains_char(line@, ':');
    }
    let colon = match find_chars(line, &colon_pat) {
        Some(i) => i,
        None => return None,
    };
    proof {
        lemma_first_index(line@, colon_pat@, colon as int);
        assert(occurs_at(line@, colon_pat@, colon as int));
    }
    if colon == 1 && crate::text::utf8_len_exec(&slice_chars(line, 0, 1)) == 1 && line.len() > 2
        && (line[2] == '\\' || line[2] == '/') {
        proof {
            assert(line@.take(1) =~= seq![line@[0]]);
            lemma_utf8_len_single(line@[0]);
        }
        let rest = slice_chars(line, 3, line.len());
        assert(rest@ =~= line@.skip(3));
        proof {
            lemma_contains_char(rest@, ':');
        }
        match find_chars(&rest, &colon_pat) {
            Some(j) => {
                proof {
                    lemma_first_index(rest@, colon_pat@, j as int);
                    assert(occurs_at(rest@, colon_pat@, j as int));
                }
                let head = slice_chars(line, 0, 3 + j);
                assert(head@ =~= line@.take(3 + j));
                Some(trim_chars(&head))
            },
            None => None,
        }
    } else {
        proof {
            if colon == 1 && line@.len() > 2 && (line@[2] == '\\' || line@[2] == '/') {
                assert(line@.take(1) =~= seq![line@[0]]);
                lemma_utf8_len_single(line@[0]);
            }
        }
        let head = slice_chars(line, 0, colon);
        assert(head@ =~= line@.take(colon as int));
        Some(trim_chars(&head))
    }
}

/// The non-empty match paths of the rows, in order.
pub open spec fn select_string_paths(rows: Seq<Seq<char>>) -> Seq<Seq<char>>
    decreases rows.len(),
{
    if rows.len() == 0 {
        Seq::<Seq<char>>::empty()
    } else {
        let r = select_string_paths(rows.drop_last());
        match spec_select_string_path(rows.last()) {
            Some(p) => if p.len() > 0 {
                r.push(p)
            } else {
                r
            },
            None => r,
        }
    }
}

pub open spec fn spec_select_string_digest(b: Seq<char>) -> Seq<char> {
    let rows = kept_rows(RowKind::Matches, output_lines(b));
    let n = rows.len();
    let omitted = sat_sub(n, 80);
    join(
        seq![
            "select_string_digest"@,
            field("matches_total: "@, n),
            shown("matches: "@, min_nat(n, 80), omitted),
        ] + counts_section("paths: "@, tally(select_string_paths(rows))) + fallback(
            omitted > 0,
            "max_matches"@,
        ) + rows_or_status(rows, 80, "status: no_matches"@),
        "\n"@,
    )
}

fn select_string_paths_of(rows: &Vec<Vec<char>>) -> (r: Vec<Vec<char>>)
    ensures
        views(r@) == select_string_paths(views(rows@)),
{
    let mut r: Vec<Vec<char>> = Vec::new();
    for i in 0..rows.len()
        invariant
            views(r@) == select_string_paths(views(rows@).take(i as int)),
    {
        let ghost t = views(rows@).take(i + 1);
        assert(t.drop_last() =~= views(rows@).take(i as int));
        assert(t.last() == rows@[i as int]@);
        match select_string_path(&rows[i]) {
            Some(p) => {
                if p.len() > 0 {
                    push_row(&mut r, p);
                }
            },
            None => {},
        }
    }
    assert(views(rows@).take(rows.len() as int) =~= views(rows@));
    r
}

pub fn render_select_string_digest(b: &str) -> (r: String)
    ensures
        r@ == spec_select_string_digest(b@),
{
    let ls = output_lines_of(b);
    let rows = keep_rows(RowKind::Matches, &ls);
    let n = rows.len();
    let omitted = sat_sub_usize(n, SUMMARY_LIMIT);
    let counts = tally_of(&select_string_paths_of(&rows));
    let mut out: Vec<Vec<char>> = Vec::new();
    push_text(&mut out, "select_string_digest");
    push_row(&mut out, field_line("matches_total: ", n));
    push_row(&mut out, shown_line("matches: ", min_usize(n, SUMMARY_LIMIT), omitted));
    push_counts(&mut out, "paths: ", &counts);
    push_fallback(&mut out, omitted > 0, "max_matches");
    push_rows_or_status(&mut out, &rows, SUMMARY_LIMIT, "status: no_matches");
    assert(views(out@) =~= seq![
        "select_string_digest"@,
        field("matches_total: "@, n as nat),
        shown("matches: "@, min_nat(n as nat, 80), omitted as nat),
    ] + counts_section("paths: "@, entries_view(counts@)) + fallback(omitted > 0, "max_matches"@)
        + rows_or_status(views(rows@), 80, "status: no_matches"@));
    joined_lines(&out)
}

// ------------------------------------------------------------ git name-status

/// The first word of a row, or `?`.
pub open spec fn first_word_or_mark(row: Seq<char>) -> Seq<char> {
    if words(row).len() > 0 {
        words(row)[0]
    } else {
        "?"@
    }
}

pub open spec fn spec_git_name_status_compact(b: Seq<char>) -> Seq<char> {
    let rows = kept_rows(RowKind::Paths, output_lines(b));
    let n = rows.len();
    let omitted = sat_sub(n, 80);
    join(
        seq!["git_name_status_compact"@, field("paths_total: "@, n)] + counts_section(
            "status_counts: "@,
            tally(rows.map_values(|r: Seq<char>| first_word_or_mark(r))),
        ) + seq![shown("paths: "@, min_nat(n, 80), omitted)] + fallback(omitted > 0, "max_paths"@)
            + rows_or_status(rows, 80, "status: no_paths"@),
        "\n"@,
    )
}

pub fn render_git_name_status_compact(b: &str) -> (r: String)
    ensures
        r@ == spec_git_name_status_compact(b@),
{
    let ls = output_lines_of(b);
    let rows = keep_rows(RowKind::Paths, &ls);
    let n = rows.len();
    let omitted = sat_sub_usize(n, SUMMARY_LIMIT);
    let mut statuses: Vec<Vec<char>> = Vec::new();
    for i in 0..rows.len()
        invariant
            views(statuses@) == views(rows@).take(i as int).map_values(
                |r: Seq<char>| first_word_or_mark(r),
            ),
    {
        let w = words_of(&rows[i]);
        assert(views(w@) =~= w@.map_values(|p: Vec<char>| p@));
        let status = if w.len() > 0 {
            assert(views(w@)[0] == w@[0]@);
            clone_chars(&w[0])
        } else {
            chars_of("?")
        };
        assert(views(rows@)[i as int] == rows@[i as int]@);
        push_row(&mut statuses, status);
        assert(views(rows@).take(i + 1).map_values(|r: Seq<char>| first_word_or_mark(r))
            =~= views(rows@).take(i as int).map_values(|r: Seq<char>| first_word_or_mark(r)).push(
            first_word_or_mark(views(rows@)[i as int]),
        ));
    }
    assert(views(rows@).take(rows.len() as int) =~= views(rows@));
    let counts = tally_of(&statuses);
    let mut out: Vec<Vec<char>> = Vec::new();
    push_text(&mut out, "git_name_status_compact");
    push_row(&mut out, field_line("paths_total: ", n));
    push_counts(&mut out, "status_counts: ", &counts);
    push_row(&mut out, shown_line("paths: ", min_usize(n, SUMMARY_LIMIT), omitted));
    push_fallback(&mut out, omitted > 0, "max_paths");
    push_rows_or_status(&mut out, &rows, SUMMARY_LIMIT, "status: no_paths");
    assert(views(out@) =~= seq!["git_name_status_compact"@, field("paths_total: "@, n as nat)]
        + counts_section("status_counts: "@, entries_view(counts@)) + seq![
        shown("paths: "@, min_nat(n as nat, 80), omitted as nat),
    ] + fallback(omitted > 0, "max_paths"@) + rows_or_status(views(rows@), 80, "status: no_paths"@));
    joined_lines(&out)
}

// ------------------------------------------------------------ directory listings

/// The last word of an entry, or the entry itself.
pub open spec fn entry_name(entry: Seq<char>) -> Seq<char> {
    if words(entry).len() > 0 {
        words(entry).last()
    } else {
        entry
    }
}

pub open spec fn is_directory_entry(entry: Seq<char>) -> bool {
    starts_with(trim_start(entry), "d"@) || contains(trim_start(entry), "<DIR>"@)
}

/// How many entries satisfy [`is_directory_entry`].
pub open spec fn count_directories(entries: Seq<Seq<char>>) -> nat
    decreases entries.len(),
{
    if entries.len() == 0 {
        0
    } else {
        count_directories(entries.drop_last()) + if is_directory_entry(entries.last()) {
            1nat
        } else {
            0nat
        }
    }
}

pub open spec fn spec_directory_listing_compact(b: Seq<char>) -> Seq<char> {
    let entries = kept_rows(RowKind::Entries, output_lines(b));
    let n = entries.len();
    let omitted = sat_sub(n, 80);
    join(
        seq![
            "directory_listing_compact"@,
            field("entries_total: "@, n),
            field("directories_detected: "@, count_directories(entries)),
        ] + counts_section(
            "extensions: "@,
            tally(entries.map_values(|e: Seq<char>| extension_key(entry_name(e)))),
        ) + seq![shown("entries: "@, min_nat(n, 80), omitted)] + fallback(
            true,
            if omitted > 0 {
                "max_lines"@
            } else {
                "lossy_directory_listing"@
            },
        ) + rows_or_status(entries, 80, "status: no_entries"@),
        "\n"@,
    )
}

pub fn render_directory_listing_compact(b: &str) -> (r: String)
    ensures
        r@ == spec_directory_listing_compact(b@),
{
    let ls = output_lines_of(b);
    let entries = keep_rows(RowKind::Entries, &ls);
    let n = entries.len();
    let omitted = sat_sub_usize(n, SUMMARY_LIMIT);
    let ghost ev = views(entries@);
    let mut extensions: Vec<Vec<char>> = Vec::new();
    let mut dirs: usize = 0;
    for i in 0..entries.len()
        invariant
            ev == views(entries@),
            views(extensions@) == ev.take(i as int).map_values(
                |e: Seq<char>| extension_key(entry_name(e)),
            ),
            dirs as nat == count_directories(ev.take(i as int)),
            dirs <= i,
    {
        let entry = &entries[i];
        assert(ev[i as int] == entry@);
        let w = words_of(entry);
        assert(views(w@) =~= w@.map_values(|p: Vec<char>| p@));
        let name = if w.len() > 0 {
            assert(views(w@).last() == w@[w.len() - 1]@);
            clone_chars(&w[w.len() - 1])
        } else {
            clone_chars(entry)
        };
        push_row(&mut extensions, extension_key_of(&name));
        assert(ev.take(i + 1).map_values(|e: Seq<char>| extension_key(entry_name(e))) =~= ev.take(
            i as int,
        ).map_values(|e: Seq<char>| extension_key(entry_name(e))).push(
            extension_key(entry_name(ev[i as int])),
        ));
        assert(ev.take(i + 1).drop_last() =~= ev.take(i as int));
        let t = trim_start_chars(entry);
        if starts_with_str(&t, "d") || contains_str(&t, "<DIR>") {
            dirs += 1;
        }
    }
    assert(ev.take(n as int) =~= ev);
    let counts = tally_of(&extensions);
    let mut out: Vec<Vec<char>> = Vec::new();
    push_text(&mut out, "directory_listing_compact");
    push_row(&mut out, field_line("entries_total: ", n));
    push_row(&mut out, field_line("directories_detected: ", dirs));
    push_counts(&mut out, "extensions: ", &counts);
    push_row(&mut out, shown_line("entries: ", min_usize(n, SUMMARY_LIMIT), omitted));
    let reason = if omitted > 0 {
        "max_lines"
    } else {
        "lossy_directory_listing"
    };
    push_fallback(&mut out, true, reason);
    push_rows_or_status(&mut out, &entries, SUMMARY_LIMIT, "status: no_entries");
    assert(views(out@) =~= seq![
        "directory_listing_compact"@,
        field("entries_total: "@, n as nat),
        field("directories_detected: "@, dirs as nat),
    ] + counts_section("extensions: "@, entries_view(counts@)) + seq![
        shown("entries: "@, min_nat(n as nat, 80), omitted as nat),
    ] + fallback(true, reason@) + rows_or_status(ev, 80, "status: no_entries"@));
    joined_lines(&out)
}

// ------------------------------------------------------------ path lists

pub open spec fn spec_changed_files_compact(operation: Seq<char>, b: Seq<char>) -> Seq<char> {
    let paths = kept_rows(RowKind::Paths, output_lines(b));
    let n = paths.len();
    let selected = spec_diverse_sample(paths, 80);
    let omitted = sat_sub(n, selected.len());
    let extensions = tally(paths.map_values(|p: Seq<char>| extension_key(p)));
    let groups = tally(paths.map_values(|p: Seq<char>| spec_path_group(p)));
    let head = seq![operation, field("paths_total: "@, n)] + counts_section(
        "extensions: "@,
        extensions,
    ) + if groups.len() > 0 {
        seq!["top_dirs: "@ + render_top_counts(groups, 12)]
    } else {
        Seq::<Seq<char>>::empty()
    };
    join(
        if n == 0 {
            head.push("status: no_paths"@)
        } else {
            head + seq![shown("paths: "@, selected.len(), omitted)] + fallback(
                omitted > 0,
                "max_paths"@,
            ) + selected
        },
        "\n"@,
    )
}

pub fn render_changed_files_compact(operation: &str, b: &str) -> (r: String)
    ensures
        r@ == spec_changed_files_compact(operation@, b@),
{
    let ls = output_lines_of(b);
    let paths = keep_rows(RowKind::Paths, &ls);
    let n = paths.len();
    let selected = diverse_sample_of(&paths, SUMMARY_LIMIT);
    let omitted = sat_sub_usize(n, selected.len());
    let ghost pv = views(paths@);
    let mut extensions: Vec<Vec<char>> = Vec::new();
    let mut groups: Vec<Vec<char>> = Vec::new();
    for i in 0..paths.len()
        invariant
            pv == views(paths@),
            views(extensions@) == pv.take(i as int).map_values(|p: Seq<char>| extension_key(p)),
            views(groups@) == pv.take(i as int).map_values(|p: Seq<char>| spec_path_group(p)),
    {
        assert(pv[i as int] == paths@[i as int]@);
        push_row(&mut extensions, extension_key_of(&paths[i]));
        push_row(&mut groups, path_group(&paths[i]));
        assert(pv.take(i + 1).map_values(|p: Seq<char>| extension_key(p)) =~= pv.take(
            i as int,
        ).map_values(|p: Seq<char>| extension_key(p)).push(extension_key(pv[i as int])));
        assert(pv.take(i + 1).map_values(|p: Seq<char>| spec_path_group(p)) =~= pv.take(
            i as int,
        ).map_values(|p: Seq<char>| spec_path_group(p)).push(spec_path_group(pv[i as int])));
    }
    assert(pv.take(n as int) =~= pv);
    let extension_counts = tally_of(&extensions);
    let group_counts = tally_of(&groups);
    let mut out: Vec<Vec<char>> = Vec::new();
    push_row(&mut out, chars_of(operation));
    push_row(&mut out, field_line("paths_total: ", n));
    push_counts(&mut out, "extensions: ", &extension_counts);
    let ghost top_section = views(out@);
    if group_counts.len() > 0 {
        let mut line = chars_of("top_dirs: ");
        let top = render_top_counts_of(&group_counts, 12);
        append_chars(&mut line, &top);
        push_row(&mut out, line);
    }
    let ghost head = seq![operation@, field("paths_total: "@, n as nat)] + counts_section(
        "extensions: "@,
        entries_view(extension_counts@),
    ) + if entries_view(group_counts@).len() > 0 {
        seq!["top_dirs: "@ + render_top_counts(entries_view(group_counts@), 12)]
    } else {
        Seq::<Seq<char>>::empty()
    };
    assert(views(out@) =~= head);
    if n == 0 {
        push_text(&mut out, "status: no_paths");
        return joined_lines(&out);
    }
    push_row(&mut out, shown_line("paths: ", selected.len(), omitted));
    push_fallback(&mut out, omitted > 0, "max_paths");
    let k = selected.len();
    push_rows(&mut out, &selected, k);
    assert(views(selected@).take(k as int) =~= views(selected@));
    assert(views(out@) =~= head + seq![shown("paths: "@, k as nat, omitted as nat)] + fallback(
        omitted > 0,
        "max_paths"@,
    ) + views(selected@));
    joined_lines(&out)
}

// ------------------------------------------------------------ diffstat

/// The last row that mentions ` changed`.
pub open spec fn last_changed_row(rows: Seq<Seq<char>>) -> Option<Seq<char>>
    decreases rows.len(),
{
    if rows.len() == 0 {
        None
    } else if contains(rows.last(), " changed"@) {
        Some(rows.last())
    } else {
        last_changed_row(rows.drop_last())
    }
}

pub open spec fn is_stat_row(row: Seq<char>) -> bool {
    row.contains('|') && !contains(row, " changed"@)
}

pub open spec fn count_stat_rows(rows: Seq<Seq<char>>) -> nat
    decreases rows.len(),
{
    if rows.len() == 0 {
        0
    } else {
        count_stat_rows(rows.drop_last()) + if is_stat_row(rows.last()) {
            1nat
        } else {
            0nat
        }
    }
}

pub open spec fn spec_git_diffstat_compact(b: Seq<char>) -> Seq<char> {
    let rows = kept_rows(RowKind::DiffStat, output_lines(b));
    let n = rows.len();
    let omitted = sat_sub(n, 80);
    let head = seq![
        "git_diffstat_compact"@,
        field("diffstat_lines: "@, n),
        field("files_with_stat_rows: "@, count_stat_rows(rows)),
    ] + match last_changed_row(rows) {
        Some(row) => seq!["summary: "@ + trim(row)],
        None => Seq::<Seq<char>>::empty(),
    };
    join(
        if n == 0 {
            head.push("status: no_diffstat"@)
        } else {
            head + seq![shown("lines: "@, min_nat(n, 80), omitted)] + fallback(
                omitted > 0,
                "max_diffstat_lines"@,
            ) + rows.take(min_nat(n, 80) as int)
        },
        "\n"@,
    )
}

pub fn render_git_diffstat_compact(b: &str) -> (r: String)
    ensures
        r@ == spec_git_diffstat_compact(b@),
{
    let ls = output_lines_of(b);
    let rows = keep_rows(RowKind::DiffStat, &ls);
    let n = rows.len();
    let omitted = sat_sub_usize(n, SUMMARY_LIMIT);
    let ghost rv = views(rows@);
    let mut summary: Option<Vec<char>> = None;
    let mut file_rows: usize = 0;
    for i in 0..rows.len()
        invariant
            rv == views(rows@),
            file_rows as nat == count_stat_rows(rv.take(i as int)),
            file_rows <= i,
            match summary {
                Some(s) => last_changed_row(rv.take(i as int)) == Some(s@),
                None => last_changed_row(rv.take(i as int)) is None,
            },
    {
        assert(rv[i as int] == rows@[i as int]@);
        assert(rv.take(i + 1).drop_last() =~= rv.take(i as int));
        let changed = contains_str(&rows[i], " changed");
        if changed {
            summary = Some(clone_chars(&rows[i]));
        }
        if crate::text::contains_char(&rows[i], '|') && !changed {
            file_rows += 1;
        }
    }
    assert(rv.take(n as int) =~= rv);
    let mut out: Vec<Vec<char>> = Vec::new();
    push_text(&mut out, "git_diffstat_compact");
    push_row(&mut out, field_line("diffstat_lines: ", n));
    push_row(&mut out, field_line("files_with_stat_rows: ", file_rows));
    match summary {
        Some(row) => {
            let mut line = chars_of("summary: ");
            let t = trim_chars(&row);
            append_chars(&mut line, &t);
            push_row(&mut out, line);
        },
        None => {},
    }
    let ghost head = seq![
        "git_diffstat_compact"@,
        field("diffstat_lines: "@, n as nat),
        field("files_with_stat_rows: "@, count_stat_rows(rv)),
    ] + match last_changed_row(rv) {
        Some(row) => seq!["summary: "@ + trim(row)],
        None => Seq::<Seq<char>>::empty(),
    };
    assert(views(out@) =~= head);
    if n == 0 {
        push_text(&mut out, "status: no_diffstat");
        return joined_lines(&out);
    }
    push_row(&mut out, shown_line("lines: ", min_usize(n, SUMMARY_LIMIT), omitted));
    push_fallback(&mut out, omitted > 0, "max_diffstat_lines");
    push_rows(&mut out, &rows, min_usize(n, SUMMARY_LIMIT));
    assert(views(out@) =~= head + seq![shown("lines: "@, min_nat(n as nat, 80), omitted as nat)]
        + fallback(omitted > 0, "max_diffstat_lines"@) + rv.take(min_nat(n as nat, 80) as int));
    joined_lines(&out)
}

// ------------------------------------------------------------ line counts

/// A test on one output line.
#[derive(Clone, Copy, PartialEq, Eq)]
pub enum LineTest {
    /// Starts with `commit `.
    Commit,
    /// Starts with `diff --git `.
    DiffHeader,
    /// Starts with `@@`.
    HunkHeader,
    /// Starts with `+` but not `+++`.
    Added,
    /// Starts with `-` but not `---`.
    Removed,
}

pub open spec fn line_passes(test: LineTest, l: Seq<char>) -> bool {
    match test {
        LineTest::Commit => starts_with(l, "commit "@),
        LineTest::DiffHeader => starts_with(l, "diff --git "@),
        LineTest::HunkHeader => starts_with(l, "@@"@),
        LineTest::Added => starts_with(l, "+"@) && !starts_with(l, "+++"@),
        LineTest::Removed => starts_with(l, "-"@) && !starts_with(l, "---"@),
    }
}

/// How many lines pass the test.
pub open spec fn count_where(ls: Seq<Seq<char>>, test: LineTest) -> nat
    decreases ls.len(),
{
    if ls.len() == 0 {
        0
    } else {
        count_where(ls.drop_last(), test) + if line_passes(test, ls.last()) {
            1nat
        } else {
            0nat
        }
    }
}

fn count_where_exec(ls: &[Vec<char>], test: LineTest) -> (r: usize)
    ensures
        r as nat == count_where(views(ls@), test),
{
    let ghost lv = views(ls@);
    let mut n: usize = 0;
    for i in 0..ls.len()
        invariant
            lv == views(ls@),
            n as nat == count_where(lv.take(i as int), test),
            n <= i,
    {
        assert(lv.take(i + 1).drop_last() =~= lv.take(i as int));
        assert(lv[i as int] == ls@[i as int]@);
        let l = &ls[i];
        let pass = match test {
            LineTest::Commit => starts_with_str(l, "commit "),
            LineTest::DiffHeader => starts_with_str(l, "diff --git "),
            LineTest::HunkHeader => starts_with_str(l, "@@"),
            LineTest::Added => starts_with_str(l, "+") && !starts_with_str(l, "+++"),
            LineTest::Removed => starts_with_str(l, "-") && !starts_with_str(l, "---"),
        };
        if pass {
            n += 1;
        }
    }
    assert(lv.take(ls.len() as int) =~= lv);
    n
}

// ------------------------------------------------------------ check output

/// What follows `prefix` on the first line that starts with it.
pub open spec fn first_with_prefix(ls: Seq<Seq<char>>, prefix: Seq<char>) -> Option<Seq<char>>
    decreases ls.len(),
{
    if ls.len() == 0 {
        None
    } else if starts_with(ls[0], prefix) {
        Some(ls[0].skip(prefix.len() as int))
    } else {
        first_with_prefix(ls.drop_first(), prefix)
    }
}

pub open spec fn or_unknown(v: Option<Seq<char>>) -> Seq<char> {
    match v {
        Some(x) => x,
        None => "unknown"@,
    }
}

fn first_with_prefix_of(ls: &[Vec<char>], prefix: &str) -> (r: Option<Vec<char>>)
    ensures
        match r {
            Some(v) => first_with_prefix(views(ls@), prefix@) == Some(v@),
            None => first_with_prefix(views(ls@), prefix@) is None,
        },
{
    let ghost lv = views(ls@);
    assert(lv.skip(0) =~= lv);
    for i in 0..ls.len()
        invariant
            lv == views(ls@),
            first_with_prefix(lv, prefix@) == first_with_prefix(lv.skip(i as int), prefix@),
    {
        assert(lv.skip(i as int)[0] == ls@[i as int]@);
        assert(lv.skip(i as int).drop_first() =~= lv.skip(i + 1));
        if starts_with_str(&ls[i], prefix) {
            let p = chars_of(prefix);
            let v = slice_chars(&ls[i], p.len(), ls[i].len());
            assert(v@ =~= ls@[i as int]@.skip(prefix@.len() as int));
            return Some(v);
        }
    }
    assert(lv.skip(ls.len() as int) =~= Seq::<Seq<char>>::empty());
    None
}

pub open spec fn spec_run_check_digest(b: Seq<char>) -> Seq<char> {
    let ls = output_lines(b);
    let diagnostics = kept_rows(RowKind::Diagnostics, ls);
    let d = diagnostics.len();
    let omitted = sat_sub(d, 40);
    join(
        seq![
            "run_check_digest"@,
            "exit_code: "@ + or_unknown(first_with_prefix(lines(b), "Exit code: "@)),
            "wall_time: "@ + or_unknown(first_with_prefix(lines(b), "Wall time: "@)),
            field("output_lines: "@, ls.len()),
            shown("diagnostics: "@, min_nat(d, 40), omitted),
        ] + fallback(
            true,
            if omitted > 0 {
                "max_diagnostics"@
            } else {
                "lossy_check_output"@
            },
        ) + rows_or_status(diagnostics, 40, "status: no_diagnostics_detected"@),
        "\n"@,
    )
}

fn labelled_value(label: &str, v: Option<Vec<char>>) -> (r: Vec<char>)
    ensures
        r@ == label@ + or_unknown(match v {
            Some(x) => Some(x@),
            None => None,
        }),
{
    let mut line = chars_of(label);
    match v {
        Some(x) => append_chars(&mut line, &x),
        None => append_str(&mut line, "unknown"),
    }
    line
}

pub fn render_run_check_digest(b: &str) -> (r: String)
    ensures
        r@ == spec_run_check_digest(b@),
{
    let raw = lines_of(&chars_of(b));
    assert(views(raw@) =~= raw@.map_values(|p: Vec<char>| p@));
    let exit_code = first_with_prefix_of(&raw, "Exit code: ");
    let wall_time = first_with_prefix_of(&raw, "Wall time: ");
    let ls = output_lines_of(b);
    let diagnostics = keep_rows(RowKind::Diagnostics, &ls);
    let d = diagnostics.len();
    let omitted = sat_sub_usize(d, DIAGNOSTIC_LIMIT);
    let mut out: Vec<Vec<char>> = Vec::new();
    push_text(&mut out, "run_check_digest");
    push_row(&mut out, labelled_value("exit_code: ", exit_code));
    push_row(&mut out, labelled_value("wall_time: ", wall_time));
    push_row(&mut out, field_line("output_lines: ", ls.len()));
    push_row(&mut out, shown_line("diagnostics: ", min_usize(d, DIAGNOSTIC_LIMIT), omitted));
    let reason = if omitted > 0 {
        "max_diagnostics"
    } else {
        "lossy_check_output"
    };
    push_fallback(&mut out, true, reason);
    push_rows_or_status(&mut out, &diagnostics, DIAGNOSTIC_LIMIT, "status: no_diagnostics_detected");
    assert(views(out@) =~= seq![
        "run_check_digest"@,
        "exit_code: "@ + or_unknown(first_with_prefix(lines(b@), "Exit code: "@)),
        "wall_time: "@ + or_unknown(first_with_prefix(lines(b@), "Wall time: "@)),
        field("output_lines: "@, ls@.len()),
        shown("diagnostics: "@, min_nat(d as nat, 40), omitted as nat),
    ] + fallback(true, reason@) + rows_or_status(
        views(diagnostics@),
        40,
        "status: no_diagnostics_detected"@,
    ));
    joined_lines(&out)
}

// ------------------------------------------------------------ filtered diffs

pub open spec fn spec_git_filtered_diff_digest(b: Seq<char>) -> Seq<char> {
    let raw = output_lines(b);
    let nonblank = kept_rows(RowKind::NonBlank, raw);
    let samples = nonblank.take(min_nat(nonblank.len(), 40) as int);
    join(
        seq![
            "git_filtered_diff_digest"@,
            field("lines_total: "@, raw.len()),
            field("diff_headers: "@, count_where(raw, LineTest::DiffHeader)),
            field("hunk_headers: "@, count_where(raw, LineTest::HunkHeader)),
            field("added_lines: "@, count_where(raw, LineTest::Added)),
            field("removed_lines: "@, count_where(raw, LineTest::Removed)),
            shown("samples: "@, samples.len(), sat_sub(raw.len(), samples.len())),
            "fallback_required: true"@,
            "fallback_reason: lossy_diff_filter"@,
        ] + rows_or_status(samples, 40, "status: no_filtered_diff_lines"@),
        "\n"@,
    )
}

pub fn render_git_filtered_diff_digest(b: &str) -> (r: String)
    ensures
        r@ == spec_git_filtered_diff_digest(b@),
{
    let raw = output_lines_of(b);
    let nonblank = keep_rows(RowKind::NonBlank, &raw);
    let k = min_usize(nonblank.len(), DIAGNOSTIC_LIMIT);
    let mut samples: Vec<Vec<char>> = Vec::new();
    push_rows(&mut samples, &nonblank, k);
    let n = raw.len();
    let mut out: Vec<Vec<char>> = Vec::new();
    push_text(&mut out, "git_filtered_diff_digest");
    push_row(&mut out, field_line("lines_total: ", n));
    push_row(&mut out, field_line("diff_headers: ", count_where_exec(&raw, LineTest::DiffHeader)));
    push_row(&mut out, field_line("hunk_headers: ", count_where_exec(&raw, LineTest::HunkHeader)));
    push_row(&mut out, field_line("added_lines: ", count_where_exec(&raw, LineTest::Added)));
    push_row(&mut out, field_line("removed_lines: ", count_where_exec(&raw, LineTest::Removed)));
    push_row(&mut out, shown_line("samples: ", k, sat_sub_usize(n, k)));
    push_text(&mut out, "fallback_required: true");
    push_text(&mut out, "fallback_reason: lossy_diff_filter");
    push_rows_or_status(&mut out, &samples, DIAGNOSTIC_LIMIT, "status: no_filtered_diff_lines");
    assert(views(samples@) =~= views(nonblank@).take(min_nat(nonblank.len() as nat, 40) as int));
    let ghost rv = views(raw@);
    assert(views(out@) =~= seq![
        "git_filtered_diff_digest"@,
        field("lines_total: "@, n as nat),
        field("diff_headers: "@, count_where(rv, LineTest::DiffHeader)),
        field("hunk_headers: "@, count_where(rv, LineTest::HunkHeader)),
        field("added_lines: "@, count_where(rv, LineTest::Added)),
        field("removed_lines: "@, count_where(rv, LineTest::Removed)),
        shown("samples: "@, k as nat, sat_sub(n as nat, k as nat)),
        "fallback_required: true"@,
        "fallback_reason: lossy_diff_filter"@,
    ] + rows_or_status(views(samples@), 40, "status: no_filtered_diff_lines"@));
    joined_lines(&out)
}

// ------------------------------------------------------------ git history

/// `git log` metadata lines: commit, author and date headers, diff headers,
/// change summaries and name-status or numstat rows.
pub open spec fn spec_looks_like_status_row(line: Seq<char>) -> bool {
    let w = words(line);
    if w.len() == 0 {
        false
    } else if seq!["A"@, "M"@, "D"@, "R"@, "C"@, "T"@, "U"@].contains(w[0]) {
        w.len() > 1
    } else {
        w.len() > 1 && ((w[0] == "-"@ && w[1] == "-"@) || (crate::text::parse_usize(w[0]) is Some
            && crate::text::parse_usize(w[1]) is Some))
    }
}

fn looks_like_name_status_or_numstat(line: &[char]) -> (r: bool)
    ensures
        r == spec_looks_like_status_row(line@),
{
    let w = words_of(line);
    assert(views(w@) =~= w@.map_values(|p: Vec<char>| p@));
    if w.len() == 0 {
        return false;
    }
    assert(views(w@)[0] == w@[0]@);
    let letters: [&str; 7] = ["A", "M", "D", "R", "C", "T", "U"];
    let ghost lv = seq!["A"@, "M"@, "D"@, "R"@, "C"@, "T"@, "U"@];
    let mut is_letter = false;
    for k in 0..letters.len()
        invariant
            letters.len() == 7,
            w.len() > 0,
            forall|j: int| 0 <= j < 7 ==> lv[j] == (#[trigger] letters@[j])@,
            lv == seq!["A"@, "M"@, "D"@, "R"@, "C"@, "T"@, "U"@],
            is_letter == exists|j: int| 0 <= j < k && lv[j] == w@[0]@,
    {
        if eq_str(&w[0], letters[k]) {
            is_letter = true;
        }
    }
    assert(is_letter == lv.contains(w@[0]@));
    if is_letter {
        return w.len() > 1;
    }
    if w.len() < 2 {
        return false;
    }
    assert(views(w@)[1] == w@[1]@);
    (eq_str(&w[0], "-") && eq_str(&w[1], "-")) || (crate::text::parse_usize_exec(&w[0]).is_some()
        && crate::text::parse_usize_exec(&w[1]).is_some())
}

pub open spec fn is_history_line(line: Seq<char>) -> bool {
    let t = trim_start(line);
    starts_with(line, "commit "@) || starts_with(t, "Author:"@) || starts_with(t, "Date:"@)
        || starts_with(line, "diff --git "@) || contains(t, " file changed"@) || contains(
        t,
        " files changed"@,
    ) || spec_looks_like_status_row(t)
}

/// The history lines, in order.
pub open spec fn history_lines(ls: Seq<Seq<char>>) -> Seq<Seq<char>>
    decreases ls.len(),
{
    if ls.len() == 0 {
        Seq::<Seq<char>>::empty()
    } else if is_history_line(ls.last()) {
        history_lines(ls.drop_last()).push(ls.last())
    } else {
        history_lines(ls.drop_last())
    }
}

pub open spec fn spec_git_history_digest(b: Seq<char>) -> Seq<char> {
    let raw = output_lines(b);
    let h = history_lines(raw);
    let samples = h.take(min_nat(h.len(), 40) as int);
    join(
        seq![
            "git_history_digest"@,
            field("commits: "@, count_where(raw, LineTest::Commit)),
            field("diff_files: "@, count_where(raw, LineTest::DiffHeader)),
            field("lines_total: "@, raw.len()),
            shown("metadata_samples: "@, samples.len(), sat_sub(raw.len(), samples.len())),
            "fallback_required: true"@,
            "fallback_reason: lossy_git_history"@,
        ] + rows_or_status(samples, 40, "status: no_history_metadata_detected"@),
        "\n"@,
    )
}

fn history_lines_of(ls: &[Vec<char>]) -> (r: Vec<Vec<char>>)
    ensures
        views(r@) == history_lines(views(ls@)),
{
    let ghost lv = views(ls@);
    let mut r: Vec<Vec<char>> = Vec::new();
    for i in 0..ls.len()
        invariant
            lv == views(ls@),
            views(r@) == history_lines(lv.take(i as int)),
    {
        assert(lv.take(i + 1).drop_last() =~= lv.take(i as int));
        assert(lv[i as int] == ls@[i as int]@);
        let l = &ls[i];
        let t = trim_start_chars(l);
        if starts_with_str(l, "commit ") || starts_with_str(&t, "Author:") || starts_with_str(
            &t,
            "Date:",
        ) || starts_with_str(l, "diff --git ") || contains_str(&t, " file changed")
            || contains_str(&t, " files changed") || looks_like_name_status_or_numstat(&t) {
            push_row(&mut r, clone_chars(l));
        }
    }
    assert(lv.take(ls.len() as int) =~= lv);
    r
}

pub fn render_git_history_digest(b: &str) -> (r: String)
    ensures
        r@ == spec_git_history_digest(b@),
{
    let raw = output_lines_of(b);
    let h = history_lines_of(&raw);
    let k = min_usize(h.len(), DIAGNOSTIC_LIMIT);
    let mut samples: Vec<Vec<char>> = Vec::new();
    push_rows(&mut samples, &h, k);
    let n = raw.len();
    let mut out: Vec<Vec<char>> = Vec::new();
    push_text(&mut out, "git_history_digest");
    push_row(&mut out, field_line("commits: ", count_where_exec(&raw, LineTest::Commit)));
    push_row(&mut out, field_line("diff_files: ", count_where_exec(&raw, LineTest::DiffHeader)));
    push_row(&mut out, field_line("lines_total: ", n));
    push_row(&mut out, shown_line("metadata_samples: ", k, sat_sub_usize(n, k)));
    push_text(&mut out, "fallback_required: true");
    push_text(&mut out, "fallback_reason: lossy_git_history");
    push_rows_or_status(&mut out, &samples, DIAGNOSTIC_LIMIT, "status: no_history_metadata_detected");
    assert(views(samples@) =~= views(h@).take(min_nat(h.len() as nat, 40) as int));
    let ghost rv = views(raw@);
    assert(views(out@) =~= seq![
        "git_history_digest"@,
        field("commits: "@, count_where(rv, LineTest::Commit)),
        field("diff_files: "@, count_where(rv, LineTest::DiffHeader)),
        field("lines_total: "@, n as nat),
        shown("metadata_samples: "@, k as nat, sat_sub(n as nat, k as nat)),
        "fallback_required: true"@,
        "fallback_reason: lossy_git_history"@,
    ] + rows_or_status(views(samples@), 40, "status: no_history_metadata_detected"@));
    joined_lines(&out)
}

// ------------------------------------------------------------ diff hunks

/// `s` without any number of leading `b/` (as `trim_start_matches("b/")`).
pub open spec fn strip_b_prefixes(s: Seq<char>) -> Seq<char>
    decreases s.len(),
{
    if s.len() >= 2 && s[0] == 'b' && s[1] == '/' {
        strip_b_prefixes(s.skip(2))
    } else {
        s
    }
}

pub open spec fn strip_leading_quotes(s: Seq<char>) -> Seq<char>
    decreases s.len(),
{
    if s.len() > 0 && s[0] == '"' {
        strip_leading_quotes(s.drop_first())
    } else {
        s
    }
}

pub open spec fn strip_trailing_quotes(s: Seq<char>) -> Seq<char>
    decreases s.len(),
{
    if s.len() > 0 && s.last() == '"' {
        strip_trailing_quotes(s.drop_last())
    } else {
        s
    }
}

/// The path of a `diff --git a/x b/x` header: its fourth word without `b/`
/// prefixes and surrounding quotes.
pub open spec fn diff_header_path(line: Seq<char>) -> Seq<char> {
    let w = words(line);
    let raw = if w.len() > 3 {
        w[3]
    } else {
        Seq::<char>::empty()
    };
    strip_trailing_quotes(strip_leading_quotes(strip_b_prefixes(raw)))
}

/// The files of a diff with their hunk counts, in order.
pub open spec fn hunk_files(ls: Seq<Seq<char>>) -> Seq<(Seq<char>, nat)>
    decreases ls.len(),
{
    if ls.len() == 0 {
        Seq::<(Seq<char>, nat)>::empty()
    } else {
        let f = hunk_files(ls.drop_last());
        let l = ls.last();
        if starts_with(l, "diff --git "@) {
            f.push((diff_header_path(l), 0nat))
        } else if starts_with(l, "@@"@) && f.len() > 0 {
            f.update(f.len() - 1, (f.last().0, f.last().1 + 1))
        } else {
            f
        }
    }
}

pub open spec fn total_hunks(fs: Seq<(Seq<char>, nat)>) -> nat
    decreases fs.len(),
{
    if fs.len() == 0 {
        0
    } else {
        total_hunks(fs.drop_last()) + fs.last().1
    }
}

proof fn lemma_total_hunks_update(fs: Seq<(Seq<char>, nat)>)
    requires
        fs.len() > 0,
    ensures
        total_hunks(fs.update(fs.len() - 1, (fs.last().0, fs.last().1 + 1))) == total_hunks(fs) + 1,
{
    let g = fs.update(fs.len() - 1, (fs.last().0, fs.last().1 + 1));
    assert(g.drop_last() =~= fs.drop_last());
}

proof fn lemma_hunk_files_bound(ls: Seq<Seq<char>>)
    ensures
        hunk_files(ls).len() + total_hunks(hunk_files(ls)) <= ls.len(),
    decreases ls.len(),
{
    if ls.len() > 0 {
        lemma_hunk_files_bound(ls.drop_last());
        let f = hunk_files(ls.drop_last());
        let l = ls.last();
        if starts_with(l, "diff --git "@) {
            assert(f.push((diff_header_path(l), 0nat)).drop_last() =~= f);
        } else if starts_with(l, "@@"@) && f.len() > 0 {
            lemma_total_hunks_update(f);
        }
    }
}

/// `file: {path}; hunks: {count}` for each file.
pub open spec fn hunk_lines(fs: Seq<(Seq<char>, nat)>) -> Seq<Seq<char>> {
    fs.map_values(|f: (Seq<char>, nat)| "file: "@ + f.0 + "; hunks: "@ + dec(f.1))
}

pub open spec fn spec_diff_hunk_summary(b: Seq<char>) -> Seq<char> {
    let fs = hunk_files(output_lines(b));
    let n = fs.len();
    let head = seq![
        "diff_hunk_summary"@,
        field("files: "@, n),
        field("hunks: "@, total_hunks(fs)),
    ];
    join(
        if n == 0 {
            head.push("status: no_diff_hunks_detected"@)
        } else {
            head + seq![
                shown("files_list: "@, min_nat(n, 80), sat_sub(n, 80)),
                "fallback_required: true"@,
                "fallback_reason: lossy_diff_summary"@,
            ] + hunk_lines(fs.take(min_nat(n, 80) as int))
        },
        "\n"@,
    )
}

fn strip_b_prefixes_of(s: &[char]) -> (r: Vec<char>)
    ensures
        r@ == strip_b_prefixes(s@),
{
    let mut k: usize = 0;
    assert(s@.skip(0) =~= s@);
    while s.len() - k >= 2 && s[k] == 'b' && s[k + 1] == '/'
        invariant
            k <= s.len(),
            strip_b_prefixes(s@) == strip_b_prefixes(s@.skip(k as int)),
        decreases s.len() - k,
    {
        assert(s@.skip(k as int).skip(2) =~= s@.skip(k + 2));
        k += 2;
    }
    proof {
        if s@.len() - k >= 2 {
            assert(s@.skip(k as int)[0] == s@[k as int]);
            assert(s@.skip(k as int)[1] == s@[k + 1]);
        }
    }
    let r = slice_chars(s, k, s.len());
    assert(r@ =~= s@.skip(k as int));
    r
}

fn strip_quotes_of(s: &[char]) -> (r: Vec<char>)
    ensures
        r@ == strip_trailing_quotes(strip_leading_quotes(s@)),
{
    let mut a: usize = 0;
    assert(s@.skip(0) =~= s@);
    while a < s.len() && s[a] == '"'
        invariant
            a <= s.len(),
            strip_leading_quotes(s@) == strip_leading_quotes(s@.skip(a as int)),
        decreases s.len() - a,
    {
        assert(s@.skip(a as int).drop_first() =~= s@.skip(a + 1));
        a += 1;
    }
    let t = slice_chars(s, a, s.len());
    assert(t@ =~= s@.skip(a as int));
    let mut e = t.len();
    assert(t@.take(e as int) =~= t@);
    while e > 0 && t[e - 1] == '"'
        invariant
            e <= t.len(),
            strip_trailing_quotes(t@) == strip_trailing_quotes(t@.take(e as int)),
        decreases e,
    {
        assert(t@.take(e as int).drop_last() =~= t@.take(e - 1));
        e -= 1;
    }
    let r = slice_chars(&t, 0, e);
    assert(r@ =~= t@.take(e as int));
    r
}

fn diff_header_path_of(line: &[char]) -> (r: Vec<char>)
    ensures
        r@ == diff_header_path(line@),
{
    let w = words_of(line);
    assert(views(w@) =~= w@.map_values(|p: Vec<char>| p@));
    let raw = if w.len() > 3 {
        assert(views(w@)[3] == w@[3]@);
        clone_chars(&w[3])
    } else {
        Vec::new()
    };
    assert(raw@ =~= (if words(line@).len() > 3 {
        words(line@)[3]
    } else {
        Seq::<char>::empty()
    }));
    let stripped = strip_b_prefixes_of(&raw);
    strip_quotes_of(&stripped)
}

fn hunk_files_of(ls: &[Vec<char>]) -> (r: Vec<(Vec<char>, usize)>)
    ensures
        entries_view(r@) == hunk_files(views(ls@)),
{
    let ghost lv = views(ls@);
    let mut fs: Vec<(Vec<char>, usize)> = Vec::new();
    for i in 0..ls.len()
        invariant
            lv == views(ls@),
            entries_view(fs@) == hunk_files(lv.take(i as int)),
    {
        assert(lv.take(i + 1).drop_last() =~= lv.take(i as int));
        assert(lv[i as int] == ls@[i as int]@);
        proof {
            lemma_hunk_files_bound(lv.take(i as int));
        }
        let l = &ls[i];
        if starts_with_str(l, "diff --git ") {
            let ghost before = fs@;
            fs.push((diff_header_path_of(l), 0));
            assert(entries_view(fs@) =~= entries_view(before).push(
                (diff_header_path(lv[i as int]), 0nat),
            ));
        } else if starts_with_str(l, "@@") && fs.len() > 0 {
            let last = fs.len() - 1;
            let ghost ev = entries_view(fs@);
            assert(ev.last() == (fs@[last as int].0@, fs@[last as int].1 as nat));
            proof {
                lemma_total_hunks_update(ev);
                if ev.len() > 0 {
                    assert(total_hunks(ev) >= ev.last().1) by {
                        assert(ev.drop_last().len() + 1 == ev.len());
                    }
                }
            }
            let path = clone_chars(&fs[last].0);
            let count = fs[last].1 + 1;
            fs.set(last, (path, count));
            assert(entries_view(fs@) =~= ev.update(ev.len() - 1, (ev.last().0, ev.last().1 + 1)));
        }
    }
    assert(lv.take(ls.len() as int) =~= lv);
    fs
}

pub fn render_diff_hunk_summary(b: &str) -> (r: String)
    ensures
        r@ == spec_diff_hunk_summary(b@),
{
    let ls = output_lines_of(b);
    let fs = hunk_files_of(&ls);
    let ghost fv = entries_view(fs@);
    proof {
        lemma_hunk_files_bound(views(ls@));
    }
    let n = fs.len();
    let ls_len = ls.len();
    assert(total_hunks(fv) <= ls_len);
    let mut total: usize = 0;
    for i in 0..fs.len()
        invariant
            fv == entries_view(fs@),
            total as nat == total_hunks(fv.take(i as int)),
            total_hunks(fv) <= ls_len,
    {
        proof {
            lemma_total_hunks_prefix(fv, i as int + 1);
            assert(fv.take(i + 1).drop_last() =~= fv.take(i as int));
            assert(fv.take(i + 1).last() == fv[i as int]);
            assert(fv[i as int].1 == fs@[i as int].1);
        }
        total += fs[i].1;
    }
    assert(fv.take(n as int) =~= fv);
    let mut out: Vec<Vec<char>> = Vec::new();
    push_text(&mut out, "diff_hunk_summary");
    push_row(&mut out, field_line("files: ", n));
    push_row(&mut out, field_line("hunks: ", total));
    let ghost head = seq![
        "diff_hunk_summary"@,
        field("files: "@, n as nat),
        field("hunks: "@, total_hunks(fv)),
    ];
    if n == 0 {
        push_text(&mut out, "status: no_diff_hunks_detected");
        assert(views(out@) =~= head.push("status: no_diff_hunks_detected"@));
        return joined_lines(&out);
    }
    let k = min_usize(n, SUMMARY_LIMIT);
    push_row(&mut out, shown_line("files_list: ", k, sat_sub_usize(n, SUMMARY_LIMIT)));
    push_text(&mut out, "fallback_required: true");
    push_text(&mut out, "fallback_reason: lossy_diff_summary");
    let ghost mid = views(out@);
    for i in 0..k
        invariant
            k <= fs.len(),
            fv == entries_view(fs@),
            views(out@) == mid + hunk_lines(fv.take(i as int)),
    {
        let mut line = chars_of("file: ");
        append_chars(&mut line, &fs[i].0);
        append_str(&mut line, "; hunks: ");
        push_dec(&mut line, fs[i].1);
        assert(fv[i as int] == (fs@[i as int].0@, fs@[i as int].1 as nat));
        push_row(&mut out, line);
        assert(hunk_lines(fv.take(i + 1)) =~= hunk_lines(fv.take(i as int)).push(
            "file: "@ + fv[i as int].0 + "; hunks: "@ + dec(fv[i as int].1),
        ));
    }
    assert(views(out@) =~= head + seq![
        shown("files_list: "@, min_nat(n as nat, 80), sat_sub(n as nat, 80)),
        "fallback_required: true"@,
        "fallback_reason: lossy_diff_summary"@,
    ] + hunk_lines(fv.take(min_nat(n as nat, 80) as int)));
    joined_lines(&out)
}

proof fn lemma_total_hunks_prefix(fs: Seq<(Seq<char>, nat)>, i: int)
    requires
        0 <= i <= fs.len(),
    ensures
        total_hunks(fs.take(i)) <= total_hunks(fs),
    decreases fs.len() - i,
{
    if i < fs.len() {
        lemma_total_hunks_prefix(fs, i + 1);
        assert(fs.take(i + 1).drop_last() =~= fs.take(i));
    } else {
        assert(fs.take(i) =~= fs);
    }
}

// ------------------------------------------------------------ rg counts

/// What follows the last `:` of a count row, or the whole row.
pub open spec fn count_field(row: Seq<char>) -> Seq<char> {
    let i = last_index_of(row, ':');
    if i >= 0 {
        row.skip(i + 1)
    } else {
        row
    }
}

/// The parsed value, or zero when it does not parse.
pub open spec fn parsed_or_zero(s: Seq<char>) -> nat {
    match crate::text::parse_usize(s) {
        Some(v) => v as nat,
        None => 0,
    }
}

/// The sum of the counts that parse.
pub open spec fn count_total(rows: Seq<Seq<char>>) -> nat
    decreases rows.len(),
{
    if rows.len() == 0 {
        0
    } else {
        count_total(rows.drop_last()) + parsed_or_zero(count_field(rows.last()))
    }
}

pub open spec fn rg_count_rows(b: Seq<char>) -> Seq<Seq<char>> {
    kept_rows(RowKind::Counts, output_lines(b))
}

pub open spec fn spec_rg_count_digest(b: Seq<char>) -> Seq<char> {
    let rows = rg_count_rows(b);
    let n = rows.len();
    let omitted = sat_sub(n, 80);
    join(
        seq![
            "rg_count_digest"@,
            field("count_lines_total: "@, n),
            field("matches_total_from_counts: "@, count_total(rows)),
            shown("count_lines: "@, min_nat(n, 80), omitted),
        ] + fallback(omitted > 0, "max_lines"@) + rows_or_status(rows, 80, "status: no_counts"@),
        "\n"@,
    )
}

proof fn lemma_count_total_prefix(rows: Seq<Seq<char>>, i: int)
    requires
        0 <= i <= rows.len(),
    ensures
        count_total(rows.take(i)) <= count_total(rows),
    decreases rows.len() - i,
{
    if i < rows.len() {
        lemma_count_total_prefix(rows, i + 1);
        assert(rows.take(i + 1).drop_last() =~= rows.take(i));
    } else {
        assert(rows.take(i) =~= rows);
    }
}

fn parsed_count(row: &[char]) -> (r: usize)
    ensures
        r as nat == parsed_or_zero(count_field(row@)),
{
    let field = match last_index_of_exec(row, ':') {
        Some(i) => {
            let f = slice_chars(row, i + 1, row.len());
            assert(f@ =~= row@.skip(i + 1));
            f
        },
        None => clone_chars(row),
    };
    match crate::text::parse_usize_exec(&field) {
        Some(v) => v,
        None => 0,
    }
}

/// Whether the counts of the rows add up within `usize`.
pub fn rg_count_total_fits(rows: &[Vec<char>]) -> (r: Option<usize>)
    ensures
        match r {
            Some(t) => t as nat == count_total(views(rows@)),
            None => count_total(views(rows@)) > usize::MAX,
        },
{
    let ghost rv = views(rows@);
    let mut total: usize = 0;
    for i in 0..rows.len()
        invariant
            rv == views(rows@),
            total as nat == count_total(rv.take(i as int)),
    {
        assert(rv.take(i + 1).drop_last() =~= rv.take(i as int));
        assert(rv[i as int] == rows@[i as int]@);
        let c = parsed_count(&rows[i]);
        if total > usize::MAX - c {
            proof {
                lemma_count_total_prefix(rv, i + 1);
            }
            return None;
        }
        total = total + c;
    }
    assert(rv.take(rows.len() as int) =~= rv);
    Some(total)
}

pub fn render_rg_count_digest(b: &str) -> (r: String)
    requires
        count_total(rg_count_rows(b@)) <= usize::MAX,
    ensures
        r@ == spec_rg_count_digest(b@),
{
    let ls = output_lines_of(b);
    let rows = keep_rows(RowKind::Counts, &ls);
    let n = rows.len();
    let omitted = sat_sub_usize(n, SUMMARY_LIMIT);
    let total = match rg_count_total_fits(&rows) {
        Some(t) => t,
        None => 0,
    };
    let mut out: Vec<Vec<char>> = Vec::new();
    push_text(&mut out, "rg_count_digest");
    push_row(&mut out, field_line("count_lines_total: ", n));
    push_row(&mut out, field_line("matches_total_from_counts: ", total));
    push_row(&mut out, shown_line("count_lines: ", min_usize(n, SUMMARY_LIMIT), omitted));
    push_fallback(&mut out, omitted > 0, "max_lines");
    push_rows_or_status(&mut out, &rows, SUMMARY_LIMIT, "status: no_counts");
    assert(views(out@) =~= seq![
        "rg_count_digest"@,
        field("count_lines_total: "@, n as nat),
        field("matches_total_from_counts: "@, count_total(views(rows@))),
        shown("count_lines: "@, min_nat(n as nat, 80), omitted as nat),
    ] + fallback(omitted > 0, "max_lines"@) + rows_or_status(views(rows@), 80, "status: no_counts"@));
    joined_lines(&out)
}

// ------------------------------------------------------------ numstat

/// Added lines, deleted lines and binary files over numstat rows.
pub open spec fn numstat_totals(rows: Seq<Seq<char>>) -> (nat, nat, nat)
    decreases rows.len(),
{
    if rows.len() == 0 {
        (0, 0, 0)
    } else {
        let t = numstat_totals(rows.drop_last());
        let w = words(rows.last());
        if w.len() >= 2 {
            if w[0] == "-"@ && w[1] == "-"@ {
                (t.0, t.1, t.2 + 1)
            } else {
                (t.0 + parsed_or_zero(w[0]), t.1 + parsed_or_zero(w[1]), t.2)
            }
        } else {
            t
        }
    }
}

pub open spec fn numstat_rows(b: Seq<char>) -> Seq<Seq<char>> {
    kept_rows(RowKind::Paths, output_lines(b))
}

/// Whether the added and deleted totals fit in `usize`.
pub open spec fn numstat_fits(rows: Seq<Seq<char>>) -> bool {
    numstat_totals(rows).0 <= usize::MAX && numstat_totals(rows).1 <= usize::MAX
}

pub open spec fn spec_git_numstat_compact(b: Seq<char>) -> Seq<char> {
    let rows = numstat_rows(b);
    let n = rows.len();
    let omitted = sat_sub(n, 80);
    let t = numstat_totals(rows);
    join(
        seq![
            "git_numstat_compact"@,
            field("files_total: "@, n),
            field("added_lines: "@, t.0),
            field("deleted_lines: "@, t.1),
            field("binary_files: "@, t.2),
            shown("files: "@, min_nat(n, 80), omitted),
        ] + fallback(omitted > 0, "max_paths"@) + rows_or_status(rows, 80, "status: no_numstat"@),
        "\n"@,
    )
}

proof fn lemma_numstat_prefix(rows: Seq<Seq<char>>, i: int)
    requires
        0 <= i <= rows.len(),
    ensures
        numstat_totals(rows.take(i)).0 <= numstat_totals(rows).0,
        numstat_totals(rows.take(i)).1 <= numstat_totals(rows).1,
        numstat_totals(rows.take(i)).2 <= i,
    decreases rows.len() - i,
{
    lemma_numstat_binary_bound(rows.take(i));
    if i < rows.len() {
        lemma_numstat_prefix(rows, i + 1);
        assert(rows.take(i + 1).drop_last() =~= rows.take(i));
    } else {
        assert(rows.take(i) =~= rows);
    }
}

proof fn lemma_numstat_binary_bound(rows: Seq<Seq<char>>)
    ensures
        numstat_totals(rows).2 <= rows.len(),
    decreases rows.len(),
{
    if rows.len() > 0 {
        lemma_numstat_binary_bound(rows.drop_last());
    }
}

/// Whether the added and deleted totals of the rows fit in `usize`.
pub fn numstat_totals_fit(rows: &[Vec<char>]) -> (r: bool)
    ensures
        r == numstat_fits(views(rows@)),
{
    let ghost rv = views(rows@);
    let mut added: usize = 0;
    let mut deleted: usize = 0;
    for i in 0..rows.len()
        invariant
            rv == views(rows@),
            added as nat == numstat_totals(rv.take(i as int)).0,
            deleted as nat == numstat_totals(rv.take(i as int)).1,
    {
        assert(rv.take(i + 1).drop_last() =~= rv.take(i as int));
        assert(rv[i as int] == rows@[i as int]@);
        let w = words_of(&rows[i]);
        assert(views(w@) =~= w@.map_values(|p: Vec<char>| p@));
        if w.len() >= 2 {
            assert(views(w@)[0] == w@[0]@ && views(w@)[1] == w@[1]@);
            if !(eq_str(&w[0], "-") && eq_str(&w[1], "-")) {
                let a = match crate::text::parse_usize_exec(&w[0]) {
                    Some(v) => v,
                    None => 0,
                };
                let d = match crate::text::parse_usize_exec(&w[1]) {
                    Some(v) => v,
                    None => 0,
                };
                if added > usize::MAX - a || deleted > usize::MAX - d {
                    proof {
                        lemma_numstat_prefix(rv, i + 1);
                    }
                    return false;
                }
                added = added + a;
                deleted = deleted + d;
            }
        }
    }
    assert(rv.take(rows.len() as int) =~= rv);
    true
}

pub fn render_git_numstat_compact(b: &str) -> (r: String)
    requires
        numstat_fits(numstat_rows(b@)),
    ensures
        r@ == spec_git_numstat_compact(b@),
{
    let ls = output_lines_of(b);
    let rows = keep_rows(RowKind::Paths, &ls);
    let n = rows.len();
    let omitted = sat_sub_usize(n, SUMMARY_LIMIT);
    let ghost rv = views(rows@);
    let mut added: usize = 0;
    let mut deleted: usize = 0;
    let mut binary: usize = 0;
    for i in 0..rows.len()
        invariant
            rv == views(rows@),
            numstat_fits(rv),
            added as nat == numstat_totals(rv.take(i as int)).0,
            deleted as nat == numstat_totals(rv.take(i as int)).1,
            binary as nat == numstat_totals(rv.take(i as int)).2,
            binary <= i,
    {
        assert(rv.take(i + 1).drop_last() =~= rv.take(i as int));
        assert(rv[i as int] == rows@[i as int]@);
        proof {
            lemma_numstat_prefix(rv, i + 1);
        }
        let w = words_of(&rows[i]);
        assert(views(w@) =~= w@.map_values(|p: Vec<char>| p@));
        if w.len() >= 2 {
            assert(views(w@)[0] == w@[0]@ && views(w@)[1] == w@[1]@);
            if eq_str(&w[0], "-") && eq_str(&w[1], "-") {
                binary += 1;
            } else {
                let a = match crate::text::parse_usize_exec(&w[0]) {
                    Some(v) => v,
                    None => 0,
                };
                let d = match crate::text::parse_usize_exec(&w[1]) {
                    Some(v) => v,
                    None => 0,
                };
                added = added + a;
                deleted = deleted + d;
            }
        }
    }
    assert(rv.take(n as int) =~= rv);
    let mut out: Vec<Vec<char>> = Vec::new();
    push_text(&mut out, "git_numstat_compact");
    push_row(&mut out, field_line("files_total: ", n));
    push_row(&mut out, field_line("added_lines: ", added));
    push_row(&mut out, field_line("deleted_lines: ", deleted));
    push_row(&mut out, field_line("binary_files: ", binary));
    push_row(&mut out, shown_line("files: ", min_usize(n, SUMMARY_LIMIT), omitted));
    push_fallback(&mut out, omitted > 0, "max_paths");
    push_rows_or_status(&mut out, &rows, SUMMARY_LIMIT, "status: no_numstat");
    let ghost t = numstat_totals(rv);
    assert(views(out@) =~= seq![
        "git_numstat_compact"@,
        field("files_total: "@, n as nat),
        field("added_lines: "@, t.0),
        field("deleted_lines: "@, t.1),
        field("binary_files: "@, t.2),
        shown("files: "@, min_nat(n as nat, 80), omitted as nat),
    ] + fallback(omitted > 0, "max_paths"@) + rows_or_status(rv, 80, "status: no_numstat"@));
    joined_lines(&out)
}

// ------------------------------------------------------------ rg --json

/// What the `rg --json` digest gathers from the lines read so far.
pub struct RgJsonTally {
    pub matches: nat,
    pub contexts: nat,
    pub summaries: nat,
    pub errors: nat,
    pub paths: Seq<Seq<char>>,
    pub samples: Seq<Seq<char>>,
}

pub open spec fn opt_dec(v: Option<u64>) -> Seq<char> {
    match v {
        Some(n) => dec(n as nat),
        None => "?"@,
    }
}

/// `path:line: submatches=n` for one match event.
pub open spec fn rg_sample(path: Seq<char>, v: RgJsonLineView) -> Seq<char> {
    path + ":"@ + opt_dec(v.line_number) + ": submatches="@ + dec(
        match v.submatches {
            Some(k) => k as nat,
            None => 0,
        },
    )
}

pub open spec fn rg_match_path(v: RgJsonLineView) -> Seq<char> {
    match v.path_text {
        Some(p) => p,
        None => "(unknown)"@,
    }
}

/// The parse results of the non-blank lines, in order.
pub open spec fn parsed_rg_lines(ls: Seq<Seq<char>>) -> Seq<Option<RgJsonLineView>>
    decreases ls.len(),
{
    if ls.len() == 0 {
        Seq::<Option<RgJsonLineView>>::empty()
    } else {
        let p = parsed_rg_lines(ls.drop_last());
        if trim(ls.last()).len() == 0 {
            p
        } else {
            p.push(rg_json_fields(ls.last()))
        }
    }
}

/// Counts the events of the parsed lines (a line that does not parse is a
/// parse error), keeping the paths of the match events and a sample line for
/// each of the first ones.
pub open spec fn rg_json_tally(ps: Seq<Option<RgJsonLineView>>) -> RgJsonTally
    decreases ps.len(),
{
    if ps.len() == 0 {
        RgJsonTally {
            matches: 0,
            contexts: 0,
            summaries: 0,
            errors: 0,
            paths: Seq::<Seq<char>>::empty(),
            samples: Seq::<Seq<char>>::empty(),
        }
    } else {
        let t = rg_json_tally(ps.drop_last());
        match ps.last() {
            None => RgJsonTally { errors: t.errors + 1, ..t },
            Some(v) => if v.event_type == Some("match"@) {
                let path = rg_match_path(v);
                RgJsonTally {
                    matches: t.matches + 1,
                    paths: t.paths.push(path),
                    samples: if t.samples.len() < 40 {
                        t.samples.push(rg_sample(path, v))
                    } else {
                        t.samples
                    },
                    ..t
                }
            } else if v.event_type == Some("context"@) {
                RgJsonTally { contexts: t.contexts + 1, ..t }
            } else if v.event_type == Some("summary"@) {
                RgJsonTally { summaries: t.summaries + 1, ..t }
            } else {
                t
            },
        }
    }
}

pub open spec fn rg_tally_bounded(t: RgJsonTally, n: nat) -> bool {
    t.matches + t.contexts + t.summaries + t.errors <= n && t.samples.len() <= t.matches
        && t.samples.len() <= 40 && t.paths.len() == t.matches
}

proof fn lemma_rg_json_tally_bound(ps: Seq<Option<RgJsonLineView>>)
    ensures
        rg_tally_bounded(rg_json_tally(ps), ps.len()),
    decreases ps.len(),
{
    if ps.len() > 0 {
        lemma_rg_json_tally_bound(ps.drop_last());
    }
}

pub open spec fn parsed_views(ps: Seq<Option<RgJsonLine>>) -> Seq<Option<RgJsonLineView>> {
    ps.map_values(
        |o: Option<RgJsonLine>|
            match o {
                Some(v) => Some(v@),
                None => None,
            },
    )
}

/// The digest of `rg --json` output from the parse results of its non-blank
/// lines.
pub open spec fn spec_rg_json_digest_parsed(ps: Seq<Option<RgJsonLineView>>) -> Seq<char> {
    let t = rg_json_tally(ps);
    join(
        seq![
            "rg_json_digest"@,
            field("match_events: "@, t.matches),
            field("context_events: "@, t.contexts),
            field("summary_events: "@, t.summaries),
            field("parse_errors: "@, t.errors),
        ] + counts_section("paths: "@, tally(t.paths)) + seq![
            shown("samples: "@, t.samples.len(), sat_sub(t.matches, t.samples.len())),
        ] + fallback(
            true,
            if t.errors > 0 {
                "json_parse_error"@
            } else {
                "lossy_rg_json"@
            },
        ) + if t.samples.len() == 0 {
            seq!["status: no_match_samples"@]
        } else {
            t.samples
        },
        "\n"@,
    )
}

/// The digest of `rg --json` output.
pub open spec fn spec_rg_json_digest(b: Seq<char>) -> Seq<char> {
    spec_rg_json_digest_parsed(parsed_rg_lines(output_lines(b)))
}

fn is_event(v: &Option<String>, kind: &str) -> (r: bool)
    ensures
        r == (opt_view(*v) == Some(kind@)),
{
    match v {
        Some(s) => {
            let c = chars_of(s.as_str());
            eq_str(&c, kind)
        },
        None => false,
    }
}

/// The digest of `rg --json` output: each non-blank line is parsed, then
/// the events are counted from the parse results.
pub fn render_rg_json_digest(b: &str) -> (r: String)
    ensures
        r@ == spec_rg_json_digest(b@),
{
    let ls = output_lines_of(b);
    let ghost lv = views(ls@);
    let mut parsed: Vec<Option<RgJsonLine>> = Vec::new();
    for i in 0..ls.len()
        invariant
            lv == views(ls@),
            parsed_views(parsed@) == parsed_rg_lines(lv.take(i as int)),
    {
        assert(lv.take(i + 1).drop_last() =~= lv.take(i as int));
        assert(lv[i as int] == ls@[i as int]@);
        let line = &ls[i];
        if trim_chars(line).len() > 0 {
            let text = string_of(line);
            let p = crate::json_fields::parse_rg_json_line(text.as_str());
            let ghost before = parsed@;
            parsed.push(p);
            assert(parsed_views(parsed@) =~= parsed_views(before).push(
                match p {
                    Some(v) => Some(v@),
                    None => None,
                },
            ));
        }
    }
    assert(lv.take(ls.len() as int) =~= lv);
    render_rg_json_digest_parsed(&parsed)
}

/// The digest of `rg --json` output from the parse results of its non-blank
/// lines, in order (`None` for a line that is not JSON).
pub fn render_rg_json_digest_parsed(parsed: &[Option<RgJsonLine>]) -> (r: String)
    ensures
        r@ == spec_rg_json_digest_parsed(parsed_views(parsed@)),
{
    let ghost pv = parsed_views(parsed@);
    let mut matches: usize = 0;
    let mut contexts: usize = 0;
    let mut summaries: usize = 0;
    let mut errors: usize = 0;
    let mut paths: Vec<Vec<char>> = Vec::new();
    let mut samples: Vec<Vec<char>> = Vec::new();
    for i in 0..parsed.len()
        invariant
            pv == parsed_views(parsed@),
            ({
                let t = rg_json_tally(pv.take(i as int));
                &&& matches as nat == t.matches
                &&& contexts as nat == t.contexts
                &&& summaries as nat == t.summaries
                &&& errors as nat == t.errors
                &&& views(paths@) == t.paths
                &&& views(samples@) == t.samples
                &&& rg_tally_bounded(t, i as nat)
            }),
    {
        assert(pv.take(i + 1).drop_last() =~= pv.take(i as int));
        proof {
            lemma_rg_json_tally_bound(pv.take(i + 1));
        }
        {
            match &parsed[i] {
                None => {
                    errors += 1;
                },
                Some(v) => {
                    if is_event(&v.event_type, "match") {
                        matches += 1;
                        let path = match &v.path_text {
                            Some(p) => chars_of(p.as_str()),
                            None => chars_of("(unknown)"),
                        };
                        if samples.len() < DIAGNOSTIC_LIMIT {
                            let mut sample = clone_chars(&path);
                            append_str(&mut sample, ":");
                            match v.line_number {
                                Some(n) => crate::text::push_dec_u64(&mut sample, n),
                                None => append_str(&mut sample, "?"),
                            }
                            append_str(&mut sample, ": submatches=");
                            let k = match v.submatches {
                                Some(k) => k,
                                None => 0,
                            };
                            push_dec(&mut sample, k);
                            push_row(&mut samples, sample);
                        }
                        push_row(&mut paths, path);
                    } else if is_event(&v.event_type, "context") {
                        contexts += 1;
                    } else if is_event(&v.event_type, "summary") {
                        summaries += 1;
                    }
                },
            }
        }
    }
    assert(pv.take(parsed.len() as int) =~= pv);
    let counts = tally_of(&paths);
    let mut out: Vec<Vec<char>> = Vec::new();
    push_text(&mut out, "rg_json_digest");
    push_row(&mut out, field_line("match_events: ", matches));
    push_row(&mut out, field_line("context_events: ", contexts));
    push_row(&mut out, field_line("summary_events: ", summaries));
    push_row(&mut out, field_line("parse_errors: ", errors));
    push_counts(&mut out, "paths: ", &counts);
    push_row(&mut out, shown_line("samples: ", samples.len(), sat_sub_usize(matches, samples.len())));
    let reason = if errors > 0 {
        "json_parse_error"
    } else {
        "lossy_rg_json"
    };
    push_fallback(&mut out, true, reason);
    if samples.len() == 0 {
        push_text(&mut out, "status: no_match_samples");
    } else {
        let k = samples.len();
        push_rows(&mut out, &samples, k);
        assert(views(samples@).take(k as int) =~= views(samples@));
    }
    let ghost t = rg_json_tally(pv);
    assert(views(out@) =~= seq![
        "rg_json_digest"@,
        field("match_events: "@, t.matches),
        field("context_events: "@, t.contexts),
        field("summary_events: "@, t.summaries),
        field("parse_errors: "@, t.errors),
    ] + counts_section("paths: "@, tally(t.paths)) + seq![
        shown("samples: "@, t.samples.len(), sat_sub(t.matches, t.samples.len())),
    ] + fallback(true, reason@) + if t.samples.len() == 0 {
        seq!["status: no_match_samples"@]
    } else {
        t.samples
    });
    joined_lines(&out)
}

// ------------------------------------------------------------ process tables

pub open spec fn process_needles() -> Seq<Seq<char>> {
    seq!["codex"@, "cargo"@, "rustc"@, "link"@, "powershell"@, "pwsh"@]
}

/// Whether a row names a process of interest to a coding session.
pub open spec fn spec_process_row_is_interesting(row: Seq<char>) -> bool {
    exists|j: int| 0 <= j < process_needles().len() && contains(lower(row), #[trigger] process_needles()[j])
}

fn process_row_is_interesting(row: &[char]) -> (r: bool)
    ensures
        r == spec_process_row_is_interesting(row@),
{
    let l = lowercase(row);
    let needles: [&str; 6] = ["codex", "cargo", "rustc", "link", "powershell", "pwsh"];
    let ghost nv = process_needles();
    assert(forall|j: int| 0 <= j < 6 ==> nv[j] == (#[trigger] needles@[j])@);
    for k in 0..needles.len()
        invariant
            needles.len() == 6,
            nv == process_needles(),
            l@ == lower(row@),
            forall|j: int| 0 <= j < 6 ==> nv[j] == (#[trigger] needles@[j])@,
            forall|j: int| 0 <= j < k ==> !contains(l@, #[trigger] nv[j]),
    {
        if contains_str(&l, needles[k]) {
            assert(contains(lower(row@), process_needles()[k as int]));
            return true;
        }
    }
    false
}

/// The interesting rows, in order.
pub open spec fn interesting_rows(rows: Seq<Seq<char>>) -> Seq<Seq<char>>
    decreases rows.len(),
{
    if rows.len() == 0 {
        Seq::<Seq<char>>::empty()
    } else if spec_process_row_is_interesting(rows.last()) {
        interesting_rows(rows.drop_last()).push(rows.last())
    } else {
        interesting_rows(rows.drop_last())
    }
}

/// The rows in order, each kept at its first occurrence only.
pub open spec fn first_occurrences(rows: Seq<Seq<char>>) -> Seq<Seq<char>>
    decreases rows.len(),
{
    if rows.len() == 0 {
        Seq::<Seq<char>>::empty()
    } else {
        let r = first_occurrences(rows.drop_last());
        if r.contains(rows.last()) {
            r
        } else {
            r.push(rows.last())
        }
    }
}

/// The first rows, then the interesting ones, without repeats.
pub open spec fn spec_select_process_rows(rows: Seq<Seq<char>>) -> Seq<Seq<char>> {
    first_occurrences(rows.take(min_nat(rows.len(), 8) as int) + interesting_rows(rows))
}

pub open spec fn is_header_row(t: Seq<char>) -> bool {
    starts_with(t, "Name"@) || starts_with(t, "Image Name"@) || starts_with(t, "Handles"@)
}

/// The process names: the first word of each row that is not a header.
pub open spec fn process_names(rows: Seq<Seq<char>>) -> Seq<Seq<char>>
    decreases rows.len(),
{
    if rows.len() == 0 {
        Seq::<Seq<char>>::empty()
    } else {
        let r = process_names(rows.drop_last());
        let t = trim_start(rows.last());
        if !is_header_row(t) && words(t).len() > 0 {
            r.push(words(t)[0])
        } else {
            r
        }
    }
}

pub open spec fn process_rows(b: Seq<char>) -> Seq<Seq<char>> {
    kept_rows(RowKind::Processes, output_lines(b))
}

pub open spec fn spec_process_table_compact(b: Seq<char>) -> Seq<char> {
    let rows = process_rows(b);
    let selected = spec_select_process_rows(rows);
    let omitted = sat_sub(rows.len(), selected.len());
    join(
        seq!["process_table_compact"@, field("rows_total: "@, rows.len())] + counts_section(
            "process_names: "@,
            tally(process_names(rows)),
        ) + seq![shown("rows: "@, selected.len(), omitted)] + fallback(
            true,
            if omitted > 0 {
                "max_processes"@
            } else {
                "lossy_process_table"@
            },
        ) + if rows.len() == 0 {
            seq!["status: no_process_rows"@]
        } else {
            selected
        },
        "\n"@,
    )
}

fn contains_row(rows: &Vec<Vec<char>>, row: &[char]) -> (r: bool)
    ensures
        r == views(rows@).contains(row@),
{
    for i in 0..rows.len()
        invariant
            forall|j: int| 0 <= j < i ==> views(rows@)[j] != row@,
    {
        if chars_eq(&rows[i], row) {
            assert(views(rows@)[i as int] == row@);
            return true;
        }
    }
    false
}

fn select_process_rows(rows: &[Vec<char>]) -> (r: Vec<Vec<char>>)
    ensures
        views(r@) == spec_select_process_rows(views(rows@)),
{
    let ghost rv = views(rows@);
    let mut candidates: Vec<Vec<char>> = Vec::new();
    let top = min_usize(rows.len(), PROCESS_TOP_ROWS);
    push_rows(&mut candidates, rows, top);
    let ghost head = views(candidates@);
    for i in 0..rows.len()
        invariant
            rv == views(rows@),
            head == rv.take(min_nat(rv.len(), 8) as int),
            views(candidates@) == head + interesting_rows(rv.take(i as int)),
    {
        assert(rv.take(i + 1).drop_last() =~= rv.take(i as int));
        assert(rv[i as int] == rows@[i as int]@);
        if process_row_is_interesting(&rows[i]) {
            push_row(&mut candidates, clone_chars(&rows[i]));
        }
    }
    assert(rv.take(rows.len() as int) =~= rv);
    let ghost cv = views(candidates@);
    let mut selected: Vec<Vec<char>> = Vec::new();
    for i in 0..candidates.len()
        invariant
            cv == views(candidates@),
            views(selected@) == first_occurrences(cv.take(i as int)),
    {
        assert(cv.take(i + 1).drop_last() =~= cv.take(i as int));
        assert(cv[i as int] == candidates@[i as int]@);
        if !contains_row(&selected, &candidates[i]) {
            push_row(&mut selected, clone_chars(&candidates[i]));
        }
    }
    assert(cv.take(candidates.len() as int) =~= cv);
    selected
}

pub fn render_process_table_compact(b: &str) -> (r: String)
    ensures
        r@ == spec_process_table_compact(b@),
{
    let ls = output_lines_of(b);
    let rows = keep_rows(RowKind::Processes, &ls);
    let ghost rv = views(rows@);
    let mut names: Vec<Vec<char>> = Vec::new();
    for i in 0..rows.len()
        invariant
            rv == views(rows@),
            views(names@) == process_names(rv.take(i as int)),
    {
        assert(rv.take(i + 1).drop_last() =~= rv.take(i as int));
        assert(rv[i as int] == rows@[i as int]@);
        let t = trim_start_chars(&rows[i]);
        if !(starts_with_str(&t, "Name") || starts_with_str(&t, "Image Name") || starts_with_str(
            &t,
            "Handles",
        )) {
            let w = words_of(&t);
            assert(views(w@) =~= w@.map_values(|p: Vec<char>| p@));
            if w.len() > 0 {
                assert(views(w@)[0] == w@[0]@);
                push_row(&mut names, clone_chars(&w[0]));
            }
        }
    }
    assert(rv.take(rows.len() as int) =~= rv);
    let counts = tally_of(&names);
    let selected = select_process_rows(&rows);
    let omitted = sat_sub_usize(rows.len(), selected.len());
    let mut out: Vec<Vec<char>> = Vec::new();
    push_text(&mut out, "process_table_compact");
    push_row(&mut out, field_line("rows_total: ", rows.len()));
    push_counts(&mut out, "process_names: ", &counts);
    push_row(&mut out, shown_line("rows: ", selected.len(), omitted));
    let reason = if omitted > 0 {
        "max_processes"
    } else {
        "lossy_process_table"
    };
    push_fallback(&mut out, true, reason);
    if rows.len() == 0 {
        push_text(&mut out, "status: no_process_rows");
    } else {
        let k = selected.len();
        push_rows(&mut out, &selected, k);
        assert(views(selected@).take(k as int) =~= views(selected@));
    }
    assert(views(out@) =~= seq!["process_table_compact"@, field("rows_total: "@, rv.len())]
        + counts_section("process_names: "@, tally(process_names(rv))) + seq![
        shown("rows: "@, views(selected@).len(), omitted as nat),
    ] + fallback(true, reason@) + if rv.len() == 0 {
        seq!["status: no_process_rows"@]
    } else {
        views(selected@)
    });
    joined_lines(&out)
}

// ------------------------------------------------------------ the sums that must fit

/// Whether the counts of an `rg --count` output add up within `usize`.
pub fn rg_count_digest_fits(b: &str) -> (r: bool)
    ensures
        r == (count_total(rg_count_rows(b@)) <= usize::MAX),
{
    let ls = output_lines_of(b);
    let rows = keep_rows(RowKind::Counts, &ls);
    rg_count_total_fits(&rows).is_some()
}

/// Whether the added and deleted totals of a numstat output fit in `usize`.
pub fn numstat_digest_fits(b: &str) -> (r: bool)
    ensures
        r == numstat_fits(numstat_rows(b@)),
{
    let ls = output_lines_of(b);
    let rows = keep_rows(RowKind::Paths, &ls);
    numstat_totals_fit(&rows)
}

} // verus!
