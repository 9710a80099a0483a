use vstd::prelude::*;
use vstd::utf8::{encode_utf8, is_ascii_chars_encode_utf8};

use crate::output::OutputView;
use crate::row::{csv_field, decimal, double_quotes, is_digit, is_fixed3, is_special, millis_text, needs_quotes};
use crate::store::{apply_action, data_row, header_row, record_action, select_action, ActionView};

verus! {

/// The bytes `function,duration_ms` followed by a line feed.
pub open spec fn header_text() -> Seq<u8> {
    seq![
        102u8, 117, 110, 99, 116, 105, 111, 110, 44,
        100, 117, 114, 97, 116, 105, 111, 110, 95, 109, 115, 10,
    ]
}

/// The number of line feeds in `s`.
pub open spec fn line_count(s: Seq<u8>) -> nat
    decreases s.len(),
{
    if s.len() == 0 {
        0
    } else {
        line_count(s.drop_last()) + if s.last() == 10 {
            1nat
        } else {
            0nat
        }
    }
}

/// The files after each measurement in turn has been recorded under the
/// fixed destination `current`.
pub open spec fn record_all(
    files: Map<Seq<char>, Seq<u8>>,
    current: OutputView,
    labels: Seq<Seq<u8>>,
    durations: Seq<nat>,
) -> Map<Seq<char>, Seq<u8>>
    decreases labels.len(),
{
    if labels.len() == 0 || durations.len() == 0 {
        files
    } else {
        apply_action(
            record_all(files, current, labels.drop_last(), durations.drop_last()),
            record_action(current, labels.last(), durations.last()),
        )
    }
}

/// The data rows of the measurements, in order.
pub open spec fn rows(labels: Seq<Seq<u8>>, durations: Seq<nat>) -> Seq<u8>
    decreases labels.len(),
{
    if labels.len() == 0 || durations.len() == 0 {
        Seq::empty()
    } else {
        rows(labels.drop_last(), durations.drop_last()) + data_row(labels.last(), durations.last())
    }
}

proof fn lemma_line_count_concat(a: Seq<u8>, b: Seq<u8>)
    ensures
        line_count(a + b) == line_count(a) + line_count(b),
    decreases b.len(),
{
    if b.len() == 0 {
        assert(a + b =~= a);
    } else {
        assert((a + b).drop_last() =~= a + b.drop_last());
        lemma_line_count_concat(a, b.drop_last());
    }
}

proof fn lemma_line_count_zero(s: Seq<u8>)
    requires
        forall|i: int| 0 <= i < s.len() ==> #[trigger] s[i] != 10,
    ensures
        line_count(s) == 0,
    decreases s.len(),
{
    if s.len() > 0 {
        lemma_line_count_zero(s.drop_last());
    }
}

proof fn lemma_double_quotes_keeps_out(f: Seq<u8>, x: u8)
    requires
        x != 34,
        forall|i: int| 0 <= i < f.len() ==> #[trigger] f[i] != x,
    ensures
        forall|i: int| 0 <= i < double_quotes(f).len() ==> #[trigger] double_quotes(f)[i] != x,
    decreases f.len(),
{
    if f.len() > 0 {
        let g = f.drop_last();
        assert forall|i: int| 0 <= i < g.len() implies #[trigger] g[i] != x by {
            assert(g[i] == f[i]);
        }
        lemma_double_quotes_keeps_out(g, x);
        let r = double_quotes(g);
        assert forall|i: int| 0 <= i < double_quotes(f).len() implies #[trigger] double_quotes(f)[i]
            != x by {
            if i < r.len() {
                assert(double_quotes(f)[i] == r[i]);
            }
        }
    }
}

proof fn lemma_field_keeps_out(f: Seq<u8>, x: u8)
    requires
        x != 34,
        forall|i: int| 0 <= i < f.len() ==> #[trigger] f[i] != x,
    ensures
        forall|i: int| 0 <= i < csv_field(f).len() ==> #[trigger] csv_field(f)[i] != x,
{
    if needs_quotes(f) {
        lemma_double_quotes_keeps_out(f, x);
        let q = double_quotes(f);
        assert forall|i: int| 0 <= i < csv_field(f).len() implies #[trigger] csv_field(f)[i] != x by {
            if 1 <= i < 1 + q.len() {
                assert(csv_field(f)[i] == q[i - 1]);
            }
        }
    }
}

proof fn lemma_decimal_digits(n: nat)
    ensures
        decimal(n).len() >= 1,
        forall|i: int| 0 <= i < decimal(n).len() ==> is_digit(#[trigger] decimal(n)[i]),
    decreases n,
{
    if n >= 10 {
        lemma_decimal_digits(n / 10);
    }
}

proof fn lemma_millis_shape(us: nat)
    ensures
        is_fixed3(millis_text(us)),
        !needs_quotes(millis_text(us)),
        line_count(millis_text(us)) == 0,
{
    lemma_decimal_digits(us / 1000);
    let t = millis_text(us);
    let d = decimal(us / 1000);
    assert forall|i: int| 0 <= i < t.len() && i != t.len() - 4 implies is_digit(#[trigger] t[i]) by {
        if i < d.len() {
            assert(t[i] == d[i]);
        }
    }
    assert forall|i: int| 0 <= i < t.len() implies !is_special(#[trigger] t[i]) by {
        if i < d.len() {
            assert(t[i] == d[i]);
        }
    }
    assert forall|i: int| 0 <= i < t.len() implies #[trigger] t[i] != 10 by {
        if i < d.len() {
            assert(t[i] == d[i]);
        }
    }
    lemma_line_count_zero(t);
}

proof fn lemma_data_row(label: Seq<u8>, us: nat)
    requires
        forall|i: int| 0 <= i < label.len() ==> #[trigger] label[i] != 10,
    ensures
        data_row(label, us) == csv_field(label) + seq![44u8] + millis_text(us) + seq![10u8],
        line_count(data_row(label, us)) == 1,
        data_row(label, us).last() == 10,
{
    lemma_millis_shape(us);
    lemma_field_keeps_out(label, 10);
    let f = csv_field(label);
    lemma_line_count_zero(f);
    lemma_line_count_concat(f, seq![44u8]);
    lemma_line_count_concat(f + seq![44u8], millis_text(us));
    lemma_line_count_concat(f + seq![44u8] + millis_text(us), seq![10u8]);
    lemma_line_count_zero(seq![44u8]);
    assert(line_count(seq![10u8]) == 1) by {
        assert(seq![10u8].drop_last() =~= Seq::<u8>::empty());
        assert(line_count(Seq::<u8>::empty()) == 0);
        assert(seq![10u8].last() == 10);
    }
}

proof fn lemma_header_text()
    ensures
        header_row() == header_text(),
{
    reveal_strlit("function");
    reveal_strlit("duration_ms");
    is_ascii_chars_encode_utf8("function"@);
    is_ascii_chars_encode_utf8("duration_ms"@);
    let f = encode_utf8("function"@);
    let d = encode_utf8("duration_ms"@);
    assert(f =~= seq![102u8, 117, 110, 99, 116, 105, 111, 110]);
    assert(d =~= seq![100u8, 117, 114, 97, 116, 105, 111, 110, 95, 109, 115]);
    assert(!needs_quotes(f));
    assert(!needs_quotes(d));
    assert(header_row() =~= header_text());
}

/// Selecting a CSV file creates it holding exactly the header row
/// `function,duration_ms`, before any measurement is recorded.
pub proof fn law_selecting_csv_writes_header(files: Map<Seq<char>, Seq<u8>>, path: Seq<char>)
    ensures
        apply_action(files, select_action(OutputView::Csv(path))).contains_key(path),
        apply_action(files, select_action(OutputView::Csv(path)))[path] == header_text(),
        line_count(header_text()) == 1,
{
    lemma_header_text();
    let h = header_text();
    assert(h.drop_last().len() == 20);
    assert forall|i: int| 0 <= i < h.drop_last().len() implies #[trigger] h.drop_last()[i] != 10 by {}
    lemma_line_count_zero(h.drop_last());
}

/// While output is disabled, a measurement asks for nothing: no file
/// changes and no log event is emitted.
pub proof fn law_disabled_records_nothing(files: Map<Seq<char>, Seq<u8>>, label: Seq<u8>, us: nat)
    ensures
        record_action(OutputView::Off, label, us) == ActionView::Skip,
        apply_action(files, record_action(OutputView::Off, label, us)) == files,
{
}

/// Recording N measurements under a fixed CSV file, right after selecting
/// it, leaves the file holding the header and then one data row per
/// measurement, in order: N + 1 lines, each ending in a line feed, and in
/// each data row the duration is a non-negative number with exactly three
/// fractional digits. Labels that hold a line feed are left out: such a
/// label spans two lines once quoted.
pub proof fn law_csv_rows_accumulate(
    files: Map<Seq<char>, Seq<u8>>,
    path: Seq<char>,
    labels: Seq<Seq<u8>>,
    durations: Seq<nat>,
)
    requires
        labels.len() == durations.len(),
        forall|k: int, i: int|
            0 <= k < labels.len() && 0 <= i < labels[k].len() ==> #[trigger] labels[k][i] != 10,
    ensures
        record_all(
            apply_action(files, select_action(OutputView::Csv(path))),
            OutputView::Csv(path),
            labels,
            durations,
        ).contains_key(path),
        record_all(
            apply_action(files, select_action(OutputView::Csv(path))),
            OutputView::Csv(path),
            labels,
            durations,
        )[path] == header_text() + rows(labels, durations),
        line_count(header_text() + rows(labels, durations)) == labels.len() + 1,
        (header_text() + rows(labels, durations)).last() == 10,
        forall|k: int|
            0 <= k < labels.len() ==> data_row(#[trigger] labels[k], durations[k]) == csv_field(
                labels[k],
            ) + seq![44u8] + millis_text(durations[k]) + seq![10u8] && is_fixed3(
                millis_text(durations[k]),
            ),
    decreases labels.len(),
{
    law_selecting_csv_writes_header(files, path);
    assert forall|k: int| 0 <= k < labels.len() implies data_row(#[trigger] labels[k], durations[k])
        == csv_field(labels[k]) + seq![44u8] + millis_text(durations[k]) + seq![10u8] && is_fixed3(
        millis_text(durations[k]),
    ) by {
        assert forall|i: int| 0 <= i < labels[k].len() implies #[trigger] labels[k][i] != 10 by {}
        lemma_data_row(labels[k], durations[k]);
        lemma_millis_shape(durations[k]);
    }
    if labels.len() > 0 {
        let ls = labels.drop_last();
        let ds = durations.drop_last();
        assert forall|k: int, i: int| 0 <= k < ls.len() && 0 <= i < ls[k].len() implies #[trigger] ls[k][i]
            != 10 by {
            assert(ls[k] == labels[k]);
        }
        law_csv_rows_accumulate(files, path, ls, ds);
        let last = labels.last();
        assert forall|i: int| 0 <= i < last.len() implies #[trigger] last[i] != 10 by {
            assert(last == labels[labels.len() - 1]);
        }
        lemma_data_row(last, durations.last());
        let row = data_row(last, durations.last());
        let before = header_text() + rows(ls, ds);
        assert(header_text() + rows(labels, durations) =~= before + row);
        lemma_line_count_concat(before, row);
    } else {
        assert(header_text() + rows(labels, durations) =~= header_text());
    }
}

/// A measurement changes no file but the active CSV file: rows recorded
/// under one destination never land in another file.
pub proof fn law_records_touch_only_active_file(
    files: Map<Seq<char>, Seq<u8>>,
    current: OutputView,
    label: Seq<u8>,
    us: nat,
    other: Seq<char>,
)
    requires
        current != OutputView::Csv(other),
    ensures
        apply_action(files, record_action(current, label, us)).contains_key(other)
            == files.contains_key(other),
        files.contains_key(other) ==> apply_action(files, record_action(current, label, us))[other]
            == files[other],
{
}

/// Selecting a destination changes no file but the selected CSV file.
pub proof fn law_selecting_touches_only_selected_file(
    files: Map<Seq<char>, Seq<u8>>,
    d: OutputView,
    other: Seq<char>,
)
    requires
        d != OutputView::Csv(other),
    ensures
        apply_action(files, select_action(d)).contains_key(other) == files.contains_key(other),
        files.contains_key(other) ==> apply_action(files, select_action(d))[other] == files[other],
{
}

} // verus!
