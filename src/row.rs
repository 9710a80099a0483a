use vstd::prelude::*;

verus! {

/// A byte that forces a CSV field into quotes: `,` `"` `\n` `\r`.
pub open spec fn is_special(b: u8) -> bool {
    b == 44 || b == 34 || b == 10 || b == 13
}

pub open spec fn needs_quotes(f: Seq<u8>) -> bool {
    exists|i: int| 0 <= i < f.len() && is_special(#[trigger] f[i])
}

/// The field with each `"` written twice.
pub open spec fn double_quotes(f: Seq<u8>) -> Seq<u8>
    decreases f.len(),
{
    if f.len() == 0 {
        Seq::empty()
    } else {
        let rest = double_quotes(f.drop_last());
        if f.last() == 34 {
            rest + seq![34u8, 34u8]
        } else {
            rest.push(f.last())
        }
    }
}

/// A field as written into a CSV row: verbatim, or in quotes where it holds
/// a special byte.
pub open spec fn csv_field(f: Seq<u8>) -> Seq<u8> {
    if needs_quotes(f) {
        seq![34u8] + double_quotes(f) + seq![34u8]
    } else {
        f
    }
}

/// A two-field CSV row: the fields, a comma between them, and a line feed.
pub open spec fn csv_row(first: Seq<u8>, second: Seq<u8>) -> Seq<u8> {
    csv_field(first) + seq![44u8] + csv_field(second) + seq![10u8]
}

/// Relies on `csv::Writer::write_record` and `csv::Writer::into_inner`, with the
/// writer's defaults: comma delimiter, `\n` terminator, a field quoted only
/// where it holds a comma, a quote or a line break, and quotes doubled inside.
/// Writing into a `Vec` cannot fail, and one record has no earlier record
/// whose length it could disagree with.
#[verifier::external_body]
fn encode_row(first: &[u8], second: &[u8]) -> (r: Vec<u8>)
    ensures
        r@ == csv_row(first@, second@),
{
    let mut wtr = csv::Writer::from_writer(Vec::new());
    let _ = wtr.write_record([first, second]);
    wtr.into_inner().unwrap_or_default()
}

/// Encodes one CSV row of two fields.
pub fn csv_record(first: &[u8], second: &[u8]) -> (r: Vec<u8>)
    ensures
        r@ == csv_row(first@, second@),
{
    encode_row(first, second)
}

pub open spec fn digit(d: nat) -> u8 {
    (48 + d) as u8
}

pub open spec fn is_digit(b: u8) -> bool {
    48 <= b <= 57
}

/// The decimal digits of `n`, most significant first, without leading zeros.
pub open spec fn decimal(n: nat) -> Seq<u8>
    decreases n,
{
    if n < 10 {
        seq![digit(n)]
    } else {
        decimal(n / 10).push(digit(n % 10))
    }
}

/// A duration given in microseconds, written in milliseconds with exactly
/// three fractional digits.
pub open spec fn millis_text(us: nat) -> Seq<u8> {
    let f = us % 1000;
    decimal(us / 1000) + seq![46u8, digit(f / 100), digit((f / 10) % 10), digit(f % 10)]
}

/// Text of the form `<digits>.<three digits>`: a non-negative number with
/// exactly three fractional digits.
pub open spec fn is_fixed3(t: Seq<u8>) -> bool {
    &&& t.len() >= 5
    &&& t[t.len() - 4] == 46
    &&& forall|i: int| 0 <= i < t.len() && i != t.len() - 4 ==> is_digit(#[trigger] t[i])
}

fn push_decimal(out: &mut Vec<u8>, n: u64)
    ensures
        final(out)@ == old(out)@ + decimal(n as nat),
    decreases n,
{
    if n >= 10 {
        push_decimal(out, n / 10);
    }
    out.push(48 + (n % 10) as u8);
    assert(final(out)@ =~= old(out)@ + decimal(n as nat));
}

/// Writes a duration given in microseconds as milliseconds with three
/// fractional digits (`1234567` gives `1234.567`).
pub fn format_millis(us: u64) -> (r: Vec<u8>)
    ensures
        r@ == millis_text(us as nat),
{
    let mut out: Vec<u8> = Vec::new();
    push_decimal(&mut out, us / 1000);
    let frac: u64 = us % 1000;
    out.push(46);
    out.push(48 + (frac / 100) as u8);
    out.push(48 + ((frac / 10) % 10) as u8);
    out.push(48 + (frac % 10) as u8);
    assert(out@ =~= millis_text(us as nat));
    out
}

} // verus!
