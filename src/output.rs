use vstd::prelude::*;
use vstd::string::StringSliceAdditionalSpecFns;
use vstd::utf8::encode_utf8;

verus! {

/// Name of the environment variable that seeds the output destination.
pub const TIMED_OUTPUT_ENV: &'static str = "TIMED_OUTPUT";

/// Where timing measurements are sent.
#[derive(Clone, Debug, PartialEq)]
pub enum Output {
    /// Timing output is disabled.
    Off,
    /// Each measurement becomes a structured log event.
    Tracing,
    /// Each measurement is appended as a row to the CSV file at this path.
    CSV(String),
}

/// The mathematical model of an [`Output`].
pub enum OutputView {
    Off,
    Tracing,
    Csv(Seq<char>),
}

impl View for Output {
    type V = OutputView;

    open spec fn view(&self) -> OutputView {
        match self {
            Output::Off => OutputView::Off,
            Output::Tracing => OutputView::Tracing,
            Output::CSV(path) => OutputView::Csv(path@),
        }
    }
}

impl Output {
    /// An equal, independent copy of this destination.
    pub fn snapshot(&self) -> (r: Output)
        ensures
            r@ == self@,
    {
        match self {
            Output::Off => Output::Off,
            Output::Tracing => Output::Tracing,
            Output::CSV(path) => Output::CSV(path.clone()),
        }
    }
}

/// The ASCII lower-case form of a byte; other bytes are unchanged.
pub open spec fn ascii_lower(b: u8) -> u8 {
    if 65 <= b <= 90 {
        (b + 32) as u8
    } else {
        b
    }
}

/// Two byte strings are equal once ASCII letters are folded to lower case.
pub open spec fn ascii_ci_eq(a: Seq<u8>, b: Seq<u8>) -> bool {
    &&& a.len() == b.len()
    &&& forall|i: int| 0 <= i < a.len() ==> ascii_lower(#[trigger] a[i]) == ascii_lower(b[i])
}

/// What a seed that has already been trimmed selects: "tracing" in any case
/// selects the structured log; the empty text and "off" in any case disable
/// output; any other text is a CSV file path, taken verbatim.
pub open spec fn trimmed_seed_output(t: Seq<char>) -> OutputView {
    if ascii_ci_eq(encode_utf8(t), encode_utf8("tracing"@)) {
        OutputView::Tracing
    } else if ascii_ci_eq(encode_utf8(t), encode_utf8("off"@)) || t.len() == 0 {
        OutputView::Off
    } else {
        OutputView::Csv(t)
    }
}

/// The text with leading and trailing white space removed, as `str::trim` does.
pub uninterp spec fn trimmed(s: Seq<char>) -> Seq<char>;

/// What a seed selects: an unset seed disables output, a set one is trimmed
/// of surrounding white space and then read as [`trimmed_seed_output`] says.
pub open spec fn seed_output(seed: Option<Seq<char>>) -> OutputView {
    match seed {
        None => OutputView::Off,
        Some(s) => trimmed_seed_output(trimmed(s)),
    }
}

/// Relies on `str::trim`: the slice without leading and trailing white space.
#[verifier::external_body]
fn trim_text(s: &str) -> (r: &str)
    ensures
        r@ == trimmed(s@),
{
    s.trim()
}

/// Compares two strings byte for byte, ignoring ASCII case.
pub fn eq_ignore_ascii_case(a: &str, b: &str) -> (r: bool)
    ensures
        r == ascii_ci_eq(a.spec_bytes(), b.spec_bytes()),
{
    let x = a.as_bytes();
    let y = b.as_bytes();
    if x.len() != y.len() {
        return false;
    }
    let mut i: usize = 0;
    while i < x.len()
        invariant
            x@ == a.spec_bytes(),
            y@ == b.spec_bytes(),
            x@.len() == y@.len(),
            i <= x@.len(),
            forall|j: int| 0 <= j < i ==> ascii_lower(#[trigger] x@[j]) == ascii_lower(y@[j]),
        decreases x@.len() - i,
    {
        let p = x[i];
        let q = y[i];
        let lp: u8 = if 65 <= p && p <= 90 { p + 32 } else { p };
        let lq: u8 = if 65 <= q && q <= 90 { q + 32 } else { q };
        if lp != lq {
            assert(ascii_lower(x@[i as int]) != ascii_lower(y@[i as int]));
            return false;
        }
        i = i + 1;
    }
    true
}

/// Reads a seed that has already been trimmed of white space.
pub fn output_from_trimmed(t: &str) -> (r: Output)
    ensures
        r@ == trimmed_seed_output(t@),
{
    if eq_ignore_ascii_case(t, "tracing") {
        Output::Tracing
    } else if eq_ignore_ascii_case(t, "off") || t.is_empty() {
        Output::Off
    } else {
        Output::CSV(t.to_owned())
    }
}

/// The model of a seed as handed over: `None` when it is unset.
pub open spec fn seed_view(seed: Option<&str>) -> Option<Seq<char>> {
    match seed {
        None => None,
        Some(s) => Some(s@),
    }
}

/// Reads the seed of the output destination (the value of
/// [`TIMED_OUTPUT_ENV`], `None` when it is unset).
pub fn read_output(seed: Option<&str>) -> (r: Output)
    ensures
        r@ == seed_output(seed_view(seed)),
{
    match seed {
        None => Output::Off,
        Some(s) => output_from_trimmed(trim_text(s)),
    }
}

} // verus!
