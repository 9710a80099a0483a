use vstd::prelude::*;
use vstd::string::StringSliceAdditionalSpecFns;
use vstd::utf8::encode_utf8;

use crate::output::{read_output, seed_output, seed_view, Output, OutputView};
use crate::row::{csv_record, csv_row, format_millis, millis_text};

verus! {

/// One side effect for the caller to perform on behalf of the library.
#[derive(Clone, Debug, PartialEq)]
pub enum SinkAction {
    /// Nothing to do.
    Skip,
    /// Emit one structured log event at info level with this UTF-8 message.
    Log(Vec<u8>),
    /// Create or truncate the file at `path` and write `contents` into it.
    Create { path: String, contents: Vec<u8> },
    /// Open the file at `path` for appending (never creating it) and write
    /// `contents`; if it cannot be opened, do nothing.
    Append { path: String, contents: Vec<u8> },
}

/// The mathematical model of a [`SinkAction`].
pub enum ActionView {
    Skip,
    Log(Seq<u8>),
    Create(Seq<char>, Seq<u8>),
    Append(Seq<char>, Seq<u8>),
}

impl View for SinkAction {
    type V = ActionView;

    open spec fn view(&self) -> ActionView {
        match self {
            SinkAction::Skip => ActionView::Skip,
            SinkAction::Log(message) => ActionView::Log(message@),
            SinkAction::Create { path, contents } => ActionView::Create(path@, contents@),
            SinkAction::Append { path, contents } => ActionView::Append(path@, contents@),
        }
    }
}

/// The header row of a timing CSV file: `function,duration_ms`.
pub open spec fn header_row() -> Seq<u8> {
    csv_row(encode_utf8("function"@), encode_utf8("duration_ms"@))
}

/// The data row of one measurement: the label, then the duration in
/// milliseconds with three fractional digits.
pub open spec fn data_row(label: Seq<u8>, us: nat) -> Seq<u8> {
    csv_row(label, millis_text(us))
}

/// The message of the log event for one measurement.
pub open spec fn log_message(label: Seq<u8>, us: nat) -> Seq<u8> {
    label + encode_utf8(" executed in "@) + millis_text(us) + encode_utf8(" ms"@)
}

/// What selecting a destination asks for: a CSV file is created with its
/// header before any measurement is recorded; other destinations need nothing.
pub open spec fn select_action(d: OutputView) -> ActionView {
    match d {
        OutputView::Csv(path) => ActionView::Create(path, header_row()),
        _ => ActionView::Skip,
    }
}

/// What one measurement asks for under the destination `current`.
pub open spec fn record_action(current: OutputView, label: Seq<u8>, us: nat) -> ActionView {
    match current {
        OutputView::Off => ActionView::Skip,
        OutputView::Tracing => ActionView::Log(log_message(label, us)),
        OutputView::Csv(path) => ActionView::Append(path, data_row(label, us)),
    }
}

/// The files, by path, after an action has been performed on them. A log
/// event touches no file; an append to a missing file is skipped.
pub open spec fn apply_action(files: Map<Seq<char>, Seq<u8>>, a: ActionView) -> Map<
    Seq<char>,
    Seq<u8>,
> {
    match a {
        ActionView::Create(path, contents) => files.insert(path, contents),
        ActionView::Append(path, contents) => if files.contains_key(path) {
            files.insert(path, files[path] + contents)
        } else {
            files
        },
        _ => files,
    }
}

/// The configuration store: holds the one active output destination.
pub struct OutputStore {
    current: Output,
}

impl View for OutputStore {
    type V = OutputView;

    closed spec fn view(&self) -> OutputView {
        self.current@
    }
}

/// The action that installing `output` asks for.
fn selection(output: &Output) -> (a: SinkAction)
    ensures
        a@ == select_action(output@),
{
    match output {
        Output::CSV(path) => SinkAction::Create {
            path: path.clone(),
            contents: csv_record("function".as_bytes(), "duration_ms".as_bytes()),
        },
        _ => SinkAction::Skip,
    }
}

impl OutputStore {
    /// A store whose destination is `initial`, and the action that
    /// selecting it asks for.
    pub fn new(initial: Output) -> (r: (OutputStore, SinkAction))
        ensures
            r.0@ == initial@,
            r.1@ == select_action(initial@),
    {
        let a = selection(&initial);
        (OutputStore { current: initial }, a)
    }

    /// A store seeded from the value of the environment variable (`None`
    /// when it is unset), and the action that selecting it asks for.
    pub fn from_seed(seed: Option<&str>) -> (r: (OutputStore, SinkAction))
        ensures
            r.0@ == seed_output(seed_view(seed)),
            r.1@ == select_action(r.0@),
    {
        OutputStore::new(read_output(seed))
    }
}

/// The active output destination.
pub fn get_output(store: &OutputStore) -> (r: Output)
    ensures
        r@ == store@,
{
    store.current.snapshot()
}

/// Installs `output` as the active destination. For a CSV file the returned
/// action creates the file with its header; it is to be performed before
/// any measurement under the new destination.
pub fn set_output(store: &mut OutputStore, output: Output) -> (a: SinkAction)
    ensures
        final(store)@ == output@,
        a@ == select_action(output@),
{
    let a = selection(&output);
    store.current = output;
    a
}

/// Installs the destination that the seed selects (`None` when the
/// environment variable is unset), exactly as [`set_output`] would.
pub fn refresh_from_env(store: &mut OutputStore, seed: Option<&str>) -> (a: SinkAction)
    ensures
        final(store)@ == seed_output(seed_view(seed)),
        a@ == select_action(final(store)@),
{
    set_output(store, read_output(seed))
}

/// The action for one measurement of `function_name`, which took
/// `duration_us` microseconds, under the active destination.
pub fn record_timing(store: &OutputStore, function_name: &str, duration_us: u64) -> (a: SinkAction)
    ensures
        a@ == record_action(store@, function_name.spec_bytes(), duration_us as nat),
{
    match &store.current {
        Output::Off => SinkAction::Skip,
        Output::Tracing => {
            let mut message: Vec<u8> = Vec::new();
            message.extend_from_slice(function_name.as_bytes());
            message.extend_from_slice(" executed in ".as_bytes());
            let millis = format_millis(duration_us);
            message.extend_from_slice(millis.as_slice());
            message.extend_from_slice(" ms".as_bytes());
            assert(message@ =~= log_message(function_name.spec_bytes(), duration_us as nat));
            SinkAction::Log(message)
        },
        Output::CSV(path) => {
            let millis = format_millis(duration_us);
            SinkAction::Append {
                path: path.clone(),
                contents: csv_record(function_name.as_bytes(), millis.as_slice()),
            }
        },
    }
}

} // verus!
