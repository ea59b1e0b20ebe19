//! What the status probe hands back, and how it is read.
//!
//! The probe script answers with a JSON array of three elements: whether the
//! runtime has exited, its exit status, and the console lines buffered since
//! the previous probe. Anything else is a fault.

use vstd::prelude::*;

verus! {

/// A JSON value as the remote session delivers it. Numbers keep the
/// distinction between signed, unsigned and fractional; the payload of
/// fractions and objects is of no interest here and is not kept.
#[derive(Debug, PartialEq, Eq)]
pub enum ProbeValue {
    /// `null`.
    Null,
    /// `true` or `false`.
    Boolean(bool),
    /// An integer that was read as signed.
    Signed(i64),
    /// An integer that was read as unsigned.
    Unsigned(u64),
    /// A number with a fraction or an exponent.
    Fraction,
    /// A string.
    Text(String),
    /// An array.
    List(Vec<ProbeValue>),
    /// An object.
    Object,
}

/// The ways in which an answer can miss the expected shape.
#[derive(Debug, Clone, Copy, PartialEq, Eq, Structural)]
pub enum ProbeError {
    /// The answer is not an array.
    NotAnArray,
    /// The array is empty.
    NoExitFlag,
    /// The array stops after the exit flag.
    NoStatus,
    /// The array stops after the status.
    NoLogs,
    /// The array goes on after the logs.
    Surplus,
    /// The first element is not a boolean.
    ExitFlagNotBoolean,
    /// The second element is not an integer that fits in 64 signed bits.
    StatusNotInteger,
    /// The third element is not an array.
    LogsNotArray,
    /// The log entry at `index` is the first that is not a string.
    LogLineNotText { index: usize },
}

impl ProbeError {
    /// What the operator is told of the fault.
    pub open spec fn text(self) -> Seq<char> {
        match self {
            ProbeError::NotAnArray => "failed to get web server status"@,
            ProbeError::NoExitFlag => "no runtime exit status found"@,
            ProbeError::NoStatus => "no exit status found"@,
            ProbeError::NoLogs => "no test log stream found"@,
            ProbeError::Surplus => "more than a test log stream found"@,
            ProbeError::ExitFlagNotBoolean => "runtime exit status is not boolean"@,
            ProbeError::StatusNotInteger => "failed to get exit status"@,
            ProbeError::LogsNotArray => "test log stream is not array"@,
            ProbeError::LogLineNotText { .. } => "test log line is not string"@,
        }
    }

    /// Computes [`Self::text`].
    pub fn message(&self) -> (message: &'static str)
        ensures
            message@ == self.text(),
    {
        match self {
            ProbeError::NotAnArray => "failed to get web server status",
            ProbeError::NoExitFlag => "no runtime exit status found",
            ProbeError::NoStatus => "no exit status found",
            ProbeError::NoLogs => "no test log stream found",
            ProbeError::Surplus => "more than a test log stream found",
            ProbeError::ExitFlagNotBoolean => "runtime exit status is not boolean",
            ProbeError::StatusNotInteger => "failed to get exit status",
            ProbeError::LogsNotArray => "test log stream is not array",
            ProbeError::LogLineNotText { .. } => "test log line is not string",
        }
    }
}

/// One well-shaped answer of the probe.
#[derive(Debug, Clone, PartialEq, Eq)]
pub struct ProbeReport {
    /// Whether the runtime has exited.
    pub exited: bool,
    /// The exit status that the page reports.
    pub status: i64,
    /// The console lines buffered since the previous probe, oldest first.
    pub lines: Vec<String>,
}

/// The mathematical content of a [`ProbeReport`].
pub struct ReportView {
    pub exited: bool,
    pub status: int,
    pub lines: Seq<Seq<char>>,
}

impl View for ProbeReport {
    type V = ReportView;

    open spec fn view(&self) -> ReportView {
        ReportView {
            exited: self.exited,
            status: self.status as int,
            lines: self.lines.deep_view(),
        }
    }
}

impl ProbeValue {
    /// The number as a signed 64-bit integer, where it is one: a signed
    /// number as it is, an unsigned one below `i64::MAX`.
    pub open spec fn integer(self) -> Option<i64> {
        match self {
            ProbeValue::Signed(n) => Some(n),
            ProbeValue::Unsigned(n) => if n < i64::MAX {
                Some(n as i64)
            } else {
                None
            },
            _ => None,
        }
    }

    /// Computes [`Self::integer`].
    pub fn as_integer(&self) -> (n: Option<i64>)
        ensures
            n == self.integer(),
    {
        match self {
            ProbeValue::Signed(n) => Some(*n),
            ProbeValue::Unsigned(n) => if *n < i64::MAX as u64 {
                Some(*n as i64)
            } else {
                None
            },
            _ => None,
        }
    }
}

/// The characters of each entry, for entries that are strings.
pub open spec fn texts(entries: Seq<ProbeValue>) -> Seq<Seq<char>> {
    Seq::new(entries.len(), |i: int| entries[i]->Text_0@)
}

/// Every entry is a string.
pub open spec fn all_text(entries: Seq<ProbeValue>) -> bool {
    forall|i: int| 0 <= i < entries.len() ==> entries[i] is Text
}

/// The answer has the expected shape: an array of exactly a boolean, an
/// integer and an array of strings.
pub open spec fn well_shaped(value: ProbeValue) -> bool {
    &&& value matches ProbeValue::List(items)
    &&& items@.len() == 3
    &&& items@[0] is Boolean
    &&& items@[1].integer() is Some
    &&& items@[2] matches ProbeValue::List(entries)
    &&& all_text(entries@)
}

/// What a well-shaped answer reports.
pub open spec fn report_of(value: ProbeValue) -> ReportView
    recommends
        well_shaped(value),
{
    let items = value->List_0@;
    ReportView {
        exited: items[0]->Boolean_0,
        status: items[1].integer()->0 as int,
        lines: texts(items[2]->List_0@),
    }
}

/// `error` names the first point at which `value` leaves the expected
/// shape, reading the array from the left.
pub open spec fn fault_of(value: ProbeValue, error: ProbeError) -> bool {
    match error {
        ProbeError::NotAnArray => !(value is List),
        ProbeError::NoExitFlag => value is List && value->List_0@.len() == 0,
        ProbeError::NoStatus => value is List && value->List_0@.len() == 1,
        ProbeError::NoLogs => value is List && value->List_0@.len() == 2,
        ProbeError::Surplus => value is List && value->List_0@.len() > 3,
        ProbeError::ExitFlagNotBoolean => {
            &&& value is List
            &&& value->List_0@.len() == 3
            &&& !(value->List_0@[0] is Boolean)
        },
        ProbeError::StatusNotInteger => {
            &&& value is List
            &&& value->List_0@.len() == 3
            &&& value->List_0@[0] is Boolean
            &&& value->List_0@[1].integer() is None
        },
        ProbeError::LogsNotArray => {
            &&& value is List
            &&& value->List_0@.len() == 3
            &&& value->List_0@[0] is Boolean
            &&& value->List_0@[1].integer() is Some
            &&& !(value->List_0@[2] is List)
        },
        ProbeError::LogLineNotText { index } => {
            &&& value is List
            &&& value->List_0@.len() == 3
            &&& value->List_0@[0] is Boolean
            &&& value->List_0@[1].integer() is Some
            &&& value->List_0@[2] matches ProbeValue::List(entries)
            &&& index < entries@.len()
            &&& !(entries@[index as int] is Text)
            &&& all_text(entries@.take(index as int))
        },
    }
}

/// A value that has a fault is not well shaped, and has no other fault.
pub proof fn lemma_fault_is_unique(value: ProbeValue, first: ProbeError, second: ProbeError)
    requires
        fault_of(value, first),
        fault_of(value, second),
    ensures
        !well_shaped(value),
        first == second,
{
    if first is LogLineNotText && second is LogLineNotText {
        let entries = value->List_0@[2]->List_0@;
        let i = first->index as int;
        let j = second->index as int;
        if i < j {
            assert(entries.take(j)[i] is Text);
        }
        if j < i {
            assert(entries.take(i)[j] is Text);
        }
    }
}

/// Among entries that are not all strings there is a first that is none.
proof fn lemma_first_stranger(entries: Seq<ProbeValue>) -> (index: int)
    requires
        !all_text(entries),
    ensures
        0 <= index < entries.len(),
        !(entries[index] is Text),
        all_text(entries.take(index)),
    decreases entries.len(),
{
    let some = choose|i: int| 0 <= i < entries.len() && !(entries[i] is Text);
    let before = entries.take(some);
    if all_text(before) {
        some
    } else {
        let index = lemma_first_stranger(before);
        assert(before.take(index) =~= entries.take(index));
        index
    }
}

/// A value that is not well shaped has a fault, and [`fault`] names it.
pub proof fn lemma_ill_shaped_has_fault(value: ProbeValue)
    requires
        !well_shaped(value),
    ensures
        fault_of(value, fault(value)),
{
    if !(value is List) {
        assert(fault_of(value, ProbeError::NotAnArray));
    } else {
        let items = value->List_0@;
        if items.len() == 0 {
            assert(fault_of(value, ProbeError::NoExitFlag));
        } else if items.len() == 1 {
            assert(fault_of(value, ProbeError::NoStatus));
        } else if items.len() == 2 {
            assert(fault_of(value, ProbeError::NoLogs));
        } else if items.len() > 3 {
            assert(fault_of(value, ProbeError::Surplus));
        } else if !(items[0] is Boolean) {
            assert(fault_of(value, ProbeError::ExitFlagNotBoolean));
        } else if items[1].integer() is None {
            assert(fault_of(value, ProbeError::StatusNotInteger));
        } else if !(items[2] is List) {
            assert(fault_of(value, ProbeError::LogsNotArray));
        } else {
            let logs = items[2]->List_0;
            let index = lemma_first_stranger(logs@);
            broadcast use vstd::std_specs::vec::axiom_spec_len;
            assert(logs@.len() == logs.len());
            assert(fault_of(value, ProbeError::LogLineNotText { index: index as usize }));
        }
    }
}

/// The fault of a value that is not well shaped.
pub open spec fn fault(value: ProbeValue) -> ProbeError
    recommends
        !well_shaped(value),
{
    choose|error: ProbeError| fault_of(value, error)
}

/// Copies the lines out of the log entries, up to the first entry that is
/// not a string.
fn read_lines(entries: &Vec<ProbeValue>) -> (r: Result<Vec<String>, usize>)
    ensures
        match r {
            Ok(lines) => all_text(entries@) && lines.deep_view() == texts(entries@),
            Err(index) => {
                &&& index < entries@.len()
                &&& !(entries@[index as int] is Text)
                &&& all_text(entries@.take(index as int))
            },
        },
{
    let mut lines: Vec<String> = Vec::new();
    let mut i: usize = 0;
    while i < entries.len()
        invariant
            i <= entries@.len(),
            lines@.len() == i,
            forall|j: int| 0 <= j < i ==> entries@[j] is Text,
            forall|j: int| 0 <= j < i ==> (#[trigger] lines@[j])@ == entries@[j]->Text_0@,
        decreases entries@.len() - i,
    {
        match &entries[i] {
            ProbeValue::Text(line) => {
                lines.push(line.clone());
            },
            _ => {
                return Err(i);
            },
        }
        i += 1;
    }
    assert(lines.deep_view() =~= texts(entries@));
    Ok(lines)
}

/// Reads one answer, naming the first fault of one that is not well shaped.
fn read_value(value: &ProbeValue) -> (r: Result<ProbeReport, ProbeError>)
    ensures
        r is Ok <==> well_shaped(*value),
        match r {
            Ok(report) => report@ == report_of(*value),
            Err(error) => fault_of(*value, error),
        },
{
    let items = match value {
        ProbeValue::List(items) => items,
        _ => {
            return Err(ProbeError::NotAnArray);
        },
    };
    if items.len() == 0 {
        return Err(ProbeError::NoExitFlag);
    }
    if items.len() == 1 {
        return Err(ProbeError::NoStatus);
    }
    if items.len() == 2 {
        return Err(ProbeError::NoLogs);
    }
    if items.len() > 3 {
        return Err(ProbeError::Surplus);
    }
    let exited: bool = match &items[0] {
        ProbeValue::Boolean(flag) => *flag,
        _ => {
            return Err(ProbeError::ExitFlagNotBoolean);
        },
    };
    let status: i64 = match items[1].as_integer() {
        Some(n) => n,
        None => {
            return Err(ProbeError::StatusNotInteger);
        },
    };
    let entries = match &items[2] {
        ProbeValue::List(entries) => entries,
        _ => {
            return Err(ProbeError::LogsNotArray);
        },
    };
    match read_lines(entries) {
        Ok(lines) => Ok(ProbeReport { exited, status, lines }),
        Err(index) => {
            assert(!(entries@[index as int] is Text));
            Err(ProbeError::LogLineNotText { index })
        },
    }
}

/// Reads one answer of the probe.
///
/// Succeeds exactly on well-shaped answers, with what they report; on any
/// other answer names its fault.
pub fn decode(value: &ProbeValue) -> (r: Result<ProbeReport, ProbeError>)
    ensures
        r is Ok <==> well_shaped(*value),
        match r {
            Ok(report) => report@ == report_of(*value),
            Err(error) => fault_of(*value, error) && error == fault(*value),
        },
{
    let r = read_value(value);
    proof {
        if let Err(error) = r {
            lemma_fault_is_unique(*value, error, fault(*value));
        }
    }
    r
}

} // verus!
