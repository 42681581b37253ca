//! One line of the process list, and the list as a whole.

use vstd::prelude::*;
use vstd::string::*;
use crate::text::{Separator, fields, filled_lines, split_runs};

verus! {

/// Number of fields that a line of the process list has at least.
pub const MIN_FIELDS: usize = 12;

/// The name shown for a process whose line gives none.
pub const NO_NAME: &'static str = "N/A";

/// What the process list says of one process.
pub struct ProcessInfo {
    pub pid: String,
    pub ppid: String,
    pub ruid: String,
    pub rgid: String,
    pub rns: String,
    pub euid: String,
    pub egid: String,
    pub ens: String,
    pub stat: String,
    pub cpu: String,
    pub mem: String,
    pub name: String,
}

/// A `ProcessInfo` as a plain value.
pub struct ProcessInfoView {
    pub pid: Seq<char>,
    pub ppid: Seq<char>,
    pub ruid: Seq<char>,
    pub rgid: Seq<char>,
    pub rns: Seq<char>,
    pub euid: Seq<char>,
    pub egid: Seq<char>,
    pub ens: Seq<char>,
    pub stat: Seq<char>,
    pub cpu: Seq<char>,
    pub mem: Seq<char>,
    pub name: Seq<char>,
}

impl View for ProcessInfo {
    type V = ProcessInfoView;

    open spec fn view(&self) -> ProcessInfoView {
        ProcessInfoView {
            pid: self.pid@,
            ppid: self.ppid@,
            ruid: self.ruid@,
            rgid: self.rgid@,
            rns: self.rns@,
            euid: self.euid@,
            egid: self.egid@,
            ens: self.ens@,
            stat: self.stat@,
            cpu: self.cpu@,
            mem: self.mem@,
            name: self.name@,
        }
    }
}

/// Whether `line` has the fields that a process line needs.
pub open spec fn is_process_line(line: Seq<char>) -> bool {
    fields(line).len() >= MIN_FIELDS
}

/// The process that a line with the fields `parts` describes. The first ten
/// fields are taken as they are. The memory column is the eleventh field, a
/// space and the twelfth. The name is the thirteenth field where there is
/// one.
pub open spec fn process_from_fields(parts: Seq<Seq<char>>) -> ProcessInfoView {
    ProcessInfoView {
        pid: parts[0],
        ppid: parts[1],
        ruid: parts[2],
        rgid: parts[3],
        rns: parts[4],
        euid: parts[5],
        egid: parts[6],
        ens: parts[7],
        stat: parts[8],
        cpu: parts[9],
        mem: parts[10] + " "@ + parts[11],
        name: if parts.len() > 12 {
            parts[12]
        } else {
            NO_NAME@
        },
    }
}

fn from_fields(parts: &Vec<String>) -> (info: ProcessInfo)
    requires
        parts.len() >= MIN_FIELDS,
    ensures
        info@ == process_from_fields(parts.deep_view()),
{
    let mut mem = parts[10].clone();
    mem.append(" ");
    mem.append(parts[11].as_str());
    let name = if parts.len() > 12 {
        parts[12].clone()
    } else {
        String::from_str(NO_NAME)
    };
    ProcessInfo {
        pid: parts[0].clone(),
        ppid: parts[1].clone(),
        ruid: parts[2].clone(),
        rgid: parts[3].clone(),
        rns: parts[4].clone(),
        euid: parts[5].clone(),
        egid: parts[6].clone(),
        ens: parts[7].clone(),
        stat: parts[8].clone(),
        cpu: parts[9].clone(),
        mem,
        name,
    }
}

/// Reads one line of the process list.
pub fn get_process_info(line: String) -> (info: ProcessInfo)
    requires
        is_process_line(line@),
    ensures
        info@ == process_from_fields(fields(line@)),
{
    let parts = split_runs(line.as_str(), Separator::Whitespace);
    from_fields(&parts)
}

/// Reads one line of the process list, if it has the fields for it.
pub fn parse_process_info(line: &str) -> (parsed: Option<ProcessInfo>)
    ensures
        match parsed {
            Some(info) => is_process_line(line@) && info@ == process_from_fields(fields(line@)),
            None => !is_process_line(line@),
        },
{
    let parts = split_runs(line, Separator::Whitespace);
    if parts.len() >= MIN_FIELDS {
        Some(from_fields(&parts))
    } else {
        None
    }
}

/// The lines of the process list that describe a process: its filled lines
/// but the first, which holds the column titles.
pub open spec fn process_lines(text: Seq<char>) -> Seq<Seq<char>> {
    if filled_lines(text).len() == 0 {
        Seq::empty()
    } else {
        filled_lines(text).skip(1)
    }
}

/// Whether every process line of `text` has the fields it needs.
pub open spec fn is_process_list(text: Seq<char>) -> bool {
    forall|i: int|
        0 <= i < process_lines(text).len() ==> is_process_line(#[trigger] process_lines(text)[i])
}

/// The processes in `list` as plain values.
pub open spec fn process_views(list: Seq<ProcessInfo>) -> Seq<ProcessInfoView> {
    Seq::new(list.len(), |i: int| list[i]@)
}

/// The processes that `text` describes, one for each process line, in the
/// order of the lines.
pub open spec fn processes_of(text: Seq<char>) -> Seq<ProcessInfoView> {
    Seq::new(
        process_lines(text).len(),
        |i: int| process_from_fields(fields(process_lines(text)[i])),
    )
}

/// Reads the process list, if every process line has the fields it needs.
pub fn parse_processes(text: &str) -> (parsed: Option<Vec<ProcessInfo>>)
    ensures
        match parsed {
            Some(list) => is_process_list(text@) && list@.len() == process_lines(text@).len()
                && process_views(list@) == processes_of(text@),
            None => !is_process_list(text@),
        },
{
    let lines = split_runs(text, Separator::LineFeed);
    let mut list: Vec<ProcessInfo> = Vec::new();
    let mut i: usize = 1;
    while i < lines.len()
        invariant
            1 <= i,
            lines.deep_view() == filled_lines(text@),
            i <= lines.len() ==> list@.len() == i - 1,
            i > lines.len() ==> lines.len() == 0 && list@.len() == 0,
            forall|k: int|
                0 <= k < list@.len() ==> is_process_line(#[trigger] process_lines(text@)[k])
                    && list@[k]@ == process_from_fields(fields(process_lines(text@)[k])),
        decreases lines.len() - i,
    {
        assert(process_lines(text@)[i - 1] == lines.deep_view()[i as int]);
        match parse_process_info(lines[i].as_str()) {
            Some(info) => {
                list.push(info);
            },
            None => {
                return None;
            },
        }
        i = i + 1;
    }
    Some(list)
}

/// Reads the process list.
pub fn get_processes(text: &str) -> (list: Vec<ProcessInfo>)
    requires
        is_process_list(text@),
    ensures
        list@.len() == process_lines(text@).len(),
        process_views(list@) == processes_of(text@),
{
    match parse_processes(text) {
        Some(list) => list,
        None => Vec::new(),
    }
}

} // verus!
