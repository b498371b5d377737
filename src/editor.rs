use crate::symbols::{found_address, Symbol, SymbolTable};
use vstd::prelude::*;

verus! {

/// A call into the host's line editor.
#[derive(Debug)]
pub enum HostCall {
    /// A key-bound command `fn(count, key) -> int` at address `func`.
    Command { func: usize, count: isize, key: isize },
    /// The text insertion function at `func`; `text` ends in a zero byte.
    Insert { func: usize, text: Vec<u8> },
}

/// The first of the four editing functions that has no address yet.
pub open spec fn edit_blocker(t: Map<Symbol, crate::symbols::Resolution>) -> Option<Symbol> {
    if found_address(t, Symbol::EndOfLine) is None {
        Some(Symbol::EndOfLine)
    } else if found_address(t, Symbol::UnixLineDiscard) is None {
        Some(Symbol::UnixLineDiscard)
    } else if found_address(t, Symbol::RefreshLine) is None {
        Some(Symbol::RefreshLine)
    } else if found_address(t, Symbol::InsertText) is None {
        Some(Symbol::InsertText)
    } else {
        None
    }
}

pub open spec fn command(func: usize) -> HostCall {
    HostCall::Command { func, count: 0, key: 0 }
}

/// The calls that replace the current line by `text`, in order: move to the
/// end of the line, discard it, redisplay, insert.
pub open spec fn is_edit_plan(t: Map<Symbol, crate::symbols::Resolution>, calls: Seq<HostCall>, text: Seq<u8>) -> bool {
    &&& calls.len() == 4
    &&& calls[0] == command(found_address(t, Symbol::EndOfLine)->Some_0)
    &&& calls[1] == command(found_address(t, Symbol::UnixLineDiscard)->Some_0)
    &&& calls[2] == command(found_address(t, Symbol::RefreshLine)->Some_0)
    &&& calls[3] matches HostCall::Insert { func, text: x }
        && func == found_address(t, Symbol::InsertText)->Some_0 && x@ == text
}

/// The first editing function that is not available, if any.
pub fn edit_blocker_of(table: &SymbolTable) -> (r: Option<Symbol>)
    requires
        table.wf(),
    ensures
        r == edit_blocker(table@),
{
    if table.address(Symbol::EndOfLine).is_none() {
        Some(Symbol::EndOfLine)
    } else if table.address(Symbol::UnixLineDiscard).is_none() {
        Some(Symbol::UnixLineDiscard)
    } else if table.address(Symbol::RefreshLine).is_none() {
        Some(Symbol::RefreshLine)
    } else if table.address(Symbol::InsertText).is_none() {
        Some(Symbol::InsertText)
    } else {
        None
    }
}

/// Plans the replacement of the current line by `buf`. Every function is
/// checked before the plan is made, so a line is never cleared without the
/// insertion that follows; the error names the first one missing.
pub fn set_text(table: &SymbolTable, buf: Vec<u8>) -> (r: Result<Vec<HostCall>, Symbol>)
    requires
        table.wf(),
    ensures
        match edit_blocker(table@) {
            Some(s) => r == Err::<Vec<HostCall>, Symbol>(s),
            None => r matches Ok(calls) && is_edit_plan(table@, calls@, buf@),
        },
{
    match edit_blocker_of(table) {
        Some(s) => Err(s),
        None => {
            let end = table.address(Symbol::EndOfLine).unwrap();
            let discard = table.address(Symbol::UnixLineDiscard).unwrap();
            let refresh = table.address(Symbol::RefreshLine).unwrap();
            let insert = table.address(Symbol::InsertText).unwrap();
            let mut calls: Vec<HostCall> = Vec::new();
            calls.push(HostCall::Command { func: end, count: 0, key: 0 });
            calls.push(HostCall::Command { func: discard, count: 0, key: 0 });
            calls.push(HostCall::Command { func: refresh, count: 0, key: 0 });
            calls.push(HostCall::Insert { func: insert, text: buf });
            Ok(calls)
        },
    }
}

/// Plans a redisplay of the current line, unchanged.
pub fn refresh_line(table: &SymbolTable) -> (r: Result<Vec<HostCall>, Symbol>)
    requires
        table.wf(),
    ensures
        match found_address(table@, Symbol::RefreshLine) {
            Some(f) => r matches Ok(calls) && calls@ == seq![command(f)],
            None => r == Err::<Vec<HostCall>, Symbol>(Symbol::RefreshLine),
        },
{
    match table.address(Symbol::RefreshLine) {
        Some(f) => {
            let mut calls: Vec<HostCall> = Vec::new();
            calls.push(HostCall::Command { func: f, count: 0, key: 0 });
            proof {
                assert(calls@ =~= seq![command(f)]);
            }
            Ok(calls)
        },
        None => Err(Symbol::RefreshLine),
    }
}

/// The address of the host function that returns the history array.
pub fn get_history(table: &SymbolTable) -> (r: Result<usize, Symbol>)
    requires
        table.wf(),
    ensures
        match found_address(table@, Symbol::HistoryList) {
            Some(f) => r == Ok::<usize, Symbol>(f),
            None => r == Err::<usize, Symbol>(Symbol::HistoryList),
        },
{
    match table.address(Symbol::HistoryList) {
        Some(f) => Ok(f),
        None => Err(Symbol::HistoryList),
    }
}

} // verus!
