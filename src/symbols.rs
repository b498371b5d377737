use std::marker::PhantomData;
use vstd::prelude::*;

verus! {

/// The host functions and globals that the interception layer looks up at run time.
#[derive(Clone, Copy, PartialEq, Eq, Structural, Debug)]
pub enum Symbol {
    HistoryList,
    UnixLineDiscard,
    RefreshLine,
    EndOfLine,
    ReverseSearchHistory,
    ForwardSearchHistory,
    InsertText,
    ReadlineName,
}

pub const SYMBOL_COUNT: usize = 8;

pub open spec fn symbol_index(s: Symbol) -> int {
    match s {
        Symbol::HistoryList => 0,
        Symbol::UnixLineDiscard => 1,
        Symbol::RefreshLine => 2,
        Symbol::EndOfLine => 3,
        Symbol::ReverseSearchHistory => 4,
        Symbol::ForwardSearchHistory => 5,
        Symbol::InsertText => 6,
        Symbol::ReadlineName => 7,
    }
}

impl Symbol {
    /// Position of the symbol in a `SymbolTable`.
    pub fn index(&self) -> (r: usize)
        ensures
            r as int == symbol_index(*self),
            r < SYMBOL_COUNT,
    {
        match self {
            Symbol::HistoryList => 0,
            Symbol::UnixLineDiscard => 1,
            Symbol::RefreshLine => 2,
            Symbol::EndOfLine => 3,
            Symbol::ReverseSearchHistory => 4,
            Symbol::ForwardSearchHistory => 5,
            Symbol::InsertText => 6,
            Symbol::ReadlineName => 7,
        }
    }

    /// The name under which the host exports the symbol.
    pub fn name(&self) -> (r: &'static str)
        ensures
            r@ == symbol_name(*self),
    {
        match self {
            Symbol::HistoryList => "history_list",
            Symbol::UnixLineDiscard => "rl_unix_line_discard",
            Symbol::RefreshLine => "rl_refresh_line",
            Symbol::EndOfLine => "rl_end_of_line",
            Symbol::ReverseSearchHistory => "rl_reverse_search_history",
            Symbol::ForwardSearchHistory => "rl_forward_search_history",
            Symbol::InsertText => "rl_insert_text",
            Symbol::ReadlineName => "rl_readline_name",
        }
    }
}

pub open spec fn symbol_name(s: Symbol) -> Seq<char> {
    match s {
        Symbol::HistoryList => "history_list"@,
        Symbol::UnixLineDiscard => "rl_unix_line_discard"@,
        Symbol::RefreshLine => "rl_refresh_line"@,
        Symbol::EndOfLine => "rl_end_of_line"@,
        Symbol::ReverseSearchHistory => "rl_reverse_search_history"@,
        Symbol::ForwardSearchHistory => "rl_forward_search_history"@,
        Symbol::InsertText => "rl_insert_text"@,
        Symbol::ReadlineName => "rl_readline_name"@,
    }
}

/// A typed address in the host process: a function or a global of type `T`.
#[derive(Debug)]
pub struct Pointer<T>(pub usize, pub PhantomData<T>);

impl<T> Pointer<T> {
    pub fn new(addr: usize) -> (r: Pointer<T>)
        ensures
            r.0 == addr,
    {
        Pointer(addr, PhantomData)
    }

    /// The address the pointer holds.
    pub fn ptr(&self) -> (r: usize)
        ensures
            r == self.0,
    {
        self.0
    }
}

/// The outcome of resolving one symbol: its address, or a diagnostic.
#[derive(Debug)]
pub enum Resolution {
    Found(usize),
    Missing(String),
}

/// Process-wide memo of symbol resolutions; an entry, once made, never changes.
pub struct SymbolTable {
    slots: Vec<Option<Resolution>>,
}

impl SymbolTable {
    pub closed spec fn view(&self) -> Map<Symbol, Resolution> {
        Map::new(
            |s: Symbol| self.slots@[symbol_index(s)] is Some,
            |s: Symbol| self.slots@[symbol_index(s)]->Some_0,
        )
    }

    pub closed spec fn wf(&self) -> bool {
        self.slots@.len() == SYMBOL_COUNT
    }

    /// A table in which nothing has been resolved yet.
    pub fn new() -> (r: SymbolTable)
        ensures
            r.wf(),
            r@ == Map::<Symbol, Resolution>::empty(),
    {
        let mut slots: Vec<Option<Resolution>> = Vec::new();
        let mut i: usize = 0;
        while i < SYMBOL_COUNT
            invariant
                i <= SYMBOL_COUNT,
                slots@.len() == i,
                forall|j: int| 0 <= j < i ==> slots@[j] is None,
            decreases SYMBOL_COUNT - i,
        {
            slots.push(None);
            i = i + 1;
        }
        let r = SymbolTable { slots };
        assert(r@ =~= Map::<Symbol, Resolution>::empty());
        r
    }

    /// Whether a resolution of `sym` has already been recorded.
    pub fn contains(&self, sym: Symbol) -> (r: bool)
        requires
            self.wf(),
        ensures
            r == self@.contains_key(sym),
    {
        self.slots[sym.index()].is_some()
    }

    /// The recorded resolution of `sym`, if any.
    pub fn get(&self, sym: Symbol) -> (r: Option<&Resolution>)
        requires
            self.wf(),
        ensures
            r is None <==> !self@.contains_key(sym),
            r matches Some(x) ==> *x == self@[sym],
    {
        self.slots[sym.index()].as_ref()
    }

    /// The address of `sym` when it has been resolved successfully.
    pub fn address(&self, sym: Symbol) -> (r: Option<usize>)
        requires
            self.wf(),
        ensures
            r == found_address(self@, sym),
    {
        match self.get(sym) {
            Some(Resolution::Found(a)) => Some(*a),
            _ => None,
        }
    }

    /// Records the first and only resolution of `sym`.
    pub fn record(&mut self, sym: Symbol, res: Resolution)
        requires
            old(self).wf(),
            !old(self)@.contains_key(sym),
        ensures
            final(self).wf(),
            final(self)@ == old(self)@.insert(sym, res),
    {
        let i = sym.index();
        self.slots.set(i, Some(res));
        assert forall|s: Symbol| #![auto] symbol_index(s) == i as int ==> s == sym by {}
        assert(self@ =~= old(self)@.insert(sym, res));
    }
}

/// The address of `sym` in the table, when its resolution succeeded.
pub open spec fn found_address(t: Map<Symbol, Resolution>, sym: Symbol) -> Option<usize> {
    if t.contains_key(sym) && t[sym] is Found {
        Some(t[sym]->Found_0)
    } else {
        None
    }
}

/// A call into the dynamic loader that resolving a symbol may need.
#[derive(Clone, Copy, PartialEq, Eq, Structural, Debug)]
pub enum LoaderCall {
    /// Look the symbol up among what is already loaded into the process.
    SymbolInProcess,
    /// Open the host library by its conventional name, only if it is already loaded.
    OpenLibrary,
    /// Look the symbol up in the library opened under this handle.
    SymbolInLibrary(usize),
}

/// What to do next while resolving a symbol.
#[derive(Debug)]
pub enum ResolveStep {
    Call(LoaderCall),
    Done(Resolution),
}

/// The diagnostic for a loader call that returned null: the loader's own
/// error text when it gave one, a synthesized message otherwise.
pub open spec fn loader_message(call: LoaderCall, error: Option<Seq<char>>) -> Seq<char> {
    match error {
        Some(e) => e,
        None => match call {
            LoaderCall::OpenLibrary => "unknown error calling: dlopen"@,
            _ => "unknown error calling: dlsym"@,
        },
    }
}

pub open spec fn option_view(o: Option<String>) -> Option<Seq<char>> {
    match o {
        Some(s) => Some(s@),
        None => None,
    }
}

/// Builds the diagnostic for a loader call that returned null.
pub fn loader_error(call: LoaderCall, error: Option<String>) -> (r: String)
    ensures
        r@ == loader_message(call, option_view(error)),
{
    match error {
        Some(e) => e,
        None => match call {
            LoaderCall::OpenLibrary => "unknown error calling: dlopen".to_owned(),
            _ => "unknown error calling: dlsym".to_owned(),
        },
    }
}

/// The first loader call of every resolution.
pub fn resolve_start() -> (r: ResolveStep)
    ensures
        r == ResolveStep::Call(LoaderCall::SymbolInProcess),
{
    ResolveStep::Call(LoaderCall::SymbolInProcess)
}

/// Decides the next step of a resolution from the loader call just made,
/// the address it returned (zero for null) and the loader's error text.
pub fn resolve_next(call: LoaderCall, addr: usize, error: Option<String>) -> (r: ResolveStep)
    ensures
        addr != 0 ==> r == match call {
            LoaderCall::OpenLibrary => ResolveStep::Call(LoaderCall::SymbolInLibrary(addr)),
            _ => ResolveStep::Done(Resolution::Found(addr)),
        },
        addr == 0 ==> match call {
            LoaderCall::SymbolInProcess => r == ResolveStep::Call(LoaderCall::OpenLibrary),
            _ => r matches ResolveStep::Done(Resolution::Missing(m))
                && m@ == loader_message(call, option_view(error)),
        },
{
    if addr != 0 {
        match call {
            LoaderCall::OpenLibrary => ResolveStep::Call(LoaderCall::SymbolInLibrary(addr)),
            _ => ResolveStep::Done(Resolution::Found(addr)),
        }
    } else {
        match call {
            LoaderCall::SymbolInProcess => ResolveStep::Call(LoaderCall::OpenLibrary),
            _ => ResolveStep::Done(Resolution::Missing(loader_error(call, error))),
        }
    }
}

} // verus!
