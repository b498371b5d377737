use crate::editor::{command, edit_blocker, edit_blocker_of, get_history, is_edit_plan, refresh_line, set_text, HostCall};
use crate::history::{entry_line, frame, frame_record, stream, CArray, HistEntry};
use crate::selector::{get_readline_name, name_text, terminate, terminated};
use crate::symbols::{found_address, Pointer, Resolution, Symbol, SymbolTable};
use vstd::prelude::*;

verus! {

/// The search direction an entry point stands for.
#[derive(Clone, Copy, PartialEq, Eq, Structural, Debug)]
pub enum Entry {
    Reverse,
    Forward,
}

/// The host's own search function that an entry point falls back to.
pub open spec fn builtin_search(e: Entry) -> Symbol {
    match e {
        Entry::Reverse => Symbol::ReverseSearchHistory,
        Entry::Forward => Symbol::ForwardSearchHistory,
    }
}

impl Entry {
    pub fn builtin(&self) -> (r: Symbol)
        ensures
            r == builtin_search(*self),
    {
        match self {
            Entry::Reverse => Symbol::ReverseSearchHistory,
            Entry::Forward => Symbol::ForwardSearchHistory,
        }
    }
}

/// What the driver of a session did, handed back to `SearchSession::next`.
#[derive(Debug)]
pub enum Reply {
    /// The entry point was called.
    Start,
    /// The outcome of resolving the symbol asked for.
    Resolved(Resolution),
    /// The bytes of the identity name, `None` where the global holds null.
    Name(Option<Vec<u8>>),
    /// Whether the selector could be spawned.
    Spawned(bool),
    /// The address the history function returned (zero for null).
    History(usize),
    /// The history slot asked for: `None` where it is null.
    Slot(Option<HistEntry>),
    /// Whether the bytes were written to the selector's input.
    Written(bool),
    /// `None` where the selector could not be waited on; otherwise whether it
    /// exited with status zero.
    Exited(Option<bool>),
    /// The selector's output read to its end, `None` where reading failed.
    Output(Option<Vec<u8>>),
    /// What the host function called returned.
    Returned(isize),
}

/// What the driver of a session is to do next.
#[derive(Debug)]
pub enum Action {
    /// Resolve the symbol and reply `Resolved`.
    Resolve(Symbol),
    /// Read the string the global at this address points to; reply `Name`.
    ReadName(Pointer<Pointer<u8>>),
    /// Spawn the selector, with the identity name in its environment if
    /// there is one; reply `Spawned`.
    Spawn(Option<String>),
    /// Call the history function at this address; reply `History`.
    FetchHistory(usize),
    /// Read slot `index` of the history array at `array`; reply `Slot`.
    ReadSlot { array: usize, index: usize },
    /// Write the bytes to the selector's input; reply `Written`.
    Write(Vec<u8>),
    /// Close the selector's input and wait for it; reply `Exited`.
    Wait,
    /// Read the selector's output to its end; reply `Output`.
    ReadOutput,
    /// Make the host call; reply `Returned`.
    Call(HostCall),
    /// Return this code to the host; the session is over.
    Finish(isize),
}

/// Where a session stands.
#[derive(Debug)]
pub enum Phase {
    Begin,
    /// Looking for the identity name.
    Identity,
    ReadingName,
    /// About to spawn the selector, with this identity name.
    Launch(Option<String>),
    /// Spawn asked for; the history function is at this address.
    Spawning(usize),
    Fetching,
    Streaming(CArray),
    Writing(CArray),
    Waiting,
    Reading,
    /// About to replace the line by this text.
    Edit(Vec<u8>),
    /// About to redisplay the unchanged line.
    Redisplay,
    /// About to delegate to the host's own search function.
    Fallback,
    /// Host calls still to make once the one outstanding returns; whether
    /// the last one's result is what the entry point returns.
    Calling(Vec<HostCall>, bool),
    Done,
}

/// One call of an entry point: the decisions between spawning the selector,
/// streaming history to it, reading its choice and editing the host's line.
pub struct SearchSession {
    pub entry: Entry,
    pub direction: isize,
    pub key: isize,
    pub phase: Phase,
    /// The symbol whose resolution was asked for and not yet handed back.
    pub resolving: Option<Symbol>,
    /// The records taken from the history so far, in order.
    pub records: Ghost<Seq<Seq<u8>>>,
    /// All bytes asked to be written to the selector so far.
    pub sent: Ghost<Seq<u8>>,
}

pub open spec fn is_intent(p: Phase) -> bool {
    ||| p is Identity
    ||| p is Launch
    ||| p is Edit
    ||| p is Redisplay
    ||| p is Fallback
}

/// The step taken to delegate to the host's own search function.
pub open spec fn fallback_step(s: SearchSession, t: Map<Symbol, Resolution>, a: Action) -> bool {
    let sym = builtin_search(s.entry);
    if !t.contains_key(sym) {
        &&& a == Action::Resolve(sym)
        &&& s.phase is Fallback
    } else if let Some(f) = found_address(t, sym) {
        &&& a == Action::Call(HostCall::Command { func: f, count: s.direction, key: s.key })
        &&& s.phase matches Phase::Calling(rest, pass) && rest@.len() == 0 && pass
    } else {
        &&& a == Action::Finish(0)
        &&& s.phase is Done
    }
}

/// The step taken to redisplay the line after the selector declined.
pub open spec fn redisplay_step(s: SearchSession, t: Map<Symbol, Resolution>, a: Action) -> bool {
    if !t.contains_key(Symbol::RefreshLine) {
        &&& a == Action::Resolve(Symbol::RefreshLine)
        &&& s.phase is Redisplay
    } else if let Some(f) = found_address(t, Symbol::RefreshLine) {
        &&& a == Action::Call(command(f))
        &&& s.phase matches Phase::Calling(rest, pass) && rest@.len() == 0 && !pass
    } else {
        &&& a == Action::Finish(0)
        &&& s.phase is Done
    }
}

/// The step taken to replace the line by `text`: every editing function is
/// resolved before the first call; where one is missing, the session falls
/// back.
pub open spec fn edit_step(s: SearchSession, t: Map<Symbol, Resolution>, a: Action, text: Seq<u8>) -> bool {
    match edit_blocker(t) {
        Some(b) => if !t.contains_key(b) {
            &&& a == Action::Resolve(b)
            &&& s.phase matches Phase::Edit(x) && x@ == text
        } else {
            fallback_step(s, t, a)
        },
        None => {
            &&& a == Action::Call(command(found_address(t, Symbol::EndOfLine)->Some_0))
            &&& s.phase matches Phase::Calling(rest, pass) && !pass && rest@.len() == 3
                && is_edit_plan(t, seq![a->Call_0] + rest@, text)
        },
    }
}

/// The step taken to spawn the selector: the history function is resolved
/// first; without it the session falls back.
pub open spec fn launch_step(s: SearchSession, t: Map<Symbol, Resolution>, a: Action, env: Option<Seq<char>>) -> bool {
    if !t.contains_key(Symbol::HistoryList) {
        &&& a matches Action::Resolve(x) && x == Symbol::HistoryList
        &&& s.phase matches Phase::Launch(e) && crate::symbols::option_view(e) == env
    } else if let Some(h) = found_address(t, Symbol::HistoryList) {
        &&& a matches Action::Spawn(e) && crate::symbols::option_view(e) == env
        &&& s.phase == Phase::Spawning(h)
    } else {
        fallback_step(s, t, a)
    }
}

/// The step taken to find the identity name; its absence is no error.
pub open spec fn identity_step(s: SearchSession, t: Map<Symbol, Resolution>, a: Action) -> bool {
    if !t.contains_key(Symbol::ReadlineName) {
        &&& a == Action::Resolve(Symbol::ReadlineName)
        &&& s.phase is Identity
    } else if let Some(g) = found_address(t, Symbol::ReadlineName) {
        &&& a matches Action::ReadName(p) && p.0 == g
        &&& s.phase is ReadingName
    } else {
        launch_step(s, t, a, None)
    }
}

/// The step taken from an intent phase once the symbols it needs are known.
pub open spec fn intent_step(s: SearchSession, t: Map<Symbol, Resolution>, a: Action, p: Phase) -> bool {
    match p {
        Phase::Identity => identity_step(s, t, a),
        Phase::Launch(e) => launch_step(s, t, a, crate::symbols::option_view(e)),
        Phase::Edit(x) => edit_step(s, t, a, x@),
        Phase::Redisplay => redisplay_step(s, t, a),
        Phase::Fallback => fallback_step(s, t, a),
        _ => false,
    }
}

/// One step of a session: from `s`, given reply `r`, the session becomes `n`
/// and asks for `a`, `t` being the symbol table after the reply.
pub open spec fn step(s: SearchSession, r: Reply, n: SearchSession, t: Map<Symbol, Resolution>, a: Action) -> bool {
    &&& kept(s, n)
    &&& n.resolving == awaited(a)
    &&& (a is Write || n.records == s.records)
    &&& (a is Write || n.sent == s.sent)
    &&& if s.resolving is Some {
        intent_step(n, t, a, s.phase)
    } else {
        match s.phase {
            Phase::Begin => identity_step(n, t, a),
            Phase::ReadingName => r matches Reply::Name(v) && launch_step(n, t, a, name_text(v)),
            Phase::Spawning(h) => match r {
                Reply::Spawned(true) => a == Action::FetchHistory(h) && n.phase is Fetching,
                Reply::Spawned(false) => fallback_step(n, t, a),
                _ => false,
            },
            Phase::Fetching => r matches Reply::History(p) && if p == 0 {
                a == Action::Wait && n.phase is Waiting
            } else {
                &&& a == Action::ReadSlot { array: p, index: 0 }
                &&& n.phase == Phase::Streaming(CArray { ptr: p, index: 0, done: false })
            },
            Phase::Streaming(c) => match r {
                Reply::Slot(Some(e)) => if c.index < usize::MAX {
                    &&& a matches Action::Write(b) && b@ == frame(entry_line(e))
                        && n.sent@ == s.sent@ + b@
                    &&& n.phase == Phase::Writing(CArray { ptr: c.ptr, index: (c.index + 1) as usize, done: false })
                    &&& n.records@ == s.records@.push(entry_line(e))
                } else {
                    a == Action::Wait && n.phase is Waiting && n.records == s.records
                },
                Reply::Slot(None) => a == Action::Wait && n.phase is Waiting && n.records == s.records,
                _ => false,
            },
            Phase::Writing(c) => match r {
                Reply::Written(true) => {
                    &&& a == Action::ReadSlot { array: c.ptr, index: c.index }
                    &&& n.phase == Phase::Streaming(c)
                    &&& n.records == s.records
                },
                Reply::Written(false) => a == Action::Wait && n.phase is Waiting && n.records == s.records,
                _ => false,
            },
            Phase::Waiting => match r {
                Reply::Exited(None) => fallback_step(n, t, a),
                Reply::Exited(Some(false)) => redisplay_step(n, t, a),
                Reply::Exited(Some(true)) => a == Action::ReadOutput && n.phase is Reading,
                _ => false,
            },
            Phase::Reading => match r {
                Reply::Output(None) => fallback_step(n, t, a),
                Reply::Output(Some(b)) => edit_step(n, t, a, terminated(b@)),
                _ => false,
            },
            Phase::Calling(rest, pass) => r matches Reply::Returned(x) && if rest@.len() == 0 {
                a == Action::Finish(if pass { x } else { 0 }) && n.phase is Done
            } else {
                &&& a == Action::Call(rest@[0])
                &&& n.phase matches Phase::Calling(r2, p2) && r2@ == rest@.drop_first() && p2 == pass
            },
            _ => false,
        }
    }
}

/// The symbol table after reply `r`: a resolution is recorded for the
/// symbol it was asked for, unless one is there already.
pub open spec fn table_after(s: SearchSession, t: Map<Symbol, Resolution>, r: Reply) -> Map<Symbol, Resolution> {
    match (s.resolving, r) {
        (Some(sym), Reply::Resolved(res)) => if t.contains_key(sym) {
            t
        } else {
            t.insert(sym, res)
        },
        _ => t,
    }
}

/// The symbol a session waits on, for an action.
pub open spec fn awaited(a: Action) -> Option<Symbol> {
    match a {
        Action::Resolve(s) => Some(s),
        _ => None,
    }
}

/// What a step leaves unchanged.
pub open spec fn kept(s: SearchSession, n: SearchSession) -> bool {
    &&& n.entry == s.entry
    &&& n.direction == s.direction
    &&& n.key == s.key
}

impl SearchSession {
    pub open spec fn wf(&self) -> bool {
        &&& self.sent@ == stream(self.records@)
        &&& (self.resolving is Some <==> is_intent(self.phase))
        &&& (self.phase matches Phase::Streaming(c) ==> !c.done)
        &&& (self.phase matches Phase::Writing(c) ==> !c.done)
    }

    /// Whether `r` answers what the session asked for last.
    pub open spec fn accepts(&self, r: Reply) -> bool {
        if self.resolving is Some {
            r is Resolved
        } else {
            match self.phase {
                Phase::Begin => r is Start,
                Phase::ReadingName => r is Name,
                Phase::Spawning(_) => r is Spawned,
                Phase::Fetching => r is History,
                Phase::Streaming(_) => r is Slot,
                Phase::Writing(_) => r is Written,
                Phase::Waiting => r is Exited,
                Phase::Reading => r is Output,
                Phase::Calling(_, _) => r is Returned,
                _ => false,
            }
        }
    }

    /// A session for one call of the entry point `entry` with the host's
    /// arguments; its first reply is `Start`.
    pub fn new(entry: Entry, direction: isize, key: isize) -> (r: SearchSession)
        ensures
            r.wf(),
            r.entry == entry,
            r.direction == direction,
            r.key == key,
            r.phase is Begin,
            r.resolving is None,
            r.records@ == Seq::<Seq<u8>>::empty(),
    {
        SearchSession {
            entry,
            direction,
            key,
            phase: Phase::Begin,
            resolving: None,
            records: Ghost(Seq::empty()),
            sent: Ghost(Seq::empty()),
        }
    }

    /// Whether `r` answers what the session asked for last.
    pub fn expects(&self, r: &Reply) -> (b: bool)
        ensures
            b == self.accepts(*r),
    {
        if self.resolving.is_some() {
            return match r {
                Reply::Resolved(_) => true,
                _ => false,
            };
        }
        match (&self.phase, r) {
            (Phase::Begin, Reply::Start) => true,
            (Phase::ReadingName, Reply::Name(_)) => true,
            (Phase::Spawning(_), Reply::Spawned(_)) => true,
            (Phase::Fetching, Reply::History(_)) => true,
            (Phase::Streaming(_), Reply::Slot(_)) => true,
            (Phase::Writing(_), Reply::Written(_)) => true,
            (Phase::Waiting, Reply::Exited(_)) => true,
            (Phase::Reading, Reply::Output(_)) => true,
            (Phase::Calling(_, _), Reply::Returned(_)) => true,
            _ => false,
        }
    }

    fn fallback(&mut self, table: &SymbolTable) -> (a: Action)
        requires
            table.wf(),
        ensures
            fallback_step(*final(self), table@, a),
            kept(*old(self), *final(self)),
            final(self).records == old(self).records,
            final(self).sent == old(self).sent,
            final(self).resolving == awaited(a),
    {
        let sym = self.entry.builtin();
        match table.get(sym) {
            None => {
                self.phase = Phase::Fallback;
                self.resolving = Some(sym);
                Action::Resolve(sym)
            },
            Some(Resolution::Found(f)) => {
                self.phase = Phase::Calling(Vec::new(), true);
                self.resolving = None;
                Action::Call(HostCall::Command { func: *f, count: self.direction, key: self.key })
            },
            Some(Resolution::Missing(_)) => {
                self.phase = Phase::Done;
                self.resolving = None;
                Action::Finish(0)
            },
        }
    }

    fn redisplay(&mut self, table: &SymbolTable) -> (a: Action)
        requires
            table.wf(),
        ensures
            redisplay_step(*final(self), table@, a),
            kept(*old(self), *final(self)),
            final(self).records == old(self).records,
            final(self).sent == old(self).sent,
            final(self).resolving == awaited(a),
    {
        if !table.contains(Symbol::RefreshLine) {
            self.phase = Phase::Redisplay;
            self.resolving = Some(Symbol::RefreshLine);
            return Action::Resolve(Symbol::RefreshLine);
        }
        self.resolving = None;
        match refresh_line(table) {
            Ok(calls) => {
                let mut calls = calls;
                let c = calls.remove(0);
                self.phase = Phase::Calling(calls, false);
                Action::Call(c)
            },
            Err(_) => {
                self.phase = Phase::Done;
                Action::Finish(0)
            },
        }
    }

    fn edit(&mut self, table: &SymbolTable, text: Vec<u8>) -> (a: Action)
        requires
            table.wf(),
        ensures
            edit_step(*final(self), table@, a, text@),
            kept(*old(self), *final(self)),
            final(self).records == old(self).records,
            final(self).sent == old(self).sent,
            final(self).resolving == awaited(a),
    {
        match edit_blocker_of(table) {
            Some(b) => {
                if !table.contains(b) {
                    self.phase = Phase::Edit(text);
                    self.resolving = Some(b);
                    Action::Resolve(b)
                } else {
                    self.fallback(table)
                }
            },
            None => {
                self.resolving = None;
                match set_text(table, text) {
                    Ok(calls) => {
                        let mut calls = calls;
                        let ghost all = calls@;
                        let c = calls.remove(0);
                        proof {
                            assert(seq![c] + calls@ =~= all);
                        }
                        self.phase = Phase::Calling(calls, false);
                        Action::Call(c)
                    },
                    Err(_) => self.fallback(table),
                }
            },
        }
    }

    fn launch(&mut self, table: &SymbolTable, env: Option<String>) -> (a: Action)
        requires
            table.wf(),
        ensures
            launch_step(*final(self), table@, a, crate::symbols::option_view(env)),
            kept(*old(self), *final(self)),
            final(self).records == old(self).records,
            final(self).sent == old(self).sent,
            final(self).resolving == awaited(a),
    {
        if !table.contains(Symbol::HistoryList) {
            self.phase = Phase::Launch(env);
            self.resolving = Some(Symbol::HistoryList);
            return Action::Resolve(Symbol::HistoryList);
        }
        match get_history(table) {
            Ok(h) => {
                self.phase = Phase::Spawning(h);
                self.resolving = None;
                Action::Spawn(env)
            },
            Err(_) => self.fallback(table),
        }
    }

    fn identity(&mut self, table: &SymbolTable) -> (a: Action)
        requires
            table.wf(),
        ensures
            identity_step(*final(self), table@, a),
            kept(*old(self), *final(self)),
            final(self).records == old(self).records,
            final(self).sent == old(self).sent,
            final(self).resolving == awaited(a),
    {
        match table.get(Symbol::ReadlineName) {
            None => {
                self.phase = Phase::Identity;
                self.resolving = Some(Symbol::ReadlineName);
                Action::Resolve(Symbol::ReadlineName)
            },
            Some(Resolution::Found(g)) => {
                self.phase = Phase::ReadingName;
                self.resolving = None;
                Action::ReadName(Pointer::new(*g))
            },
            Some(Resolution::Missing(_)) => self.launch(table, None),
        }
    }

    fn resume(&mut self, table: &SymbolTable, phase: Phase) -> (a: Action)
        requires
            table.wf(),
            is_intent(phase),
        ensures
            intent_step(*final(self), table@, a, phase),
            kept(*old(self), *final(self)),
            final(self).records == old(self).records,
            final(self).sent == old(self).sent,
            final(self).resolving == awaited(a),
    {
        match phase {
            Phase::Identity => self.identity(table),
            Phase::Launch(env) => self.launch(table, env),
            Phase::Edit(text) => self.edit(table, text),
            Phase::Redisplay => self.redisplay(table),
            _ => self.fallback(table),
        }
    }

    fn stream_wait(&mut self) -> (a: Action)
        ensures
            a == Action::Wait,
            final(self).phase is Waiting,
            final(self).resolving is None,
            kept(*old(self), *final(self)),
            final(self).records == old(self).records,
            final(self).sent == old(self).sent,
    {
        self.phase = Phase::Waiting;
        self.resolving = None;
        Action::Wait
    }

    /// Takes the reply to the last action and decides the next one. A
    /// resolution is recorded in `table` for the symbol it was asked for;
    /// nothing else in the table ever changes.
    pub fn next(&mut self, table: &mut SymbolTable, reply: Reply) -> (a: Action)
        requires
            old(self).wf(),
            old(table).wf(),
            old(self).accepts(reply),
        ensures
            final(self).wf(),
            final(table).wf(),
            final(table)@ == table_after(*old(self), old(table)@, reply),
            step(*old(self), reply, *final(self), final(table)@, a),
            kept(*old(self), *final(self)),
            final(self).resolving == awaited(a),
            a matches Action::Resolve(sym) ==> !final(table)@.contains_key(sym),
    {
        let mut phase = Phase::Done;
        std::mem::swap(&mut self.phase, &mut phase);
        if let Some(sym) = self.resolving {
            if let Reply::Resolved(res) = reply {
                if !table.contains(sym) {
                    table.record(sym, res);
                }
            }
            return self.resume(table, phase);
        }
        match phase {
            Phase::Begin => self.identity(table),
            Phase::ReadingName => {
                let v = match reply {
                    Reply::Name(v) => v,
                    _ => None,
                };
                let env = get_readline_name(v);
                self.launch(table, env)
            },
            Phase::Spawning(h) => {
                if let Reply::Spawned(true) = reply {
                    self.phase = Phase::Fetching;
                    Action::FetchHistory(h)
                } else {
                    self.fallback(table)
                }
            },
            Phase::Fetching => {
                let p = match reply {
                    Reply::History(p) => p,
                    _ => 0,
                };
                let cursor = CArray::new(p);
                match cursor.slot() {
                    Some((array, index)) => {
                        self.phase = Phase::Streaming(cursor);
                        Action::ReadSlot { array, index }
                    },
                    None => self.stream_wait(),
                }
            },
            Phase::Streaming(c) => {
                let mut c = c;
                let slot = match reply {
                    Reply::Slot(slot) => slot,
                    _ => None,
                };
                if c.index == usize::MAX {
                    return self.stream_wait();
                }
                let ghost e = slot;
                match c.next(slot) {
                    Some(line) => {
                        let b = frame_record(line.as_slice());
                        proof {
                            let r = self.records@.push(line@);
                            assert(r.drop_last() =~= self.records@);
                        }
                        self.records = Ghost(self.records@.push(line@));
                        self.sent = Ghost(self.sent@ + b@);
                        self.phase = Phase::Writing(c);
                        Action::Write(b)
                    },
                    None => self.stream_wait(),
                }
            },
            Phase::Writing(c) => {
                if let Reply::Written(true) = reply {
                    let array = c.ptr;
                    let index = c.index;
                    self.phase = Phase::Streaming(c);
                    Action::ReadSlot { array, index }
                } else {
                    self.stream_wait()
                }
            },
            Phase::Waiting => {
                match reply {
                    Reply::Exited(Some(true)) => {
                        self.phase = Phase::Reading;
                        Action::ReadOutput
                    },
                    Reply::Exited(Some(false)) => self.redisplay(table),
                    _ => self.fallback(table),
                }
            },
            Phase::Reading => {
                match reply {
                    Reply::Output(Some(b)) => {
                        let text = terminate(b);
                        self.edit(table, text)
                    },
                    _ => self.fallback(table),
                }
            },
            Phase::Calling(rest, pass) => {
                let x = match reply {
                    Reply::Returned(x) => x,
                    _ => 0,
                };
                let mut rest = rest;
                if rest.len() == 0 {
                    self.phase = Phase::Done;
                    Action::Finish(if pass { x } else { 0 })
                } else {
                    let c = rest.remove(0);
                    self.phase = Phase::Calling(rest, pass);
                    Action::Call(c)
                }
            },
            _ => {
                self.phase = Phase::Done;
                Action::Finish(0)
            },
        }
    }
}

/// A record taken from the history is written to the selector as its bytes
/// and one newline, right after the records before it; what was sent is
/// always the stream of the records taken, in order.
pub proof fn lemma_write_extends_stream(s: SearchSession, r: Reply, n: SearchSession, t: Map<Symbol, Resolution>, a: Action)
    requires
        s.wf(),
        s.resolving is None,
        s.phase is Streaming,
        step(s, r, n, t, a),
        a is Write,
    ensures
        r matches Reply::Slot(Some(e)) && n.records@ == s.records@.push(entry_line(e)) && a->Write_0@ == frame(
            entry_line(e),
        ),
        n.sent@ == s.sent@ + a->Write_0@,
        n.sent@ == stream(n.records@),
{
    if let Reply::Slot(Some(e)) = r {
        let l = entry_line(e);
        assert(s.records@.push(l).drop_last() =~= s.records@);
    }
}

/// A selection the selector made (status zero, output `b`) replaces the
/// line by `b`, terminated: once the editing functions are known, the calls
/// are the end-of-line, discard, redisplay and insertion of that text.
pub proof fn lemma_selection_is_inserted(s: SearchSession, b: Vec<u8>, n: SearchSession, t: Map<Symbol, Resolution>, a: Action)
    requires
        s.wf(),
        s.resolving is None,
        s.phase is Reading,
        step(s, Reply::Output(Some(b)), n, t, a),
        edit_blocker(t) is None,
    ensures
        a is Call,
        n.phase matches Phase::Calling(rest, pass) && !pass && is_edit_plan(t, seq![a->Call_0] + rest@, terminated(b@)),
{
}

/// When the selector exits with a non-zero status, the line is never edited:
/// the one host call made is the redisplay, and the entry point returns zero.
pub proof fn lemma_declined_selection_redisplays(s: SearchSession, n: SearchSession, t: Map<Symbol, Resolution>, a: Action, x: isize, n2: SearchSession, a2: Action)
    requires
        s.wf(),
        s.resolving is None,
        s.phase is Waiting,
        step(s, Reply::Exited(Some(false)), n, t, a),
        t.contains_key(Symbol::RefreshLine),
        step(n, Reply::Returned(x), n2, t, a2),
    ensures
        found_address(t, Symbol::RefreshLine) matches Some(f) ==> a == Action::Call(command(f)) && a2 == Action::Finish(0),
        found_address(t, Symbol::RefreshLine) is None ==> a == Action::Finish(0),
{
}

/// When the selector cannot be spawned, the host's own search function is
/// called with the entry point's arguments unchanged, no other host call is
/// made, and its result is what the entry point returns.
pub proof fn lemma_spawn_failure_delegates(s: SearchSession, n: SearchSession, t: Map<Symbol, Resolution>, a: Action, x: isize, n2: SearchSession, a2: Action)
    requires
        s.wf(),
        s.resolving is None,
        s.phase is Spawning,
        step(s, Reply::Spawned(false), n, t, a),
        t.contains_key(builtin_search(s.entry)),
        step(n, Reply::Returned(x), n2, t, a2),
    ensures
        found_address(t, builtin_search(s.entry)) matches Some(f) ==> a == Action::Call(
            HostCall::Command { func: f, count: s.direction, key: s.key },
        ) && a2 == Action::Finish(x),
        found_address(t, builtin_search(s.entry)) is None ==> a == Action::Finish(0),
{
}

/// A symbol is resolved at most once: once the table holds it, no step
/// asks for it again and its entry never changes.
pub proof fn lemma_resolved_once(s: SearchSession, r: Reply, t0: Map<Symbol, Resolution>, n: SearchSession, a: Action, sym: Symbol)
    requires
        s.wf(),
        s.accepts(r),
        step(s, r, n, table_after(s, t0, r), a),
        t0.contains_key(sym),
    ensures
        table_after(s, t0, r).contains_key(sym),
        table_after(s, t0, r)[sym] == t0[sym],
        a != Action::Resolve(sym),
{
    let t = table_after(s, t0, r);
    if s.resolving is Some {
        assert(t.contains_key(sym));
    }
}

/// A history entry whose text pointer is null is streamed as an empty
/// record, a lone newline, and the sequence goes on.
pub proof fn lemma_null_text_is_empty_record(s: SearchSession, e: HistEntry, n: SearchSession, t: Map<Symbol, Resolution>, a: Action)
    requires
        s.wf(),
        s.resolving is None,
        s.phase matches Phase::Streaming(c) && c.index < usize::MAX,
        e.line is None,
        step(s, Reply::Slot(Some(e)), n, t, a),
    ensures
        a matches Action::Write(b) && b@ == seq![crate::history::NEWLINE],
        n.records@ == s.records@.push(Seq::<u8>::empty()),
        n.phase matches Phase::Writing(c) && !c.done,
{
    assert(Seq::<u8>::empty().push(crate::history::NEWLINE) =~= seq![crate::history::NEWLINE]);
}

/// All bytes a run of actions asks to write to the selector, in order.
pub open spec fn written(acts: Seq<Action>) -> Seq<u8>
    decreases acts.len(),
{
    if acts.len() == 0 {
        Seq::empty()
    } else {
        written(acts.drop_last()) + match acts.last() {
            Action::Write(b) => b@,
            _ => Seq::empty(),
        }
    }
}

/// The history records a run took, in order: the text of each slot reply
/// that was answered by a write.
pub open spec fn yielded(replies: Seq<Reply>, acts: Seq<Action>) -> Seq<Seq<u8>>
    decreases acts.len(),
{
    if acts.len() == 0 || replies.len() == 0 {
        Seq::empty()
    } else {
        let before = yielded(replies.drop_last(), acts.drop_last());
        match (replies.last(), acts.last()) {
            (Reply::Slot(Some(e)), Action::Write(_)) => before.push(entry_line(e)),
            _ => before,
        }
    }
}

/// Whether `states`, `replies`, `tables` and `acts` form a run of a session:
/// each state steps to the next on its reply.
pub open spec fn is_run(states: Seq<SearchSession>, replies: Seq<Reply>, tables: Seq<Map<Symbol, Resolution>>, acts: Seq<Action>) -> bool {
    &&& states.len() == replies.len() + 1
    &&& acts.len() == replies.len()
    &&& tables.len() == replies.len()
    &&& forall|i: int| 0 <= i < replies.len() ==> #[trigger] step(states[i], replies[i], states[i + 1], tables[i], acts[i])
}

/// Over any run of a session, whatever the selector and the host reply,
/// the bytes written to the selector are exactly the records taken from the
/// history, in order, each followed by one newline; and they are what the
/// session counts as sent and taken.
pub proof fn lemma_run_streams_history(states: Seq<SearchSession>, replies: Seq<Reply>, tables: Seq<Map<Symbol, Resolution>>, acts: Seq<Action>)
    requires
        is_run(states, replies, tables, acts),
        states[0].sent@ == Seq::<u8>::empty(),
        states[0].records@ == Seq::<Seq<u8>>::empty(),
    ensures
        written(acts) == stream(yielded(replies, acts)),
        states.last().sent@ == written(acts),
        states.last().records@ == yielded(replies, acts),
    decreases replies.len(),
{
    let n = replies.len() as int;
    if n == 0 {
        assert(stream(Seq::<Seq<u8>>::empty()) =~= Seq::<u8>::empty());
    } else {
        let ss = states.drop_last();
        let rs = replies.drop_last();
        let ts = tables.drop_last();
        let xs = acts.drop_last();
        assert forall|i: int| 0 <= i < rs.len() implies #[trigger] step(ss[i], rs[i], ss[i + 1], ts[i], xs[i]) by {
            assert(step(states[i], replies[i], states[i + 1], tables[i], acts[i]));
        }
        lemma_run_streams_history(ss, rs, ts, xs);
        let i = n - 1;
        assert(step(states[i], replies[i], states[i + 1], tables[i], acts[i]));
        let s = states[i];
        assert(states.last() == states[i + 1]);
        assert(ss.last() == s);
        let before = yielded(rs, xs);
        if let Action::Write(b) = acts[n - 1] {
            assert(replies.last() is Slot);
            let e = replies.last()->Slot_0->Some_0;
            assert(yielded(replies, acts) == before.push(entry_line(e)));
            assert(before.push(entry_line(e)).drop_last() =~= before);
            assert(written(acts) == written(xs) + b@);
        } else {
            assert(written(acts) =~= written(xs));
            assert(yielded(replies, acts) == before);
        }
    }
}

/// A step asks to resolve only a symbol that the table does not hold.
pub proof fn lemma_step_asks_only_unknown(s: SearchSession, r: Reply, n: SearchSession, t: Map<Symbol, Resolution>, a: Action)
    requires
        step(s, r, n, t, a),
    ensures
        a matches Action::Resolve(x) ==> !t.contains_key(x),
{
}

/// Whether a run also threads the symbol table, from `t0` on: each step
/// sees the table as its reply left it, and each reply answers what was
/// asked for.
pub open spec fn is_table_run(states: Seq<SearchSession>, replies: Seq<Reply>, tables: Seq<Map<Symbol, Resolution>>, acts: Seq<Action>, t0: Map<Symbol, Resolution>) -> bool {
    &&& is_run(states, replies, tables, acts)
    &&& forall|i: int| 0 <= i < replies.len() ==> #[trigger] states[i].accepts(replies[i])
    &&& forall|i: int| 0 <= i < replies.len() ==> #[trigger] tables[i] == table_after(
        states[i],
        if i == 0 { t0 } else { tables[i - 1] },
        replies[i],
    )
}

proof fn lemma_table_holds_after(states: Seq<SearchSession>, replies: Seq<Reply>, tables: Seq<Map<Symbol, Resolution>>, acts: Seq<Action>, t0: Map<Symbol, Resolution>, i: int, k: int, sym: Symbol)
    requires
        is_table_run(states, replies, tables, acts, t0),
        0 <= i < k < replies.len(),
        acts[i] == Action::Resolve(sym),
    ensures
        tables[k].contains_key(sym),
    decreases k - i,
{
    assert(step(states[i], replies[i], states[i + 1], tables[i], acts[i]));
    assert(tables[k] == table_after(states[k], tables[k - 1], replies[k]));
    assert(states[k].accepts(replies[k]));
    if k > i + 1 {
        lemma_table_holds_after(states, replies, tables, acts, t0, i, k - 1, sym);
    }
}

/// Over any run of a session, a symbol is asked to be resolved at most
/// once: after it has been asked for, no later step asks for it again.
/// Across sessions sharing one table, `lemma_step_asks_only_unknown`
/// keeps every symbol the table holds from being asked for again.
pub proof fn lemma_run_resolves_once(states: Seq<SearchSession>, replies: Seq<Reply>, tables: Seq<Map<Symbol, Resolution>>, acts: Seq<Action>, t0: Map<Symbol, Resolution>, i: int, j: int, sym: Symbol)
    requires
        is_table_run(states, replies, tables, acts, t0),
        0 <= i < j < replies.len(),
        acts[i] == Action::Resolve(sym),
    ensures
        acts[j] != Action::Resolve(sym),
{
    lemma_table_holds_after(states, replies, tables, acts, t0, i, j, sym);
    assert(step(states[j], replies[j], states[j + 1], tables[j], acts[j]));
    lemma_step_asks_only_unknown(states[j], replies[j], states[j + 1], tables[j], acts[j]);
}

} // verus!
