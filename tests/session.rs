use rl_custom_isearch::editor::HostCall;
use rl_custom_isearch::history::HistEntry;
use rl_custom_isearch::search::{Action, Entry, Reply, SearchSession};
use rl_custom_isearch::symbols::{resolve_next, resolve_start, LoaderCall, ResolveStep, Symbol, SymbolTable};

const LIB_HANDLE: usize = 0x5000;

/// A stand-in for the host process, its loader and the selector.
struct FakeHost {
    in_process: Vec<&'static str>,
    in_library: Vec<&'static str>,
    library_loaded: bool,
    name: Option<Vec<u8>>,
    history: Option<Vec<Option<Vec<u8>>>>,
    spawns: bool,
    write_limit: usize,
    exit: Option<bool>,
    output: Option<Vec<u8>>,
    builtin_result: isize,
    lookups: Vec<String>,
    stdin: Vec<u8>,
    writes: usize,
    env: Option<Option<String>>,
    calls: Vec<String>,
}

fn addr_of(name: &str) -> usize {
    0x1000 + name.len() * 16 + name.bytes().map(|b| b as usize).sum::<usize>()
}

fn name_at(addr: usize) -> String {
    let all = [
        Symbol::HistoryList,
        Symbol::UnixLineDiscard,
        Symbol::RefreshLine,
        Symbol::EndOfLine,
        Symbol::ReverseSearchHistory,
        Symbol::ForwardSearchHistory,
        Symbol::InsertText,
        Symbol::ReadlineName,
    ];
    for s in all.iter() {
        if addr_of(s.name()) == addr {
            return s.name().to_string();
        }
    }
    panic!("no symbol at {}", addr)
}

const ALL_NAMES: [&str; 8] = [
    "history_list",
    "rl_unix_line_discard",
    "rl_refresh_line",
    "rl_end_of_line",
    "rl_reverse_search_history",
    "rl_forward_search_history",
    "rl_insert_text",
    "rl_readline_name",
];

impl FakeHost {
    fn new(history: Vec<&str>, exit: Option<bool>, output: Option<&[u8]>) -> FakeHost {
        FakeHost {
            in_process: ALL_NAMES.to_vec(),
            in_library: vec![],
            library_loaded: false,
            name: Some(b"bash".to_vec()),
            history: Some(history.iter().map(|h| Some(h.as_bytes().to_vec())).collect()),
            spawns: true,
            write_limit: usize::MAX,
            exit,
            output: output.map(|o| o.to_vec()),
            builtin_result: 7,
            lookups: vec![],
            stdin: vec![],
            writes: 0,
            env: None,
            calls: vec![],
        }
    }

    fn resolve(&mut self, sym: Symbol) -> rl_custom_isearch::symbols::Resolution {
        let name = sym.name();
        self.lookups.push(name.to_string());
        let mut step = resolve_start();
        loop {
            match step {
                ResolveStep::Done(r) => return r,
                ResolveStep::Call(call) => {
                    let addr = match call {
                        LoaderCall::SymbolInProcess => {
                            if self.in_process.contains(&name) { addr_of(name) } else { 0 }
                        }
                        LoaderCall::OpenLibrary => {
                            if self.library_loaded { LIB_HANDLE } else { 0 }
                        }
                        LoaderCall::SymbolInLibrary(h) => {
                            assert_eq!(h, LIB_HANDLE);
                            if self.in_library.contains(&name) { addr_of(name) } else { 0 }
                        }
                    };
                    step = resolve_next(call, addr, None);
                }
            }
        }
    }

    fn run(&mut self, table: &mut SymbolTable, entry: Entry, direction: isize, key: isize) -> isize {
        let mut session = SearchSession::new(entry, direction, key);
        let mut reply = Reply::Start;
        loop {
            assert!(session.expects(&reply));
            let action = session.next(table, reply);
            reply = match action {
                Action::Resolve(sym) => Reply::Resolved(self.resolve(sym)),
                Action::ReadName(p) => {
                    assert_eq!(p.ptr(), addr_of("rl_readline_name"));
                    Reply::Name(self.name.clone())
                }
                Action::Spawn(env) => {
                    self.env = Some(env);
                    Reply::Spawned(self.spawns)
                }
                Action::FetchHistory(f) => {
                    assert_eq!(f, addr_of("history_list"));
                    Reply::History(if self.history.is_some() { 0x9000 } else { 0 })
                }
                Action::ReadSlot { array, index } => {
                    assert_eq!(array, 0x9000);
                    let h = self.history.as_ref().unwrap();
                    if index < h.len() {
                        Reply::Slot(Some(HistEntry::new(h[index].clone())))
                    } else {
                        Reply::Slot(None)
                    }
                }
                Action::Write(b) => {
                    if self.writes < self.write_limit {
                        self.writes += 1;
                        self.stdin.extend_from_slice(&b);
                        Reply::Written(true)
                    } else {
                        Reply::Written(false)
                    }
                }
                Action::Wait => Reply::Exited(self.exit),
                Action::ReadOutput => Reply::Output(self.output.clone()),
                Action::Call(HostCall::Command { func, count, key }) => {
                    let n = name_at(func);
                    self.calls.push(format!("{}({},{})", n, count, key));
                    if n.ends_with("search_history") {
                        Reply::Returned(self.builtin_result)
                    } else {
                        Reply::Returned(0)
                    }
                }
                Action::Call(HostCall::Insert { func, text }) => {
                    assert_eq!(name_at(func), "rl_insert_text");
                    self.calls.push(format!("rl_insert_text({:?})", String::from_utf8(text).unwrap()));
                    Reply::Returned(0)
                }
                Action::Finish(code) => return code,
            };
        }
    }
}

#[test]
fn selection_replaces_line() {
    let mut host = FakeHost::new(vec!["ls -la", "git status"], Some(true), Some(b"git status\0"));
    let mut table = SymbolTable::new();
    let code = host.run(&mut table, Entry::Reverse, 1, 18);
    assert_eq!(code, 0);
    assert_eq!(host.stdin, b"ls -la\ngit status\n".to_vec());
    assert_eq!(
        host.calls,
        vec![
            "rl_end_of_line(0,0)".to_string(),
            "rl_unix_line_discard(0,0)".to_string(),
            "rl_refresh_line(0,0)".to_string(),
            "rl_insert_text(\"git status\\0\")".to_string(),
        ]
    );
    assert_eq!(host.env, Some(Some("bash".to_string())));
}

#[test]
fn nonzero_exit_refreshes_once() {
    let mut host = FakeHost::new(vec!["ls -la", "git status"], Some(false), Some(b"ignored"));
    let mut table = SymbolTable::new();
    let code = host.run(&mut table, Entry::Reverse, 1, 18);
    assert_eq!(code, 0);
    assert_eq!(host.calls, vec!["rl_refresh_line(0,0)".to_string()]);
    assert_eq!(host.stdin, b"ls -la\ngit status\n".to_vec());
}

#[test]
fn missing_selector_calls_builtin_search() {
    let mut host = FakeHost::new(vec!["ls -la", "git status"], Some(true), Some(b"x"));
    host.spawns = false;
    let mut table = SymbolTable::new();
    let code = host.run(&mut table, Entry::Reverse, -1, 18);
    assert_eq!(code, 7);
    assert_eq!(host.calls, vec!["rl_reverse_search_history(-1,18)".to_string()]);
    assert!(host.stdin.is_empty());
}

#[test]
fn forward_entry_falls_back_to_forward_search() {
    let mut host = FakeHost::new(vec![], Some(true), Some(b"x"));
    host.spawns = false;
    let mut table = SymbolTable::new();
    let code = host.run(&mut table, Entry::Forward, 1, 19);
    assert_eq!(code, 7);
    assert_eq!(host.calls, vec!["rl_forward_search_history(1,19)".to_string()]);
}

#[test]
fn each_symbol_resolved_once() {
    let mut table = SymbolTable::new();
    let mut host = FakeHost::new(vec!["a"], Some(true), Some(b"a\0"));
    host.run(&mut table, Entry::Reverse, 1, 18);
    let mut host2 = FakeHost::new(vec!["a", "b"], Some(false), None);
    host2.run(&mut table, Entry::Reverse, 1, 18);
    let mut host3 = FakeHost::new(vec!["a"], Some(true), Some(b"b"));
    host3.spawns = false;
    host3.run(&mut table, Entry::Reverse, 1, 18);
    let mut all = host.lookups.clone();
    all.extend(host2.lookups.clone());
    all.extend(host3.lookups.clone());
    for name in ALL_NAMES.iter() {
        let n = all.iter().filter(|l| l.as_str() == *name).count();
        assert!(n <= 1, "{} resolved {} times", name, n);
    }
    assert!(host2.lookups.is_empty());
    assert_eq!(host3.lookups, vec!["rl_reverse_search_history".to_string()]);
}

#[test]
fn failed_resolution_is_not_retried() {
    let mut table = SymbolTable::new();
    let mut host = FakeHost::new(vec!["a"], Some(true), Some(b"a"));
    host.in_process.retain(|n| *n != "rl_insert_text");
    let code = host.run(&mut table, Entry::Reverse, 1, 18);
    assert_eq!(code, 7);
    assert_eq!(host.calls, vec!["rl_reverse_search_history(1,18)".to_string()]);
    let mut host2 = FakeHost::new(vec!["a"], Some(true), Some(b"a"));
    host2.run(&mut table, Entry::Reverse, 1, 18);
    assert!(host2.lookups.is_empty());
    assert_eq!(host2.calls, vec!["rl_reverse_search_history(1,18)".to_string()]);
}

#[test]
fn null_text_streams_empty_record() {
    let mut host = FakeHost::new(vec![], Some(false), None);
    host.history = Some(vec![Some(b"a".to_vec()), None, Some(b"b".to_vec())]);
    let mut table = SymbolTable::new();
    host.run(&mut table, Entry::Reverse, 1, 18);
    assert_eq!(host.stdin, b"a\n\nb\n".to_vec());
}

#[test]
fn empty_history_streams_nothing() {
    let mut host = FakeHost::new(vec![], Some(true), Some(b"ls\0"));
    let mut table = SymbolTable::new();
    let code = host.run(&mut table, Entry::Reverse, 1, 18);
    assert_eq!(code, 0);
    assert!(host.stdin.is_empty());
    assert_eq!(host.calls.last().unwrap(), "rl_insert_text(\"ls\\0\")");
}

#[test]
fn null_history_array_streams_nothing() {
    let mut host = FakeHost::new(vec![], Some(false), None);
    host.history = None;
    let mut table = SymbolTable::new();
    let code = host.run(&mut table, Entry::Reverse, 1, 18);
    assert_eq!(code, 0);
    assert!(host.stdin.is_empty());
    assert_eq!(host.calls, vec!["rl_refresh_line(0,0)".to_string()]);
}

#[test]
fn write_failure_stops_streaming() {
    let mut host = FakeHost::new(vec!["one", "two", "three"], Some(true), Some(b"two"));
    host.write_limit = 1;
    let mut table = SymbolTable::new();
    let code = host.run(&mut table, Entry::Reverse, 1, 18);
    assert_eq!(code, 0);
    assert_eq!(host.stdin, b"one\n".to_vec());
    assert_eq!(host.calls.last().unwrap(), "rl_insert_text(\"two\\0\")");
}

#[test]
fn empty_output_inserts_terminator_only() {
    let mut host = FakeHost::new(vec!["ls"], Some(true), Some(b""));
    let mut table = SymbolTable::new();
    let code = host.run(&mut table, Entry::Reverse, 1, 18);
    assert_eq!(code, 0);
    assert_eq!(host.calls.len(), 4);
    assert_eq!(host.calls[3], "rl_insert_text(\"\\0\")");
}

#[test]
fn wait_failure_falls_back() {
    let mut host = FakeHost::new(vec!["ls"], None, Some(b"ls"));
    let mut table = SymbolTable::new();
    let code = host.run(&mut table, Entry::Reverse, 2, 18);
    assert_eq!(code, 7);
    assert_eq!(host.calls, vec!["rl_reverse_search_history(2,18)".to_string()]);
}

#[test]
fn read_failure_falls_back() {
    let mut host = FakeHost::new(vec!["ls"], Some(true), None);
    let mut table = SymbolTable::new();
    let code = host.run(&mut table, Entry::Reverse, 2, 18);
    assert_eq!(code, 7);
    assert_eq!(host.calls, vec!["rl_reverse_search_history(2,18)".to_string()]);
}

#[test]
fn missing_builtin_search_returns_zero() {
    let mut host = FakeHost::new(vec!["ls"], Some(true), Some(b"ls"));
    host.spawns = false;
    host.in_process.retain(|n| *n != "rl_reverse_search_history");
    let mut table = SymbolTable::new();
    let code = host.run(&mut table, Entry::Reverse, 2, 18);
    assert_eq!(code, 0);
    assert!(host.calls.is_empty());
}

#[test]
fn missing_history_function_falls_back_without_spawning() {
    let mut host = FakeHost::new(vec!["ls"], Some(true), Some(b"ls"));
    host.in_process.retain(|n| *n != "history_list");
    let mut table = SymbolTable::new();
    let code = host.run(&mut table, Entry::Reverse, 1, 18);
    assert_eq!(code, 7);
    assert_eq!(host.env, None);
    assert_eq!(host.calls, vec!["rl_reverse_search_history(1,18)".to_string()]);
}

#[test]
fn missing_identity_name_is_no_error() {
    let mut host = FakeHost::new(vec!["ls"], Some(true), Some(b"pwd\0"));
    host.in_process.retain(|n| *n != "rl_readline_name");
    let mut table = SymbolTable::new();
    let code = host.run(&mut table, Entry::Reverse, 1, 18);
    assert_eq!(code, 0);
    assert_eq!(host.env, Some(None));
    assert_eq!(host.calls.last().unwrap(), "rl_insert_text(\"pwd\\0\")");
}

#[test]
fn null_or_invalid_identity_name_is_not_passed() {
    let mut host = FakeHost::new(vec![], Some(false), None);
    host.name = None;
    let mut table = SymbolTable::new();
    host.run(&mut table, Entry::Reverse, 1, 18);
    assert_eq!(host.env, Some(None));
    let mut host2 = FakeHost::new(vec![], Some(false), None);
    host2.name = Some(vec![0xff, 0xfe]);
    host2.run(&mut table, Entry::Reverse, 1, 18);
    assert_eq!(host2.env, Some(None));
}

#[test]
fn symbols_found_in_opened_library() {
    let mut host = FakeHost::new(vec!["ls"], Some(true), Some(b"cd\0"));
    host.in_library = host.in_process.clone();
    host.in_process.clear();
    host.library_loaded = true;
    let mut table = SymbolTable::new();
    let code = host.run(&mut table, Entry::Reverse, 1, 18);
    assert_eq!(code, 0);
    assert_eq!(host.calls.len(), 4);
}

#[test]
fn unexpected_reply_is_refused() {
    let mut session = SearchSession::new(Entry::Reverse, 1, 18);
    assert!(session.expects(&Reply::Start));
    assert!(!session.expects(&Reply::Written(true)));
    let mut table = SymbolTable::new();
    let a = session.next(&mut table, Reply::Start);
    assert!(matches!(a, Action::Resolve(Symbol::ReadlineName)));
    assert!(session.expects(&Reply::Resolved(rl_custom_isearch::symbols::Resolution::Found(1))));
    assert!(!session.expects(&Reply::Start));
}
