//! Rhai scripting for server-side automation.
//!
//! Hook scripts are compiled once and kept under an event name; firing an
//! event runs the hook registered under that event's name, if any. The
//! engine itself, with the room-management functions that scripts call, is
//! set up by the server binary and handed to [`TaimenScripting::new`].
use vstd::prelude::*;
use soushi::rhai::{Dynamic, AST};
use soushi::{ScriptEngine, SoushiError};

verus! {

#[verifier::external_type_specification]
#[verifier::external_body]
pub struct ExScriptEngine(ScriptEngine);

#[verifier::external_type_specification]
#[verifier::external_body]
pub struct ExSoushiError(SoushiError);

#[verifier::external_type_specification]
#[verifier::external_body]
pub struct ExAst(AST);

#[verifier::external_type_specification]
#[verifier::external_body]
pub struct ExDynamic(Dynamic);

/// A hook script together with what the engine compiled from it.
#[derive(Debug)]
pub struct CompiledHook {
    /// The script text that was compiled.
    pub source: String,
    /// The engine's compiled form of `source`.
    pub ast: AST,
}

/// What running a hook gave: the script text that ran and the engine's outcome.
#[derive(Debug)]
pub struct HookRun {
    /// The script text of the hook that ran.
    pub source: String,
    /// What the engine returned, or why the script failed.
    pub outcome: Result<Dynamic, SoushiError>,
}

/// Compiles a hook script, keeping its text beside the compiled form.
///
/// Trusted: calls `ScriptEngine::compile` on `script`. Whether it succeeds
/// depends on the engine's settings as well as the text, so that is not
/// claimed; a success carries the text that was compiled.
#[verifier::external_body]
fn compile_hook(engine: &ScriptEngine, script: &str) -> (r: Result<CompiledHook, SoushiError>)
    ensures
        r matches Ok(hook) ==> hook.source@ == script@,
{
    match engine.compile(script) {
        Ok(ast) => Ok(CompiledHook { source: script.to_owned(), ast }),
        Err(e) => Err(e),
    }
}

/// Runs a compiled hook.
///
/// Trusted: calls `ScriptEngine::eval_ast` on the hook's compiled form. What
/// a script does and returns depends on the functions the engine exposes, so
/// the outcome is not claimed; the run carries the text of the hook it ran.
#[verifier::external_body]
fn run_hook(engine: &ScriptEngine, hook: &CompiledHook) -> (r: HookRun)
    ensures
        r.source@ == hook.source@,
{
    HookRun { source: hook.source.clone(), outcome: engine.eval_ast(&hook.ast) }
}

/// Evaluates a script text.
///
/// Trusted: calls `ScriptEngine::eval`. Nothing is claimed of the outcome,
/// for the reason given for `run_hook`.
#[verifier::external_body]
fn eval_script(engine: &ScriptEngine, script: &str) -> (r: Result<Dynamic, SoushiError>) {
    engine.eval(script)
}

/// Script hook events that can trigger server-side scripts.
#[derive(Debug, Clone, PartialEq, Eq)]
pub enum ScriptEvent {
    /// A room was created.
    RoomCreated { room_id: String, name: String },
    /// A room ended.
    RoomEnded { room_id: String },
    /// A participant joined a room.
    ParticipantJoined { room_id: String, user: String },
    /// A participant left a room.
    ParticipantLeft { room_id: String, user: String },
    /// Server started.
    ServerStarted,
}

impl ScriptEvent {
    /// The name under which the hook for this event is registered.
    pub open spec fn hook_key(self) -> Seq<char> {
        match self {
            ScriptEvent::RoomCreated { .. } => "room_created"@,
            ScriptEvent::RoomEnded { .. } => "room_ended"@,
            ScriptEvent::ParticipantJoined { .. } => "participant_joined"@,
            ScriptEvent::ParticipantLeft { .. } => "participant_left"@,
            ScriptEvent::ServerStarted => "server_started"@,
        }
    }

    /// The name under which the hook for this event is registered.
    pub fn hook_name(&self) -> (s: &'static str)
        ensures
            s@ == self.hook_key(),
    {
        match self {
            ScriptEvent::RoomCreated { .. } => "room_created",
            ScriptEvent::RoomEnded { .. } => "room_ended",
            ScriptEvent::ParticipantJoined { .. } => "participant_joined",
            ScriptEvent::ParticipantLeft { .. } => "participant_left",
            ScriptEvent::ServerStarted => "server_started",
        }
    }
}

/// Actions that scripts can request from the server.
#[derive(Debug, Clone, PartialEq, Eq)]
pub enum ScriptAction {
    /// Create a new room with the given name.
    CreateRoom(String),
    /// End a room by ID.
    EndRoom(String),
    /// Request the room list.
    ListRooms,
}

/// The hook registered last under `name` among `hooks`, if any.
pub open spec fn hook_lookup(hooks: Seq<(String, CompiledHook)>, name: Seq<char>) -> Option<CompiledHook>
    decreases hooks.len(),
{
    if hooks.len() == 0 {
        None
    } else if hooks.last().0@ == name {
        Some(hooks.last().1)
    } else {
        hook_lookup(hooks.drop_last(), name)
    }
}

/// No two hooks share a name.
pub open spec fn names_unique(hooks: Seq<(String, CompiledHook)>) -> bool {
    forall|i: int, j: int| 0 <= i < j < hooks.len() ==> #[trigger] hooks[i].0@ != #[trigger] hooks[j].0@
}

/// Replacing the hook of a name changes what that name finds and nothing else.
proof fn lookup_after_replace(hooks: Seq<(String, CompiledHook)>, i: int, entry: (String, CompiledHook), name: Seq<char>)
    requires
        0 <= i < hooks.len(),
        hooks[i].0@ == entry.0@,
        names_unique(hooks),
    ensures
        hook_lookup(hooks.update(i, entry), name) == if name == entry.0@ {
            Some(entry.1)
        } else {
            hook_lookup(hooks, name)
        },
    decreases hooks.len(),
{
    let updated = hooks.update(i, entry);
    if i == hooks.len() - 1 {
        assert(updated.drop_last() =~= hooks.drop_last());
    } else {
        assert(updated.drop_last() =~= hooks.drop_last().update(i, entry));
        assert(hooks.last() == hooks[hooks.len() - 1]);
        assert(hooks[i].0@ != hooks[hooks.len() - 1].0@);
        lookup_after_replace(hooks.drop_last(), i, entry, name);
    }
}

/// A name that no hook carries finds nothing.
proof fn lookup_absent(hooks: Seq<(String, CompiledHook)>, name: Seq<char>)
    requires
        forall|i: int| 0 <= i < hooks.len() ==> (#[trigger] hooks[i]).0@ != name,
    ensures
        hook_lookup(hooks, name) is None,
    decreases hooks.len(),
{
    if hooks.len() > 0 {
        assert(hooks[hooks.len() - 1] == hooks.last());
        lookup_absent(hooks.drop_last(), name);
    }
}

/// A name carried by the hook at `i`, and by no other, finds that hook.
proof fn lookup_present(hooks: Seq<(String, CompiledHook)>, i: int)
    requires
        0 <= i < hooks.len(),
        names_unique(hooks),
    ensures
        hook_lookup(hooks, hooks[i].0@) == Some(hooks[i].1),
    decreases hooks.len(),
{
    if i != hooks.len() - 1 {
        assert(hooks[hooks.len() - 1] == hooks.last());
        assert(hooks[i].0@ != hooks[hooks.len() - 1].0@);
        assert(hooks.drop_last()[i] == hooks[i]);
        lookup_present(hooks.drop_last(), i);
    }
}

/// Manages the Rhai scripting engine with taimen-specific server functions.
pub struct TaimenScripting {
    engine: ScriptEngine,
    /// Compiled event hook scripts, each under its event name.
    hooks: Vec<(String, CompiledHook)>,
}

impl TaimenScripting {
    /// The hook registered under `name`, if any.
    pub closed spec fn hook(self, name: Seq<char>) -> Option<CompiledHook> {
        hook_lookup(self.hooks@, name)
    }

    /// The script text of the hook registered under `name`, if any.
    pub open spec fn hook_source(self, name: Seq<char>) -> Option<Seq<char>> {
        match self.hook(name) {
            Some(h) => Some(h.source@),
            None => None,
        }
    }

    /// The registry's invariant: no two hooks share a name.
    pub closed spec fn wf(self) -> bool {
        names_unique(self.hooks@)
    }

    /// The engine that runs the scripts.
    pub closed spec fn engine(self) -> ScriptEngine {
        self.engine
    }

    /// Wraps a configured engine, with no hook registered yet.
    pub fn new(engine: ScriptEngine) -> (s: TaimenScripting)
        ensures
            s.wf(),
            s.engine() == engine,
            forall|name: Seq<char>| s.hook(name) is None,
    {
        TaimenScripting { engine, hooks: Vec::new() }
    }

    /// The engine, for loading script files into it.
    pub fn engine_mut(&mut self) -> (e: &mut ScriptEngine)
        requires
            old(self).wf(),
        ensures
            *e == old(self).engine(),
            final(self).engine() == *final(e),
            final(self).wf(),
            forall|n: Seq<char>| #[trigger] final(self).hook(n) == old(self).hook(n),
    {
        &mut self.engine
    }

    /// The position of the hook registered under `name`, if any.
    fn find(&self, name: &String) -> (r: Option<usize>)
        ensures
            r matches Some(i) ==> i < self.hooks@.len() && self.hooks@[i as int].0@ == name@,
            r is None ==> forall|i: int| 0 <= i < self.hooks@.len() ==> (#[trigger] self.hooks@[i]).0@ != name@,
    {
        let mut i: usize = 0;
        while i < self.hooks.len()
            invariant
                0 <= i <= self.hooks@.len(),
                forall|j: int| 0 <= j < i ==> (#[trigger] self.hooks@[j]).0@ != name@,
            decreases self.hooks.len() - i,
        {
            if self.hooks[i].0 == *name {
                return Some(i);
            }
            i = i + 1;
        }
        None
    }

    /// Keeps `hook` as the hook of `name`, replacing any hook of that name.
    fn put_hook(&mut self, name: String, hook: CompiledHook)
        requires
            old(self).wf(),
        ensures
            final(self).wf(),
            final(self).engine() == old(self).engine(),
            forall|n: Seq<char>| #[trigger] final(self).hook(n) == if n == name@ {
                Some(hook)
            } else {
                old(self).hook(n)
            },
    {
        let ghost key = name@;
        match self.find(&name) {
            Some(i) => {
                let ghost before = self.hooks@;
                self.hooks.set(i, (name, hook));
                proof {
                    assert forall|n: Seq<char>| #[trigger] self.hook(n) == if n == key {
                        Some(hook)
                    } else {
                        hook_lookup(before, n)
                    } by {
                        lookup_after_replace(before, i as int, (name, hook), n);
                    }
                    assert forall|a: int, b: int| 0 <= a < b < self.hooks@.len() implies
                        #[trigger] self.hooks@[a].0@ != #[trigger] self.hooks@[b].0@ by {
                        assert(before[a].0@ != before[b].0@);
                    }
                }
            },
            None => {
                let ghost before = self.hooks@;
                self.hooks.push((name, hook));
                proof {
                    assert(self.hooks@.drop_last() =~= before);
                    assert forall|a: int, b: int| 0 <= a < b < self.hooks@.len() implies
                        #[trigger] self.hooks@[a].0@ != #[trigger] self.hooks@[b].0@ by {
                        if b == self.hooks@.len() - 1 {
                            assert(before[a].0@ != key);
                        } else {
                            assert(before[a].0@ != before[b].0@);
                        }
                    }
                }
            },
        }
    }

    /// Register an event hook script: compiles `script` and, when it
    /// compiles, keeps it as the hook of `event_name`, replacing any earlier one.
    pub fn register_hook(&mut self, event_name: &str, script: &str) -> (r: Result<(), SoushiError>)
        requires
            old(self).wf(),
        ensures
            final(self).wf(),
            final(self).engine() == old(self).engine(),
            r is Err ==> forall|n: Seq<char>| #[trigger] final(self).hook(n) == old(self).hook(n),
            r is Ok ==> final(self).hook_source(event_name@) == Some(script@),
            r is Ok ==> forall|n: Seq<char>| n != event_name@ ==> #[trigger] final(self).hook(n) == old(self).hook(n),
    {
        let compiled = compile_hook(&self.engine, script)?;
        self.put_hook(event_name.to_owned(), compiled);
        Ok(())
    }

    /// The hook that an event runs: the one registered under its name.
    pub fn hook_for(&self, event: &ScriptEvent) -> (r: Option<&CompiledHook>)
        requires
            self.wf(),
        ensures
            r matches Some(h) ==> self.hook(event.hook_key()) == Some(*h),
            r is None ==> self.hook(event.hook_key()) is None,
    {
        let key = event.hook_name().to_owned();
        match self.find(&key) {
            Some(i) => {
                proof {
                    lookup_present(self.hooks@, i as int);
                }
                Some(&self.hooks[i].1)
            },
            None => {
                proof {
                    lookup_absent(self.hooks@, key@);
                }
                None
            },
        }
    }

    /// Fire an event: runs the hook registered under its name, if any, and
    /// hands back that run (whose outcome the caller may log); nothing runs,
    /// and nothing is handed back, when no hook is registered.
    pub fn fire_event(&self, event: &ScriptEvent) -> (ran: Option<HookRun>)
        requires
            self.wf(),
        ensures
            ran is None <==> self.hook(event.hook_key()) is None,
            ran matches Some(run) ==> self.hook_source(event.hook_key()) == Some(run.source@),
    {
        match self.hook_for(event) {
            Some(hook) => Some(run_hook(&self.engine, hook)),
            None => None,
        }
    }

    /// Evaluate an ad-hoc script string.
    pub fn eval(&self, script: &str) -> Result<Dynamic, SoushiError> {
        eval_script(&self.engine, script)
    }
}

} // verus!
