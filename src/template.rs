use vstd::prelude::*;

verus! {

/// One word of a task template: either literal text, or the name of a
/// variable that the task context supplies.
pub enum TemplateToken {
    Literal(String),
    Variable(String),
}

/// An unresolved, declarative description of something to run.
pub struct TaskTemplate {
    pub label: String,
    pub command: TemplateToken,
    pub args: Vec<TemplateToken>,
    pub cwd: Option<TemplateToken>,
}

/// The environment a template is resolved in. A later binding of a variable
/// overrides an earlier one.
pub struct TaskContext {
    pub cwd: Option<String>,
    pub task_variables: Vec<(String, String)>,
}

/// Where a template came from.
pub enum TaskSourceKind {
    /// Typed in by the user; its id base is `"oneshot"`.
    UserInput,
    /// A task file at an absolute path.
    AbsPath { id_base: String, abs_path: String },
    /// A task file inside a worktree.
    Worktree { id: u64, directory_in_worktree: String, id_base: String },
    /// Tasks that a language contributes.
    Language { name: String },
}

/// A fully concrete request, ready to be run in a terminal.
pub struct SpawnInTerminal {
    pub label: String,
    pub command: String,
    pub args: Vec<String>,
    pub cwd: Option<String>,
}

/// A template after resolution, with the id base of its source.
pub struct ResolvedTask {
    pub id_base: String,
    pub resolved: SpawnInTerminal,
}

pub ghost struct SpawnView {
    pub label: Seq<char>,
    pub command: Seq<char>,
    pub args: Seq<Seq<char>>,
    pub cwd: Option<Seq<char>>,
}

pub ghost struct ResolvedView {
    pub id_base: Seq<char>,
    pub resolved: SpawnView,
}

pub open spec fn strings_view(v: Seq<String>) -> Seq<Seq<char>> {
    v.map_values(|s: String| s@)
}

pub open spec fn option_view(o: Option<String>) -> Option<Seq<char>> {
    match o {
        Some(s) => Some(s@),
        None => None,
    }
}

impl View for SpawnInTerminal {
    type V = SpawnView;

    open spec fn view(&self) -> SpawnView {
        SpawnView {
            label: self.label@,
            command: self.command@,
            args: strings_view(self.args@),
            cwd: option_view(self.cwd),
        }
    }
}

impl View for ResolvedTask {
    type V = ResolvedView;

    open spec fn view(&self) -> ResolvedView {
        ResolvedView { id_base: self.id_base@, resolved: self.resolved@ }
    }
}

/// The value bound to `name`: the last binding wins.
pub open spec fn lookup_variable(vars: Seq<(String, String)>, name: Seq<char>) -> Option<
    Seq<char>,
>
    decreases vars.len(),
{
    if vars.len() == 0 {
        None
    } else if vars.last().0@ == name {
        Some(vars.last().1@)
    } else {
        lookup_variable(vars.drop_last(), name)
    }
}

pub open spec fn resolve_token_spec(t: TemplateToken, vars: Seq<(String, String)>) -> Option<
    Seq<char>,
> {
    match t {
        TemplateToken::Literal(s) => Some(s@),
        TemplateToken::Variable(n) => lookup_variable(vars, n@),
    }
}

/// Every token resolved in order, or nothing if one of them is unbound.
pub open spec fn resolve_tokens_spec(ts: Seq<TemplateToken>, vars: Seq<(String, String)>) -> Option<
    Seq<Seq<char>>,
>
    decreases ts.len(),
{
    if ts.len() == 0 {
        Some(Seq::empty())
    } else {
        match (resolve_tokens_spec(ts.drop_last(), vars), resolve_token_spec(ts.last(), vars)) {
            (Some(init), Some(w)) => Some(init.push(w)),
            _ => None,
        }
    }
}

pub open spec fn id_base_spec(kind: TaskSourceKind) -> Seq<char> {
    match kind {
        TaskSourceKind::UserInput => seq!['o', 'n', 'e', 's', 'h', 'o', 't'],
        TaskSourceKind::AbsPath { id_base, .. } => id_base@,
        TaskSourceKind::Worktree { id_base, .. } => id_base@,
        TaskSourceKind::Language { name } => name@,
    }
}

/// Resolution of `t` under `cx` for a source with id base `id_base`. It fails
/// on an empty id base, on an unbound variable, and on an empty command. A
/// template without a working directory takes the context's.
pub open spec fn resolve_spec(t: TaskTemplate, id_base: Seq<char>, cx: TaskContext) -> Option<
    ResolvedView,
> {
    let vars = cx.task_variables@;
    if id_base.len() == 0 {
        None
    } else {
        match (
            resolve_token_spec(t.command, vars),
            resolve_tokens_spec(t.args@, vars),
            t.cwd,
        ) {
            (Some(command), Some(args), None) => if command.len() == 0 {
                None
            } else {
                Some(
                    ResolvedView {
                        id_base,
                        resolved: SpawnView {
                            label: t.label@,
                            command,
                            args,
                            cwd: option_view(cx.cwd),
                        },
                    },
                )
            },
            (Some(command), Some(args), Some(c)) => match resolve_token_spec(c, vars) {
                Some(cwd) => if command.len() == 0 {
                    None
                } else {
                    Some(
                        ResolvedView {
                            id_base,
                            resolved: SpawnView { label: t.label@, command, args, cwd: Some(cwd) },
                        },
                    )
                },
                None => None,
            },
            _ => None,
        }
    }
}

pub fn clone_option_string(o: &Option<String>) -> (r: Option<String>)
    ensures
        option_view(r) == option_view(*o),
{
    match o {
        Some(s) => Some(s.clone()),
        None => None,
    }
}

pub fn clone_strings(v: &Vec<String>) -> (r: Vec<String>)
    ensures
        strings_view(r@) == strings_view(v@),
{
    let mut r: Vec<String> = Vec::new();
    let mut i: usize = 0;
    while i < v.len()
        invariant
            i <= v.len(),
            r@.len() == i,
            forall|j: int| 0 <= j < i ==> r@[j]@ == v@[j]@,
        decreases v.len() - i,
    {
        r.push(v[i].clone());
        i = i + 1;
    }
    assert(strings_view(r@) =~= strings_view(v@));
    r
}

impl SpawnInTerminal {
    /// A copy of this request.
    pub fn duplicate(&self) -> (r: SpawnInTerminal)
        ensures
            r@ == self@,
    {
        SpawnInTerminal {
            label: self.label.clone(),
            command: self.command.clone(),
            args: clone_strings(&self.args),
            cwd: clone_option_string(&self.cwd),
        }
    }
}

impl TaskSourceKind {
    /// The prefix that identifies tasks of this source.
    pub fn to_id_base(&self) -> (r: String)
        ensures
            r@ == id_base_spec(*self),
    {
        match self {
            TaskSourceKind::UserInput => {
                proof {
                    reveal_strlit("oneshot");
                }
                "oneshot".to_owned()
            },
            TaskSourceKind::AbsPath { id_base, .. } => id_base.clone(),
            TaskSourceKind::Worktree { id_base, .. } => id_base.clone(),
            TaskSourceKind::Language { name } => name.clone(),
        }
    }
}

/// The value that `cx` binds to `name`, if any.
pub fn lookup_task_variable(cx: &TaskContext, name: &String) -> (r: Option<String>)
    ensures
        option_view(r) == lookup_variable(cx.task_variables@, name@),
{
    let vars = &cx.task_variables;
    let mut i: usize = vars.len();
    assert(vars@.take(i as int) =~= vars@);
    while i > 0
        invariant
            i <= vars.len(),
            vars@ == cx.task_variables@,
            lookup_variable(vars@, name@) == lookup_variable(vars@.take(i as int), name@),
        decreases i,
    {
        assert(vars@.take(i as int).drop_last() =~= vars@.take(i - 1));
        assert(vars@.take(i as int).last() == vars@[i - 1]);
        if vars[i - 1].0 == *name {
            return Some(vars[i - 1].1.clone());
        }
        i = i - 1;
    }
    assert(vars@.take(0) =~= Seq::<(String, String)>::empty());
    None
}

impl TemplateToken {
    /// The text of this token under `cx`, or nothing for an unbound variable.
    pub fn resolve(&self, cx: &TaskContext) -> (r: Option<String>)
        ensures
            option_view(r) == resolve_token_spec(*self, cx.task_variables@),
    {
        match self {
            TemplateToken::Literal(s) => Some(s.clone()),
            TemplateToken::Variable(n) => lookup_task_variable(cx, n),
        }
    }
}

/// Every token of `ts` resolved under `cx`, or nothing if one is unbound.
pub fn resolve_tokens(ts: &Vec<TemplateToken>, cx: &TaskContext) -> (r: Option<Vec<String>>)
    ensures
        match r {
            Some(v) => resolve_tokens_spec(ts@, cx.task_variables@) == Some(strings_view(v@)),
            None => resolve_tokens_spec(ts@, cx.task_variables@) is None,
        },
{
    let mut out: Vec<String> = Vec::new();
    let mut i: usize = 0;
    while i < ts.len()
        invariant
            i <= ts.len(),
            resolve_tokens_spec(ts@.take(i as int), cx.task_variables@) == Some(
                strings_view(out@),
            ),
        decreases ts.len() - i,
    {
        assert(ts@.take(i + 1).drop_last() =~= ts@.take(i as int));
        match ts[i].resolve(cx) {
            Some(w) => {
                out.push(w);
            },
            None => {
                proof {
                    lemma_unresolved_prefix(ts@, cx.task_variables@, i + 1);
                }
                return None;
            },
        }
        i = i + 1;
    }
    assert(ts@.take(ts.len() as int) =~= ts@);
    Some(out)
}

/// Once a prefix fails to resolve, every longer prefix fails too.
proof fn lemma_unresolved_prefix(ts: Seq<TemplateToken>, vars: Seq<(String, String)>, n: int)
    requires
        0 <= n <= ts.len(),
        resolve_tokens_spec(ts.take(n), vars) is None,
    ensures
        resolve_tokens_spec(ts, vars) is None,
    decreases ts.len() - n,
{
    if n < ts.len() {
        assert(ts.take(n + 1).drop_last() =~= ts.take(n));
        lemma_unresolved_prefix(ts, vars, n + 1);
    } else {
        assert(ts.take(n) =~= ts);
    }
}

impl TaskTemplate {
    /// Resolves this template under `cx` for a source with id base `id_base`.
    /// Calling it again on the same inputs gives an equal result.
    pub fn resolve_task(&self, id_base: &String, cx: &TaskContext) -> (r: Option<ResolvedTask>)
        ensures
            match r {
                Some(t) => resolve_spec(*self, id_base@, *cx) == Some(t@),
                None => resolve_spec(*self, id_base@, *cx) is None,
            },
    {
        if id_base.as_str().is_empty() {
            return None;
        }
        let command = match self.command.resolve(cx) {
            Some(c) => c,
            None => return None,
        };
        let args = match resolve_tokens(&self.args, cx) {
            Some(a) => a,
            None => return None,
        };
        let cwd = match &self.cwd {
            Some(c) => match c.resolve(cx) {
                Some(d) => Some(d),
                None => return None,
            },
            None => clone_option_string(&cx.cwd),
        };
        if command.as_str().is_empty() {
            return None;
        }
        Some(
            ResolvedTask {
                id_base: id_base.clone(),
                resolved: SpawnInTerminal { label: self.label.clone(), command, args, cwd },
            },
        )
    }
}

} // verus!
