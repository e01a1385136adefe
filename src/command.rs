use vstd::prelude::*;

verus! {

/// Why a command could not be resolved to an executable.
#[derive(Debug, Clone)]
pub enum ExecutorError {
    /// No executable of that name exists; the remedy is to install it.
    ExecutableNotFound { program: String },
    /// Any other failure.
    Generic(String),
}

/// No two pairs of `env` share a key.
pub open spec fn keys_unique(env: Seq<(String, String)>) -> bool {
    forall|i: int, j: int|
        0 <= i < env.len() && 0 <= j < env.len() && i != j ==> (#[trigger] env[i]).0@ != (#[trigger] env[j]).0@
}

/// `env` after setting `key` to `value`: an existing key keeps its place and takes the new
/// value, a new key goes last.
pub open spec fn env_set(env: Seq<(String, String)>, key: String, value: String) -> Seq<(String, String)> {
    if exists|i: int| 0 <= i < env.len() && (#[trigger] env[i]).0@ == key@ {
        let i = choose|i: int| 0 <= i < env.len() && (#[trigger] env[i]).0@ == key@;
        env.update(i, (key, value))
    } else {
        env.push((key, value))
    }
}

/// A program with its arguments and environment, before resolution.
pub struct CommandBuilder {
    command: String,
    args: Vec<String>,
    env: Vec<(String, String)>,
}

/// What a builder hands on for resolution.
pub struct CommandParts {
    pub command: String,
    pub args: Vec<String>,
    /// Environment variables in the order they were first set; keys are unique.
    pub env: Vec<(String, String)>,
}

impl CommandBuilder {
    pub closed spec fn command(&self) -> String {
        self.command
    }

    pub closed spec fn args(&self) -> Seq<String> {
        self.args@
    }

    pub closed spec fn env_pairs(&self) -> Seq<(String, String)> {
        self.env@
    }

    pub closed spec fn wf(&self) -> bool {
        keys_unique(self.env@)
    }

    pub fn new(command: String) -> (r: Self)
        ensures
            r.wf(),
            r.command() == command,
            r.args().len() == 0,
            r.env_pairs().len() == 0,
    {
        CommandBuilder { command, args: Vec::new(), env: Vec::new() }
    }

    /// Appends one argument.
    pub fn arg(self, arg: String) -> (r: Self)
        requires
            self.wf(),
        ensures
            r.wf(),
            r.command() == self.command(),
            r.args() == self.args().push(arg),
            r.env_pairs() == self.env_pairs(),
    {
        let mut b = self;
        b.args.push(arg);
        b
    }

    /// Sets one environment variable; setting a key again replaces its value.
    pub fn env(self, key: String, value: String) -> (r: Self)
        requires
            self.wf(),
        ensures
            r.wf(),
            r.command() == self.command(),
            r.args() == self.args(),
            r.env_pairs() == env_set(self.env_pairs(), key, value),
    {
        let mut b = self;
        let n = b.env.len();
        let mut i: usize = 0;
        while i < n
            invariant
                0 <= i <= n,
                n == b.env@.len(),
                b.env@ == self.env@,
                b.command == self.command,
                b.args@ == self.args@,
                keys_unique(self.env@),
                forall|k: int| 0 <= k < i ==> (#[trigger] b.env@[k]).0@ != key@,
            decreases n - i,
        {
            if b.env[i].0 == key {
                assert(self.env@[i as int].0@ == key@);
                let _previous = b.env.remove(i);
                b.env.insert(i, (key, value));
                proof {
                    let e = self.env@;
                    let j = choose|j: int| 0 <= j < e.len() && (#[trigger] e[j]).0@ == key@;
                    if j != i {
                        assert(e[j].0@ != e[i as int].0@);
                    }
                    assert(b.env@ =~= e.update(i as int, (key, value)));
                    assert forall|p: int, q: int|
                        0 <= p < b.env@.len() && 0 <= q < b.env@.len() && p != q
                            implies (#[trigger] b.env@[p]).0@ != (#[trigger] b.env@[q]).0@ by {
                        assert(b.env@[p].0@ == e[p].0@);
                        assert(b.env@[q].0@ == e[q].0@);
                    }
                }
                return b;
            }
            i += 1;
        }
        b.env.push((key, value));
        proof {
            let e = self.env@;
            assert forall|p: int, q: int|
                0 <= p < b.env@.len() && 0 <= q < b.env@.len() && p != q
                    implies (#[trigger] b.env@[p]).0@ != (#[trigger] b.env@[q]).0@ by {
                if p < n {
                    assert(b.env@[p] == e[p]);
                }
                if q < n {
                    assert(b.env@[q] == e[q]);
                }
            }
        }
        b
    }

    /// Hands the parts on unchanged; building itself cannot fail.
    pub fn build_initial(self) -> (r: Result<CommandParts, String>)
        requires
            self.wf(),
        ensures
            r matches Ok(p) && p.command == self.command() && p.args@ == self.args() && p.env@
                == self.env_pairs() && keys_unique(p.env@),
    {
        Ok(CommandParts { command: self.command, args: self.args, env: self.env })
    }
}

impl CommandParts {
    /// Decides how the command resolves, given where a lookup found its executable (the path
    /// itself when absolute, else a search of PATH): not found is `ExecutableNotFound` for the
    /// command; found gives the executable's path with the arguments.
    pub fn resolve_with(self, found: Option<String>) -> (r: Result<(String, Vec<String>), ExecutorError>)
        ensures
            found is None ==> (r matches Err(ExecutorError::ExecutableNotFound { program })
                && program == self.command),
            found matches Some(path) ==> (r matches Ok((c, a)) && c == path && a == self.args),
    {
        match found {
            None => Err(ExecutorError::ExecutableNotFound { program: self.command }),
            Some(path) => Ok((path, self.args)),
        }
    }
}

} // verus!
