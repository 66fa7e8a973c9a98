//! How the backend's commands are invoked: one place that knows the shape
//! of the argument list on each platform.

use vstd::prelude::*;
use vstd::string::*;
use crate::platform::TargetOs;

verus! {

/// The directory, under the user's data directory, that holds the database.
pub const STORAGE_DIR: &'static str = "storage";

/// The port the backend listens on.
pub const BACKEND_PORT: &'static str = "3000";

/// The address the backend binds to: loopback only.
pub const BACKEND_ADDRESS: &'static str = "127.0.0.1";

/// Seconds granted to the backend to begin listening after it was spawned.
pub const STARTUP_GRACE_SECS: u64 = 3;

/// The program that looks for the baseline table.
pub const VERIFY_SCRIPT: &'static str =
    "require_relative 'config/environment'; puts User.table_exists? ? 'Database verified' : 'Database missing tables'";

/// What the backend can be asked to do.
#[derive(Clone, Copy, Debug, PartialEq, Eq, Structural)]
pub enum BackendTask {
    CreateDatabase,
    LoadSchema,
    RunMigrations,
    VerifyBaseline,
    Serve,
}

/// A command line with the environment it runs in.
#[derive(Clone, Debug, PartialEq, Eq)]
pub struct Invocation {
    pub program: String,
    pub args: Vec<String>,
    pub env: Vec<(String, String)>,
}

/// What the contracts see of an `Invocation`.
pub struct InvocationView {
    pub program: Seq<char>,
    pub args: Seq<Seq<char>>,
    pub env: Seq<(Seq<char>, Seq<char>)>,
}

/// The texts of a list of strings.
pub open spec fn texts(strings: Seq<String>) -> Seq<Seq<char>> {
    Seq::new(strings.len(), |at: int| strings[at]@)
}

/// The texts of a list of pairs of strings.
pub open spec fn pair_texts(pairs: Seq<(String, String)>) -> Seq<(Seq<char>, Seq<char>)> {
    Seq::new(pairs.len(), |at: int| (pairs[at].0@, pairs[at].1@))
}

impl View for Invocation {
    type V = InvocationView;

    open spec fn view(&self) -> InvocationView {
        InvocationView {
            program: self.program@,
            args: texts(self.args@),
            env: pair_texts(self.env@),
        }
    }
}

/// The name of the database file of `mode`.
pub open spec fn database_file(mode: Seq<char>) -> Seq<char> {
    mode + ".sqlite3"@
}

/// The location handed to the backend for the database at `path`.
pub open spec fn database_location(path: Seq<char>) -> Seq<char> {
    "sqlite3://"@ + path
}

/// The arguments the interpreter gets for `task` in `mode`.
pub open spec fn task_args(task: BackendTask, mode: Seq<char>) -> Seq<Seq<char>> {
    match task {
        BackendTask::CreateDatabase => seq!["bin/rails"@, "db:create"@],
        BackendTask::LoadSchema => seq!["bin/rails"@, "db:schema:load"@],
        BackendTask::RunMigrations => seq!["bin/rails"@, "db:migrate"@],
        BackendTask::VerifyBaseline => seq!["-e"@, VERIFY_SCRIPT@],
        BackendTask::Serve => seq![
            "bin/rails"@,
            "server"@,
            "-p"@,
            BACKEND_PORT@,
            "-b"@,
            BACKEND_ADDRESS@,
            "-e"@,
            mode,
        ],
    }
}

/// The invocation of `task` on `os`. Windows reaches the interpreter
/// through its command shell; everywhere else it is called directly. The
/// environment names the runtime mode and the database.
pub open spec fn invocation_of(
    os: TargetOs,
    task: BackendTask,
    mode: Seq<char>,
    database_url: Seq<char>,
) -> InvocationView {
    InvocationView {
        program: if os == TargetOs::Windows {
            "cmd"@
        } else {
            "ruby"@
        },
        args: if os == TargetOs::Windows {
            seq!["/C"@, "ruby"@] + task_args(task, mode)
        } else {
            task_args(task, mode)
        },
        env: seq![("RAILS_ENV"@, mode), ("DATABASE_URL"@, database_url)],
    }
}

/// Name of the database file of `mode`.
pub fn database_file_name(mode: &str) -> (name: String)
    ensures
        name@ == database_file(mode@),
{
    let mut name = mode.to_string();
    name.append(".sqlite3");
    name
}

/// The location of the database at `path`, as the backend wants it.
pub fn database_url(path: &str) -> (url: String)
    ensures
        url@ == database_location(path@),
{
    let mut url = "sqlite3://".to_string();
    url.append(path);
    url
}

fn push_text(list: &mut Vec<String>, text: &str)
    ensures
        texts(final(list)@) == texts(old(list)@).push(text@),
{
    list.push(text.to_string());
    assert(texts(list@) =~= texts(old(list)@).push(text@));
}

/// Builds the invocation of `task` on `os`, for the backend in `mode` with
/// its database at `database_url`.
pub fn build_invocation(
    os: TargetOs,
    task: BackendTask,
    mode: &str,
    database_url: &str,
) -> (built: Invocation)
    ensures
        built@ == invocation_of(os, task, mode@, database_url@),
{
    let windows = match os {
        TargetOs::Windows => true,
        _ => false,
    };
    let mut args: Vec<String> = Vec::new();
    assert(texts(args@) =~= Seq::<Seq<char>>::empty());
    if windows {
        push_text(&mut args, "/C");
        push_text(&mut args, "ruby");
    }
    let ghost shell = texts(args@);
    assert(shell =~= if windows {
        seq!["/C"@, "ruby"@]
    } else {
        Seq::<Seq<char>>::empty()
    });
    match task {
        BackendTask::CreateDatabase => {
            push_text(&mut args, "bin/rails");
            push_text(&mut args, "db:create");
        },
        BackendTask::LoadSchema => {
            push_text(&mut args, "bin/rails");
            push_text(&mut args, "db:schema:load");
        },
        BackendTask::RunMigrations => {
            push_text(&mut args, "bin/rails");
            push_text(&mut args, "db:migrate");
        },
        BackendTask::VerifyBaseline => {
            push_text(&mut args, "-e");
            push_text(&mut args, VERIFY_SCRIPT);
        },
        BackendTask::Serve => {
            push_text(&mut args, "bin/rails");
            push_text(&mut args, "server");
            push_text(&mut args, "-p");
            push_text(&mut args, BACKEND_PORT);
            push_text(&mut args, "-b");
            push_text(&mut args, BACKEND_ADDRESS);
            push_text(&mut args, "-e");
            push_text(&mut args, mode);
        },
    }
    assert(texts(args@) =~= shell + task_args(task, mode@));
    assert(Seq::<Seq<char>>::empty() + task_args(task, mode@) =~= task_args(task, mode@));
    let mut env: Vec<(String, String)> = Vec::new();
    env.push(("RAILS_ENV".to_string(), mode.to_string()));
    env.push(("DATABASE_URL".to_string(), database_url.to_string()));
    assert(pair_texts(env@) =~= seq![("RAILS_ENV"@, mode@), ("DATABASE_URL"@, database_url@)]);
    let program = if windows {
        "cmd".to_string()
    } else {
        "ruby".to_string()
    };
    Invocation { program, args, env }
}

} // verus!
