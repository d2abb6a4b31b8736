//! Text replies and argument suggestions for the editor's slash commands.
use vstd::prelude::*;
use vstd::string::*;

verus! {

/// Name of the command that suggests an artisan `make:` invocation.
pub const MAKE_COMMAND: &'static str = "laravel:make";

/// Name of the command that shows how to list the routes.
pub const ROUTES_COMMAND: &'static str = "laravel:routes";

/// Name of the command that suggests a migration invocation.
pub const MIGRATE_COMMAND: &'static str = "laravel:migrate";

/// Reply to the make command when no arguments were given.
pub const MAKE_USAGE: &'static str = "Usage: /laravel:make <type> <name> [options]\n\nExamples:\n  /laravel:make model User --migration --factory\n  /laravel:make controller UserController --resource\n  /laravel:make migration create_posts_table\n  /laravel:make livewire Counter\n  /laravel:make request StoreUserRequest\n  /laravel:make middleware EnsureTokenIsValid";

/// Text placed before the joined arguments of the make command.
pub const MAKE_PREFIX: &'static str = "Run this artisan command in your Laravel project:\n\n```bash\nphp artisan make:";

/// Text placed after the joined arguments of the make command.
pub const MAKE_SUFFIX: &'static str = "\n```\n\nThis will generate the corresponding Laravel file with the proper boilerplate.";

/// Reply to the routes command.
pub const ROUTES_REPLY: &'static str = "Run this command to see all registered routes:\n\n```bash\nphp artisan route:list\n```";

/// Opening of a shell code block.
pub const FENCE_OPEN: &'static str = "```bash\n";

/// Closing of a shell code block.
pub const FENCE_CLOSE: &'static str = "\n```";

/// Start of the reply to a command that this extension does not know.
pub const UNKNOWN_PREFIX: &'static str = "Unknown command: ";

/// One suggestion offered while the user types a command's arguments.
#[derive(Debug)]
pub struct ArgumentCompletion {
    pub label: String,
    pub new_text: String,
    pub run_command: bool,
}

impl View for ArgumentCompletion {
    type V = (Seq<char>, Seq<char>, bool);

    open spec fn view(&self) -> (Seq<char>, Seq<char>, bool) {
        (self.label@, self.new_text@, self.run_command)
    }
}

/// The character sequences held by a list of strings.
pub open spec fn texts(v: Seq<String>) -> Seq<Seq<char>> {
    v.map_values(|s: String| s@)
}

/// The views of a list of suggestions.
pub open spec fn completion_views(v: Seq<ArgumentCompletion>) -> Seq<(Seq<char>, Seq<char>, bool)> {
    v.map_values(|c: ArgumentCompletion| c@)
}

/// The words joined with one space between neighbours.
pub open spec fn join_spaces(words: Seq<Seq<char>>) -> Seq<char>
    decreases words.len(),
{
    if words.len() == 0 {
        Seq::empty()
    } else if words.len() == 1 {
        words[0]
    } else {
        join_spaces(words.drop_last()) + " "@ + words.last()
    }
}

/// A shell command shown as a code block.
pub open spec fn fenced(cmd: Seq<char>) -> Seq<char> {
    FENCE_OPEN@ + cmd + FENCE_CLOSE@
}

/// The migration action asked for: the first argument, `status` without one.
pub open spec fn migrate_action(args: Seq<Seq<char>>) -> Seq<char> {
    if args.len() == 0 {
        "status"@
    } else {
        args[0]
    }
}

/// The artisan command that a migration action stands for.
pub open spec fn migrate_command_for(action: Seq<char>) -> Seq<char> {
    if action == "fresh"@ {
        "php artisan migrate:fresh"@
    } else if action == "rollback"@ {
        "php artisan migrate:rollback"@
    } else if action == "reset"@ {
        "php artisan migrate:reset"@
    } else if action == "status"@ {
        "php artisan migrate:status"@
    } else {
        "php artisan migrate"@
    }
}

/// The reply to the slash command `name` run with `args`.
pub open spec fn slash_reply(name: Seq<char>, args: Seq<Seq<char>>) -> Seq<char> {
    if name == MAKE_COMMAND@ {
        if join_spaces(args).len() == 0 {
            MAKE_USAGE@
        } else {
            MAKE_PREFIX@ + join_spaces(args) + MAKE_SUFFIX@
        }
    } else if name == ROUTES_COMMAND@ {
        ROUTES_REPLY@
    } else if name == MIGRATE_COMMAND@ {
        fenced(migrate_command_for(migrate_action(args)))
    } else {
        UNKNOWN_PREFIX@ + name
    }
}

/// A suggestion for the first argument of the make command: the kind,
/// followed by a space, without running the command.
pub open spec fn make_suggestion(kind: Seq<char>) -> (Seq<char>, Seq<char>, bool) {
    (kind, kind + " "@, false)
}

/// A suggestion of a migration action, which runs the command at once.
pub open spec fn migrate_suggestion(action: Seq<char>) -> (Seq<char>, Seq<char>, bool) {
    (action, action, true)
}

/// The suggestions for the make command's first argument.
pub open spec fn make_suggestions() -> Seq<(Seq<char>, Seq<char>, bool)> {
    seq![
        make_suggestion("model"@),
        make_suggestion("controller"@),
        make_suggestion("migration"@),
        make_suggestion("request"@),
        make_suggestion("resource"@),
        make_suggestion("middleware"@),
        make_suggestion("seeder"@),
        make_suggestion("factory"@),
        make_suggestion("policy"@),
        make_suggestion("event"@),
        make_suggestion("listener"@),
        make_suggestion("job"@),
        make_suggestion("mail"@),
        make_suggestion("notification"@),
        make_suggestion("livewire"@),
        make_suggestion("rule"@),
        make_suggestion("test"@),
    ]
}

/// The suggestions for the migrate command's argument.
pub open spec fn migrate_suggestions() -> Seq<(Seq<char>, Seq<char>, bool)> {
    seq![
        migrate_suggestion("run"@),
        migrate_suggestion("fresh"@),
        migrate_suggestion("rollback"@),
        migrate_suggestion("status"@),
    ]
}

/// The suggestions for the command `name` when `n_args` arguments are given.
pub open spec fn suggestions_for(name: Seq<char>, n_args: nat) -> Seq<(Seq<char>, Seq<char>, bool)> {
    if name == MAKE_COMMAND@ {
        if n_args == 0 {
            make_suggestions()
        } else {
            Seq::empty()
        }
    } else if name == MIGRATE_COMMAND@ {
        migrate_suggestions()
    } else {
        Seq::empty()
    }
}

/// The three command names are distinct.
proof fn lemma_command_names_differ()
    ensures
        MAKE_COMMAND@ != ROUTES_COMMAND@,
        MAKE_COMMAND@ != MIGRATE_COMMAND@,
        ROUTES_COMMAND@ != MIGRATE_COMMAND@,
{
    reveal_strlit("laravel:make");
    reveal_strlit("laravel:routes");
    reveal_strlit("laravel:migrate");
    assert(MAKE_COMMAND@[8] != ROUTES_COMMAND@[8]);
    assert(MAKE_COMMAND@[9] != MIGRATE_COMMAND@[9]);
    assert(ROUTES_COMMAND@[8] != MIGRATE_COMMAND@[8]);
}

/// The named migration actions are distinct.
proof fn lemma_actions_differ()
    ensures
        "fresh"@ != "rollback"@,
        "fresh"@ != "reset"@,
        "fresh"@ != "status"@,
        "rollback"@ != "reset"@,
        "rollback"@ != "status"@,
        "reset"@ != "status"@,
{
    reveal_strlit("fresh");
    reveal_strlit("rollback");
    reveal_strlit("reset");
    reveal_strlit("status");
    assert("fresh"@[1] != "reset"@[1]);
    assert("rollback"@.len() != "status"@.len());
}

/// Whether `text` holds exactly the characters of `lit`.
fn text_is(text: &str, lit: &str) -> (r: bool)
    ensures
        r == (text@ == lit@),
{
    let a = text.to_owned();
    let b = lit.to_owned();
    a == b
}

/// The arguments joined with one space between neighbours.
pub fn join_args(args: &Vec<String>) -> (r: String)
    ensures
        r@ == join_spaces(texts(args@)),
{
    let mut out = String::new();
    let mut i: usize = 0;
    while i < args.len()
        invariant
            i <= args@.len(),
            out@ == join_spaces(texts(args@).take(i as int)),
        decreases args@.len() - i,
    {
        let ghost before = texts(args@).take(i as int);
        let ghost after = texts(args@).take(i as int + 1);
        assert(after.drop_last() =~= before);
        if i > 0 {
            out.append(" ");
        } else {
            assert(before =~= Seq::<Seq<char>>::empty());
        }
        out.append(args[i].as_str());
        i = i + 1;
    }
    assert(texts(args@).take(i as int) =~= texts(args@));
    out
}

/// A shell command shown as a code block.
fn fence(cmd: &str) -> (r: String)
    ensures
        r@ == fenced(cmd@),
{
    let mut t = FENCE_OPEN.to_owned();
    t.append(cmd);
    t.append(FENCE_CLOSE);
    t
}

/// The artisan command that a migration action stands for.
fn migrate_command(action: &str) -> (r: &'static str)
    ensures
        r@ == migrate_command_for(action@),
{
    if text_is(action, "fresh") {
        "php artisan migrate:fresh"
    } else if text_is(action, "rollback") {
        "php artisan migrate:rollback"
    } else if text_is(action, "reset") {
        "php artisan migrate:reset"
    } else if text_is(action, "status") {
        "php artisan migrate:status"
    } else {
        "php artisan migrate"
    }
}

/// The text that the slash command `name` answers with, given its arguments.
/// An unknown name is no error: the reply says that the command is unknown.
pub fn run_slash_command(name: &String, args: &Vec<String>) -> (r: String)
    ensures
        r@ == slash_reply(name@, texts(args@)),
        name@ == MIGRATE_COMMAND@ && args@.len() == 0 ==> r@ == fenced(
            "php artisan migrate:status"@,
        ),
        name@ == MIGRATE_COMMAND@ && args@.len() > 0 && args@[0]@ == "fresh"@ ==> r@ == fenced(
            "php artisan migrate:fresh"@,
        ),
        name@ == MIGRATE_COMMAND@ && args@.len() > 0 && args@[0]@ == "rollback"@ ==> r@ == fenced(
            "php artisan migrate:rollback"@,
        ),
        name@ == MIGRATE_COMMAND@ && args@.len() > 0 && args@[0]@ == "reset"@ ==> r@ == fenced(
            "php artisan migrate:reset"@,
        ),
        name@ == MIGRATE_COMMAND@ && args@.len() > 0 && args@[0]@ != "fresh"@ && args@[0]@
            != "rollback"@ && args@[0]@ != "reset"@ && args@[0]@ != "status"@ ==> r@ == fenced(
            "php artisan migrate"@,
        ),
{
    proof {
        lemma_command_names_differ();
        lemma_actions_differ();
    }
    if text_is(name.as_str(), MAKE_COMMAND) {
        let joined = join_args(args);
        if joined.as_str().is_empty() {
            MAKE_USAGE.to_owned()
        } else {
            let mut t = MAKE_PREFIX.to_owned();
            t.append(joined.as_str());
            t.append(MAKE_SUFFIX);
            t
        }
    } else if text_is(name.as_str(), ROUTES_COMMAND) {
        ROUTES_REPLY.to_owned()
    } else if text_is(name.as_str(), MIGRATE_COMMAND) {
        let action: &str = if args.len() == 0 {
            "status"
        } else {
            args[0].as_str()
        };
        fence(migrate_command(action))
    } else {
        let mut t = UNKNOWN_PREFIX.to_owned();
        t.append(name.as_str());
        t
    }
}

/// Appends a suggestion of a make kind.
fn push_make(v: &mut Vec<ArgumentCompletion>, kind: &str)
    ensures
        completion_views(final(v)@) == completion_views(old(v)@).push(make_suggestion(kind@)),
{
    let label = kind.to_owned();
    let mut new_text = kind.to_owned();
    new_text.append(" ");
    v.push(ArgumentCompletion { label, new_text, run_command: false });
    assert(completion_views(final(v)@) =~= completion_views(old(v)@).push(make_suggestion(kind@)));
}

/// Appends a suggestion of a migration action.
fn push_migrate(v: &mut Vec<ArgumentCompletion>, action: &str)
    ensures
        completion_views(final(v)@) == completion_views(old(v)@).push(migrate_suggestion(action@)),
{
    let label = action.to_owned();
    let new_text = action.to_owned();
    v.push(ArgumentCompletion { label, new_text, run_command: true });
    assert(completion_views(final(v)@) =~= completion_views(old(v)@).push(
        migrate_suggestion(action@),
    ));
}

/// The suggestions offered for the arguments of the slash command `name`.
/// The make command offers its kinds only before any argument is given.
pub fn complete_slash_command_argument(name: &String, args: &Vec<String>) -> (r: Vec<
    ArgumentCompletion,
>)
    ensures
        completion_views(r@) == suggestions_for(name@, args@.len()),
        name@ == MAKE_COMMAND@ ==> (r@.len() > 0 <==> args@.len() == 0),
{
    let mut v: Vec<ArgumentCompletion> = Vec::new();
    assert(completion_views(v@) =~= Seq::empty());
    if text_is(name.as_str(), MAKE_COMMAND) {
        if args.len() == 0 {
            push_make(&mut v, "model");
            push_make(&mut v, "controller");
            push_make(&mut v, "migration");
            push_make(&mut v, "request");
            push_make(&mut v, "resource");
            push_make(&mut v, "middleware");
            push_make(&mut v, "seeder");
            push_make(&mut v, "factory");
            push_make(&mut v, "policy");
            push_make(&mut v, "event");
            push_make(&mut v, "listener");
            push_make(&mut v, "job");
            push_make(&mut v, "mail");
            push_make(&mut v, "notification");
            push_make(&mut v, "livewire");
            push_make(&mut v, "rule");
            push_make(&mut v, "test");
        }
    } else if text_is(name.as_str(), MIGRATE_COMMAND) {
        push_migrate(&mut v, "run");
        push_migrate(&mut v, "fresh");
        push_migrate(&mut v, "rollback");
        push_migrate(&mut v, "status");
    }
    v
}

} // verus!
