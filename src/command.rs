//! Slash commands, shell escapes and prompts typed at the chat prompt.
use vstd::prelude::*;
use crate::words::{
    all_plain, chars_of, is_plain, join_words, lemma_words_join, split_words, strings_view,
    trim_bounds, trimmed, words,
};

verus! {

pub enum ProfileSubcommand {
    List,
    Create { name: String },
    Delete { name: String },
    Switch { name: String },
    Rename { old_name: String, new_name: String },
    Help,
}

pub enum ContextSubcommand {
    Show { expand: bool },
    Add { global: bool, force: bool, paths: Vec<String> },
    Remove { global: bool, paths: Vec<String> },
    Clear { global: bool },
    Help,
}

/// One line of user input, read as a command.
pub enum Command {
    Ask { prompt: String },
    Execute { command: String },
    Clear,
    Help,
    Issue { prompt: Option<String> },
    AcceptAll,
    Quit,
    Profile { subcommand: ProfileSubcommand },
    Context { subcommand: ContextSubcommand },
}

pub enum ProfileView {
    List,
    Create(Seq<char>),
    Delete(Seq<char>),
    Switch(Seq<char>),
    Rename(Seq<char>, Seq<char>),
    Help,
}

pub enum ContextView {
    Show(bool),
    Add(bool, bool, Seq<Seq<char>>),
    Remove(bool, Seq<Seq<char>>),
    Clear(bool),
    Help,
}

pub enum CommandView {
    Ask(Seq<char>),
    Execute(Seq<char>),
    Clear,
    Help,
    Issue(Option<Seq<char>>),
    AcceptAll,
    Quit,
    Profile(ProfileView),
    Context(ContextView),
}

impl View for ProfileSubcommand {
    type V = ProfileView;

    open spec fn view(&self) -> ProfileView {
        match self {
            ProfileSubcommand::List => ProfileView::List,
            ProfileSubcommand::Create { name } => ProfileView::Create(name@),
            ProfileSubcommand::Delete { name } => ProfileView::Delete(name@),
            ProfileSubcommand::Switch { name } => ProfileView::Switch(name@),
            ProfileSubcommand::Rename { old_name, new_name } => ProfileView::Rename(old_name@, new_name@),
            ProfileSubcommand::Help => ProfileView::Help,
        }
    }
}

impl View for ContextSubcommand {
    type V = ContextView;

    open spec fn view(&self) -> ContextView {
        match self {
            ContextSubcommand::Show { expand } => ContextView::Show(*expand),
            ContextSubcommand::Add { global, force, paths } => ContextView::Add(
                *global,
                *force,
                strings_view(paths@),
            ),
            ContextSubcommand::Remove { global, paths } => ContextView::Remove(*global, strings_view(paths@)),
            ContextSubcommand::Clear { global } => ContextView::Clear(*global),
            ContextSubcommand::Help => ContextView::Help,
        }
    }
}

impl View for Command {
    type V = CommandView;

    open spec fn view(&self) -> CommandView {
        match self {
            Command::Ask { prompt } => CommandView::Ask(prompt@),
            Command::Execute { command } => CommandView::Execute(command@),
            Command::Clear => CommandView::Clear,
            Command::Help => CommandView::Help,
            Command::Issue { prompt } => CommandView::Issue(
                match prompt {
                    Some(p) => Some(p@),
                    None => None,
                },
            ),
            Command::AcceptAll => CommandView::AcceptAll,
            Command::Quit => CommandView::Quit,
            Command::Profile { subcommand } => CommandView::Profile(subcommand@),
            Command::Context { subcommand } => CommandView::Context(subcommand@),
        }
    }
}

/// How `/profile` reads its words `ws` (`ws[0]` is `profile`).
pub open spec fn profile_of(ws: Seq<Seq<char>>) -> Result<ProfileView, Seq<char>> {
    if ws.len() < 2 {
        Ok(ProfileView::Help)
    } else if ws[1] == "list"@ {
        Ok(ProfileView::List)
    } else if ws[1] == "create"@ {
        if ws.len() > 2 {
            Ok(ProfileView::Create(ws[2]))
        } else {
            Err("Usage: /profile create <profile_name>"@)
        }
    } else if ws[1] == "delete"@ {
        if ws.len() > 2 {
            Ok(ProfileView::Delete(ws[2]))
        } else {
            Err("Usage: /profile delete <profile_name>"@)
        }
    } else if ws[1] == "set"@ {
        if ws.len() > 2 {
            Ok(ProfileView::Switch(ws[2]))
        } else {
            Err("Usage: /profile set <profile_name>"@)
        }
    } else if ws[1] == "rename"@ {
        if ws.len() > 3 {
            Ok(ProfileView::Rename(ws[2], ws[3]))
        } else {
            Err("Usage: /profile rename <old_profile_name> <new_profile_name>"@)
        }
    } else if ws[1] == "help"@ {
        Ok(ProfileView::Help)
    } else {
        Err("Unknown /profile subcommand: "@ + ws[1])
    }
}

pub open spec fn is_flag(w: Seq<char>) -> bool {
    w == "--global"@ || w == "--force"@ || w == "-f"@
}

/// The `--global` and `--force` flags among `ws`, and the other words in order.
pub open spec fn add_args(ws: Seq<Seq<char>>) -> (bool, bool, Seq<Seq<char>>)
    decreases ws.len(),
{
    if ws.len() == 0 {
        (false, false, seq![])
    } else {
        let (g, f, p) = add_args(ws.drop_last());
        let w = ws.last();
        if w == "--global"@ {
            (true, f, p)
        } else if w == "--force"@ || w == "-f"@ {
            (g, true, p)
        } else {
            (g, f, p.push(w))
        }
    }
}

/// The `--global` flag among `ws`, and the other words in order.
pub open spec fn remove_args(ws: Seq<Seq<char>>) -> (bool, Seq<Seq<char>>)
    decreases ws.len(),
{
    if ws.len() == 0 {
        (false, seq![])
    } else {
        let (g, p) = remove_args(ws.drop_last());
        let w = ws.last();
        if w == "--global"@ {
            (true, p)
        } else {
            (g, p.push(w))
        }
    }
}

/// How `/context` reads its words `ws` (`ws[0]` is `context`).
pub open spec fn context_of(ws: Seq<Seq<char>>) -> Result<ContextView, Seq<char>> {
    if ws.len() < 2 {
        Ok(ContextView::Help)
    } else if ws[1] == "show"@ {
        Ok(ContextView::Show(ws.len() > 2 && ws[2] == "--expand"@))
    } else if ws[1] == "add"@ {
        let (g, f, p) = add_args(ws.subrange(2, ws.len() as int));
        if p.len() == 0 {
            Err("Usage: /context add [--global] [--force] <path1> [path2...]"@)
        } else {
            Ok(ContextView::Add(g, f, p))
        }
    } else if ws[1] == "rm"@ {
        let (g, p) = remove_args(ws.subrange(2, ws.len() as int));
        if p.len() == 0 {
            Err("Usage: /context rm [--global] <path1> [path2...]"@)
        } else {
            Ok(ContextView::Remove(g, p))
        }
    } else if ws[1] == "clear"@ {
        Ok(ContextView::Clear(ws.len() > 2 && ws[2] == "--global"@))
    } else if ws[1] == "help"@ {
        Ok(ContextView::Help)
    } else {
        Err("Unknown /context subcommand: "@ + ws[1])
    }
}

/// How a line of input reads as a command: after trimming spaces, `/` and a
/// known word make a command, `!` a shell command, and anything else a prompt.
pub open spec fn parse_view(input: Seq<char>) -> Result<CommandView, Seq<char>> {
    let t = trimmed(input);
    if t.len() > 0 && t[0] == '/' {
        let ws = words(t.drop_first());
        if ws.len() == 0 {
            Ok(CommandView::Ask(t))
        } else if ws[0] == "clear"@ {
            Ok(CommandView::Clear)
        } else if ws[0] == "help"@ {
            Ok(CommandView::Help)
        } else if ws[0] == "acceptall"@ {
            Ok(CommandView::AcceptAll)
        } else if ws[0] == "quit"@ {
            Ok(CommandView::Quit)
        } else if ws[0] == "issue"@ {
            if ws.len() > 1 {
                Ok(CommandView::Issue(Some(join_words(ws.subrange(1, ws.len() as int)))))
            } else {
                Ok(CommandView::Issue(None))
            }
        } else if ws[0] == "profile"@ {
            match profile_of(ws) {
                Ok(p) => Ok(CommandView::Profile(p)),
                Err(e) => Err(e),
            }
        } else if ws[0] == "context"@ {
            match context_of(ws) {
                Ok(c) => Ok(CommandView::Context(c)),
                Err(e) => Err(e),
            }
        } else {
            Ok(CommandView::Ask(t))
        }
    } else if t.len() > 0 && t[0] == '!' {
        Ok(CommandView::Execute(t.drop_first()))
    } else {
        Ok(CommandView::Ask(t))
    }
}

/// Whether `w` holds exactly the characters of `lit`.
pub(crate) fn word_is(w: &String, lit: &str) -> (r: bool)
    ensures
        r == (w@ == lit@),
{
    let n = w.as_str().unicode_len();
    if n != lit.unicode_len() {
        return false;
    }
    let mut i: usize = 0;
    while i < n
        invariant
            n == w@.len() == lit@.len(),
            i <= n,
            forall|k: int| 0 <= k < i ==> w@[k] == lit@[k],
        decreases n - i,
    {
        if w.as_str().get_char(i) != lit.get_char(i) {
            return false;
        }
        i = i + 1;
    }
    assert(w@ =~= lit@);
    true
}

proof fn lemma_join_push(ws: Seq<Seq<char>>, w: Seq<char>)
    requires
        ws.len() > 0,
    ensures
        join_words(ws.push(w)) == join_words(ws) + seq![' '] + w,
{
    assert(ws.push(w).drop_last() =~= ws);
}

/// `ws[from..]` joined with single spaces.
fn join_from(ws: &Vec<String>, from: usize) -> (r: String)
    requires
        from < ws@.len(),
    ensures
        r@ == join_words(strings_view(ws@).subrange(from as int, ws@.len() as int)),
{
    let ghost v = strings_view(ws@);
    let n = ws.len();
    let mut acc = ws[from].clone();
    let mut i: usize = from + 1;
    assert(v.subrange(from as int, i as int) =~= seq![ws@[from as int]@]);
    while i < ws.len()
        invariant
            v == strings_view(ws@),
            from < i <= ws@.len(),
            acc@ == join_words(v.subrange(from as int, i as int)),
        decreases ws.len() - i,
    {
        proof {
            lemma_join_push(v.subrange(from as int, i as int), v[i as int]);
            assert(v.subrange(from as int, i as int).push(v[i as int]) =~= v.subrange(from as int, i + 1));
        }
        acc = acc.concat(" ").concat(ws[i].as_str());
        proof {
            reveal_strlit(" ");
            assert(" "@ =~= seq![' ']);
        }
        i = i + 1;
    }
    acc
}

fn add_args_exec(ws: &Vec<String>, from: usize) -> (r: (bool, bool, Vec<String>))
    requires
        from <= ws@.len(),
    ensures
        (r.0, r.1, strings_view(r.2@)) == add_args(strings_view(ws@).subrange(from as int, ws@.len() as int)),
{
    let ghost v = strings_view(ws@);
    let mut global = false;
    let mut force = false;
    let mut paths: Vec<String> = Vec::new();
    let mut i: usize = from;
    assert(v.subrange(from as int, from as int) =~= seq![]);
    while i < ws.len()
        invariant
            v == strings_view(ws@),
            from <= i <= ws@.len(),
            (global, force, strings_view(paths@)) == add_args(v.subrange(from as int, i as int)),
        decreases ws.len() - i,
    {
        assert(v.subrange(from as int, i + 1).drop_last() =~= v.subrange(from as int, i as int));
        if word_is(&ws[i], "--global") {
            global = true;
        } else if word_is(&ws[i], "--force") || word_is(&ws[i], "-f") {
            force = true;
        } else {
            let ghost before = paths@;
            paths.push(ws[i].clone());
            assert(strings_view(paths@) =~= strings_view(before).push(v[i as int]));
        }
        i = i + 1;
    }
    (global, force, paths)
}

fn remove_args_exec(ws: &Vec<String>, from: usize) -> (r: (bool, Vec<String>))
    requires
        from <= ws@.len(),
    ensures
        (r.0, strings_view(r.1@)) == remove_args(strings_view(ws@).subrange(from as int, ws@.len() as int)),
{
    let ghost v = strings_view(ws@);
    let mut global = false;
    let mut paths: Vec<String> = Vec::new();
    let mut i: usize = from;
    assert(v.subrange(from as int, from as int) =~= seq![]);
    while i < ws.len()
        invariant
            v == strings_view(ws@),
            from <= i <= ws@.len(),
            (global, strings_view(paths@)) == remove_args(v.subrange(from as int, i as int)),
        decreases ws.len() - i,
    {
        assert(v.subrange(from as int, i + 1).drop_last() =~= v.subrange(from as int, i as int));
        if word_is(&ws[i], "--global") {
            global = true;
        } else {
            let ghost before = paths@;
            paths.push(ws[i].clone());
            assert(strings_view(paths@) =~= strings_view(before).push(v[i as int]));
        }
        i = i + 1;
    }
    (global, paths)
}

fn text(s: &str) -> (r: String)
    ensures
        r@ == s@,
{
    s.to_owned()
}

impl ProfileSubcommand {
    fn parse(ws: &Vec<String>) -> (r: Result<ProfileSubcommand, String>)
        requires
            ws@.len() > 0,
        ensures
            match r {
                Ok(p) => profile_of(strings_view(ws@)) == Ok::<ProfileView, Seq<char>>(p@),
                Err(e) => profile_of(strings_view(ws@)) == Err::<ProfileView, Seq<char>>(e@),
            },
    {
        let n = ws.len();
        if n < 2 {
            return Ok(ProfileSubcommand::Help);
        }
        let sub = &ws[1];
        if word_is(sub, "list") {
            Ok(ProfileSubcommand::List)
        } else if word_is(sub, "create") {
            if n > 2 {
                Ok(ProfileSubcommand::Create { name: ws[2].clone() })
            } else {
                Err(text("Usage: /profile create <profile_name>"))
            }
        } else if word_is(sub, "delete") {
            if n > 2 {
                Ok(ProfileSubcommand::Delete { name: ws[2].clone() })
            } else {
                Err(text("Usage: /profile delete <profile_name>"))
            }
        } else if word_is(sub, "set") {
            if n > 2 {
                Ok(ProfileSubcommand::Switch { name: ws[2].clone() })
            } else {
                Err(text("Usage: /profile set <profile_name>"))
            }
        } else if word_is(sub, "rename") {
            if n > 3 {
                Ok(ProfileSubcommand::Rename { old_name: ws[2].clone(), new_name: ws[3].clone() })
            } else {
                Err(text("Usage: /profile rename <old_profile_name> <new_profile_name>"))
            }
        } else if word_is(sub, "help") {
            Ok(ProfileSubcommand::Help)
        } else {
            Err(text("Unknown /profile subcommand: ").concat(sub.as_str()))
        }
    }
}

impl ContextSubcommand {
    fn parse(ws: &Vec<String>) -> (r: Result<ContextSubcommand, String>)
        requires
            ws@.len() > 0,
        ensures
            match r {
                Ok(c) => context_of(strings_view(ws@)) == Ok::<ContextView, Seq<char>>(c@),
                Err(e) => context_of(strings_view(ws@)) == Err::<ContextView, Seq<char>>(e@),
            },
    {
        let n = ws.len();
        if n < 2 {
            return Ok(ContextSubcommand::Help);
        }
        let sub = &ws[1];
        if word_is(sub, "show") {
            Ok(ContextSubcommand::Show { expand: n > 2 && word_is(&ws[2], "--expand") })
        } else if word_is(sub, "add") {
            let (global, force, paths) = add_args_exec(ws, 2);
            if paths.len() == 0 {
                Err(text("Usage: /context add [--global] [--force] <path1> [path2...]"))
            } else {
                Ok(ContextSubcommand::Add { global, force, paths })
            }
        } else if word_is(sub, "rm") {
            let (global, paths) = remove_args_exec(ws, 2);
            if paths.len() == 0 {
                Err(text("Usage: /context rm [--global] <path1> [path2...]"))
            } else {
                Ok(ContextSubcommand::Remove { global, paths })
            }
        } else if word_is(sub, "clear") {
            Ok(ContextSubcommand::Clear { global: n > 2 && word_is(&ws[2], "--global") })
        } else if word_is(sub, "help") {
            Ok(ContextSubcommand::Help)
        } else {
            Err(text("Unknown /context subcommand: ").concat(sub.as_str()))
        }
    }
}

impl Command {
    /// Reads one line of input as a command; an error carries the message to show.
    pub fn parse(input: &str) -> (r: Result<Command, String>)
        ensures
            match r {
                Ok(c) => parse_view(input@) == Ok::<CommandView, Seq<char>>(c@),
                Err(e) => parse_view(input@) == Err::<CommandView, Seq<char>>(e@),
            },
    {
        let cs = chars_of(input);
        let (lo, hi) = trim_bounds(&cs);
        let ghost t = trimmed(input@);
        assert(input@.subrange(lo as int, hi as int) == t);
        if lo < hi && cs[lo] == '/' {
            let ws = split_words(input, &cs, lo + 1, hi);
            proof {
                assert(cs@.subrange(lo + 1, hi as int) =~= t.drop_first());
            }
            if ws.len() == 0 {
                return Ok(Command::Ask { prompt: input.substring_char(lo, hi).to_owned() });
            }
            let head = &ws[0];
            if word_is(head, "clear") {
                Ok(Command::Clear)
            } else if word_is(head, "help") {
                Ok(Command::Help)
            } else if word_is(head, "acceptall") {
                Ok(Command::AcceptAll)
            } else if word_is(head, "quit") {
                Ok(Command::Quit)
            } else if word_is(head, "issue") {
                if ws.len() > 1 {
                    Ok(Command::Issue { prompt: Some(join_from(&ws, 1)) })
                } else {
                    Ok(Command::Issue { prompt: None })
                }
            } else if word_is(head, "profile") {
                match ProfileSubcommand::parse(&ws) {
                    Ok(subcommand) => Ok(Command::Profile { subcommand }),
                    Err(e) => Err(e),
                }
            } else if word_is(head, "context") {
                match ContextSubcommand::parse(&ws) {
                    Ok(subcommand) => Ok(Command::Context { subcommand }),
                    Err(e) => Err(e),
                }
            } else {
                Ok(Command::Ask { prompt: input.substring_char(lo, hi).to_owned() })
            }
        } else if lo < hi && cs[lo] == '!' {
            assert(input@.subrange(lo + 1, hi as int) =~= t.drop_first());
            Ok(Command::Execute { command: input.substring_char(lo + 1, hi).to_owned() })
        } else {
            Ok(Command::Ask { prompt: input.substring_char(lo, hi).to_owned() })
        }
    }
}

pub open spec fn slash(ws: Seq<Seq<char>>) -> Seq<char> {
    seq!['/'] + join_words(ws)
}

pub open spec fn flag_if(b: bool, flag: Seq<char>) -> Seq<Seq<char>> {
    if b {
        seq![flag]
    } else {
        seq![]
    }
}

/// The words of `/profile` that stand for `p`.
pub open spec fn profile_words(p: ProfileView) -> Seq<Seq<char>> {
    match p {
        ProfileView::List => seq!["profile"@, "list"@],
        ProfileView::Create(n) => seq!["profile"@, "create"@, n],
        ProfileView::Delete(n) => seq!["profile"@, "delete"@, n],
        ProfileView::Switch(n) => seq!["profile"@, "set"@, n],
        ProfileView::Rename(a, b) => seq!["profile"@, "rename"@, a, b],
        ProfileView::Help => seq!["profile"@, "help"@],
    }
}

/// The words of `/context` that stand for `c`.
pub open spec fn context_words(c: ContextView) -> Seq<Seq<char>> {
    match c {
        ContextView::Show(e) => seq!["context"@, "show"@] + flag_if(e, "--expand"@),
        ContextView::Add(g, f, ps) => seq!["context"@, "add"@] + flag_if(g, "--global"@) + flag_if(
            f,
            "--force"@,
        ) + ps,
        ContextView::Remove(g, ps) => seq!["context"@, "rm"@] + flag_if(g, "--global"@) + ps,
        ContextView::Clear(g) => seq!["context"@, "clear"@] + flag_if(g, "--global"@),
        ContextView::Help => seq!["context"@, "help"@],
    }
}

/// The line that a command is written as.
pub open spec fn canonical(c: CommandView) -> Seq<char> {
    match c {
        CommandView::Ask(p) => p,
        CommandView::Execute(x) => seq!['!'] + x,
        CommandView::Clear => slash(seq!["clear"@]),
        CommandView::Help => slash(seq!["help"@]),
        CommandView::Issue(None) => slash(seq!["issue"@]),
        CommandView::Issue(Some(p)) => slash(seq!["issue"@]) + seq![' '] + p,
        CommandView::AcceptAll => slash(seq!["acceptall"@]),
        CommandView::Quit => slash(seq!["quit"@]),
        CommandView::Profile(p) => slash(profile_words(p)),
        CommandView::Context(x) => slash(context_words(x)),
    }
}

/// The names in `p` are single words.
pub open spec fn profile_well_formed(p: ProfileView) -> bool {
    match p {
        ProfileView::Create(n) => is_plain(n),
        ProfileView::Delete(n) => is_plain(n),
        ProfileView::Switch(n) => is_plain(n),
        ProfileView::Rename(a, b) => is_plain(a) && is_plain(b),
        _ => true,
    }
}

pub open spec fn paths_well_formed(ps: Seq<Seq<char>>) -> bool {
    &&& ps.len() > 0
    &&& all_plain(ps)
    &&& forall|k: int| 0 <= k < ps.len() ==> !is_flag(#[trigger] ps[k])
}

/// The paths in `c` are single words that are not flags, and there is one at least.
pub open spec fn context_well_formed(c: ContextView) -> bool {
    match c {
        ContextView::Add(_, _, ps) => paths_well_formed(ps),
        ContextView::Remove(_, ps) => paths_well_formed(ps),
        _ => true,
    }
}

proof fn lemma_literals()
    ensures
        is_plain("profile"@), is_plain("list"@), is_plain("create"@), is_plain("delete"@),
        is_plain("set"@), is_plain("rename"@), is_plain("help"@), is_plain("context"@),
        is_plain("show"@), is_plain("add"@), is_plain("rm"@), is_plain("clear"@),
        is_plain("--expand"@), is_plain("--global"@), is_plain("--force"@),
        "profile"@ != "clear"@, "profile"@ != "help"@, "profile"@ != "acceptall"@,
        "profile"@ != "quit"@, "profile"@ != "issue"@,
        "context"@ != "clear"@, "context"@ != "help"@, "context"@ != "acceptall"@,
        "context"@ != "quit"@, "context"@ != "issue"@, "context"@ != "profile"@,
        "create"@ != "list"@, "delete"@ != "list"@, "delete"@ != "create"@,
        "set"@ != "list"@, "set"@ != "create"@, "set"@ != "delete"@,
        "rename"@ != "list"@, "rename"@ != "create"@, "rename"@ != "delete"@, "rename"@ != "set"@,
        "help"@ != "list"@, "help"@ != "create"@, "help"@ != "delete"@, "help"@ != "set"@,
        "help"@ != "rename"@,
        "add"@ != "show"@, "rm"@ != "show"@, "rm"@ != "add"@, "clear"@ != "show"@,
        "clear"@ != "add"@, "clear"@ != "rm"@, "help"@ != "show"@, "help"@ != "add"@,
        "help"@ != "rm"@, "help"@ != "clear"@,
        "--global"@ != "--force"@, "--global"@ != "-f"@, "--expand"@ != "--global"@,
{
    reveal_strlit("profile");
    reveal_strlit("list");
    reveal_strlit("create");
    reveal_strlit("delete");
    reveal_strlit("set");
    reveal_strlit("rename");
    reveal_strlit("help");
    reveal_strlit("context");
    reveal_strlit("show");
    reveal_strlit("add");
    reveal_strlit("rm");
    reveal_strlit("clear");
    reveal_strlit("--expand");
    reveal_strlit("--global");
    reveal_strlit("--force");
    reveal_strlit("-f");
    reveal_strlit("acceptall");
    reveal_strlit("quit");
    reveal_strlit("issue");
    assert("profile"@[0] != "clear"@[0]);
    assert("profile"@[0] != "help"@[0]);
    assert("profile"@[0] != "acceptall"@[0]);
    assert("profile"@[0] != "quit"@[0]);
    assert("profile"@[0] != "issue"@[0]);
    assert("context"@[1] != "clear"@[1]);
    assert("context"@[0] != "help"@[0]);
    assert("context"@[0] != "acceptall"@[0]);
    assert("context"@[0] != "quit"@[0]);
    assert("context"@[0] != "issue"@[0]);
    assert("context"@[0] != "profile"@[0]);
    assert("create"@[0] != "list"@[0]);
    assert("delete"@[0] != "list"@[0]);
    assert("delete"@[0] != "create"@[0]);
    assert("set"@[0] != "list"@[0]);
    assert("set"@[0] != "create"@[0]);
    assert("set"@[0] != "delete"@[0]);
    assert("rename"@[0] != "list"@[0]);
    assert("rename"@[0] != "create"@[0]);
    assert("rename"@[0] != "delete"@[0]);
    assert("rename"@[0] != "set"@[0]);
    assert("help"@[0] != "list"@[0]);
    assert("help"@[0] != "create"@[0]);
    assert("help"@[0] != "delete"@[0]);
    assert("help"@[0] != "set"@[0]);
    assert("help"@[0] != "rename"@[0]);
    assert("add"@[0] != "show"@[0]);
    assert("rm"@[0] != "show"@[0]);
    assert("rm"@[0] != "add"@[0]);
    assert("clear"@[0] != "show"@[0]);
    assert("clear"@[0] != "add"@[0]);
    assert("clear"@[0] != "rm"@[0]);
    assert("help"@[0] != "show"@[0]);
    assert("help"@[0] != "add"@[0]);
    assert("help"@[0] != "rm"@[0]);
    assert("help"@[0] != "clear"@[0]);
    assert("--global"@[2] != "--force"@[2]);
    assert("--global"@[1] != "-f"@[1]);
    assert("--expand"@[2] != "--global"@[2]);
}

proof fn lemma_slash_reads(ws: Seq<Seq<char>>)
    requires
        all_plain(ws),
        ws.len() > 0,
    ensures
        trimmed(slash(ws)) == slash(ws),
        words(slash(ws).drop_first()) == ws,
{
    lemma_words_join(ws);
    let s = slash(ws);
    let j = join_words(ws);
    assert(s.drop_first() =~= j);
    assert(s.last() == j.last());
    assert(crate::words::trim_start(s) == s);
    assert(crate::words::trim_end(s) == s);
}

proof fn lemma_add_args_tail(pre: Seq<Seq<char>>, ps: Seq<Seq<char>>)
    requires
        forall|k: int| 0 <= k < ps.len() ==> !is_flag(#[trigger] ps[k]),
    ensures
        add_args(pre + ps) == (add_args(pre).0, add_args(pre).1, add_args(pre).2 + ps),
        remove_args(pre + ps) == (remove_args(pre).0, remove_args(pre).1 + ps),
    decreases ps.len(),
{
    if ps.len() == 0 {
        assert(pre + ps =~= pre);
        assert(add_args(pre).2 + ps =~= add_args(pre).2);
        assert(remove_args(pre).1 + ps =~= remove_args(pre).1);
    } else {
        let q = ps.drop_last();
        lemma_add_args_tail(pre, q);
        assert((pre + ps).drop_last() =~= pre + q);
        assert((pre + ps).last() == ps.last());
        assert(!is_flag(ps[ps.len() - 1]));
        assert(add_args(pre).2 + q + seq![ps.last()] =~= add_args(pre).2 + ps);
        assert((add_args(pre).2 + q).push(ps.last()) =~= add_args(pre).2 + ps);
        assert((remove_args(pre).1 + q).push(ps.last()) =~= remove_args(pre).1 + ps);
    }
}

proof fn lemma_flag_args(g: bool, f: bool)
    ensures
        add_args(flag_if(g, "--global"@) + flag_if(f, "--force"@)) == (g, f, Seq::<Seq<char>>::empty()),
        remove_args(flag_if(g, "--global"@)) == (g, Seq::<Seq<char>>::empty()),
{
    lemma_literals();
    let a = flag_if(g, "--global"@);
    let b = flag_if(f, "--force"@);
    reveal_with_fuel(add_args, 3);
    reveal_with_fuel(remove_args, 2);
    if g && f {
        assert((a + b).drop_last() =~= a);
        assert(a.drop_last() =~= seq![]);
    } else if g {
        assert(a + b =~= a);
        assert(a.drop_last() =~= seq![]);
    } else if f {
        assert(a + b =~= b);
        assert(b.drop_last() =~= seq![]);
    } else {
        assert(a + b =~= seq![]);
    }
    if g {
        assert(a.drop_last() =~= seq![]);
    }
}

/// Reading the line that a `/profile` command is written as gives that command back.
pub proof fn lemma_profile_round_trip(p: ProfileView)
    requires
        profile_well_formed(p),
    ensures
        parse_view(canonical(CommandView::Profile(p))) == Ok::<CommandView, Seq<char>>(CommandView::Profile(p)),
{
    lemma_literals();
    let ws = profile_words(p);
    assert(all_plain(ws));
    lemma_slash_reads(ws);
}

/// Reading the line that a `/context` command is written as gives that command back.
pub proof fn lemma_context_round_trip(c: ContextView)
    requires
        context_well_formed(c),
    ensures
        parse_view(canonical(CommandView::Context(c))) == Ok::<CommandView, Seq<char>>(CommandView::Context(c)),
{
    lemma_literals();
    let ws = context_words(c);
    match c {
        ContextView::Add(g, f, ps) => {
            let pre = flag_if(g, "--global"@) + flag_if(f, "--force"@);
            assert(ws.subrange(2, ws.len() as int) =~= pre + ps);
            lemma_flag_args(g, f);
            lemma_add_args_tail(pre, ps);
            assert(Seq::<Seq<char>>::empty() + ps =~= ps);
            assert forall|k: int| 0 <= k < ws.len() implies is_plain(#[trigger] ws[k]) by {
                if k >= ws.len() - ps.len() {
                    assert(ws[k] == ps[k - (ws.len() - ps.len())]);
                }
            }
        },
        ContextView::Remove(g, ps) => {
            let pre = flag_if(g, "--global"@);
            assert(ws.subrange(2, ws.len() as int) =~= pre + ps);
            lemma_flag_args(g, false);
            lemma_add_args_tail(pre, ps);
            assert(Seq::<Seq<char>>::empty() + ps =~= ps);
            assert forall|k: int| 0 <= k < ws.len() implies is_plain(#[trigger] ws[k]) by {
                if k >= ws.len() - ps.len() {
                    assert(ws[k] == ps[k - (ws.len() - ps.len())]);
                }
            }
        },
        _ => {},
    }
    assert(all_plain(ws));
    lemma_slash_reads(ws);
}

fn slash_exec(ws: &Vec<String>) -> (r: String)
    requires
        ws@.len() > 0,
    ensures
        r@ == slash(strings_view(ws@)),
{
    let joined = join_from(ws, 0);
    proof {
        assert(strings_view(ws@).subrange(0, ws@.len() as int) =~= strings_view(ws@));
        reveal_strlit("/");
        assert("/"@ =~= seq!['/']);
    }
    text("/").concat(joined.as_str())
}

fn flag_words(b: bool, flag: &str) -> (r: Vec<String>)
    ensures
        strings_view(r@) == flag_if(b, flag@),
{
    let mut r: Vec<String> = Vec::new();
    if b {
        r.push(text(flag));
    }
    assert(strings_view(r@) =~= flag_if(b, flag@));
    r
}

fn extend(a: &mut Vec<String>, b: &Vec<String>)
    ensures
        strings_view(final(a)@) == strings_view(old(a)@) + strings_view(b@),
{
    let mut i: usize = 0;
    let ghost start = strings_view(a@);
    while i < b.len()
        invariant
            i <= b@.len(),
            strings_view(a@) == start + strings_view(b@).subrange(0, i as int),
        decreases b.len() - i,
    {
        assert(strings_view(b@).subrange(0, i + 1) =~= strings_view(b@).subrange(0, i as int).push(b@[i as int]@));
        let ghost before = a@;
        a.push(b[i].clone());
        assert(strings_view(a@) =~= strings_view(before).push(b@[i as int]@));
        i = i + 1;
        assert(strings_view(a@) =~= start + strings_view(b@).subrange(0, i as int));
    }
    assert(strings_view(b@).subrange(0, i as int) =~= strings_view(b@));
}

impl ProfileSubcommand {
    fn words(&self) -> (r: Vec<String>)
        ensures
            strings_view(r@) == profile_words(self@),
            r@.len() >= 2,
    {
        let r = match self {
            ProfileSubcommand::List => vec![text("profile"), text("list")],
            ProfileSubcommand::Create { name } => vec![text("profile"), text("create"), name.clone()],
            ProfileSubcommand::Delete { name } => vec![text("profile"), text("delete"), name.clone()],
            ProfileSubcommand::Switch { name } => vec![text("profile"), text("set"), name.clone()],
            ProfileSubcommand::Rename { old_name, new_name } => vec![
                text("profile"),
                text("rename"),
                old_name.clone(),
                new_name.clone(),
            ],
            ProfileSubcommand::Help => vec![text("profile"), text("help")],
        };
        assert(strings_view(r@) =~= profile_words(self@));
        r
    }
}

impl ContextSubcommand {
    fn words(&self) -> (r: Vec<String>)
        ensures
            strings_view(r@) == context_words(self@),
            r@.len() >= 2,
    {
        match self {
            ContextSubcommand::Show { expand } => {
                let mut r = vec![text("context"), text("show")];
                extend(&mut r, &flag_words(*expand, "--expand"));
                r
            },
            ContextSubcommand::Add { global, force, paths } => {
                let mut r = vec![text("context"), text("add")];
                extend(&mut r, &flag_words(*global, "--global"));
                extend(&mut r, &flag_words(*force, "--force"));
                extend(&mut r, paths);
                r
            },
            ContextSubcommand::Remove { global, paths } => {
                let mut r = vec![text("context"), text("rm")];
                extend(&mut r, &flag_words(*global, "--global"));
                extend(&mut r, paths);
                r
            },
            ContextSubcommand::Clear { global } => {
                let mut r = vec![text("context"), text("clear")];
                extend(&mut r, &flag_words(*global, "--global"));
                r
            },
            ContextSubcommand::Help => {
                let r = vec![text("context"), text("help")];
                assert(strings_view(r@) =~= context_words(self@));
                r
            },
        }
    }
}

impl Command {
    /// The line that this command is written as.
    pub fn to_canonical(&self) -> (r: String)
        ensures
            r@ == canonical(self@),
    {
        match self {
            Command::Ask { prompt } => prompt.clone(),
            Command::Execute { command } => {
                proof {
                    reveal_strlit("!");
                    assert("!"@ =~= seq!['!']);
                }
                text("!").concat(command.as_str())
            },
            Command::Clear => slash_exec(&vec![text("clear")]),
            Command::Help => slash_exec(&vec![text("help")]),
            Command::Issue { prompt } => {
                let head = slash_exec(&vec![text("issue")]);
                match prompt {
                    Some(p) => {
                        proof {
                            reveal_strlit(" ");
                            assert(" "@ =~= seq![' ']);
                        }
                        head.concat(" ").concat(p.as_str())
                    },
                    None => head,
                }
            },
            Command::AcceptAll => slash_exec(&vec![text("acceptall")]),
            Command::Quit => slash_exec(&vec![text("quit")]),
            Command::Profile { subcommand } => slash_exec(&subcommand.words()),
            Command::Context { subcommand } => slash_exec(&subcommand.words()),
        }
    }
}

} // verus!
