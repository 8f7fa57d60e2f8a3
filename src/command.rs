//! Process specifications: what to run, with which arguments, where and with
//! which environment, and how such a specification is shown and elevated.
use vstd::prelude::*;
use vstd::string::StrSliceExecFns;
use vstd::string::StringExecFns;
use crate::text::views;

verus! {

/// One external process to run: the program, its arguments as discrete
/// tokens, an optional working directory and extra environment variables.
pub struct ProcessSpec {
    pub program: String,
    pub args: Vec<String>,
    pub dir: Option<String>,
    pub env: Vec<(String, String)>,
}

/// The content views of environment assignments.
pub open spec fn env_views(e: Seq<(String, String)>) -> Seq<(Seq<char>, Seq<char>)> {
    e.map_values(|p: (String, String)| (p.0@, p.1@))
}

/// The content view of an optional string.
pub open spec fn opt_view(o: Option<String>) -> Option<Seq<char>> {
    match o {
        Some(s) => Some(s@),
        None => None,
    }
}

impl ProcessSpec {
    pub open spec fn program_view(&self) -> Seq<char> {
        self.program@
    }

    pub open spec fn args_view(&self) -> Seq<Seq<char>> {
        views(self.args@)
    }

    pub open spec fn dir_view(&self) -> Option<Seq<char>> {
        opt_view(self.dir)
    }

    pub open spec fn env_view(&self) -> Seq<(Seq<char>, Seq<char>)> {
        env_views(self.env@)
    }
}

/// Appends a copy of `s` to `v`.
pub fn push_str(v: &mut Vec<String>, s: &str)
    ensures
        views(final(v)@) == views(old(v)@).push(s@),
{
    v.push(String::from_str(s));
    assert(views(v@) =~= views(old(v)@).push(s@));
}

/// Copies environment assignments.
pub fn copy_env(e: &Vec<(String, String)>) -> (r: Vec<(String, String)>)
    ensures
        env_views(r@) == env_views(e@),
{
    let mut r: Vec<(String, String)> = Vec::new();
    let mut i: usize = 0;
    while i < e.len()
        invariant
            i <= e@.len(),
            env_views(r@) == env_views(e@).subrange(0, i as int),
        decreases e@.len() - i,
    {
        let k = String::from_str(e[i].0.as_str());
        let val = String::from_str(e[i].1.as_str());
        let ghost before = r@;
        r.push((k, val));
        assert(env_views(r@) =~= env_views(before).push((e@[i as int].0@, e@[i as int].1@)));
        assert(env_views(e@).subrange(0, i + 1) =~= env_views(e@).subrange(0, i as int).push(
            (e@[i as int].0@, e@[i as int].1@),
        ));
        i = i + 1;
    }
    assert(env_views(e@).subrange(0, e@.len() as int) =~= env_views(e@));
    r
}

fn copy_opt(o: &Option<String>) -> (r: Option<String>)
    ensures
        opt_view(r) == opt_view(*o),
{
    match o {
        Some(s) => Some(String::from_str(s.as_str())),
        None => None,
    }
}

/// The process specification that runs `cmd` through the elevation program: the
/// elevation program first, then the wrapped program and its arguments
/// unchanged, each as its own token.
pub fn with_sudo(sudo: &str, cmd: &ProcessSpec) -> (r: ProcessSpec)
    ensures
        r.program_view() == sudo@,
        r.args_view() == seq![cmd.program_view()] + cmd.args_view(),
        r.dir_view() == cmd.dir_view(),
        r.env_view() == cmd.env_view(),
{
    let mut args: Vec<String> = Vec::new();
    push_str(&mut args, cmd.program.as_str());
    let mut i: usize = 0;
    while i < cmd.args.len()
        invariant
            i <= cmd.args@.len(),
            views(args@) == seq![cmd.program@] + views(cmd.args@).subrange(0, i as int),
        decreases cmd.args@.len() - i,
    {
        push_str(&mut args, cmd.args[i].as_str());
        assert(views(cmd.args@).subrange(0, i + 1) =~= views(cmd.args@).subrange(0, i as int).push(
            cmd.args@[i as int]@,
        ));
        assert(seq![cmd.program@] + views(cmd.args@).subrange(0, i + 1) =~= (seq![cmd.program@]
            + views(cmd.args@).subrange(0, i as int)).push(cmd.args@[i as int]@));
        i = i + 1;
    }
    assert(views(cmd.args@).subrange(0, cmd.args@.len() as int) =~= views(cmd.args@));
    ProcessSpec {
        program: String::from_str(sudo),
        args,
        dir: copy_opt(&cmd.dir),
        env: copy_env(&cmd.env),
    }
}

/// `cmd` itself when the process is already elevated, else `cmd` run through
/// the elevation program.
pub fn elevate(sudo: &str, elevated: bool, cmd: ProcessSpec) -> (r: ProcessSpec)
    ensures
        elevated ==> r == cmd,
        !elevated ==> r.program_view() == sudo@ && r.args_view() == seq![cmd.program_view()]
            + cmd.args_view() && r.dir_view() == cmd.dir_view() && r.env_view() == cmd.env_view(),
{
    if elevated {
        cmd
    } else {
        with_sudo(sudo, &cmd)
    }
}

/// Characters that a shell reads literally outside quotes.
pub open spec fn is_plain_char(c: char) -> bool {
    ('a' <= c && c <= 'z') || ('A' <= c && c <= 'Z') || ('0' <= c && c <= '9') || c == '-' || c
        == '_' || c == '.' || c == '/' || c == '=' || c == ':'
}

/// `s` with every single quote written as `'\''`, the way to continue a
/// single-quoted shell word past a quote.
pub open spec fn quote_body(s: Seq<char>) -> Seq<char>
    decreases s.len(),
{
    if s.len() == 0 {
        seq![]
    } else if s.last() == '\'' {
        quote_body(s.drop_last()) + seq!['\'', '\\', '\'', '\'']
    } else {
        quote_body(s.drop_last()).push(s.last())
    }
}

/// `s` as a shell word: unchanged when every character is plain, else
/// single-quoted.
pub open spec fn shell_word(s: Seq<char>) -> Seq<char> {
    if forall|i: int| 0 <= i < s.len() ==> is_plain_char(#[trigger] s[i]) {
        s
    } else {
        seq!['\''] + quote_body(s) + seq!['\'']
    }
}

fn is_plain(c: char) -> (r: bool)
    ensures
        r == is_plain_char(c),
{
    ('a' <= c && c <= 'z') || ('A' <= c && c <= 'Z') || ('0' <= c && c <= '9') || c == '-' || c
        == '_' || c == '.' || c == '/' || c == '=' || c == ':'
}

/// Writes `s` as one shell word, quoting it when it holds anything but
/// letters, digits and `-_./=:`.
pub fn shell_escape(s: &str) -> (r: String)
    ensures
        r@ == shell_word(s@),
{
    let n = s.unicode_len();
    let mut i: usize = 0;
    let mut plain = true;
    while i < n
        invariant
            n == s@.len(),
            i <= n,
            plain == forall|j: int| 0 <= j < i ==> is_plain_char(#[trigger] s@[j]),
        decreases n - i,
    {
        plain = plain && is_plain(s.get_char(i));
        i = i + 1;
    }
    if plain {
        return String::from_str(s);
    }
    proof {
        reveal_strlit("'");
        reveal_strlit("'\\''");
        assert("'"@ =~= seq!['\'']);
        assert("'\\''"@ =~= seq!['\'', '\\', '\'', '\'']);
        assert(s@.subrange(0, 0) =~= Seq::<char>::empty());
    }
    let mut out = String::from_str("'");
    i = 0;
    while i < n
        invariant
            n == s@.len(),
            i <= n,
            out@ == seq!['\''] + quote_body(s@.subrange(0, i as int)),
        decreases n - i,
    {
        let ghost pre = s@.subrange(0, i as int);
        assert(s@.subrange(0, i + 1).drop_last() =~= pre);
        let c = s.get_char(i);
        proof {
            reveal_strlit("'\\''");
            assert("'\\''"@ =~= seq!['\'', '\\', '\'', '\'']);
        }
        assert(s@.subrange(0, i + 1).last() == c);
        if c == '\'' {
            out.append("'\\''");
            assert(out@ =~= seq!['\''] + quote_body(s@.subrange(0, i + 1)));
        } else {
            out.append(s.substring_char(i, i + 1));
            assert(s@.subrange(i as int, i + 1) =~= seq![c]);
            assert(s@.subrange(0, i + 1).last() == c);
            assert(quote_body(s@.subrange(0, i + 1)) == quote_body(pre).push(c));
            assert(out@ =~= seq!['\''] + quote_body(s@.subrange(0, i + 1)));
        }
        i = i + 1;
    }
    assert(s@.subrange(0, n as int) =~= s@);
    out.append("'");
    out
}

/// The shell words of `args`, separated by single spaces.
pub open spec fn joined_words(args: Seq<Seq<char>>) -> Seq<char>
    decreases args.len(),
{
    if args.len() == 0 {
        seq![]
    } else if args.len() == 1 {
        shell_word(args[0])
    } else {
        joined_words(args.drop_last()) + seq![' '] + shell_word(args.last())
    }
}

/// The line that shows `cmd`: the program, a space, then the arguments as
/// shell words separated by spaces.
pub open spec fn command_line(cmd: &ProcessSpec) -> Seq<char> {
    cmd.program_view() + seq![' '] + joined_words(cmd.args_view())
}

/// Renders `cmd` as a line for echoing it before it runs.
pub fn pretty_cmd(cmd: &ProcessSpec) -> (r: String)
    ensures
        r@ == command_line(cmd),
{
    proof {
        reveal_strlit(" ");
        assert(" "@ =~= seq![' ']);
    }
    let mut out = String::from_str(cmd.program.as_str());
    out.append(" ");
    let mut i: usize = 0;
    while i < cmd.args.len()
        invariant
            i <= cmd.args@.len(),
            out@ == cmd.program@ + seq![' '] + joined_words(views(cmd.args@).subrange(0, i as int)),
        decreases cmd.args@.len() - i,
    {
        let ghost pre = views(cmd.args@).subrange(0, i as int);
        let ghost next = views(cmd.args@).subrange(0, i + 1);
        assert(next.drop_last() =~= pre);
        assert(next.last() == cmd.args@[i as int]@);
        proof {
            reveal_strlit(" ");
            assert(" "@ =~= seq![' ']);
        }
        if i > 0 {
            out.append(" ");
        }
        let w = shell_escape(cmd.args[i].as_str());
        out.append(w.as_str());
        if i == 0 {
            assert(joined_words(pre) =~= Seq::<char>::empty());
            assert(out@ =~= cmd.program@ + seq![' '] + joined_words(next));
        } else {
            assert(joined_words(next) == joined_words(pre) + seq![' '] + shell_word(next.last()));
            assert(out@ =~= cmd.program@ + seq![' '] + joined_words(next));
        }
        i = i + 1;
    }
    assert(views(cmd.args@).subrange(0, cmd.args@.len() as int) =~= views(cmd.args@));
    out
}

} // verus!
