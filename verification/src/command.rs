//! One builder per `git` subcommand, and the pieces they share.
//!
//! Every builder implements [`GitCommand`]: it owns a [`CommandExecutor`]
//! (working directory, environment, extra raw arguments, timeout, stdin) and
//! turns its own settings into the argument vector that follows `git` on the
//! command line ([`GitCommand::build_command_args`]). Spawning the process is
//! left to the caller; the captured result is a [`CommandOutput`].
use vstd::prelude::*;

use crate::error::{Error, Result};
use crate::text::{opt_view, seq_views, text_of, trim};

pub mod format_patch;
pub mod rerere;
pub mod reset;
pub mod restore;
pub mod revert;
pub mod rev_list;
pub mod rev_parse;
pub mod rm;
pub mod shortlog;
pub mod show;
pub mod show_ref;
pub mod sparse_checkout;
pub mod stash;
pub mod status;
pub mod submodule;
pub mod switch;
pub mod symbolic_ref;
pub mod tag;
pub mod update_index;
pub mod update_ref;
pub mod verify_commit;
pub mod var;
pub mod verify_tag;
pub mod version;
pub mod worktree;
pub mod write_tree;


verus! {

/// A value that can become an owned `String` argument: `&str` or `String`.
pub trait IntoText {
    /// The characters of the text.
    spec fn text(&self) -> Seq<char>;

    /// The text as an owned `String`.
    fn into_text(self) -> (r: String)
        ensures
            r@ == self.text(),
    ;
}

impl<'a> IntoText for &'a str {
    open spec fn text(&self) -> Seq<char> {
        (**self)@
    }

    fn into_text(self) -> (r: String) {
        self.to_owned()
    }
}

impl IntoText for String {
    open spec fn text(&self) -> Seq<char> {
        self@
    }

    fn into_text(self) -> (r: String) {
        self
    }
}

impl<'a> IntoText for &'a String {
    open spec fn text(&self) -> Seq<char> {
        (**self)@
    }

    fn into_text(self) -> (r: String) {
        self.clone()
    }
}

/// The view of a list of environment variables.
pub open spec fn env_view(e: Seq<(String, String)>) -> Seq<(Seq<char>, Seq<char>)> {
    e.map_values(|p: (String, String)| (p.0@, p.1@))
}

/// Process settings shared by every command.
#[derive(Debug, Clone)]
pub struct CommandExecutor {
    /// Working directory for the process, if not the caller's.
    pub cwd: Option<String>,
    /// Environment variables set for the process, in the order given.
    pub env: Vec<(String, String)>,
    /// Raw arguments appended after the command's own arguments.
    pub extra_args: Vec<String>,
    /// Time limit for the process, in seconds.
    pub timeout_seconds: Option<u64>,
    /// Bytes written to the process's standard input.
    pub stdin: Option<Vec<u8>>,
}

/// The abstract contents of a [`CommandExecutor`].
pub struct ExecutorView {
    pub cwd: Option<Seq<char>>,
    pub env: Seq<(Seq<char>, Seq<char>)>,
    pub extra_args: Seq<Seq<char>>,
    pub timeout_seconds: Option<u64>,
    pub stdin: Option<Seq<u8>>,
}

impl View for CommandExecutor {
    type V = ExecutorView;

    open spec fn view(&self) -> ExecutorView {
        ExecutorView {
            cwd: opt_view(self.cwd),
            env: env_view(self.env@),
            extra_args: seq_views(self.extra_args@),
            timeout_seconds: self.timeout_seconds,
            stdin: opt_view(self.stdin),
        }
    }
}

/// The settings of a fresh executor: nothing set.
pub open spec fn blank_executor() -> ExecutorView {
    ExecutorView {
        cwd: None,
        env: Seq::empty(),
        extra_args: Seq::empty(),
        timeout_seconds: None,
        stdin: None,
    }
}

impl CommandExecutor {
    /// An executor with nothing set.
    pub fn new() -> (r: Self)
        ensures
            r@ == blank_executor(),
    {
        let r = CommandExecutor {
            cwd: None,
            env: Vec::new(),
            extra_args: Vec::new(),
            timeout_seconds: None,
            stdin: None,
        };
        assert(r@.env =~= Seq::<(Seq<char>, Seq<char>)>::empty());
        assert(r@.extra_args =~= Seq::<Seq<char>>::empty());
        r
    }
}

impl Default for CommandExecutor {
    fn default() -> (r: Self)
        ensures
            r@ == blank_executor(),
    {
        Self::new()
    }
}

/// The text `String::from_utf8_lossy` makes of `bytes`: the UTF-8 decoded,
/// with each invalid sequence replaced by U+FFFD.
pub uninterp spec fn lossy_text(bytes: Seq<u8>) -> Seq<char>;

/// `String::from_utf8_lossy(bytes).into_owned()`: the text of UTF-8 bytes,
/// with each invalid sequence replaced by U+FFFD. Which characters an
/// invalid sequence gives is not stated here beyond the name
/// [`lossy_text`]; valid UTF-8 is decoded exactly.
#[verifier::external_body]
fn utf8_lossy(bytes: &Vec<u8>) -> (r: String)
    ensures
        r@ == lossy_text(bytes@),
        vstd::utf8::valid_utf8(bytes@) ==> r@ == vstd::utf8::decode_utf8(bytes@),
{
    String::from_utf8_lossy(bytes).into_owned()
}

/// The captured result of running a command.
#[derive(Debug, Clone)]
pub struct CommandOutput {
    /// Raw standard output.
    pub stdout: Vec<u8>,
    /// Standard error, decoded.
    pub stderr: String,
    /// Exit code (`-1` when the process was killed by a signal).
    pub exit_code: i32,
    /// Whether the process exited with status zero.
    pub success: bool,
}

impl CommandOutput {
    /// Standard output as text.
    ///
    /// Valid UTF-8 is decoded exactly; any invalid byte sequence becomes
    /// U+FFFD.
    pub fn stdout_str(&self) -> (r: String)
        ensures
            r@ == lossy_text(self.stdout@),
            vstd::utf8::valid_utf8(self.stdout@) ==> r@ == vstd::utf8::decode_utf8(
                self.stdout@,
            ),
    {
        utf8_lossy(&self.stdout)
    }

    /// Standard output as text with surrounding white space removed.
    pub fn stdout_trimmed(&self) -> (r: String)
        ensures
            r@ == crate::text::trim_ws(lossy_text(self.stdout@)),
            vstd::utf8::valid_utf8(self.stdout@) ==> r@ == crate::text::trim_ws(
                vstd::utf8::decode_utf8(self.stdout@),
            ),
    {
        let s = self.stdout_str();
        let cs = crate::text::chars_of(s.as_str());
        text_of(&trim(&cs))
    }

    /// The outcome of the run of `git <args>` that gave this output: the
    /// output itself when the run succeeded, otherwise an
    /// [`Error::CommandFailed`] carrying the command line, the exit code and
    /// both streams.
    pub fn checked(self, args: &Vec<String>) -> (r: Result<CommandOutput>)
        ensures
            self.success ==> (r matches Ok(o) && o == self),
            !self.success ==> (r matches Err(
                Error::CommandFailed { command, exit_code, stdout, stderr },
            ) && command@ == command_text(seq_views(args@)) && exit_code == self.exit_code
                && stdout@ == lossy_text(self.stdout@) && stderr@ == self.stderr@),
    {
        if self.success {
            return Ok(self);
        }
        let line = command_line_text(args);
        let stdout = self.stdout_str();
        Err(Error::command_failed(line, self.exit_code, stdout, self.stderr))
    }
}

/// The command line `git <args>` as one text, the arguments separated by
/// single spaces.
pub open spec fn command_text(args: Seq<Seq<char>>) -> Seq<char>
    decreases args.len(),
{
    if args.len() == 0 {
        "git"@
    } else {
        command_text(args.drop_last()) + " "@ + args.last()
    }
}

/// The command line `git <args>` as one text.
pub fn command_line_text(args: &Vec<String>) -> (r: String)
    ensures
        r@ == command_text(seq_views(args@)),
{
    let ghost av = seq_views(args@);
    let mut line = "git".to_owned();
    let mut i: usize = 0;
    assert(av.take(0) =~= Seq::<Seq<char>>::empty());
    while i < args.len()
        invariant
            i <= args.len(),
            av == seq_views(args@),
            line@ == command_text(av.take(i as int)),
        decreases args.len() - i,
    {
        assert(av.take(i + 1).drop_last() =~= av.take(i as int));
        assert(av[i as int] == args@[i as int]@);
        line = line.concat(" ").concat(args[i].as_str());
        i += 1;
    }
    assert(av.take(args.len() as int) =~= av);
    line
}

/// `[s]` when `b` holds, nothing otherwise.
pub open spec fn flag(b: bool, s: Seq<char>) -> Seq<Seq<char>> {
    if b {
        seq![s]
    } else {
        Seq::empty()
    }
}

/// The value, if there is one.
pub open spec fn opt_arg(o: Option<String>) -> Seq<Seq<char>> {
    match o {
        Some(v) => seq![v@],
        None => Seq::empty(),
    }
}

/// `[f, value]` when there is a value.
pub open spec fn opt_flag_arg(f: Seq<char>, o: Option<String>) -> Seq<Seq<char>> {
    match o {
        Some(v) => seq![f, v@],
        None => Seq::empty(),
    }
}

/// `[f + value]` (as in `--name=value`) when there is a value.
pub open spec fn opt_joined(f: Seq<char>, o: Option<String>) -> Seq<Seq<char>> {
    match o {
        Some(v) => seq![f + v@],
        None => Seq::empty(),
    }
}

/// A new argument list holding the literal `s`.
pub fn start_args(s: &str) -> (r: Vec<String>)
    ensures
        seq_views(r@) == seq![s@],
{
    let mut r: Vec<String> = Vec::new();
    r.push(s.to_owned());
    assert(seq_views(r@) =~= seq![s@]);
    r
}

/// Appends a literal argument.
pub fn push_lit(args: &mut Vec<String>, s: &str)
    ensures
        seq_views(final(args)@) == seq_views(old(args)@).push(s@),
        seq_views(final(args)@) == seq_views(old(args)@) + seq![s@],
{
    let ghost before = seq_views(args@);
    args.push(s.to_owned());
    assert(seq_views(args@) =~= before.push(s@));
    assert(seq_views(args@) =~= before + seq![s@]);
}

/// Appends a copy of `s`.
pub fn push_text(args: &mut Vec<String>, s: &String)
    ensures
        seq_views(final(args)@) == seq_views(old(args)@).push(s@),
{
    let ghost before = seq_views(args@);
    args.push(s.clone());
    assert(seq_views(args@) =~= before.push(s@));
}

/// Appends `s` when `b` holds.
pub fn push_flag(args: &mut Vec<String>, b: bool, s: &str)
    ensures
        seq_views(final(args)@) == seq_views(old(args)@) + flag(b, s@),
{
    let ghost before = seq_views(args@);
    if b {
        push_lit(args, s);
    }
    assert(seq_views(args@) =~= before + flag(b, s@));
}

/// Appends the value, if there is one.
pub fn push_opt(args: &mut Vec<String>, o: &Option<String>)
    ensures
        seq_views(final(args)@) == seq_views(old(args)@) + opt_arg(*o),
{
    let ghost before = seq_views(args@);
    if let Some(v) = o {
        push_text(args, v);
    }
    assert(seq_views(args@) =~= before + opt_arg(*o));
}

/// Appends `f` and the value, if there is one.
pub fn push_opt_flag(args: &mut Vec<String>, f: &str, o: &Option<String>)
    ensures
        seq_views(final(args)@) == seq_views(old(args)@) + opt_flag_arg(f@, *o),
{
    let ghost before = seq_views(args@);
    if let Some(v) = o {
        push_lit(args, f);
        push_text(args, v);
    }
    assert(seq_views(args@) =~= before + opt_flag_arg(f@, *o));
}

/// Appends `f` immediately followed by the value, if there is one.
pub fn push_joined(args: &mut Vec<String>, f: &str, o: &Option<String>)
    ensures
        seq_views(final(args)@) == seq_views(old(args)@) + opt_joined(f@, *o),
{
    let ghost before = seq_views(args@);
    if let Some(v) = o {
        let joined = f.to_owned().concat(v.as_str());
        let ghost jv = joined@;
        args.push(joined);
        assert(seq_views(args@) =~= before.push(jv));
    }
    assert(seq_views(args@) =~= before + opt_joined(f@, *o));
}

/// Appends `f` immediately followed by `v`.
pub fn push_concat(args: &mut Vec<String>, f: &str, v: &String)
    ensures
        seq_views(final(args)@) == seq_views(old(args)@).push(f@ + v@),
{
    let ghost before = seq_views(args@);
    let joined = f.to_owned().concat(v.as_str());
    let ghost jv = joined@;
    args.push(joined);
    assert(seq_views(args@) =~= before.push(jv));
}

/// Appends `f` immediately followed by the decimal form of `n`.
pub fn push_number(args: &mut Vec<String>, f: &str, n: u64)
    ensures
        seq_views(final(args)@) == seq_views(old(args)@).push(f@ + crate::text::decimal(n as nat)),
{
    let ghost before = seq_views(args@);
    let d = crate::text::decimal_text(n);
    let joined = f.to_owned().concat(d.as_str());
    let ghost jv = joined@;
    args.push(joined);
    assert(seq_views(args@) =~= before.push(jv));
}

/// Appends the decimal form of `n`.
pub fn push_decimal(args: &mut Vec<String>, n: u64)
    ensures
        seq_views(final(args)@) == seq_views(old(args)@).push(crate::text::decimal(n as nat)),
{
    let ghost before = seq_views(args@);
    let d = crate::text::decimal_text(n);
    let ghost dv = d@;
    args.push(d);
    assert(seq_views(args@) =~= before.push(dv));
}

/// Appends copies of all of `v`.
pub fn push_all(args: &mut Vec<String>, v: &Vec<String>)
    ensures
        seq_views(final(args)@) == seq_views(old(args)@) + seq_views(v@),
{
    let ghost before = seq_views(args@);
    let mut i: usize = 0;
    while i < v.len()
        invariant
            i <= v.len(),
            seq_views(args@) == before + seq_views(v@).take(i as int),
        decreases v.len() - i,
    {
        let ghost b2 = seq_views(args@);
        let x = v[i].clone();
        let ghost xv = x@;
        args.push(x);
        assert(seq_views(args@) =~= b2.push(xv));
        assert(seq_views(v@).take(i + 1) =~= seq_views(v@).take(i as int).push(seq_views(v@)[i as int]));
        i += 1;
    }
    assert(seq_views(v@).take(v.len() as int) =~= seq_views(v@));
}

/// `["--", paths...]` when there are paths.
pub open spec fn dashdash_paths(paths: Seq<String>) -> Seq<Seq<char>> {
    if paths.len() > 0 {
        seq!["--"@] + seq_views(paths)
    } else {
        Seq::empty()
    }
}

/// Appends `--` and the paths, when there are paths.
pub fn push_dashdash_paths(args: &mut Vec<String>, paths: &Vec<String>)
    ensures
        seq_views(final(args)@) == seq_views(old(args)@) + dashdash_paths(paths@),
{
    let ghost before = seq_views(args@);
    if paths.len() > 0 {
        push_lit(args, "--");
        push_all(args, paths);
    }
    assert(seq_views(args@) =~= before + dashdash_paths(paths@));
}

/// `["--", paths...]` when there are paths.
pub open spec fn dashdash(paths: Seq<Seq<char>>) -> Seq<Seq<char>> {
    if paths.len() > 0 {
        seq!["--"@] + paths
    } else {
        Seq::empty()
    }
}

/// `[f, value]` when there is a value.
pub open spec fn opt_pair(f: Seq<char>, o: Option<Seq<char>>) -> Seq<Seq<char>> {
    match o {
        Some(v) => seq![f, v],
        None => Seq::empty(),
    }
}

/// The value, if there is one.
pub open spec fn opt_one(o: Option<Seq<char>>) -> Seq<Seq<char>> {
    match o {
        Some(v) => seq![v],
        None => Seq::empty(),
    }
}

/// Appends `--` and the paths, when there are paths.
pub fn push_paths(args: &mut Vec<String>, paths: &Vec<String>)
    ensures
        seq_views(final(args)@) == seq_views(old(args)@) + dashdash(seq_views(paths@)),
{
    push_dashdash_paths(args, paths);
    assert(dashdash_paths(paths@) =~= dashdash(seq_views(paths@)));
}

/// Appends `[f, value]` when there is a value.
pub fn push_pair(args: &mut Vec<String>, f: &str, o: &Option<String>)
    ensures
        seq_views(final(args)@) == seq_views(old(args)@) + opt_pair(f@, opt_view(*o)),
{
    let ghost before = seq_views(args@);
    if let Some(v) = o {
        push_lit(args, f);
        push_text(args, v);
    }
    assert(seq_views(args@) =~= before + opt_pair(f@, opt_view(*o)));
}

/// Appends the value, when there is one.
pub fn push_one(args: &mut Vec<String>, o: &Option<String>)
    ensures
        seq_views(final(args)@) == seq_views(old(args)@) + opt_one(opt_view(*o)),
{
    let ghost before = seq_views(args@);
    if let Some(v) = o {
        push_text(args, v);
    }
    assert(seq_views(args@) =~= before + opt_one(opt_view(*o)));
}

/// A one-element list holding `s`.
pub fn one_text(s: String) -> (r: Vec<String>)
    ensures
        seq_views(r@) == seq![s@],
{
    let mut r: Vec<String> = Vec::new();
    r.push(s);
    assert(seq_views(r@) =~= seq![s@]);
    r
}

/// Appends `s` to a list of texts.
pub fn push_into(v: &mut Vec<String>, s: String)
    ensures
        seq_views(final(v)@) == seq_views(old(v)@).push(s@),
{
    let ghost before = seq_views(v@);
    let ghost sv = s@;
    v.push(s);
    assert(seq_views(v@) =~= before.push(sv));
}

/// Everything that follows `git` on the command line for `c`: its own
/// arguments, then the extra raw arguments of its executor.
pub open spec fn full_args<C: GitCommand>(c: C) -> Seq<Seq<char>> {
    c.args_spec() + c.executor_spec()@.extra_args
}

/// Raw arguments always come last: a command whose executor differs from
/// that of `c` only by the raw arguments `items` appended to it passes
/// exactly what `c` passes, followed by `items`.
pub proof fn lemma_raw_args_come_last<C: GitCommand>(c: C, d: C, items: Seq<Seq<char>>)
    requires
        d == c.with_executor_spec(d.executor_spec()),
        d.executor_spec()@.extra_args == c.executor_spec()@.extra_args + items,
    ensures
        full_args(d) == full_args(c) + items,
{
    c.lemma_args_ignore_executor(d.executor_spec());
    assert(full_args(d) =~= full_args(c) + items);
}

/// A `git` subcommand builder.
pub trait GitCommand: Sized {
    /// The executor the command holds.
    spec fn executor_spec(&self) -> CommandExecutor;

    /// The command with its executor replaced by `e`.
    spec fn with_executor_spec(self, e: CommandExecutor) -> Self;

    /// The arguments the command passes to `git`.
    spec fn args_spec(&self) -> Seq<Seq<char>>;

    /// Replacing the executor replaces exactly the executor.
    proof fn lemma_with_executor(self, e1: CommandExecutor, e2: CommandExecutor)
        ensures
            self.with_executor_spec(e1).executor_spec() == e1,
            self.with_executor_spec(e1).with_executor_spec(e2) == self.with_executor_spec(e2),
    ;

    /// The arguments do not depend on the executor: scoping a command to a
    /// directory, or giving it an environment, a timeout or input, leaves
    /// what it passes to `git` unchanged.
    proof fn lemma_args_ignore_executor(self, e: CommandExecutor)
        ensures
            self.with_executor_spec(e).args_spec() == self.args_spec(),
    ;

    /// The shared executor.
    fn get_executor(&self) -> (r: &CommandExecutor)
        ensures
            *r == self.executor_spec(),
    ;

    /// The shared executor, for changing it in place.
    fn get_executor_mut(&mut self) -> (r: &mut CommandExecutor)
        ensures
            *r == old(self).executor_spec(),
            *final(self) == Self::with_executor_spec(*old(self), *final(r)),
    ;

    /// Puts `e` in place of the executor and hands back the previous one.
    fn replace_executor(&mut self, e: CommandExecutor) -> (prev: CommandExecutor)
        ensures
            prev == old(self).executor_spec(),
            *final(self) == Self::with_executor_spec(*old(self), e),
    ;

    /// The arguments that follow `git` on the command line, extra raw
    /// arguments excluded.
    fn build_command_args(&self) -> (r: Vec<String>)
        ensures
            seq_views(r@) == self.args_spec(),
    ;

    /// Everything that follows `git` on the command line: the command's own
    /// arguments, then the extra raw arguments of its executor.
    fn command_line(&self) -> (r: Vec<String>)
        ensures
            seq_views(r@) == self.args_spec() + self.executor_spec()@.extra_args,
    {
        let mut r = self.build_command_args();
        push_all(&mut r, &self.get_executor().extra_args);
        r
    }

    /// Run in directory `dir`.
    fn current_dir(&mut self, dir: impl IntoText) -> (r: &mut Self)
        ensures
            *final(self) == *final(r),
            *r == Self::with_executor_spec(*old(self), r.executor_spec()),
            r.executor_spec()@ == (ExecutorView {
                cwd: Some(dir.text()),
                ..old(self).executor_spec()@
            }),
    {
        let ghost s0 = *self;
        let blank = CommandExecutor::new();
        let ghost t = blank;
        let mut e = self.replace_executor(blank);
        e.cwd = Some(dir.into_text());
        let ghost e2 = e;
        self.replace_executor(e);
        proof {
            s0.lemma_with_executor(t, e2);
            s0.lemma_with_executor(e2, e2);
        }
        self
    }

    /// Append one raw argument after the command's own arguments.
    fn arg(&mut self, a: impl IntoText) -> (r: &mut Self)
        ensures
            *final(self) == *final(r),
            *r == Self::with_executor_spec(*old(self), r.executor_spec()),
            r.executor_spec()@ == (ExecutorView {
                extra_args: old(self).executor_spec()@.extra_args.push(a.text()),
                ..old(self).executor_spec()@
            }),
    {
        let ghost s0 = *self;
        let blank = CommandExecutor::new();
        let ghost t = blank;
        let mut e = self.replace_executor(blank);
        let ghost before = seq_views(e.extra_args@);
        let a2 = a.into_text();
        let ghost av = a2@;
        e.extra_args.push(a2);
        assert(seq_views(e.extra_args@) =~= before.push(av));
        let ghost e2 = e;
        self.replace_executor(e);
        proof {
            s0.lemma_with_executor(t, e2);
            s0.lemma_with_executor(e2, e2);
        }
        self
    }

    /// Append several raw arguments after the command's own arguments.
    fn args(&mut self, items: Vec<String>) -> (r: &mut Self)
        ensures
            *final(self) == *final(r),
            *r == Self::with_executor_spec(*old(self), r.executor_spec()),
            r.executor_spec()@ == (ExecutorView {
                extra_args: old(self).executor_spec()@.extra_args + seq_views(items@),
                ..old(self).executor_spec()@
            }),
    {
        let ghost s0 = *self;
        let blank = CommandExecutor::new();
        let ghost t = blank;
        let mut e = self.replace_executor(blank);
        let ghost before = seq_views(e.extra_args@);
        let ghost iv = seq_views(items@);
        let ghost e0 = e;
        let n = items.len();
        let mut i: usize = 0;
        while i < n
            invariant
                i <= n,
                n == items.len(),
                iv == seq_views(items@),
                seq_views(e.extra_args@) == before + iv.take(i as int),
                e.cwd == e0.cwd,
                e.env == e0.env,
                e.timeout_seconds == e0.timeout_seconds,
                e.stdin == e0.stdin,
            decreases n - i,
        {
            let x = items[i].clone();
            assert(x@ == iv[i as int]);
            let ghost eb = seq_views(e.extra_args@);
            let ghost xv = x@;
            e.extra_args.push(x);
            assert(seq_views(e.extra_args@) =~= eb.push(xv));
            assert(iv.take(i + 1) =~= iv.take(i as int).push(iv[i as int]));
            i += 1;
        }
        assert(iv.take(n as int) =~= iv);
        let ghost e2 = e;
        self.replace_executor(e);
        proof {
            s0.lemma_with_executor(t, e2);
            s0.lemma_with_executor(e2, e2);
        }
        self
    }

    /// Set an environment variable for the process.
    fn env(&mut self, key: impl IntoText, value: impl IntoText) -> (r: &mut Self)
        ensures
            *final(self) == *final(r),
            *r == Self::with_executor_spec(*old(self), r.executor_spec()),
            r.executor_spec()@ == (ExecutorView {
                env: old(self).executor_spec()@.env.push((key.text(), value.text())),
                ..old(self).executor_spec()@
            }),
    {
        let ghost s0 = *self;
        let blank = CommandExecutor::new();
        let ghost t = blank;
        let mut e = self.replace_executor(blank);
        let ghost before = env_view(e.env@);
        let k = key.into_text();
        let v = value.into_text();
        let ghost kv = (k@, v@);
        e.env.push((k, v));
        assert(env_view(e.env@) =~= before.push(kv));
        let ghost e2 = e;
        self.replace_executor(e);
        proof {
            s0.lemma_with_executor(t, e2);
            s0.lemma_with_executor(e2, e2);
        }
        self
    }

    /// Give up on the process after `seconds`.
    fn with_timeout(&mut self, seconds: u64) -> (r: &mut Self)
        ensures
            *final(self) == *final(r),
            *r == Self::with_executor_spec(*old(self), r.executor_spec()),
            r.executor_spec()@ == (ExecutorView {
                timeout_seconds: Some(seconds),
                ..old(self).executor_spec()@
            }),
    {
        let ghost s0 = *self;
        let blank = CommandExecutor::new();
        let ghost t = blank;
        let mut e = self.replace_executor(blank);
        e.timeout_seconds = Some(seconds);
        let ghost e2 = e;
        self.replace_executor(e);
        proof {
            s0.lemma_with_executor(t, e2);
            s0.lemma_with_executor(e2, e2);
        }
        self
    }

    /// Write `bytes` to the process's standard input.
    fn stdin_bytes(&mut self, bytes: Vec<u8>) -> (r: &mut Self)
        ensures
            *final(self) == *final(r),
            *r == Self::with_executor_spec(*old(self), r.executor_spec()),
            r.executor_spec()@ == (ExecutorView {
                stdin: Some(bytes@),
                ..old(self).executor_spec()@
            }),
    {
        let ghost s0 = *self;
        let blank = CommandExecutor::new();
        let ghost t = blank;
        let mut e = self.replace_executor(blank);
        e.stdin = Some(bytes);
        let ghost e2 = e;
        self.replace_executor(e);
        proof {
            s0.lemma_with_executor(t, e2);
            s0.lemma_with_executor(e2, e2);
        }
        self
    }
}

} // verus!
