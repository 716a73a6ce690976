//! Typed inspection and configuration of commit and tag signing.
//!
//! Reached through [`Repository::signing`], which returns a [`SigningOps`]
//! handle. Every operation is a typed use of `git config`, reading and
//! writing the four keys that govern signing: `user.signingkey`,
//! `gpg.format`, `commit.gpgsign`, and `tag.gpgsign`. Reads consult the
//! effective configuration (local, then global, then system), matching what
//! `git` itself would use; writes target the local repository config.
//!
//! The handle builds the `git config` argument lists
//! ([`SigningOps::get_args`], [`SigningOps::set_args`]), reads one value
//! back from a captured run ([`SigningOps::value_from`]), and interprets
//! the values ([`SignatureFormat::from_value`], [`parse_bool`],
//! [`SigningConfig::from_values`]).
//!
//! These helpers only touch configuration. Producing an actual signature
//! still needs a real GPG or SSH key available to `git` at commit or tag
//! time.
use vstd::prelude::*;

use crate::command::{lossy_text, push_lit, push_text, start_args, CommandOutput, IntoText};
use crate::repo::Repository;
use crate::text::{
    chars_of, is_lit, lower_text, opt_view, seq_views, to_ascii_lowercase, trim, trim_ws,
};

verus! {

/// The config key holding the signing key.
pub const KEY_SIGNING_KEY: &'static str = "user.signingkey";

/// The config key holding the signature format.
pub const KEY_FORMAT: &'static str = "gpg.format";

/// The config key that turns on commit signing.
pub const KEY_COMMIT_SIGN: &'static str = "commit.gpgsign";

/// The config key that turns on tag signing.
pub const KEY_TAG_SIGN: &'static str = "tag.gpgsign";

/// The signature format `git` uses, as configured by `gpg.format`.
#[derive(Debug, Clone, PartialEq, Eq)]
pub enum SignatureFormat {
    /// OpenPGP / GnuPG (`openpgp`), git's default when unset.
    OpenPgp,
    /// SSH keys (`ssh`).
    Ssh,
    /// X.509 / S/MIME (`x509`).
    X509,
    /// Any other value git accepts, preserved verbatim.
    Other(String),
}

/// `v` names one of the formats that have a variant of their own.
pub open spec fn is_known_format(v: Seq<char>) -> bool {
    v == "openpgp"@ || v == "ssh"@ || v == "x509"@
}

/// The string git stores in `gpg.format` for `f`.
pub open spec fn format_name(f: SignatureFormat) -> Seq<char> {
    match f {
        SignatureFormat::OpenPgp => "openpgp"@,
        SignatureFormat::Ssh => "ssh"@,
        SignatureFormat::X509 => "x509"@,
        SignatureFormat::Other(s) => s@,
    }
}

/// `f` is how the raw `gpg.format` value `v` is classified: a known name
/// gives its variant, anything else is kept as [`SignatureFormat::Other`].
pub open spec fn classifies(v: Seq<char>, f: SignatureFormat) -> bool {
    match f {
        SignatureFormat::OpenPgp => v == "openpgp"@,
        SignatureFormat::Ssh => v == "ssh"@,
        SignatureFormat::X509 => v == "x509"@,
        SignatureFormat::Other(s) => s@ == v && !is_known_format(v),
    }
}

impl SignatureFormat {
    /// The string git stores in `gpg.format`.
    pub fn as_str(&self) -> (r: &str)
        ensures
            r@ == format_name(*self),
    {
        match self {
            SignatureFormat::OpenPgp => "openpgp",
            SignatureFormat::Ssh => "ssh",
            SignatureFormat::X509 => "x509",
            SignatureFormat::Other(s) => s.as_str(),
        }
    }

    /// Classify a raw `gpg.format` value, mapping the known formats and
    /// keeping anything else as [`Other`](SignatureFormat::Other).
    pub fn from_value(value: &str) -> (r: Self)
        ensures
            classifies(value@, r),
    {
        let v = chars_of(value);
        if is_lit(&v, "openpgp") {
            SignatureFormat::OpenPgp
        } else if is_lit(&v, "ssh") {
            SignatureFormat::Ssh
        } else if is_lit(&v, "x509") {
            SignatureFormat::X509
        } else {
            SignatureFormat::Other(value.to_owned())
        }
    }
}

/// Reading back the name of a classified value gives the value.
pub proof fn lemma_format_name_of_classified(v: Seq<char>, f: SignatureFormat)
    requires
        classifies(v, f),
    ensures
        format_name(f) == v,
{
}

/// Classifying the name of a format gives that format back, for every
/// format but an [`SignatureFormat::Other`] that holds a known name.
pub proof fn lemma_classify_format_name(f: SignatureFormat)
    requires
        !(f matches SignatureFormat::Other(s) && is_known_format(s@)),
    ensures
        classifies(format_name(f), f),
{
}

/// Two formats that classify the same raw value have the same name.
pub proof fn lemma_classify_unique(v: Seq<char>, f1: SignatureFormat, f2: SignatureFormat)
    requires
        classifies(v, f1),
        classifies(v, f2),
    ensures
        format_name(f1) == format_name(f2),
        f1 is OpenPgp <==> f2 is OpenPgp,
        f1 is Ssh <==> f2 is Ssh,
        f1 is X509 <==> f2 is X509,
        f1 is Other <==> f2 is Other,
{
    reveal_strlit("openpgp");
    reveal_strlit("ssh");
    reveal_strlit("x509");
}

/// A snapshot of the four signing-related configuration values.
///
/// Absent `user.signingkey` and `gpg.format` are `None`; the two boolean
/// flags default to `false` when unset, matching git's own behavior.
#[derive(Debug, Clone, PartialEq, Eq)]
pub struct SigningConfig {
    /// `user.signingkey`, if set.
    pub signing_key: Option<String>,
    /// `gpg.format`, if set.
    pub format: Option<SignatureFormat>,
    /// `commit.gpgsign` (default `false`).
    pub sign_commits: bool,
    /// `tag.gpgsign` (default `false`).
    pub sign_tags: bool,
}

impl Default for SigningConfig {
    fn default() -> (r: Self)
        ensures
            r.signing_key is None,
            r.format is None,
            !r.sign_commits,
            !r.sign_tags,
    {
        SigningConfig { signing_key: None, format: None, sign_commits: false, sign_tags: false }
    }
}

/// What a raw `commit.gpgsign` / `tag.gpgsign` lookup means: an absent key
/// is false, a present one is read by [`git_truthy`].
pub open spec fn flag_of(value: Option<Seq<char>>) -> bool {
    match value {
        Some(v) => git_truthy(v),
        None => false,
    }
}

/// The boolean a present config value stands for.
pub fn flag_value(value: &Option<String>) -> (r: bool)
    ensures
        r == flag_of(opt_view(*value)),
{
    match value {
        Some(v) => parse_bool(v.as_str()),
        None => false,
    }
}

impl SigningConfig {
    /// The configuration described by the four raw lookups: the key as is,
    /// the format classified, and the two flags read as booleans.
    pub fn from_values(
        signing_key: Option<String>,
        format: Option<String>,
        commit_sign: Option<String>,
        tag_sign: Option<String>,
    ) -> (r: Self)
        ensures
            opt_view(r.signing_key) == opt_view(signing_key),
            match format {
                Some(v) => r.format matches Some(f) && classifies(v@, f),
                None => r.format is None,
            },
            r.sign_commits == flag_of(opt_view(commit_sign)),
            r.sign_tags == flag_of(opt_view(tag_sign)),
    {
        let fmt = match &format {
            Some(v) => Some(SignatureFormat::from_value(v.as_str())),
            None => None,
        };
        SigningConfig {
            signing_key,
            format: fmt,
            sign_commits: flag_value(&commit_sign),
            sign_tags: flag_value(&tag_sign),
        }
    }
}

/// Operations on signing configuration, scoped to a [`Repository`].
///
/// Obtained via [`Repository::signing`]. The handle borrows the repository
/// for the duration of one chained call — there is no shared state.
#[derive(Debug)]
pub struct SigningOps<'a> {
    repo: &'a Repository,
}

impl<'a> View for SigningOps<'a> {
    type V = Seq<char>;

    /// The working-tree path of the repository the operations act on.
    closed spec fn view(&self) -> Seq<char> {
        self.repo@
    }
}

impl<'a> SigningOps<'a> {
    /// The repository the operations act on.
    pub fn repo(&self) -> (r: &'a Repository)
        ensures
            r@ == self@,
    {
        self.repo
    }

    /// The arguments after `git` that read `key`: `config <key>`.
    pub fn get_args(&self, key: &str) -> (r: Vec<String>)
        ensures
            seq_views(r@) == seq!["config"@, key@],
    {
        let mut args = start_args("config");
        push_lit(&mut args, key);
        args
    }

    /// The arguments after `git` that write `value` to `key` in the local
    /// repository config: `config <key> <value>`.
    pub fn set_args(&self, key: &str, value: impl IntoText) -> (r: Vec<String>)
        ensures
            seq_views(r@) == seq!["config"@, key@, value.text()],
    {
        let mut args = start_args("config");
        push_lit(&mut args, key);
        let v = value.into_text();
        push_text(&mut args, &v);
        args
    }

    /// The value a captured `git config <key>` run reports.
    ///
    /// A missing key (exit status 1) is `None`; any other failure is an
    /// [`Error::CommandFailed`](crate::error::Error::CommandFailed) with the
    /// run's exit code. Output that is not valid UTF-8 is decoded lossily.
    pub fn value_from(output: &CommandOutput) -> (r: crate::error::Result<Option<String>>)
        ensures
            !output.success && output.exit_code == 1 ==> (r matches Ok(v) && v is None),
            !output.success && output.exit_code != 1 ==> (r matches Err(
                crate::error::Error::CommandFailed { exit_code, .. },
            ) && exit_code == output.exit_code),
            output.success ==> (r matches Ok(v) && opt_view(v) == Some(
                trim_ws(lossy_text(output.stdout@)),
            )),
            output.success && vstd::utf8::valid_utf8(output.stdout@) ==> (r matches Ok(v)
                && opt_view(v) == Some(trim_ws(vstd::utf8::decode_utf8(output.stdout@)))),
    {
        if output.success {
            Ok(Some(output.stdout_trimmed()))
        } else if output.exit_code == 1 {
            Ok(None)
        } else {
            let stdout = output.stdout_str();
            Err(
                crate::error::Error::command_failed(
                    "git config",
                    output.exit_code,
                    stdout,
                    output.stderr.clone(),
                ),
            )
        }
    }
}

impl Repository {
    /// Operations on commit and tag signing configuration.
    pub fn signing(&self) -> (r: SigningOps<'_>)
        ensures
            r@ == self@,
    {
        SigningOps { repo: self }
    }
}

/// The canonical text of a boolean git config value.
pub open spec fn bool_text(on: bool) -> Seq<char> {
    if on {
        "true"@
    } else {
        "false"@
    }
}

/// The canonical string for a boolean git config value.
pub fn bool_value(on: bool) -> (r: String)
    ensures
        r@ == bool_text(on),
{
    if on {
        "true".to_owned()
    } else {
        "false".to_owned()
    }
}

/// git's truthiness of a config value: after trimming surrounding white
/// space and lowering ASCII letters, `true`, `yes`, `on`, `1` and the empty
/// value are true.
pub open spec fn git_truthy(value: Seq<char>) -> bool {
    let v = lower_text(trim_ws(value));
    v == "true"@ || v == "yes"@ || v == "on"@ || v == "1"@ || v.len() == 0
}

/// Interpret a raw git config value as a boolean.
///
/// Follows git's own truthiness rules: `true`, `yes`, `on`, `1`, and an empty
/// value (a bare `[section] key` line) are true; everything else is false.
/// Matching is case-insensitive and ignores surrounding whitespace.
pub fn parse_bool(value: &str) -> (r: bool)
    ensures
        r == git_truthy(value@),
{
    let v = to_ascii_lowercase(&trim(&chars_of(value)));
    is_lit(&v, "true") || is_lit(&v, "yes") || is_lit(&v, "on") || is_lit(&v, "1") || v.len()
        == 0
}

/// Reading back the canonical text of a boolean gives the boolean.
pub proof fn lemma_bool_round_trip(on: bool)
    ensures
        git_truthy(bool_text(on)) == on,
{
    reveal_strlit("true");
    reveal_strlit("false");
    reveal_strlit("yes");
    reveal_strlit("on");
    reveal_strlit("1");
    let t = bool_text(on);
    assert(crate::text::lead_count(t, crate::text::CharClass::Whitespace) == 0);
    assert(t.skip(0) =~= t);
    assert(crate::text::trail_count(t, crate::text::CharClass::Whitespace) == 0);
    assert(t.take(t.len() as int) =~= t);
    assert(trim_ws(t) == t);
    assert(lower_text(t) =~= t);
}

} // verus!
