//! The environment handed to a command run in a devcontainer, and the command
//! line of an interactive shell.

use crate::text::{ascii_lower_chars, ascii_lower_seq, chars_of, contains_chars, contains_run};
use vstd::prelude::*;
use vstd::string::*;

verus! {

/// The pattern `utf-8`.
pub open spec fn utf_dash_8() -> Seq<char> {
    seq!['u', 't', 'f', '-', '8']
}

/// The pattern `utf8`.
pub open spec fn utf_8() -> Seq<char> {
    seq!['u', 't', 'f', '8']
}

/// A locale names the UTF-8 encoding: ignoring ASCII case, it contains
/// `utf-8` or `utf8`.
pub open spec fn names_utf8(locale: Seq<char>) -> bool {
    contains_run(ascii_lower_seq(locale), utf_dash_8()) || contains_run(
        ascii_lower_seq(locale),
        utf_8(),
    )
}

/// The locale used where none that names UTF-8 is given.
pub open spec fn default_locale() -> Seq<char> {
    "C.UTF-8"@
}

/// The terminal type used where none is given.
pub open spec fn default_term() -> Seq<char> {
    "xterm-256color"@
}

/// The value of an optional string slice.
pub open spec fn opt_str(s: Option<&str>) -> Option<Seq<char>> {
    match s {
        Some(s) => Some(s@),
        None => None,
    }
}

/// The given locale if it names UTF-8, else the default locale.
pub open spec fn locale_or_default(locale: Option<Seq<char>>) -> Seq<char> {
    match locale {
        Some(l) if names_utf8(l) => l,
        _ => default_locale(),
    }
}

/// The environment of a command run in a devcontainer: `TERM` (the given
/// terminal type or `xterm-256color`), `SHELL`, `LANG` and `LC_CTYPE` (each
/// the given locale if it names UTF-8, else `C.UTF-8`), then `LC_ALL` only
/// when it is given and names UTF-8.
pub open spec fn exec_env_model(
    shell: Seq<char>,
    term: Option<Seq<char>>,
    lang: Option<Seq<char>>,
    lc_ctype: Option<Seq<char>>,
    lc_all: Option<Seq<char>>,
) -> Seq<Seq<char>> {
    let term_value = match term {
        Some(t) => t,
        None => default_term(),
    };
    let base = seq![
        "TERM="@ + term_value,
        "SHELL="@ + shell,
        "LANG="@ + locale_or_default(lang),
        "LC_CTYPE="@ + locale_or_default(lc_ctype),
    ];
    match lc_all {
        Some(l) if names_utf8(l) => base.push("LC_ALL="@ + l),
        _ => base,
    }
}

/// Whether `locale` names the UTF-8 encoding (`utf-8` or `utf8`, in any
/// ASCII case).
pub fn is_utf8_locale(locale: &str) -> (r: bool)
    ensures
        r == names_utf8(locale@),
{
    let lowered = ascii_lower_chars(&chars_of(locale));
    let dash = "utf-8";
    let plain = "utf8";
    proof {
        reveal_strlit("utf-8");
        reveal_strlit("utf8");
    }
    let dash_chars = chars_of(dash);
    let plain_chars = chars_of(plain);
    assert(dash_chars@ =~= utf_dash_8());
    assert(plain_chars@ =~= utf_8());
    contains_chars(&lowered, &dash_chars) || contains_chars(&lowered, &plain_chars)
}

/// `locale` if it is given and names UTF-8, else `C.UTF-8`.
pub fn utf8_locale_or_default<'a>(locale: Option<&'a str>) -> (r: &'a str)
    ensures
        r@ == locale_or_default(opt_str(locale)),
{
    match locale {
        Some(l) => {
            if is_utf8_locale(l) {
                l
            } else {
                "C.UTF-8"
            }
        },
        None => "C.UTF-8",
    }
}

/// `prefix` followed by `value`, as an owned string.
fn join(prefix: &str, value: &str) -> (s: String)
    ensures
        s@ == prefix@ + value@,
{
    let mut s = String::from_str(prefix);
    s.append(value);
    s
}

/// The environment of a command run in a devcontainer, from the shell and
/// the caller's `TERM`, `LANG`, `LC_CTYPE` and `LC_ALL`.
pub fn exec_env_from(
    shell: &str,
    term: Option<&str>,
    lang: Option<&str>,
    lc_ctype: Option<&str>,
    lc_all: Option<&str>,
) -> (env: Vec<String>)
    ensures
        env.deep_view() == exec_env_model(
            shell@,
            opt_str(term),
            opt_str(lang),
            opt_str(lc_ctype),
            opt_str(lc_all),
        ),
{
    let term_value = match term {
        Some(t) => t,
        None => "xterm-256color",
    };
    let mut env: Vec<String> = Vec::new();
    env.push(join("TERM=", term_value));
    env.push(join("SHELL=", shell));
    env.push(join("LANG=", utf8_locale_or_default(lang)));
    env.push(join("LC_CTYPE=", utf8_locale_or_default(lc_ctype)));
    if let Some(l) = lc_all {
        if is_utf8_locale(l) {
            env.push(join("LC_ALL=", l));
        }
    }
    assert(env.deep_view() =~= exec_env_model(
        shell@,
        opt_str(term),
        opt_str(lang),
        opt_str(lc_ctype),
        opt_str(lc_all),
    ));
    env
}

/// The command line of an interactive shell: the shell followed by its
/// arguments.
pub fn attach_command<'s>(shell: &'s str, shell_args: &[&'s str]) -> (cmd: Vec<&'s str>)
    ensures
        cmd@ == seq![shell] + shell_args@,
{
    let mut cmd: Vec<&'s str> = Vec::new();
    cmd.push(shell);
    let mut i: usize = 0;
    while i < shell_args.len()
        invariant
            i <= shell_args@.len(),
            cmd@ == seq![shell] + shell_args@.subrange(0, i as int),
        decreases shell_args@.len() - i,
    {
        cmd.push(shell_args[i]);
        proof {
            assert(shell_args@.subrange(0, i + 1) == shell_args@.subrange(0, i as int).push(
                shell_args@[i as int],
            ));
        }
        i += 1;
    }
    assert(shell_args@.subrange(0, shell_args@.len() as int) == shell_args@);
    cmd
}

/// The arguments an interactive shell is started with: the given ones, or,
/// when none are given, `-l -i` (a login, interactive shell).
pub fn shell_args_or_default<'s>(given: &[&'s str]) -> (args: Vec<&'s str>)
    ensures
        given@.len() > 0 ==> args@ == given@,
        given@.len() == 0 ==> args@.len() == 2 && args@[0]@ == "-l"@ && args@[1]@ == "-i"@,
{
    let mut args: Vec<&'s str> = Vec::new();
    if given.len() == 0 {
        args.push("-l");
        args.push("-i");
        return args;
    }
    let mut i: usize = 0;
    while i < given.len()
        invariant
            i <= given@.len(),
            args@ == given@.subrange(0, i as int),
        decreases given@.len() - i,
    {
        args.push(given[i]);
        proof {
            assert(given@.subrange(0, i + 1) == given@.subrange(0, i as int).push(given@[i as int]));
        }
        i += 1;
    }
    assert(given@.subrange(0, given@.len() as int) == given@);
    args
}

} // verus!

verus! {

// ---------------------------------------------------------------------------
// Laws of the command environment.
// ---------------------------------------------------------------------------

/// The default locale `C.UTF-8` names UTF-8.
pub proof fn default_locale_names_utf8()
    ensures
        names_utf8(default_locale()),
{
    reveal_strlit("C.UTF-8");
    let lowered = ascii_lower_seq(default_locale());
    assert(lowered.subrange(2, 7) =~= utf_dash_8());
    assert(crate::text::occurs_at(lowered, utf_dash_8(), 2));
}

/// Whatever the caller's locale, the locale a command gets names UTF-8; a
/// locale that already does is kept, and choosing again changes nothing.
pub proof fn chosen_locale_names_utf8(locale: Option<Seq<char>>)
    ensures
        names_utf8(locale_or_default(locale)),
        (match locale {
            Some(l) => names_utf8(l) ==> locale_or_default(locale) == l,
            None => true,
        }),
        locale_or_default(Some(locale_or_default(locale))) == locale_or_default(locale),
{
    default_locale_names_utf8();
}

/// Whether a locale names UTF-8 does not depend on ASCII case.
pub proof fn utf8_locale_ignores_case(locale: Seq<char>)
    ensures
        names_utf8(ascii_lower_seq(locale)) == names_utf8(locale),
{
    assert(ascii_lower_seq(ascii_lower_seq(locale)) =~= ascii_lower_seq(locale));
}

/// A command's environment always sets `TERM`, `SHELL`, `LANG` and
/// `LC_CTYPE`, in that order, with `LANG` and `LC_CTYPE` naming UTF-8, and
/// sets `LC_ALL` as a fifth variable exactly when the caller's `LC_ALL` names
/// UTF-8, and then with that `LC_ALL` value unchanged.
pub proof fn exec_env_shape(
    shell: Seq<char>,
    term: Option<Seq<char>>,
    lang: Option<Seq<char>>,
    lc_ctype: Option<Seq<char>>,
    lc_all: Option<Seq<char>>,
)
    ensures
        ({
            let env = exec_env_model(shell, term, lang, lc_ctype, lc_all);
            &&& env.len() == if lc_all matches Some(l) && names_utf8(l) {
                5int
            } else {
                4int
            }
            &&& env[0] == "TERM="@ + (match term {
                Some(t) => t,
                None => default_term(),
            })
            &&& env[1] == "SHELL="@ + shell
            &&& env[2] == "LANG="@ + locale_or_default(lang)
            &&& names_utf8(locale_or_default(lang))
            &&& env[3] == "LC_CTYPE="@ + locale_or_default(lc_ctype)
            &&& names_utf8(locale_or_default(lc_ctype))
            &&& (match lc_all {
                Some(l) => names_utf8(l) ==> env[4] == "LC_ALL="@ + l,
                None => true,
            })
        }),
{
    chosen_locale_names_utf8(lang);
    chosen_locale_names_utf8(lc_ctype);
}

} // verus!
