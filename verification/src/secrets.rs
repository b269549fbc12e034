//! Secrets that are mounted as files, written out as settings.

use crate::text::{chars_of, pair_views};
use vstd::prelude::*;
use vstd::string::StrSliceExecFns;
use vstd::string::StringExecFns;

verus! {

/// The directory in which secrets are mounted, with the slash that ends it.
pub const SECRETS_DIR: &'static str = "/run/secrets/";

/// A character as it stands inside a quoted value: a backslash in front of
/// a backslash and of a quote, every other character as it is.
pub open spec fn escaped_char(c: char) -> Seq<char> {
    if c == '\\' {
        seq!['\\', '\\']
    } else if c == '"' {
        seq!['\\', '"']
    } else {
        seq![c]
    }
}

/// A text as it stands inside a quoted value.
pub open spec fn escaped(text: Seq<char>) -> Seq<char>
    decreases text.len(),
{
    if text.len() == 0 {
        Seq::<char>::empty()
    } else {
        escaped(text.drop_last()) + escaped_char(text.last())
    }
}

/// One setting on a line of its own: the name, an equals sign, and the
/// value in quotes.
pub open spec fn setting_line(name: Seq<char>, value: Seq<char>) -> Seq<char> {
    name + " = \""@ + escaped(value) + "\"\n"@
}

/// The settings, one line for each, in order.
pub open spec fn settings_text(settings: Seq<(Seq<char>, Seq<char>)>) -> Seq<char>
    decreases settings.len(),
{
    if settings.len() == 0 {
        Seq::<char>::empty()
    } else {
        settings_text(settings.drop_last()) + setting_line(settings.last().0, settings.last().1)
    }
}

/// The file in which the secret of this name is mounted.
pub fn secret_path(name: &str) -> (path: String)
    ensures
        path@ == SECRETS_DIR@ + name@,
{
    let mut path = String::from_str(SECRETS_DIR);
    path.append(name);
    path
}

/// Appends a text as it stands inside a quoted value.
pub fn push_escaped(out: &mut String, text: &str)
    ensures
        final(out)@ == old(out)@ + escaped(text@),
{
    let chars = chars_of(text);
    let mut i: usize = 0;
    while i < chars.len()
        invariant
            chars@ == text@,
            i <= chars.len(),
            out@ == old(out)@ + escaped(text@.take(i as int)),
        decreases chars.len() - i,
    {
        let c = chars[i];
        proof {
            reveal_strlit("\\\\");
            reveal_strlit("\\\"");
            assert(text@.take(i + 1).drop_last() =~= text@.take(i as int));
        }
        if c == '\\' {
            out.append("\\\\");
        } else if c == '"' {
            out.append("\\\"");
        } else {
            out.append(text.substring_char(i, i + 1));
        }
        i = i + 1;
    }
    assert(text@.take(chars.len() as int) =~= text@);
}

/// Writes the settings out, one line for each: the name, an equals sign,
/// and the value in quotes, with a backslash in front of every backslash
/// and quote inside it.
pub fn settings_toml(settings: &Vec<(String, String)>) -> (toml: String)
    ensures
        toml@ == settings_text(pair_views(settings@)),
{
    let mut toml = String::new();
    let mut i: usize = 0;
    while i < settings.len()
        invariant
            i <= settings.len(),
            toml@ == settings_text(pair_views(settings@.take(i as int))),
        decreases settings.len() - i,
    {
        toml.append(settings[i].0.as_str());
        toml.append(" = \"");
        push_escaped(&mut toml, settings[i].1.as_str());
        toml.append("\"\n");
        proof {
            let done = pair_views(settings@.take(i + 1));
            assert(done.drop_last() =~= pair_views(settings@.take(i as int)));
        }
        i = i + 1;
    }
    assert(settings@.take(settings.len() as int) =~= settings@);
    toml
}

} // verus!
