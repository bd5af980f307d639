//! Choosing the settings file that is merged last.

use vstd::prelude::*;
use crate::error::{outcome, RepipeError, RepipeErrorView};
use crate::text::push_char;

verus! {

/// The name of the settings file that serves where no target has its own.
pub open spec fn default_settings() -> Seq<char> {
    "settings.yml"@
}

/// A character as it stands in a file name: `-` in place of `/` and of a
/// space.
pub open spec fn safe_char(c: char) -> char {
    if c == '/' || c == ' ' {
        '-'
    } else {
        c
    }
}

/// The name of the settings file of the target `target`.
pub open spec fn settings_name(target: Seq<char>) -> Seq<char> {
    "settings-"@ + target.map_values(|c: char| safe_char(c)) + ".yml"@
}

/// The settings file that is chosen: the target's own where a target is
/// selected and its file exists, else the default where that exists.
pub open spec fn chosen_settings(
    target: Option<Seq<char>>,
    target_file_exists: bool,
    default_exists: bool,
) -> Result<Seq<char>, RepipeErrorView> {
    if target is Some && target_file_exists {
        Ok(settings_name(target.unwrap()))
    } else if default_exists {
        Ok(default_settings())
    } else {
        Err(RepipeErrorView::SettingsNotFound)
    }
}

/// The name of the settings file of the target `target`: `settings-`, the
/// target with `-` in place of each `/` and each space, and `.yml`.
pub fn settings_file_name(target: &str) -> (r: String)
    ensures
        r@ == settings_name(target@),
{
    let mut out = "settings-".to_owned();
    for c in it: target.chars()
        invariant
            it.seq() == target@,
            out@ == "settings-"@ + target@.take(it.index() as int).map_values(
                |c: char| safe_char(c),
            ),
    {
        let d = if c == '/' || c == ' ' {
            '-'
        } else {
            c
        };
        push_char(&mut out, d);
        assert(out@ =~= "settings-"@ + target@.take(it.index() + 1).map_values(
            |c: char| safe_char(c),
        ));
    }
    assert(target@.take(target@.len() as int) =~= target@);
    out.append(".yml");
    out
}

/// The settings file to merge, given the selected target, whether that
/// target's own file exists, and whether the default file exists. The
/// target's own file is preferred whenever it exists.
pub fn select_settings(target: &Option<String>, target_file_exists: bool, default_exists: bool) -> (r:
    Result<String, RepipeError>)
    ensures
        outcome(r) == chosen_settings(target.deep_view(), target_file_exists, default_exists),
        target is Some && target_file_exists ==> r is Ok && r.unwrap()@ == settings_name(
            target.unwrap()@,
        ),
        r is Err <==> !(target is Some && target_file_exists) && !default_exists,
{
    if let Some(t) = target {
        if target_file_exists {
            return Ok(settings_file_name(t.as_str()));
        }
    }
    if default_exists {
        Ok("settings.yml".to_owned())
    } else {
        Err(RepipeError::SettingsNotFound)
    }
}

} // verus!
