//! Who is logged in on the console.

use vstd::prelude::*;

use crate::text::{
    chars_of, has_prefix, line_chars, lines, lossy_text, split_lines, strip_prefix, text_of, trim,
    trimmed, utf8_lossy,
};

verus! {

/// The name under which this process runs: `USER`, else `USERNAME`.
pub fn current_username(user: Option<String>, username: Option<String>) -> (name: String)
    ensures
        name@ == match (user, username) {
            (Some(user), _) => user@,
            (None, Some(username)) => username@,
            (None, None) => "Unknown user"@,
        },
{
    match user {
        Some(user) => user,
        None => match username {
            Some(username) => username,
            None => "Unknown user".to_owned(),
        },
    }
}

/// Whether `text` is more than white space.
fn is_visible(text: &str) -> (visible: bool)
    ensures
        visible == (trimmed(text@).len() > 0),
{
    let chars = chars_of(text);
    trim(chars.as_slice()).len() > 0
}

/// The console user that the environment names: `USER`, else `USERNAME`, where that is
/// more than white space.
pub open spec fn env_user(user: Option<String>, username: Option<String>) -> Option<String> {
    let name = if user is Some {
        user
    } else {
        username
    };
    if name is Some && trimmed(name->0@).len() > 0 {
        name
    } else {
        None
    }
}

/// The console user as the environment tells it: `USER`, else `USERNAME`, unless
/// that is blank.
pub fn console_user_from_env(user: Option<String>, username: Option<String>) -> (found: Option<
    String,
>)
    ensures
        found == env_user(user, username),
{
    let name = match user {
        Some(user) => Some(user),
        None => username,
    };
    match name {
        Some(name) => if is_visible(name.as_str()) {
            Some(name)
        } else {
            None
        },
        None => None,
    }
}

/// The user that a line of `scutil` output names. The login window is no user.
pub open spec fn user_on_line(line: Seq<char>) -> Option<Seq<char>> {
    let line = trimmed(line);
    let name = trimmed(line.skip("Name :"@.len() as int));
    if has_prefix(line, "Name :"@) && name.len() > 0 && name != "loginwindow"@ {
        Some(name)
    } else {
        None
    }
}

/// The user that the first line that names one names.
pub open spec fn first_user(lines: Seq<Seq<char>>, from: int) -> Option<Seq<char>>
    decreases lines.len() - from,
{
    if from >= lines.len() {
        None
    } else if user_on_line(lines[from]) is Some {
        user_on_line(lines[from])
    } else {
        first_user(lines, from + 1)
    }
}

/// The user that a line of `scutil` output names.
fn read_user_line(line: &[char]) -> (found: Option<String>)
    ensures
        crate::text::text_view(found) == user_on_line(line@),
{
    match strip_prefix(trim(line), "Name :") {
        Some(rest) => {
            let name = text_of(trim(rest));
            let chars = chars_of(name.as_str());
            if chars.len() > 0 && !crate::text::same_text(name.as_str(), "loginwindow") {
                Some(name)
            } else {
                None
            }
        },
        None => None,
    }
}

/// The console user in what `scutil` says of `State:/Users/ConsoleUser`.
pub fn console_user_from_scutil(output: &str) -> (found: Option<String>)
    ensures
        crate::text::text_view(found) == first_user(lines(output@), 0),
{
    let chars = chars_of(output);
    let found = split_lines(chars.as_slice());
    let ghost all = lines(output@);
    let mut i: usize = 0;
    while i < found.len()
        invariant
            i <= found@.len(),
            all == lines(output@),
            line_chars(found@) == all,
            first_user(all, i as int) == first_user(all, 0),
        decreases found@.len() - i,
    {
        assert(all[i as int] == found@[i as int]@);
        if let Some(user) = read_user_line(found[i]) {
            return Some(user);
        }
        i = i + 1;
    }
    None
}

/// The console user in the bytes that `scutil` printed.
pub fn console_user_from_scutil_bytes(stdout: &[u8]) -> (found: Option<String>)
    ensures
        crate::text::text_view(found) == first_user(lines(lossy_text(stdout@)), 0),
{
    let output = utf8_lossy(stdout);
    console_user_from_scutil(output.as_str())
}

/// The environment names its user as it is written, `USER` ahead of `USERNAME`. A name
/// that is nothing but white space is none.
pub proof fn the_environment_names_its_user(user: String, username: Option<String>)
    ensures
        env_user(Some(user), username) == env_user(Some(user), None),
        env_user(None, Some(user)) == env_user(Some(user), username),
        env_user(None, None) is None,
        (exists|i: int| 0 <= i < user@.len() && !crate::text::is_white_space(#[trigger] user@[i]))
            ==> env_user(Some(user), username) == Some(user),
        (forall|i: int| 0 <= i < user@.len() ==> crate::text::is_white_space(#[trigger] user@[i]))
            ==> env_user(Some(user), username) is None,
{
    crate::text::trimming_takes_the_white_space(user@);
    let (from, to) = choose|from: int, to: int| #[trigger] crate::text::is_trim(user@, from, to);
    assert(crate::text::is_trim(user@, from, to));
    if trimmed(user@).len() > 0 {
        assert(trimmed(user@)[0] == user@[from]);
    }
}

/// A line names a user behind `Name :`, with the white space around it taken off. The
/// login window is nobody.
pub proof fn lines_name_their_user(line: Seq<char>, name: Seq<char>)
    requires
        trimmed(line) == "Name :"@ + name,
    ensures
        user_on_line(line) is None <==> trimmed(name).len() == 0 || trimmed(name)
            == "loginwindow"@,
        user_on_line(line) matches Some(user) ==> user == trimmed(name),
{
    crate::text::prefixes_stand_ahead("Name :"@, trimmed(line), name);
}

/// Any other line names nobody.
pub proof fn other_lines_name_nobody(line: Seq<char>)
    requires
        !has_prefix(trimmed(line), "Name :"@),
    ensures
        user_on_line(line) is None,
{
}

/// The first line that names a user counts.
pub proof fn the_first_user_counts(found: Seq<Seq<char>>, from: int, at: int)
    requires
        0 <= from <= at < found.len(),
        user_on_line(found[at]) is Some,
        forall|i: int| from <= i < at ==> user_on_line(#[trigger] found[i]) is None,
    ensures
        first_user(found, from) == user_on_line(found[at]),
    decreases at - from,
{
    if from < at {
        assert(user_on_line(found[from]) is None);
        the_first_user_counts(found, from + 1, at);
    }
}

/// Where no line names a user, there is none.
pub proof fn nobody_is_found_on_no_line(found: Seq<Seq<char>>, from: int)
    requires
        0 <= from,
        forall|i: int| from <= i < found.len() ==> user_on_line(#[trigger] found[i]) is None,
    ensures
        first_user(found, from) is None,
    decreases found.len() - from,
{
    if from < found.len() {
        assert(user_on_line(found[from]) is None);
        nobody_is_found_on_no_line(found, from + 1);
    }
}

} // verus!
