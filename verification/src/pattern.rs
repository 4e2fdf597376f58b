//! The three regular expressions of the notebook schema, matched by the
//! `regex` crate, and what each of them accepts.
use vstd::prelude::*;
use crate::rules::{CELL_ID_PATTERN, CELL_NAME_PATTERN, CELL_TAG_PATTERN};

verus! {

/// A character of the class `[a-zA-Z0-9\-_]`: an ASCII letter or digit,
/// `-` or `_`.
pub open spec fn id_char(c: char) -> bool {
    ||| ('a' <= c && c <= 'z')
    ||| ('A' <= c && c <= 'Z')
    ||| ('0' <= c && c <= '9')
    ||| c == '-'
    ||| c == '_'
}

/// The texts that `^[a-zA-Z0-9\-_]+$` matches: one or more characters,
/// each of them an `id_char`.
pub open spec fn id_text(t: Seq<char>) -> bool {
    t.len() > 0 && forall|i: int| 0 <= i < t.len() ==> #[trigger] id_char(t[i])
}

/// The texts that `^.+$` matches: one or more characters, none of them a
/// line feed (`.` matches any character but `\n`).
pub open spec fn line_text(t: Seq<char>) -> bool {
    t.len() > 0 && forall|i: int| 0 <= i < t.len() ==> #[trigger] t[i] != '\n'
}

/// The texts that `^[^,]+$` matches: one or more characters, none of them
/// a comma.
pub open spec fn tag_text(t: Seq<char>) -> bool {
    t.len() > 0 && forall|i: int| 0 <= i < t.len() ==> #[trigger] t[i] != ','
}

/// Compiles `pattern` with `regex::Regex::new` and calls `Regex::is_match`
/// on `text`; `None` where the pattern does not compile. Only the schema's
/// three patterns are admitted. Claimed, from the syntax the crate
/// documents (`^` and `$` are the start and end of the haystack, `.` is any
/// character but `\n`, `[^,]` any character but `,`, `+` one or more): each
/// of them compiles, and it matches exactly the texts that `id_text`,
/// `line_text` and `tag_text` describe.
#[verifier::external_body]
pub(crate) fn regex_match(pattern: &str, text: &str) -> (r: Option<bool>)
    requires
        pattern@ == CELL_ID_PATTERN@ || pattern@ == CELL_NAME_PATTERN@ || pattern@
            == CELL_TAG_PATTERN@,
    ensures
        pattern@ == CELL_ID_PATTERN@ ==> r == Some(id_text(text@)),
        pattern@ == CELL_NAME_PATTERN@ ==> r == Some(line_text(text@)),
        pattern@ == CELL_TAG_PATTERN@ ==> r == Some(tag_text(text@)),
{
    match regex::Regex::new(pattern) {
        Ok(re) => Some(re.is_match(text)),
        Err(_) => None,
    }
}

} // verus!
