//! Interpreting what the user typed at a prompt.
use vstd::prelude::*;
use vstd::string::StrSliceExecFns;
use vstd::string::StringExecFns;
use crate::text::{trim, trim_str};

verus! {

/// What an answer to a yes/no question means.
#[derive(Clone, Copy, Debug, PartialEq, Eq, Structural)]
pub enum Answer {
    Yes,
    No,
    /// Neither: the question is asked again.
    Unclear,
}

/// `c` with ASCII upper-case letters mapped to lower case.
pub open spec fn ascii_lower(c: char) -> char {
    if 'A' <= c && c <= 'Z' {
        ((c as u32) + 32) as char
    } else {
        c
    }
}

/// `t` equals the lower-case word `w` when ASCII case is ignored.
pub open spec fn same_word(t: Seq<char>, w: Seq<char>) -> bool {
    t.len() == w.len() && forall|i: int| 0 <= i < t.len() ==> ascii_lower(#[trigger] t[i]) == w[i]
}

/// The meaning of the line `s` typed at a yes/no prompt: after trimming, the
/// empty line, `y` and `yes` agree, `n` and `no` decline, in any case.
pub open spec fn answer_of(s: Seq<char>) -> Answer {
    let t = trim(s);
    if t.len() == 0 || same_word(t, seq!['y']) || same_word(t, seq!['y', 'e', 's']) {
        Answer::Yes
    } else if same_word(t, seq!['n']) || same_word(t, seq!['n', 'o']) {
        Answer::No
    } else {
        Answer::Unclear
    }
}

fn lower_char(c: char) -> (r: char)
    ensures
        r == ascii_lower(c),
{
    if 'A' <= c && c <= 'Z' {
        ((c as u8) + 32) as char
    } else {
        c
    }
}

/// Whether `t` equals the lower-case word `w` when ASCII case is ignored.
pub fn is_word(t: &str, w: &str) -> (r: bool)
    ensures
        r == same_word(t@, w@),
{
    let n = t.unicode_len();
    if n != w.unicode_len() {
        return false;
    }
    let mut i: usize = 0;
    while i < n
        invariant
            n == t@.len(),
            n == w@.len(),
            i <= n,
            forall|j: int| 0 <= j < i ==> ascii_lower(#[trigger] t@[j]) == w@[j],
        decreases n - i,
    {
        if lower_char(t.get_char(i)) != w.get_char(i) {
            return false;
        }
        i = i + 1;
    }
    true
}

/// Classifies a line typed at a yes/no prompt.
pub fn parse_answer(input: &str) -> (r: Answer)
    ensures
        r == answer_of(input@),
{
    let t = trim_str(input);
    let t = t.as_str();
    proof {
        reveal_strlit("y");
        reveal_strlit("yes");
        reveal_strlit("n");
        reveal_strlit("no");
        assert("y"@ =~= seq!['y']);
        assert("yes"@ =~= seq!['y', 'e', 's']);
        assert("n"@ =~= seq!['n']);
        assert("no"@ =~= seq!['n', 'o']);
    }
    if t.is_empty() || is_word(t, "y") || is_word(t, "yes") {
        Answer::Yes
    } else if is_word(t, "n") || is_word(t, "no") {
        Answer::No
    } else {
        Answer::Unclear
    }
}

/// The editor used when no setting names one and the user types nothing.
pub open spec fn default_editor() -> Seq<char> {
    seq!['n', 'a', 'n', 'o']
}

/// The first of the editor settings, in order of precedence, that is present
/// and not blank.
pub open spec fn first_editor(settings: Seq<Option<String>>) -> Option<Seq<char>>
    decreases settings.len(),
{
    if settings.len() == 0 {
        None
    } else {
        match settings[0] {
            Some(e) if trim(e@).len() > 0 => Some(e@),
            _ => first_editor(settings.drop_first()),
        }
    }
}

/// Picks the editor from settings listed from the highest precedence down;
/// `None` when every one is absent or blank.
pub fn editor_from_settings(settings: &Vec<Option<String>>) -> (r: Option<String>)
    ensures
        r.is_some() == first_editor(settings@).is_some(),
        r.is_some() ==> r.unwrap()@ == first_editor(settings@).unwrap(),
{
    let mut i: usize = 0;
    proof {
        assert(settings@.subrange(0, settings@.len() as int) =~= settings@);
    }
    while i < settings.len()
        invariant
            i <= settings@.len(),
            first_editor(settings@) == first_editor(settings@.subrange(i as int, settings@.len() as int)),
        decreases settings@.len() - i,
    {
        let ghost rest = settings@.subrange(i as int, settings@.len() as int);
        assert(rest.drop_first() =~= settings@.subrange(i + 1, settings@.len() as int));
        assert(rest[0] == settings@[i as int]);
        match &settings[i] {
            Some(e) => {
                let t = trim_str(e.as_str());
                if !t.as_str().is_empty() {
                    return Some(e.clone());
                }
            },
            None => {},
        }
        i = i + 1;
    }
    None
}

/// The editor named by the line typed when asked for one: the trimmed line,
/// or the default when it is blank.
pub open spec fn editor_of_answer(s: Seq<char>) -> Seq<char> {
    if trim(s).len() == 0 {
        default_editor()
    } else {
        trim(s)
    }
}

/// Picks the editor from the line typed when asked for one.
pub fn editor_from_answer(input: &str) -> (r: String)
    ensures
        r@ == editor_of_answer(input@),
{
    let t = trim_str(input);
    if t.as_str().is_empty() {
        proof {
            reveal_strlit("nano");
            assert("nano"@ =~= default_editor());
        }
        String::from_str("nano")
    } else {
        t
    }
}

} // verus!
