//! Resolution of the user's credentials from command-line flags or prompts.
//!
//! Each of the two flags defaults to a sentinel marker when omitted; a flag
//! left at the marker asks for an interactive prompt. The username read at a
//! prompt is trimmed; the password is taken verbatim. Reading from the
//! terminal is the caller's job: the functions here only decide whether a
//! prompt is needed and combine the flag with what the prompt returned.

use vstd::prelude::*;
use vstd::string::StrSliceExecFns;

verus! {

/// The marker value that stands for an omitted credential flag.
pub open spec fn sentinel() -> Seq<char> {
    "NONE"@
}

/// Whether a flag value asks for an interactive prompt.
pub open spec fn prompt_needed(v: Seq<char>) -> bool {
    v == sentinel()
}

/// Whitespace as the prompt trimming understands it: the Unicode
/// `White_Space` characters, the same set `str::trim` removes.
pub open spec fn is_space(c: char) -> bool {
    ||| c == '\t'
    ||| c == '\n'
    ||| c == '\u{000B}'
    ||| c == '\u{000C}'
    ||| c == '\r'
    ||| c == ' '
    ||| c == '\u{0085}'
    ||| c == '\u{00A0}'
    ||| c == '\u{1680}'
    ||| (0x2000 <= c as u32 && c as u32 <= 0x200A)
    ||| c == '\u{2028}'
    ||| c == '\u{2029}'
    ||| c == '\u{202F}'
    ||| c == '\u{205F}'
    ||| c == '\u{3000}'
}

/// The sequence with its leading whitespace removed.
pub open spec fn trim_front(s: Seq<char>) -> Seq<char>
    decreases s.len(),
{
    if s.len() > 0 && is_space(s[0]) {
        trim_front(s.drop_first())
    } else {
        s
    }
}

/// The sequence with its trailing whitespace removed.
pub open spec fn trim_back(s: Seq<char>) -> Seq<char>
    decreases s.len(),
{
    if s.len() > 0 && is_space(s[s.len() - 1]) {
        trim_back(s.drop_last())
    } else {
        s
    }
}

/// The sequence with leading and trailing whitespace removed.
pub open spec fn trimmed(s: Seq<char>) -> Seq<char> {
    trim_back(trim_front(s))
}

/// A fully resolved username/password pair, held only long enough to build
/// the one authentication request.
pub struct Credentials {
    pub username: String,
    pub password: String,
}

/// Whether this flag value must be replaced by a value read at a prompt.
pub fn needs_prompt(flag: &String) -> (r: bool)
    ensures
        r == prompt_needed(flag@),
{
    let marker: String = "NONE".to_owned();
    *flag == marker
}

/// When both credential flags carry values other than the marker, neither
/// field asks for an interactive prompt.
pub proof fn lemma_flags_suppress_prompts(username_flag: Seq<char>, password_flag: Seq<char>)
    requires
        username_flag != sentinel(),
        password_flag != sentinel(),
    ensures
        !prompt_needed(username_flag),
        !prompt_needed(password_flag),
{
}

fn is_space_char(c: char) -> (r: bool)
    ensures
        r == is_space(c),
{
    c == '\t' || c == '\n' || c == '\u{000B}' || c == '\u{000C}' || c == '\r' || c == ' '
        || c == '\u{0085}' || c == '\u{00A0}' || c == '\u{1680}' || (0x2000 <= c as u32 && c
        as u32 <= 0x200A) || c == '\u{2028}' || c == '\u{2029}' || c == '\u{202F}' || c
        == '\u{205F}' || c == '\u{3000}'
}

proof fn lemma_trim_front_at(s: Seq<char>, i: int)
    requires
        0 <= i <= s.len(),
        forall|j: int| 0 <= j < i ==> is_space(s[j]),
        i == s.len() || !is_space(s[i]),
    ensures
        trim_front(s) =~= s.subrange(i, s.len() as int),
    decreases i,
{
    if i == 0 {
        assert(s.subrange(0, s.len() as int) =~= s);
    } else {
        let t = s.drop_first();
        assert(is_space(s[0]));
        assert(t =~= s.subrange(1, s.len() as int));
        assert forall|j: int| 0 <= j < i - 1 implies is_space(t[j]) by {
            assert(t[j] == s[j + 1]);
        }
        lemma_trim_front_at(t, i - 1);
        assert(t.subrange(i - 1, t.len() as int) =~= s.subrange(i, s.len() as int));
    }
}

proof fn lemma_trim_back_at(s: Seq<char>, k: int)
    requires
        0 <= k <= s.len(),
        forall|j: int| k <= j < s.len() ==> is_space(s[j]),
        k == 0 || !is_space(s[k - 1]),
    ensures
        trim_back(s) =~= s.subrange(0, k),
    decreases s.len() - k,
{
    if k == s.len() {
        assert(s.subrange(0, k) =~= s);
    } else {
        let t = s.drop_last();
        assert(is_space(s[s.len() - 1]));
        assert forall|j: int| k <= j < t.len() implies is_space(t[j]) by {
            assert(t[j] == s[j]);
        }
        lemma_trim_back_at(t, k);
        assert(t.subrange(0, k) =~= s.subrange(0, k));
    }
}

/// Removes leading and trailing whitespace from a line read at a prompt.
pub fn trim_line(s: &str) -> (r: String)
    ensures
        r@ == trimmed(s@),
{
    let n = s.unicode_len();
    let mut lo: usize = 0;
    while lo < n && is_space_char(s.get_char(lo))
        invariant
            n == s@.len(),
            0 <= lo <= n,
            forall|j: int| 0 <= j < lo ==> is_space(s@[j]),
        decreases n - lo,
    {
        lo = lo + 1;
    }
    let mut hi: usize = n;
    while hi > lo && is_space_char(s.get_char(hi - 1))
        invariant
            n == s@.len(),
            lo <= hi <= n,
            forall|j: int| hi <= j < n ==> is_space(s@[j]),
        decreases hi,
    {
        hi = hi - 1;
    }
    proof {
        lemma_trim_front_at(s@, lo as int);
        let t = s@.subrange(lo as int, s@.len() as int);
        assert forall|j: int| hi - lo <= j < t.len() implies is_space(t[j]) by {
            assert(t[j] == s@[lo + j]);
        }
        lemma_trim_back_at(t, hi - lo);
        assert(t.subrange(0, hi - lo) =~= s@.subrange(lo as int, hi as int));
        assert(trimmed(s@) =~= s@.subrange(lo as int, hi as int));
    }
    let sub = s.substring_char(lo, hi);
    sub.to_owned()
}

/// Resolves the username: the flag value when one was given, otherwise the
/// trimmed line read at the prompt; `None` when a prompt was needed but no
/// line was supplied.
pub fn resolve_username(flag: String, prompt_line: Option<&str>) -> (r: Option<String>)
    ensures
        !prompt_needed(flag@) ==> (r matches Some(u) && u@ == flag@),
        prompt_needed(flag@) ==> (match prompt_line {
            Some(line) => r matches Some(u) && u@ == trimmed(line@),
            None => r is None,
        }),
{
    if !needs_prompt(&flag) {
        Some(flag)
    } else {
        match prompt_line {
            Some(line) => Some(trim_line(line)),
            None => None,
        }
    }
}

/// Resolves the password: the flag value when one was given, otherwise the
/// value read at the masked prompt, taken verbatim; `None` when a prompt was
/// needed but no value was supplied.
pub fn resolve_password(flag: String, prompt_input: Option<String>) -> (r: Option<String>)
    ensures
        !prompt_needed(flag@) ==> (r matches Some(p) && p@ == flag@),
        prompt_needed(flag@) ==> (match prompt_input {
            Some(entered) => r matches Some(p) && p@ == entered@,
            None => r is None,
        }),
{
    if !needs_prompt(&flag) {
        Some(flag)
    } else {
        prompt_input
    }
}

} // verus!
