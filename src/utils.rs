//! Credential checks applied before any form is sent.
use vstd::prelude::*;

verus! {

/// The shortest password that the policy accepts, in characters.
pub const MIN_PASSWORD_LEN: usize = 8;

/// The shortest e-mail address that is accepted, in bytes.
pub const MIN_EMAIL_LEN: usize = 5;

pub open spec fn is_lowercase_letter(c: char) -> bool {
    'a' <= c && c <= 'z'
}

pub open spec fn is_uppercase_letter(c: char) -> bool {
    'A' <= c && c <= 'Z'
}

pub open spec fn is_digit(c: char) -> bool {
    '0' <= c && c <= '9'
}

/// The characters that count as special: `!@#$%^&*_=+'`.
pub open spec fn is_special(c: char) -> bool {
    c == '!' || c == '@' || c == '#' || c == '$' || c == '%' || c == '^' || c == '&' || c == '*'
        || c == '_' || c == '=' || c == '+' || c == '\''
}

/// Some character of `s` satisfies `p`.
pub open spec fn has_char(s: Seq<char>, p: spec_fn(char) -> bool) -> bool {
    exists|i: int| 0 <= i < s.len() && p(#[trigger] s[i])
}

/// The password policy: at least eight characters, with a lowercase letter,
/// an uppercase letter, a digit and a special character among them.
pub open spec fn password_ok(s: Seq<char>) -> bool {
    &&& s.len() >= MIN_PASSWORD_LEN
    &&& has_char(s, |c: char| is_lowercase_letter(c))
    &&& has_char(s, |c: char| is_uppercase_letter(c))
    &&& has_char(s, |c: char| is_digit(c))
    &&& has_char(s, |c: char| is_special(c))
}

/// The address check: an `@` and a `.` somewhere, and at least five bytes.
pub open spec fn email_ok(s: Seq<char>, byte_len: nat) -> bool {
    &&& s.contains('@')
    &&& s.contains('.')
    &&& byte_len >= MIN_EMAIL_LEN
}

fn is_special_char(c: char) -> (r: bool)
    ensures
        r == is_special(c),
{
    c == '!' || c == '@' || c == '#' || c == '$' || c == '%' || c == '^' || c == '&' || c == '*'
        || c == '_' || c == '=' || c == '+' || c == '\''
}

/// Whether `password` meets the password policy.
///
/// The length is counted in characters, so a password of fewer than eight
/// characters is refused whatever bytes encode it.
pub fn validate_password(password: &str) -> (r: bool)
    ensures
        r == password_ok(password@),
        password@.len() < MIN_PASSWORD_LEN ==> !r,
{
    let n = password.unicode_len();
    if n < MIN_PASSWORD_LEN {
        return false;
    }
    let mut has_lowercase = false;
    let mut has_uppercase = false;
    let mut has_digit = false;
    let mut has_special = false;
    let mut i: usize = 0;
    while i < n
        invariant
            n == password@.len(),
            i <= n,
            has_lowercase == has_char(password@.subrange(0, i as int), |c: char| is_lowercase_letter(c)),
            has_uppercase == has_char(password@.subrange(0, i as int), |c: char| is_uppercase_letter(c)),
            has_digit == has_char(password@.subrange(0, i as int), |c: char| is_digit(c)),
            has_special == has_char(password@.subrange(0, i as int), |c: char| is_special(c)),
        decreases n - i,
    {
        let c = password.get_char(i);
        proof {
            let pre = password@.subrange(0, i as int);
            let post = password@.subrange(0, i + 1);
            assert(post == pre.push(c));
            assert(forall|j: int| 0 <= j < pre.len() ==> post[j] == pre[j]);
            assert(post[i as int] == c);
        }
        if 'a' <= c && c <= 'z' {
            has_lowercase = true;
        }
        if 'A' <= c && c <= 'Z' {
            has_uppercase = true;
        }
        if '0' <= c && c <= '9' {
            has_digit = true;
        }
        if is_special_char(c) {
            has_special = true;
        }
        i = i + 1;
    }
    assert(password@.subrange(0, n as int) == password@);
    has_lowercase && has_uppercase && has_digit && has_special
}

/// Whether `email` looks like an address: it holds an `@` and a `.`, and is
/// at least five bytes long.
pub fn validate_email(email: &str) -> (r: bool)
    ensures
        r == email_ok(email@, email.len() as nat),
{
    let n = email.unicode_len();
    let mut has_at = false;
    let mut has_dot = false;
    let mut i: usize = 0;
    while i < n
        invariant
            n == email@.len(),
            i <= n,
            has_at == email@.subrange(0, i as int).contains('@'),
            has_dot == email@.subrange(0, i as int).contains('.'),
        decreases n - i,
    {
        let c = email.get_char(i);
        proof {
            let pre = email@.subrange(0, i as int);
            let post = email@.subrange(0, i + 1);
            assert(post == pre.push(c));
            lemma_contains_after_push(pre, c, '@');
            lemma_contains_after_push(pre, c, '.');
        }
        if c == '@' {
            has_at = true;
        }
        if c == '.' {
            has_dot = true;
        }
        i = i + 1;
    }
    assert(email@.subrange(0, n as int) == email@);
    has_at && has_dot && email.len() >= MIN_EMAIL_LEN
}

proof fn lemma_contains_after_push(s: Seq<char>, c: char, x: char)
    ensures
        s.push(c).contains(x) == (s.contains(x) || c == x),
{
    let t = s.push(c);
    if t.contains(x) {
        let j = choose|j: int| 0 <= j < t.len() && t[j] == x;
        if j < s.len() {
            assert(s[j] == x);
        }
    }
    if s.contains(x) {
        let j = choose|j: int| 0 <= j < s.len() && s[j] == x;
        assert(t[j] == x);
    }
    if c == x {
        assert(t[s.len() as int] == x);
    }
}

/// Whether `a` and `b` hold the same characters.
pub fn same_text(a: &str, b: &str) -> (r: bool)
    ensures
        r == (a@ == b@),
{
    let n = a.unicode_len();
    if n != b.unicode_len() {
        return false;
    }
    let mut i: usize = 0;
    while i < n
        invariant
            n == a@.len(),
            n == b@.len(),
            i <= n,
            forall|j: int| 0 <= j < i ==> a@[j] == b@[j],
        decreases n - i,
    {
        if a.get_char(i) != b.get_char(i) {
            return false;
        }
        i = i + 1;
    }
    assert(a@ =~= b@);
    true
}

/// A password of fewer than eight characters never meets the policy.
pub proof fn lemma_short_password_invalid(s: Seq<char>)
    requires
        s.len() < MIN_PASSWORD_LEN,
    ensures
        !password_ok(s),
{
}

/// The policy is a function of the characters alone: equal candidates are
/// judged alike.
pub proof fn lemma_password_check_deterministic(s: Seq<char>, t: Seq<char>)
    requires
        s == t,
    ensures
        password_ok(s) == password_ok(t),
{
}

} // verus!
