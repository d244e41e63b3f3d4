use vstd::prelude::*;

verus! {

/// The character classes that the field grammars are built from.
#[derive(Clone, Copy, Debug, PartialEq, Eq, Structural)]
pub enum CharClass {
    /// `[a-z0-9_.-]`
    Username,
    /// ASCII letters, the accepted accented letters, space and `,.'-`
    Name,
    /// `[A-Za-z0-9._%+-]`
    EmailLocal,
    /// `[A-Za-z0-9.-]`
    EmailDomain,
    /// `[A-Za-z]`
    Letter,
}

pub open spec fn is_lower_spec(c: char) -> bool {
    'a' <= c && c <= 'z'
}

pub open spec fn is_upper_spec(c: char) -> bool {
    'A' <= c && c <= 'Z'
}

pub open spec fn is_digit_spec(c: char) -> bool {
    '0' <= c && c <= '9'
}

/// The separators of a username: `_`, `.` and `-`.
pub open spec fn is_special_spec(c: char) -> bool {
    c == '_' || c == '.' || c == '-'
}

pub open spec fn is_accented_spec(c: char) -> bool {
    c == 'à' || c == 'á' || c == 'â' || c == 'ä' || c == 'ã' || c == 'å' || c == 'ą'
        || c == 'č' || c == 'ć' || c == 'ę' || c == 'è' || c == 'é' || c == 'ê' || c == 'ë'
        || c == 'ė' || c == 'į' || c == 'ì' || c == 'í' || c == 'î' || c == 'ï' || c == 'ł'
        || c == 'ń' || c == 'ò' || c == 'ó' || c == 'ô' || c == 'ö' || c == 'õ' || c == 'ø'
        || c == 'ù' || c == 'ú' || c == 'û' || c == 'ü' || c == 'ų' || c == 'ū' || c == 'ÿ'
        || c == 'ý' || c == 'ż' || c == 'ź' || c == 'ñ' || c == 'ç' || c == 'š' || c == 'ž'
        || c == 'À' || c == 'Á' || c == 'Â' || c == 'Ä' || c == 'Ã' || c == 'Å' || c == 'Ą'
        || c == 'Ć' || c == 'Č' || c == 'Ė' || c == 'Ę' || c == 'È' || c == 'É' || c == 'Ê'
        || c == 'Ë' || c == 'Ì' || c == 'Í' || c == 'Î' || c == 'Ï' || c == 'Į' || c == 'Ł'
        || c == 'Ń' || c == 'Ò' || c == 'Ó' || c == 'Ô' || c == 'Ö' || c == 'Õ' || c == 'Ø'
        || c == 'Ù' || c == 'Ú' || c == 'Û' || c == 'Ü' || c == 'Ų' || c == 'Ū' || c == 'Ÿ'
        || c == 'Ý' || c == 'Ż' || c == 'Ź' || c == 'Ñ' || c == 'ß' || c == 'Ç' || c == 'Œ'
        || c == 'Æ' || c == 'Š' || c == 'Ž' || c == '∂' || c == 'ð'
}

pub open spec fn in_class(c: char, class: CharClass) -> bool {
    match class {
        CharClass::Username => is_lower_spec(c) || is_digit_spec(c) || is_special_spec(c),
        CharClass::Name => is_lower_spec(c) || is_upper_spec(c) || is_accented_spec(c) || c == ' '
            || c == ',' || c == '.' || c == '\'' || c == '-',
        CharClass::EmailLocal => is_lower_spec(c) || is_upper_spec(c) || is_digit_spec(c) || c
            == '.' || c == '_' || c == '%' || c == '+' || c == '-',
        CharClass::EmailDomain => is_lower_spec(c) || is_upper_spec(c) || is_digit_spec(c) || c
            == '.' || c == '-',
        CharClass::Letter => is_lower_spec(c) || is_upper_spec(c),
    }
}

/// Every character of `s` in `[lo, hi)` belongs to `class`.
pub open spec fn all_in_class(s: Seq<char>, lo: int, hi: int, class: CharClass) -> bool {
    forall|i: int| lo <= i < hi ==> #[trigger] in_class(s[i], class)
}

fn char_in_class(c: char, class: CharClass) -> (r: bool)
    ensures
        r == in_class(c, class),
{
    let lower = 'a' <= c && c <= 'z';
    let upper = 'A' <= c && c <= 'Z';
    let digit = '0' <= c && c <= '9';
    match class {
        CharClass::Username => lower || digit || c == '_' || c == '.' || c == '-',
        CharClass::Name => lower || upper || is_accented(c) || c == ' ' || c == ',' || c == '.'
            || c == '\'' || c == '-',
        CharClass::EmailLocal => lower || upper || digit || c == '.' || c == '_' || c == '%' || c
            == '+' || c == '-',
        CharClass::EmailDomain => lower || upper || digit || c == '.' || c == '-',
        CharClass::Letter => lower || upper,
    }
}

fn is_accented(c: char) -> (r: bool)
    ensures
        r == is_accented_spec(c),
{
    c == 'à' || c == 'á' || c == 'â' || c == 'ä' || c == 'ã' || c == 'å' || c == 'ą'
        || c == 'č' || c == 'ć' || c == 'ę' || c == 'è' || c == 'é' || c == 'ê' || c == 'ë'
        || c == 'ė' || c == 'į' || c == 'ì' || c == 'í' || c == 'î' || c == 'ï' || c == 'ł'
        || c == 'ń' || c == 'ò' || c == 'ó' || c == 'ô' || c == 'ö' || c == 'õ' || c == 'ø'
        || c == 'ù' || c == 'ú' || c == 'û' || c == 'ü' || c == 'ų' || c == 'ū' || c == 'ÿ'
        || c == 'ý' || c == 'ż' || c == 'ź' || c == 'ñ' || c == 'ç' || c == 'š' || c == 'ž'
        || c == 'À' || c == 'Á' || c == 'Â' || c == 'Ä' || c == 'Ã' || c == 'Å' || c == 'Ą'
        || c == 'Ć' || c == 'Č' || c == 'Ė' || c == 'Ę' || c == 'È' || c == 'É' || c == 'Ê'
        || c == 'Ë' || c == 'Ì' || c == 'Í' || c == 'Î' || c == 'Ï' || c == 'Į' || c == 'Ł'
        || c == 'Ń' || c == 'Ò' || c == 'Ó' || c == 'Ô' || c == 'Ö' || c == 'Õ' || c == 'Ø'
        || c == 'Ù' || c == 'Ú' || c == 'Û' || c == 'Ü' || c == 'Ų' || c == 'Ū' || c == 'Ÿ'
        || c == 'Ý' || c == 'Ż' || c == 'Ź' || c == 'Ñ' || c == 'ß' || c == 'Ç' || c == 'Œ'
        || c == 'Æ' || c == 'Š' || c == 'Ž' || c == '∂' || c == 'ð'
}

/// Whether every character of `s` at a position in `[lo, hi)` belongs to `class`.
pub fn all_chars_in_class(s: &str, lo: usize, hi: usize, class: CharClass) -> (r: bool)
    requires
        lo <= hi <= s@.len(),
    ensures
        r == all_in_class(s@, lo as int, hi as int, class),
{
    let mut i: usize = lo;
    while i < hi
        invariant
            lo <= i <= hi <= s@.len(),
            all_in_class(s@, lo as int, i as int, class),
        decreases hi - i,
    {
        if !char_in_class(s.get_char(i), class) {
            return false;
        }
        i = i + 1;
    }
    true
}


/// The username grammar: a lowercase first letter, only `[a-z0-9_.-]`, no two
/// separators in a row and no separator at the end.
pub open spec fn username_format_ok(s: Seq<char>) -> bool {
    &&& s.len() > 0
    &&& is_lower_spec(s[0])
    &&& all_in_class(s, 0, s.len() as int, CharClass::Username)
    &&& forall|i: int| 0 <= i < s.len() - 1 ==> !(#[trigger] is_special_spec(s[i]) && is_special_spec(s[i + 1]))
    &&& !is_special_spec(s[s.len() - 1])
}

/// The name grammar: one or more characters, each a name character.
pub open spec fn name_format_ok(s: Seq<char>) -> bool {
    s.len() > 0 && all_in_class(s, 0, s.len() as int, CharClass::Name)
}

/// `local@domain.tld` split at `at` (the `@`) and `dot` (the last dot):
/// a non-empty local part, a non-empty domain, and a final label of at least two letters.
pub open spec fn email_split_ok(s: Seq<char>, at: int, dot: int) -> bool {
    &&& 0 < at
    &&& at + 1 < dot
    &&& dot + 3 <= s.len()
    &&& s[at] == '@'
    &&& s[dot] == '.'
    &&& all_in_class(s, 0, at, CharClass::EmailLocal)
    &&& all_in_class(s, at + 1, dot, CharClass::EmailDomain)
    &&& all_in_class(s, dot + 1, s.len() as int, CharClass::Letter)
}

/// The address grammar `[A-Za-z0-9._%+-]+@[A-Za-z0-9.-]+\.[A-Za-z]{2,}`.
pub open spec fn email_format_ok(s: Seq<char>) -> bool {
    exists|at: int, dot: int| email_split_ok(s, at, dot)
}

/// Whether `username` follows the username grammar.
pub fn is_username_valid(username: &str) -> (r: bool)
    ensures
        r == username_format_ok(username@),
{
    let n = username.unicode_len();
    if n == 0 {
        return false;
    }
    let first = username.get_char(0);
    if !('a' <= first && first <= 'z') {
        return false;
    }
    let mut i: usize = 0;
    while i < n
        invariant
            n == username@.len(),
            0 < n,
            i <= n,
            all_in_class(username@, 0, i as int, CharClass::Username),
            forall|j: int| 0 <= j < i - 1 ==> !(#[trigger] is_special_spec(username@[j]) && is_special_spec(username@[j + 1])),
        decreases n - i,
    {
        let c = username.get_char(i);
        if !char_in_class(c, CharClass::Username) {
            return false;
        }
        let special = c == '_' || c == '.' || c == '-';
        if i > 0 && special {
            let prev = username.get_char(i - 1);
            if prev == '_' || prev == '.' || prev == '-' {
                assert(is_special_spec(username@[i - 1]) && is_special_spec(username@[(i - 1) + 1]));
                return false;
            }
        }
        i = i + 1;
    }
    let last = username.get_char(n - 1);
    !(last == '_' || last == '.' || last == '-')
}

/// Whether `name` follows the name grammar.
pub fn is_name_valid(name: &str) -> (r: bool)
    ensures
        r == name_format_ok(name@),
{
    let n = name.unicode_len();
    n > 0 && all_chars_in_class(name, 0, n, CharClass::Name)
}

/// Whether `email` follows the address grammar.
pub fn is_email_valid(email: &str) -> (r: bool)
    ensures
        r == email_format_ok(email@),
{
    let n = email.unicode_len();
    let ghost s = email@;
    // the `@` is the first one: no local character is an `@`
    let mut at: usize = 0;
    while at < n && email.get_char(at) != '@'
        invariant
            s == email@,
            n == s.len(),
            at <= n,
            forall|j: int| 0 <= j < at ==> s[j] != '@',
        decreases n - at,
    {
        at = at + 1;
    }
    if at == n {
        assert(!email_format_ok(s)) by {
            if exists|a: int, d: int| email_split_ok(s, a, d) {
                let (a, d) = choose|a: int, d: int| email_split_ok(s, a, d);
                assert(s[a] != '@');
            }
        }
        return false;
    }
    // the dot is the last one: no letter is a dot
    let mut dot: usize = n;
    let mut k: usize = n;
    while k > 0 && dot == n
        invariant
            s == email@,
            n == s.len(),
            k <= n,
            dot == n || (dot < n && s[dot as int] == '.' && dot >= k),
            dot == n ==> forall|j: int| k <= j < n ==> s[j] != '.',
            dot < n ==> forall|j: int| dot < j < n ==> s[j] != '.',
        decreases k,
    {
        k = k - 1;
        if email.get_char(k) == '.' {
            dot = k;
        }
    }
    let ok = 0 < at && at + 1 < dot && dot < n && n - dot >= 3
        && all_chars_in_class(email, 0, at, CharClass::EmailLocal)
        && all_chars_in_class(email, at + 1, dot, CharClass::EmailDomain)
        && all_chars_in_class(email, dot + 1, n, CharClass::Letter);
    if ok {
        assert(email_split_ok(s, at as int, dot as int));
    } else {
        assert(!email_format_ok(s)) by {
            if exists|a: int, d: int| email_split_ok(s, a, d) {
                let (a, d) = choose|a: int, d: int| email_split_ok(s, a, d);
                // the local part holds no `@`, so `a` is the first one
                if a > at as int {
                    assert(in_class(s[at as int], CharClass::EmailLocal));
                }
                assert(a == at as int);
                // the final label holds no dot, so `d` is the last one
                if d < dot as int {
                    assert(in_class(s[dot as int], CharClass::Letter));
                } else if d > dot as int {
                    assert(s[d] == '.');
                }
                assert(d == dot as int);
            }
        }
    }
    ok
}

/// Why a field was refused.
#[derive(Clone, Copy, Debug, PartialEq, Eq, Structural)]
pub enum Reason {
    InvalidLength,
    InvalidFormat,
    TooShort,
    Mismatch,
}

/// The registration field that a validation error is about.
#[derive(Clone, Copy, Debug, PartialEq, Eq, Structural)]
pub enum Field {
    Username,
    Password,
    FirstName,
    LastName,
    Email,
}

/// A client-correctable registration error: which field, and why.
#[derive(Clone, Copy, Debug, PartialEq, Eq, Structural)]
pub struct ValidationError {
    pub field: Field,
    pub reason: Reason,
}

pub open spec fn username_check(s: Seq<char>) -> Option<Reason> {
    if s.len() < 6 || s.len() > 30 {
        Some(Reason::InvalidLength)
    } else if !username_format_ok(s) {
        Some(Reason::InvalidFormat)
    } else {
        None
    }
}

pub open spec fn name_check(s: Seq<char>) -> Option<Reason> {
    if s.len() < 2 || s.len() > 255 {
        Some(Reason::InvalidLength)
    } else if !name_format_ok(s) {
        Some(Reason::InvalidFormat)
    } else {
        None
    }
}

/// A password's length is counted in UTF-8 bytes, as the hashing library
/// reads it; the other length bounds count characters.
pub open spec fn password_check(pwd: Seq<char>, confirm: Seq<char>) -> Option<Reason> {
    if vstd::utf8::encode_utf8(pwd).len() < 8 {
        Some(Reason::TooShort)
    } else if pwd != confirm {
        Some(Reason::Mismatch)
    } else {
        None
    }
}

pub open spec fn email_check(s: Seq<char>) -> Option<Reason> {
    if s.len() < 6 || s.len() > 320 {
        Some(Reason::InvalidLength)
    } else if !email_format_ok(s) {
        Some(Reason::InvalidFormat)
    } else {
        None
    }
}

/// Checks a username: 6 to 30 characters, then the username grammar.
pub fn validate_username(s: &str) -> (r: Result<(), Reason>)
    ensures
        r is Err <==> username_check(s@) is Some,
        r matches Err(e) ==> username_check(s@) == Some(e),
{
    let n = s.unicode_len();
    if n < 6 || n > 30 {
        Err(Reason::InvalidLength)
    } else if !is_username_valid(s) {
        Err(Reason::InvalidFormat)
    } else {
        Ok(())
    }
}

/// Checks a first or last name: 2 to 255 characters, then the name grammar.
pub fn validate_name(s: &str) -> (r: Result<(), Reason>)
    ensures
        r is Err <==> name_check(s@) is Some,
        r matches Err(e) ==> name_check(s@) == Some(e),
{
    let n = s.unicode_len();
    if n < 2 || n > 255 {
        Err(Reason::InvalidLength)
    } else if !is_name_valid(s) {
        Err(Reason::InvalidFormat)
    } else {
        Ok(())
    }
}

/// Checks a password and its confirmation: at least 8 bytes of UTF-8, then equal.
pub fn validate_password(pwd: &String, confirm: &String) -> (r: Result<(), Reason>)
    ensures
        r is Err <==> password_check(pwd@, confirm@) is Some,
        r matches Err(e) ==> password_check(pwd@, confirm@) == Some(e),
{
    if pwd.as_str().as_bytes().len() < 8 {
        Err(Reason::TooShort)
    } else if !(*pwd == *confirm) {
        Err(Reason::Mismatch)
    } else {
        Ok(())
    }
}

/// Checks an email address: 6 to 320 characters, then the address grammar.
pub fn validate_email(s: &str) -> (r: Result<(), Reason>)
    ensures
        r is Err <==> email_check(s@) is Some,
        r matches Err(e) ==> email_check(s@) == Some(e),
{
    let n = s.unicode_len();
    if n < 6 || n > 320 {
        Err(Reason::InvalidLength)
    } else if !is_email_valid(s) {
        Err(Reason::InvalidFormat)
    } else {
        Ok(())
    }
}

pub open spec fn validation_message(e: ValidationError) -> Seq<char> {
    match e {
        ValidationError { field: Field::Username, reason: Reason::InvalidLength } => "Username must be between 6 and 30 characters"@,
        ValidationError { field: Field::Username, reason: _ } => "Username must start with a letter and contain only letters, numbers, and the characters: ._-"@,
        ValidationError { field: Field::Password, reason: Reason::Mismatch } => "Passwords do not match"@,
        ValidationError { field: Field::Password, reason: _ } => "Password must be at least 8 characters"@,
        ValidationError { field: Field::FirstName, reason: Reason::InvalidLength } => "First name must be between 2 and 255 characters"@,
        ValidationError { field: Field::FirstName, reason: _ } => "First name contains invalid characters"@,
        ValidationError { field: Field::LastName, reason: Reason::InvalidLength } => "Last name must be between 2 and 255 characters"@,
        ValidationError { field: Field::LastName, reason: _ } => "Last name contains invalid characters"@,
        ValidationError { field: Field::Email, reason: Reason::InvalidLength } => "Email must be between 6 and 320 characters"@,
        ValidationError { field: Field::Email, reason: _ } => "Invalid email"@,
    }
}

impl ValidationError {
    /// The client-facing message for this error.
    pub fn message(&self) -> (r: String)
        ensures
            r@ == validation_message(*self),
    {
        match self {
            ValidationError { field: Field::Username, reason: Reason::InvalidLength } => String::from_str("Username must be between 6 and 30 characters"),
            ValidationError { field: Field::Username, reason: _ } => String::from_str("Username must start with a letter and contain only letters, numbers, and the characters: ._-"),
            ValidationError { field: Field::Password, reason: Reason::Mismatch } => String::from_str("Passwords do not match"),
            ValidationError { field: Field::Password, reason: _ } => String::from_str("Password must be at least 8 characters"),
            ValidationError { field: Field::FirstName, reason: Reason::InvalidLength } => String::from_str("First name must be between 2 and 255 characters"),
            ValidationError { field: Field::FirstName, reason: _ } => String::from_str("First name contains invalid characters"),
            ValidationError { field: Field::LastName, reason: Reason::InvalidLength } => String::from_str("Last name must be between 2 and 255 characters"),
            ValidationError { field: Field::LastName, reason: _ } => String::from_str("Last name contains invalid characters"),
            ValidationError { field: Field::Email, reason: Reason::InvalidLength } => String::from_str("Email must be between 6 and 320 characters"),
            ValidationError { field: Field::Email, reason: _ } => String::from_str("Invalid email"),
        }
    }
}

} // verus!
