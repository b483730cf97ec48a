//! User accounts: the user record, the rules a username, password and email must
//! follow, and the text forms of a user.
use vstd::prelude::*;
use vstd::string::*;
use vstd::utf8::encode_utf8;

verus! {

/// std's `char::is_alphanumeric` on `c`.
pub uninterp spec fn alphanumeric(c: char) -> bool;

/// std's `char::is_uppercase` on `c`.
pub uninterp spec fn uppercase(c: char) -> bool;

/// std's `char::is_lowercase` on `c`.
pub uninterp spec fn lowercase(c: char) -> bool;

/// std's `char::is_numeric` on `c`.
pub uninterp spec fn numeric(c: char) -> bool;

/// Whether the regular expression `pattern` matches somewhere in `text`, as the
/// `regex` crate decides it.
pub uninterp spec fn regex_matches(pattern: Seq<char>, text: Seq<char>) -> bool;

/// Relies on char::is_alphanumeric: whether `c` is alphabetic or numeric in Unicode.
#[verifier::external_body]
fn is_alphanumeric(c: char) -> (r: bool)
    ensures
        r == alphanumeric(c),
{
    c.is_alphanumeric()
}

/// Relies on char::is_uppercase: whether `c` has Unicode's Uppercase property.
#[verifier::external_body]
fn is_uppercase(c: char) -> (r: bool)
    ensures
        r == uppercase(c),
{
    c.is_uppercase()
}

/// Relies on char::is_lowercase: whether `c` has Unicode's Lowercase property.
#[verifier::external_body]
fn is_lowercase(c: char) -> (r: bool)
    ensures
        r == lowercase(c),
{
    c.is_lowercase()
}

/// Relies on char::is_numeric: whether `c` is in one of Unicode's numeric categories.
#[verifier::external_body]
fn is_numeric(c: char) -> (r: bool)
    ensures
        r == numeric(c),
{
    c.is_numeric()
}

/// The error of `regex::Regex::new`, carried through as an opaque value.
#[verifier::external_type_specification]
#[verifier::external_body]
pub struct ExRegexError(regex::Error);

/// Relies on regex::Regex::new and Regex::is_match: compiles `pattern`, and when it
/// compiles, tells whether it matches somewhere in `text`.
#[verifier::external_body]
fn pattern_matches(pattern: &str, text: &str) -> (r: Result<bool, regex::Error>)
    ensures
        r is Ok ==> r->Ok_0 == regex_matches(pattern@, text@),
{
    match regex::Regex::new(pattern) {
        Ok(re) => Ok(re.is_match(text)),
        Err(e) => Err(e),
    }
}

/// The pattern an email address must match: one `@`, a dot after it, and no blank
/// or second `@` anywhere.
pub const EMAIL_PATTERN: &'static str = "^[^\\s@]+@[^\\s@]+\\.[^\\s@]+$";

/// A username is 3 to 20 bytes long and made of alphanumeric characters and `_`.
pub open spec fn valid_username(s: Seq<char>) -> bool {
    &&& 3 <= encode_utf8(s).len() <= 20
    &&& forall|i: int| 0 <= i < s.len() ==> alphanumeric(#[trigger] s[i]) || s[i] == '_'
}

/// A password is at least 8 bytes long and holds an uppercase, a lowercase and a
/// numeric character.
pub open spec fn valid_password(s: Seq<char>) -> bool {
    &&& encode_utf8(s).len() >= 8
    &&& exists|i: int| 0 <= i < s.len() && uppercase(#[trigger] s[i])
    &&& exists|i: int| 0 <= i < s.len() && lowercase(#[trigger] s[i])
    &&& exists|i: int| 0 <= i < s.len() && numeric(#[trigger] s[i])
}

/// Whether `username` is a valid username.
pub fn username_is_valid(username: &str) -> (r: bool)
    ensures
        r == valid_username(username@),
{
    let len = username.as_bytes().len();
    if len < 3 || len > 20 {
        return false;
    }
    let n = username.unicode_len();
    let mut i: usize = 0;
    while i < n
        invariant
            n == username@.len(),
            i <= n,
            3 <= encode_utf8(username@).len() <= 20,
            forall|j: int| 0 <= j < i ==> alphanumeric(#[trigger] username@[j]) || username@[j] == '_',
        decreases n - i,
    {
        let c = username.get_char(i);
        if !(is_alphanumeric(c) || c == '_') {
            return false;
        }
        i = i + 1;
    }
    true
}

/// Whether `password` is a valid password.
pub fn password_is_valid(password: &str) -> (r: bool)
    ensures
        r == valid_password(password@),
{
    if password.as_bytes().len() < 8 {
        return false;
    }
    let n = password.unicode_len();
    let mut upper = false;
    let mut lower = false;
    let mut digit = false;
    let mut i: usize = 0;
    while i < n
        invariant
            n == password@.len(),
            i <= n,
            upper == exists|j: int| 0 <= j < i && uppercase(#[trigger] password@[j]),
            lower == exists|j: int| 0 <= j < i && lowercase(#[trigger] password@[j]),
            digit == exists|j: int| 0 <= j < i && numeric(#[trigger] password@[j]),
        decreases n - i,
    {
        let c = password.get_char(i);
        if is_uppercase(c) {
            upper = true;
        }
        if is_lowercase(c) {
            lower = true;
        }
        if is_numeric(c) {
            digit = true;
        }
        i = i + 1;
    }
    upper && lower && digit
}

/// Whether `email` matches `EMAIL_PATTERN`; `false` also when the pattern would not
/// compile.
pub fn email_is_valid(email: &str) -> (r: bool)
    ensures
        r ==> regex_matches(EMAIL_PATTERN@, email@),
{
    match pattern_matches(EMAIL_PATTERN, email) {
        Ok(found) => found,
        Err(_) => false,
    }
}

/// `first`, then `between`, then `second`, then `after`.
pub open spec fn joined(first: Seq<char>, between: Seq<char>, second: Seq<char>, after: Seq<char>) -> Seq<char> {
    first + between + second + after
}

/// The text `first` `between` `second` `after`.
fn join(first: &str, between: &str, second: &str, after: &str) -> (r: String)
    ensures
        r@ == joined(first@, between@, second@, after@),
{
    let mut s = String::from_str(first);
    s.append(between);
    s.append(second);
    s.append(after);
    s
}

/// A user: a username and an email address.
#[derive(Debug, Clone)]
pub struct User {
    username: String,
    email: String,
}

impl User {
    pub closed spec fn username_view(&self) -> Seq<char> {
        self.username@
    }

    pub closed spec fn email_view(&self) -> Seq<char> {
        self.email@
    }

    pub fn new(username: String, email: String) -> (r: Self)
        ensures
            r.username_view() == username@,
            r.email_view() == email@,
    {
        User { username, email }
    }

    pub fn username(&self) -> (r: &str)
        ensures
            r@ == self.username_view(),
    {
        self.username.as_str()
    }

    pub fn email(&self) -> (r: &str)
        ensures
            r@ == self.email_view(),
    {
        self.email.as_str()
    }

    pub fn set_username(&mut self, username: String)
        ensures
            final(self).username_view() == username@,
            final(self).email_view() == old(self).email_view(),
    {
        self.username = username;
    }

    pub fn set_email(&mut self, email: String)
        ensures
            final(self).username_view() == old(self).username_view(),
            final(self).email_view() == email@,
    {
        self.email = email;
    }
}

/// How a user reads on screen: `name (email)`.
pub open spec fn display_text(username: Seq<char>, email: Seq<char>) -> Seq<char> {
    joined(username, " ("@, email, ")"@)
}

/// A user as one CSV line: `name,email`.
pub open spec fn csv_text(username: Seq<char>, email: Seq<char>) -> Seq<char> {
    joined(username, ","@, email, ""@)
}

/// The fields an API hands out for a user, as (key, value) pairs with distinct keys.
pub open spec fn api_fields(username: Seq<char>, email: Seq<char>) -> Seq<(Seq<char>, Seq<char>)> {
    seq![
        ("username"@, username),
        ("email"@, email),
        ("display_name"@, display_text(username, email)),
    ]
}

/// The views of a list of (key, value) text pairs.
pub open spec fn pair_views(v: Seq<(String, String)>) -> Seq<(Seq<char>, Seq<char>)> {
    v.map_values(|p: (String, String)| (p.0@, p.1@))
}

fn display_string(username: &str, email: &str) -> (r: String)
    ensures
        r@ == display_text(username@, email@),
{
    join(username, " (", email, ")")
}

fn csv_string(username: &str, email: &str) -> (r: String)
    ensures
        r@ == csv_text(username@, email@),
{
    join(username, ",", email, "")
}

fn api_pairs(username: &str, email: &str) -> (r: Vec<(String, String)>)
    ensures
        pair_views(r@) == api_fields(username@, email@),
{
    let mut v: Vec<(String, String)> = Vec::new();
    v.push((String::from_str("username"), String::from_str(username)));
    v.push((String::from_str("email"), String::from_str(email)));
    v.push((String::from_str("display_name"), display_string(username, email)));
    assert(pair_views(v@) =~= api_fields(username@, email@));
    v
}

/// Checks of user data.
pub trait UserValidator {
    fn validate_email(&self, email: &str) -> bool;

    fn validate_username(&self, username: &str) -> bool;

    fn validate_user(&self, user: &User) -> bool;
}

/// Text forms of a user.
pub trait UserFormatter {
    /// The display text of a user with this username and email address.
    spec fn display_form(&self, username: Seq<char>, email: Seq<char>) -> Seq<char>;

    /// The API fields of a user with this username and email address.
    spec fn api_form(&self, username: Seq<char>, email: Seq<char>) -> Seq<(Seq<char>, Seq<char>)>;

    fn format_user_for_display(&self, user: &User) -> (r: String)
        ensures
            r@ == self.display_form(user.username_view(), user.email_view()),
    ;

    /// The user's fields as (key, value) pairs with distinct keys.
    fn format_user_for_api(&self, user: &User) -> (r: Vec<(String, String)>)
        ensures
            pair_views(r@) == self.api_form(user.username_view(), user.email_view()),
    ;
}

/// Validation by the rules of this module.
#[derive(Debug, Clone, Copy)]
pub struct DefaultUserValidator;

impl DefaultUserValidator {
    pub fn new() -> Self {
        DefaultUserValidator
    }

    pub fn validate_password(&self, password: &str) -> (r: bool)
        ensures
            r == valid_password(password@),
    {
        password_is_valid(password)
    }
}

impl UserValidator for DefaultUserValidator {
    fn validate_email(&self, email: &str) -> (r: bool)
        ensures
            r ==> regex_matches(EMAIL_PATTERN@, email@),
    {
        email_is_valid(email)
    }

    fn validate_username(&self, username: &str) -> (r: bool)
        ensures
            r == valid_username(username@),
    {
        username_is_valid(username)
    }

    fn validate_user(&self, user: &User) -> (r: bool)
        ensures
            r ==> regex_matches(EMAIL_PATTERN@, user.email_view()) && valid_username(
                user.username_view(),
            ),
            !valid_username(user.username_view()) ==> !r,
    {
        self.validate_email(user.email()) && self.validate_username(user.username())
    }
}

/// Formatting by the text forms of this module.
#[derive(Debug, Clone, Copy)]
pub struct DefaultUserFormatter;

impl DefaultUserFormatter {
    pub fn new() -> Self {
        DefaultUserFormatter
    }

    pub fn format_user_for_csv(&self, user: &User) -> (r: String)
        ensures
            r@ == csv_text(user.username_view(), user.email_view()),
    {
        csv_string(user.username(), user.email())
    }
}

impl UserFormatter for DefaultUserFormatter {
    open spec fn display_form(&self, username: Seq<char>, email: Seq<char>) -> Seq<char> {
        display_text(username, email)
    }

    open spec fn api_form(&self, username: Seq<char>, email: Seq<char>) -> Seq<(Seq<char>, Seq<char>)> {
        api_fields(username, email)
    }

    fn format_user_for_display(&self, user: &User) -> (r: String)
        ensures
            r@ == display_text(user.username_view(), user.email_view()),
    {
        display_string(user.username(), user.email())
    }

    fn format_user_for_api(&self, user: &User) -> (r: Vec<(String, String)>)
        ensures
            pair_views(r@) == api_fields(user.username_view(), user.email_view()),
    {
        api_pairs(user.username(), user.email())
    }
}

/// One record that holds a user's data and also validates, formats and keeps a
/// database connection for it.
#[derive(Debug, Clone)]
pub struct ViolationUserService {
    pub username: String,
    pub email: String,
    connection: Option<String>,
}

impl ViolationUserService {
    pub closed spec fn username_view(&self) -> Seq<char> {
        self.username@
    }

    pub closed spec fn email_view(&self) -> Seq<char> {
        self.email@
    }

    /// The name of the open database connection, if any.
    pub closed spec fn connection_view(&self) -> Option<Seq<char>> {
        match self.connection {
            Some(c) => Some(c@),
            None => None,
        }
    }

    pub fn new(username: String, email: String) -> (r: Self)
        ensures
            r.username_view() == username@,
            r.email_view() == email@,
            r.connection_view() is None,
    {
        ViolationUserService { username, email, connection: None }
    }

    /// Replaces the username and the email address.
    pub fn update_user(&mut self, new_username: String, new_email: String) -> (r: Result<
        bool,
        String,
    >)
        ensures
            r == Ok::<bool, String>(true),
            final(self).username_view() == new_username@,
            final(self).email_view() == new_email@,
            final(self).connection_view() == old(self).connection_view(),
    {
        self.username = new_username;
        self.email = new_email;
        Ok(true)
    }

    pub fn validate_email(&self) -> (r: bool)
        ensures
            r ==> regex_matches(EMAIL_PATTERN@, self.email_view()),
    {
        email_is_valid(self.email.as_str())
    }

    pub fn validate_username(&self) -> (r: bool)
        ensures
            r == valid_username(self.username_view()),
    {
        username_is_valid(self.username.as_str())
    }

    pub fn validate_password(&self, password: &str) -> (r: bool)
        ensures
            r == valid_password(password@),
    {
        password_is_valid(password)
    }

    pub fn format_user_for_display(&self) -> (r: String)
        ensures
            r@ == display_text(self.username_view(), self.email_view()),
    {
        display_string(self.username.as_str(), self.email.as_str())
    }

    /// The user's fields as (key, value) pairs with distinct keys.
    pub fn format_user_for_api(&self) -> (r: Vec<(String, String)>)
        ensures
            pair_views(r@) == api_fields(self.username_view(), self.email_view()),
    {
        api_pairs(self.username.as_str(), self.email.as_str())
    }

    /// The user as one CSV line.
    pub fn export_user_to_csv(&self) -> (r: Result<String, String>)
        ensures
            r is Ok,
            r->Ok_0@ == csv_text(self.username_view(), self.email_view()),
    {
        Ok(csv_string(self.username.as_str(), self.email.as_str()))
    }

    /// Opens the database connection.
    pub fn connect_to_database(&mut self) -> (r: Result<bool, String>)
        ensures
            r == Ok::<bool, String>(true),
            final(self).connection_view() == Some("database_connection"@),
            final(self).username_view() == old(self).username_view(),
            final(self).email_view() == old(self).email_view(),
    {
        self.connection = Some(String::from_str("database_connection"));
        Ok(true)
    }

    /// Closes the database connection.
    pub fn close_database_connection(&mut self)
        ensures
            final(self).connection_view() is None,
            final(self).username_view() == old(self).username_view(),
            final(self).email_view() == old(self).email_view(),
    {
        self.connection = None;
    }
}

} // verus!
