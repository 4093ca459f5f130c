//! Tokens, codes and the other small pieces that every flow draws on.

use vstd::prelude::*;
use vstd::string::{StrSliceExecFns, StringExecFns};
use base64::Engine;
use rand::Rng;
use crate::constants::CONTINUE_TIMEOUT;
use crate::database::session::{session_opt, Session, SessionView};
use crate::errors::Error;
use crate::store::{after_access, live, Pending, PendingView, Records, Stores, StoresView};
use crate::view::{text_opt, text_result};

verus! {

/// Whether `c` is an ASCII letter or digit.
pub open spec fn is_alphanumeric(c: char) -> bool {
    ('0' <= c && c <= '9') || ('a' <= c && c <= 'z') || ('A' <= c && c <= 'Z')
}

/// Shape of a long continuation token: 128 ASCII letters and digits.
pub open spec fn is_long_token(t: Seq<char>) -> bool {
    t.len() == 128 && forall|i: int| 0 <= i < t.len() ==> is_alphanumeric(#[trigger] t[i])
}

/// Number of characters in a long continuation token.
pub const LONG_TOKEN_LEN: usize = 128;

/// Number of backup codes that one enrollment hands out.
pub const CODE_COUNT: usize = 10;

/// One more than the largest number that a code can show.
pub const CODE_LIMIT: u32 = 100_000_000;

/// The character that shows the digit `d`.
pub open spec fn digit_char(d: int) -> char {
    (48 + d) as u8 as char
}

/// The eight decimal digits of `n`, most significant first, zeros included.
pub open spec fn code_text(n: int) -> Seq<char> {
    let n1 = n / 10;
    let n2 = n1 / 10;
    let n3 = n2 / 10;
    let n4 = n3 / 10;
    let n5 = n4 / 10;
    let n6 = n5 / 10;
    let n7 = n6 / 10;
    seq![
        digit_char(n7 % 10),
        digit_char(n6 % 10),
        digit_char(n5 % 10),
        digit_char(n4 % 10),
        digit_char(n3 % 10),
        digit_char(n2 % 10),
        digit_char(n1 % 10),
        digit_char(n % 10),
    ]
}

/// Shape of a backup code: the eight digits of a number below 100 000 000.
pub open spec fn is_code(t: Seq<char>) -> bool {
    exists|n: int| 0 <= n < 100_000_000 && t == #[trigger] code_text(n)
}

/// The unpadded URL-safe base64 text of `bytes`: what `Engine::encode`
/// returns on `URL_SAFE_NO_PAD`.
pub uninterp spec fn base64_text(bytes: Seq<u8>) -> Seq<char>;

/// The bytes that unpadded URL-safe base64 `text` stands for: what
/// `Engine::decode` returns on `URL_SAFE_NO_PAD`, `None` where it refuses.
pub uninterp spec fn base64_bytes(text: Seq<char>) -> Option<Seq<u8>>;

/// Number of characters that `len` bytes take in unpadded base64.
pub open spec fn base64_len(len: int) -> int {
    4 * (len / 3) + (if len % 3 == 0 {
        0
    } else {
        len % 3 + 1
    })
}

/// Number of characters in an identifier that [`generate_id`] makes.
pub const ID_LEN: usize = 26;

/// Encodes bytes as unpadded URL-safe base64.
pub fn encode_base64(bytes: &Vec<u8>) -> (text: String)
    ensures
        text@ == base64_text(bytes@),
        text@.len() == base64_len(bytes@.len() as int),
{
    base64_encode(bytes)
}

/// Decodes unpadded URL-safe base64; `None` where the text is no such
/// encoding.
pub fn decode_base64(text: &String) -> (bytes: Option<Vec<u8>>)
    ensures
        match base64_bytes(text@) {
            Some(b) => bytes matches Some(v) && v@ == b,
            None => bytes is None,
        },
{
    base64_decode(text)
}

/// A fresh identifier for a stored document: 26 characters that sort by
/// the time of their making.
pub fn generate_id() -> (id: String)
    ensures
        id@.len() == ID_LEN,
{
    ulid_new()
}

/// The token that draws make: the characters that were drawn, in the
/// order in which they were drawn, and nothing else. Neither the time nor
/// a counter nor the flow enters.
pub fn token_of_draws(draws: &Vec<char>) -> (token: String)
    ensures
        token@ == draws@,
{
    let mut token = String::new();
    let mut i: usize = 0;
    while i < draws.len()
        invariant
            i <= draws.len(),
            token@ == draws@.subrange(0, i as int),
        decreases draws.len() - i,
    {
        push_char(&mut token, draws[i]);
        assert(draws@.subrange(0, i + 1) == draws@.subrange(0, i as int).push(draws@[i as int]));
        i = i + 1;
    }
    assert(draws@.subrange(0, draws.len() as int) == draws@);
    token
}

/// There are long tokens: 128 times the letter `a` is one.
pub proof fn a_long_token() -> (token: Seq<char>)
    ensures
        is_long_token(token),
{
    Seq::new(LONG_TOKEN_LEN as nat, |i: int| 'a')
}

/// Tokens are as distinct as their draws: two tokens are the same only
/// where all 128 of their draws are the same, so that no two calls whose
/// draws differ anywhere give the same token.
pub proof fn distinct_draws_give_distinct_tokens(
    draws: Seq<char>,
    token: Seq<char>,
    other_draws: Seq<char>,
    other_token: Seq<char>,
)
    requires
        token == draws,
        other_token == other_draws,
    ensures
        token == other_token <==> draws == other_draws,
        draws.len() == other_draws.len() && token != other_token ==> exists|i: int|
            0 <= i < draws.len() && draws[i] != other_draws[i],
{
    if draws.len() == other_draws.len() && token != other_token {
        if forall|i: int| 0 <= i < draws.len() ==> draws[i] == other_draws[i] {
            assert(draws =~= other_draws);
        }
    }
}

/// A fresh long continuation token: the token of 128 draws, each from the
/// ASCII letters and digits by the thread's random number generator.
pub fn generate_continue_token_long() -> (token: String)
    ensures
        is_long_token(token@),
{
    let mut draws: Vec<char> = Vec::new();
    let mut i: usize = 0;
    while i < LONG_TOKEN_LEN
        invariant
            i <= LONG_TOKEN_LEN,
            draws.len() == i,
            forall|j: int| 0 <= j < draws.len() ==> is_alphanumeric(#[trigger] draws[j]),
        decreases LONG_TOKEN_LEN - i,
    {
        let c = random_alphanumeric();
        draws.push(c);
        i = i + 1;
    }
    token_of_draws(&draws)
}

/// The digit `d` as a character.
fn digit(d: u32) -> (c: char)
    requires
        d < 10,
    ensures
        c == digit_char(d as int),
{
    (48u8 + d as u8) as char
}

/// Writes `n` as eight decimal digits, padded with zeros on the left.
pub fn format_code(n: u32) -> (text: String)
    requires
        n < CODE_LIMIT,
    ensures
        text@ == code_text(n as int),
        is_code(text@),
{
    let n1 = n / 10;
    let n2 = n1 / 10;
    let n3 = n2 / 10;
    let n4 = n3 / 10;
    let n5 = n4 / 10;
    let n6 = n5 / 10;
    let n7 = n6 / 10;
    let mut text = String::new();
    push_char(&mut text, digit(n7 % 10));
    push_char(&mut text, digit(n6 % 10));
    push_char(&mut text, digit(n5 % 10));
    push_char(&mut text, digit(n4 % 10));
    push_char(&mut text, digit(n3 % 10));
    push_char(&mut text, digit(n2 % 10));
    push_char(&mut text, digit(n1 % 10));
    push_char(&mut text, digit(n % 10));
    assert(text@ =~= code_text(n as int));
    text
}

/// Whether the numbers stand in strictly ascending order.
pub open spec fn ascending(v: Seq<u32>) -> bool {
    forall|a: int, b: int| 0 <= a < b < v.len() ==> v[a] < v[b]
}

/// The digit that a digit character shows is the digit it was made of.
proof fn digit_char_is_injective(d: int, e: int)
    requires
        0 <= d < 10,
        0 <= e < 10,
        digit_char(d) == digit_char(e),
    ensures
        d == e,
{
    assert(digit_char(d) as int == 48 + d);
    assert(digit_char(e) as int == 48 + e);
}

/// Two numbers below the limit that are written alike are the same number.
pub proof fn code_text_is_injective(n: int, m: int)
    requires
        0 <= n < 100_000_000,
        0 <= m < 100_000_000,
        code_text(n) == code_text(m),
    ensures
        n == m,
{
    let a = code_text(n);
    let b = code_text(m);
    assert(a[0] == b[0] && a[1] == b[1] && a[2] == b[2] && a[3] == b[3]);
    assert(a[4] == b[4] && a[5] == b[5] && a[6] == b[6] && a[7] == b[7]);
    let (n1, m1) = (n / 10, m / 10);
    let (n2, m2) = (n1 / 10, m1 / 10);
    let (n3, m3) = (n2 / 10, m2 / 10);
    let (n4, m4) = (n3 / 10, m3 / 10);
    let (n5, m5) = (n4 / 10, m4 / 10);
    let (n6, m6) = (n5 / 10, m5 / 10);
    let (n7, m7) = (n6 / 10, m6 / 10);
    digit_char_is_injective(n7 % 10, m7 % 10);
    digit_char_is_injective(n6 % 10, m6 % 10);
    digit_char_is_injective(n5 % 10, m5 % 10);
    digit_char_is_injective(n4 % 10, m4 % 10);
    digit_char_is_injective(n3 % 10, m3 % 10);
    digit_char_is_injective(n2 % 10, m2 % 10);
    digit_char_is_injective(n1 % 10, m1 % 10);
    digit_char_is_injective(n % 10, m % 10);
    assert(n7 == m7);
    assert(n6 == m6);
    assert(n5 == m5);
    assert(n4 == m4);
    assert(n3 == m3);
    assert(n2 == m2);
    assert(n1 == m1);
}

/// The `rank`-th smallest number that is not among `used`, counting from
/// zero.
fn unused(used: &Vec<u32>, rank: u32) -> (c: u32)
    requires
        ascending(used@),
        used.len() <= CODE_COUNT,
        rank + used.len() < CODE_LIMIT,
    ensures
        c < CODE_LIMIT,
        forall|k: int| 0 <= k < used.len() ==> used[k] != c,
{
    let mut c = rank;
    let mut j: usize = 0;
    while j < used.len()
        invariant
            j <= used.len() <= CODE_COUNT,
            ascending(used@),
            rank + used.len() < CODE_LIMIT,
            c <= rank + j,
            forall|k: int| 0 <= k < j ==> used[k] != c,
        decreases used.len() - j,
    {
        if used[j] <= c {
            c = c + 1;
        }
        j = j + 1;
    }
    c
}

/// Puts `c` into an ascending list at its place.
fn remember(used: &mut Vec<u32>, c: u32)
    requires
        ascending(old(used)@),
        forall|k: int| 0 <= k < old(used).len() ==> old(used)[k] != c,
    ensures
        ascending(final(used)@),
        final(used).len() == old(used).len() + 1,
        final(used)@.contains(c),
        forall|k: int| 0 <= k < old(used).len() ==> final(used)@.contains(old(used)[k]),
        forall|k: int|
            0 <= k < final(used).len() ==> final(used)[k] == c || old(used)@.contains(
                #[trigger] final(used)[k],
            ),
{
    let mut p: usize = 0;
    while p < used.len() && used[p] < c
        invariant
            p <= used.len(),
            *used == *old(used),
            forall|k: int| 0 <= k < p ==> used[k] < c,
        decreases used.len() - p,
    {
        p = p + 1;
    }
    used.insert(p, c);
    assert(used@[p as int] == c);
    assert forall|k: int| 0 <= k < old(used).len() implies used@.contains(old(used)[k]) by {
        if k < p {
            assert(used@[k] == old(used)[k]);
        } else {
            assert(used@[k + 1] == old(used)[k]);
        }
    }
    assert forall|k: int| 0 <= k < used.len() && used[k] != c implies old(used)@.contains(
        #[trigger] used[k],
    ) by {
        if k < p {
            assert(old(used)@[k] == used[k]);
        } else {
            assert(old(used)@[k - 1] == used[k]);
        }
    }
}

/// Ten backup codes: each the eight digits of a number below 100 000 000,
/// no two alike, drawn by the thread's random number generator in such a
/// way that every set of ten is as likely as any other.
pub fn generate_codes() -> (codes: Vec<String>)
    ensures
        codes.len() == CODE_COUNT,
        forall|i: int| 0 <= i < codes.len() ==> is_code(#[trigger] codes[i]@),
        forall|i: int, j: int|
            0 <= i < j < codes.len() ==> #[trigger] codes[i]@ != #[trigger] codes[j]@,
{
    let mut codes: Vec<String> = Vec::new();
    let mut used: Vec<u32> = Vec::new();
    let mut i: usize = 0;
    while i < CODE_COUNT
        invariant
            i <= CODE_COUNT,
            codes.len() == i,
            used.len() == i,
            ascending(used@),
            forall|k: int| 0 <= k < used.len() ==> used[k] < CODE_LIMIT,
            forall|a: int|
                0 <= a < codes.len() ==> exists|k: int|
                    0 <= k < used.len() && #[trigger] codes[a]@ == code_text(
                        #[trigger] used[k] as int,
                    ),
            forall|a: int, b: int|
                0 <= a < b < codes.len() ==> #[trigger] codes[a]@ != #[trigger] codes[b]@,
        decreases CODE_COUNT - i,
    {
        let rank = random_below(CODE_LIMIT - i as u32);
        let c = unused(&used, rank);
        let text = format_code(c);
        let ghost before = used@;
        proof {
            assert forall|a: int| 0 <= a < codes.len() implies #[trigger] codes[a]@ != text@ by {
                let k = choose|k: int|
                    0 <= k < used.len() && codes[a]@ == code_text(#[trigger] used[k] as int);
                if codes[a]@ == text@ {
                    code_text_is_injective(used[k] as int, c as int);
                }
            }
        }
        remember(&mut used, c);
        codes.push(text);
        proof {
            assert forall|k: int| 0 <= k < used.len() implies used[k] < CODE_LIMIT by {
                if used[k] != c {
                    assert(before.contains(used[k]));
                }
            }
        }
        i = i + 1;
    }
    codes
}

/// `size` bytes from a generator that the operating system has seeded.
pub fn random_number(size: usize) -> (bytes: Vec<u8>)
    ensures
        bytes.len() == size,
{
    random_bytes(size)
}

/// Whether `c` may stand in a username: a letter or digit of ASCII, or one
/// of `_`, `.` and `-`.
pub open spec fn is_username_char(c: char) -> bool {
    is_alphanumeric(c) || c == '_' || c == '.' || c == '-'
}

/// Shape of a username: 3 to 32 username characters.
pub open spec fn is_username(name: Seq<char>) -> bool {
    3 <= name.len() <= 32 && forall|i: int|
        0 <= i < name.len() ==> is_username_char(#[trigger] name[i])
}

/// The grammar of an email address, as a regular expression.
pub const EMAIL_PATTERN: &'static str =
    r#"^(?:[a-z0-9!#$%&'*+/=?^_`{|}~-]+(?:\.[a-z0-9!#$%&'*+/=?^_`{|}~-]+)*|"(?:[\x01-\x08\x0b\x0c\x0e-\x1f\x21\x23-\x5b\x5d-\x7f]|\\[\x01-\x09\x0b\x0c\x0e-\x7f])*")@(?:(?:[a-z0-9](?:[a-z0-9-]*[a-z0-9])?\.)+[a-z0-9](?:[a-z0-9-]*[a-z0-9])?|\[(?:(?:(2(5[0-5]|[0-4][0-9])|1[0-9][0-9]|[1-9]?[0-9]))\.){3}(?:(2(5[0-5]|[0-4][0-9])|1[0-9][0-9]|[1-9]?[0-9])|[a-z0-9-]*[a-z0-9]:(?:[\x01-\x08\x0b\x0c\x0e-\x1f\x21-\x5a\x53-\x7f]|\\[\x01-\x09\x0b\x0c\x0e-\x7f])+)\])$"#;

/// Whether a regular expression matches somewhere in a text: what
/// `Regex::is_match` returns on the expression that `Regex::new` compiles
/// from `pattern`, `None` where the pattern does not compile.
pub uninterp spec fn regex_match(pattern: Seq<char>, text: Seq<char>) -> Option<bool>;

/// A text without the white space at its ends: what `str::trim` returns.
pub uninterp spec fn trimmed(text: Seq<char>) -> Seq<char>;

/// Shape of an email address: the whole text matches [`EMAIL_PATTERN`].
pub open spec fn is_email(text: Seq<char>) -> bool {
    regex_match(EMAIL_PATTERN@, text) == Some(true)
}

/// Whether `name`, as it stands, is a username.
pub fn is_valid_username(name: &str) -> (b: bool)
    ensures
        b == is_username(name@),
{
    let len = name.unicode_len();
    if len < 3 || len > 32 {
        return false;
    }
    let mut i: usize = 0;
    while i < len
        invariant
            i <= len,
            len == name@.len(),
            forall|j: int| 0 <= j < i ==> is_username_char(#[trigger] name@[j]),
        decreases len - i,
    {
        let c = name.get_char(i);
        let fits = ('0' <= c && c <= '9') || ('a' <= c && c <= 'z') || ('A' <= c && c <= 'Z') || c
            == '_' || c == '.' || c == '-';
        if !fits {
            return false;
        }
        i = i + 1;
    }
    true
}

/// Whether `email`, without the white space at its ends, is an email
/// address.
pub fn is_valid_email(email: &str) -> (b: bool)
    ensures
        b == is_email(trimmed(email@)),
{
    match regex_is_match(EMAIL_PATTERN, trim(email)) {
        Some(found) => found,
        None => false,
    }
}

/// A message for the email sender. A message is `required` where it is
/// the only way for its flow to go on, as one that carries a token is; a
/// mere notification is not. `token` is the token that the message
/// carries, under which its flow has left a record.
#[derive(Clone, Debug, PartialEq, Eq)]
pub struct Mail {
    pub to: String,
    pub subject: String,
    pub body: String,
    pub required: bool,
    pub token: Option<String>,
}

/// Mathematical content of a [`Mail`].
pub ghost struct MailView {
    pub to: Seq<char>,
    pub subject: Seq<char>,
    pub body: Seq<char>,
    pub required: bool,
    pub token: Option<Seq<char>>,
}

impl View for Mail {
    type V = MailView;

    open spec fn view(&self) -> MailView {
        MailView {
            to: self.to@,
            subject: self.subject@,
            body: self.body@,
            required: self.required,
            token: text_opt(self.token),
        }
    }
}

/// Content of an optional message.
pub open spec fn mail_opt(o: Option<Mail>) -> Option<MailView> {
    match o {
        Some(m) => Some(m@),
        None => None,
    }
}

/// The message that carries a password reset link to `to`.
pub open spec fn reset_mail(to: Seq<char>, public_root: Seq<char>, token: Seq<char>) -> MailView {
    MailView {
        to,
        subject: "Reset password"@,
        body: "Hi there! We received a request to reset your password. If this was you, please click the following link to continue.\n\n"@
            + public_root + "/forgot?token="@ + token,
        required: true,
        token: Some(token),
    }
}

/// The message that carries the token which proves the address `to`.
pub open spec fn verify_mail(to: Seq<char>, token: Seq<char>) -> MailView {
    MailView {
        to,
        subject: "Verify email"@,
        body: "Hi there! We received a request to create an account. If this was you, please enter the following token to continue.\n\n"@
            + token,
        required: true,
        token: Some(token),
    }
}

/// The message that tells the owner of `to` that somebody tried to
/// register the address again.
pub open spec fn in_use_mail(to: Seq<char>) -> MailView {
    MailView {
        to,
        subject: "Verify email"@,
        body: "Hi there! We received a request to create an account. However, this email is already in use. If this was you, please reset your password instead."@,
        required: false,
        token: None,
    }
}

/// The message that carries a password reset link.
pub fn reset_email(to: String, public_root: &str, token: &str) -> (mail: Mail)
    ensures
        mail@ == reset_mail(to@, public_root@, token@),
{
    let body = String::from_str(
        "Hi there! We received a request to reset your password. If this was you, please click the following link to continue.\n\n",
    ).concat(public_root).concat("/forgot?token=").concat(token);
    Mail {
        to,
        subject: String::from_str("Reset password"),
        body,
        required: true,
        token: Some(String::from_str(token)),
    }
}

/// The message that carries the token which proves an email address.
pub fn verify_email(to: String, token: &str) -> (mail: Mail)
    ensures
        mail@ == verify_mail(to@, token@),
{
    let body = String::from_str(
        "Hi there! We received a request to create an account. If this was you, please enter the following token to continue.\n\n",
    ).concat(token);
    Mail {
        to,
        subject: String::from_str("Verify email"),
        body,
        required: true,
        token: Some(String::from_str(token)),
    }
}

/// The message that tells the owner of an address that somebody tried to
/// register it again.
pub fn in_use_email(to: String) -> (mail: Mail)
    ensures
        mail@ == in_use_mail(to@),
{
    Mail {
        to,
        subject: String::from_str("Verify email"),
        body: String::from_str(
            "Hi there! We received a request to create an account. However, this email is already in use. If this was you, please reset your password instead.",
        ),
        required: false,
        token: None,
    }
}

/// What the email sender is configured with.
#[derive(Clone, Debug, PartialEq, Eq)]
pub struct MailSettings {
    pub from: String,
    pub username: String,
    pub password: String,
    pub server: String,
}

/// The settings of the email sender, given what the deployment
/// configures: all four of the sender's address, the user name, the
/// password and the server are needed, and where one is missing the
/// sender is `EmailMisconfigured`.
pub fn mail_settings(
    from: Option<String>,
    username: Option<String>,
    password: Option<String>,
    server: Option<String>,
) -> (r: Result<MailSettings, Error>)
    ensures
        r is Ok <==> (from is Some && username is Some && password is Some && server is Some),
        r matches Err(e) ==> e == Error::EmailMisconfigured,
        r matches Ok(s) ==> Some(s.from@) == text_opt(from) && Some(s.username@) == text_opt(
            username,
        ) && Some(s.password@) == text_opt(password) && Some(s.server@) == text_opt(server),
{
    match (from, username, password, server) {
        (Some(from), Some(username), Some(password), Some(server)) => Ok(
            MailSettings { from, username, password, server },
        ),
        _ => Err(Error::EmailMisconfigured),
    }
}

/// What a request makes of the attempt to send a message: the failure of
/// a required message fails the request with the error of the sender, the
/// failure of a notification does not.
pub open spec fn delivery(required: bool, sent: Result<(), Error>) -> Result<(), Error> {
    if required {
        sent
    } else {
        Ok(())
    }
}

/// Judges the attempt to send a message: see [`delivery`].
pub fn after_sending(required: bool, sent: Result<(), Error>) -> (r: Result<(), Error>)
    ensures
        r == delivery(required, sent),
{
    if required {
        sent
    } else {
        Ok(())
    }
}

/// What the captcha service says of a token.
#[derive(Clone, Debug, PartialEq, Eq)]
pub struct HCaptchaResponse {
    pub success: bool,
    pub challenge_ts: Option<String>,
    pub hostname: Option<String>,
    pub credit: Option<bool>,
    pub error_codes: Option<Vec<String>>,
}

/// The verdict on a captcha, given the HTTP status of the service's reply
/// (`None` where the service could not be reached) and, for a reply with
/// status 200, its body: a transport failure or any other status is an
/// `InternalCaptchaError`, a reply that does not report success an
/// `InvalidCaptcha`.
pub open spec fn captcha_verdict(status: Option<u16>, success: bool) -> Result<(), Error> {
    if status != Some(200u16) {
        Err(Error::InternalCaptchaError)
    } else if !success {
        Err(Error::InvalidCaptcha)
    } else {
        Ok(())
    }
}

/// Judges the reply of the captcha service: see [`captcha_verdict`].
pub fn validate_captcha(status: Option<u16>, response: &HCaptchaResponse) -> (r: Result<(), Error>)
    ensures
        r == captcha_verdict(status, response.success),
{
    match status {
        Some(200) => if response.success {
            Ok(())
        } else {
            Err(Error::InvalidCaptcha)
        },
        _ => Err(Error::InternalCaptchaError),
    }
}

/// The check of the escalation grant under `escalation_token` at second
/// `now`, given the session that the caller found under the grant's
/// session id (`backing`) and the session that it found under the bearer
/// token which the request presents (`presented`): the grants afterwards,
/// and the account that may act, or why not.
///
/// The grant must exist and be younger than an hour; an older one is
/// deleted on the spot. Its session must still be stored, and the
/// presented token must be that of this very session: a grant is bound to
/// the session that was escalated, not merely to its account. Each of
/// these failures is `SessionExpired`. A grant whose account is not that
/// of the session is a `UserMismatch`. A grant that passes stays.
pub open spec fn escalation_checked(
    pre: Records,
    now: u64,
    escalation_token: Seq<char>,
    backing: Option<SessionView>,
    presented: Option<SessionView>,
) -> (Records, Result<Seq<char>, Error>) {
    match live(pre, escalation_token, now, CONTINUE_TIMEOUT) {
        Some(PendingView::Escalation(g)) => match (backing, presented) {
            (Some(b), Some(p)) => if b.id != g.session_id || p.id != g.session_id {
                (pre, Err(Error::SessionExpired))
            } else if p.user_id != g.user_id {
                (pre, Err(Error::UserMismatch))
            } else {
                (pre, Ok(g.user_id))
            },
            _ => (pre, Err(Error::SessionExpired)),
        },
        _ => (after_access(pre, escalation_token, now, CONTINUE_TIMEOUT), Err(Error::SessionExpired)),
    }
}

/// The session that the grant under `escalation_token` escalated, where
/// the grant is live at second `now`: the session that the caller is to
/// look up by id before it has the grant checked. Where there is none the
/// check will fail, and no lookup is owed.
pub fn escalated_session(stores: &Stores, now: u64, escalation_token: &String) -> (id: Option<
    String,
>)
    ensures
        text_opt(id) == (match live(
            stores@.active_escalations,
            escalation_token@,
            now,
            CONTINUE_TIMEOUT,
        ) {
            Some(PendingView::Escalation(g)) => Some(g.session_id),
            _ => None,
        }),
{
    match stores.active_escalations.peek(escalation_token, now, CONTINUE_TIMEOUT) {
        Some(Pending::Escalation(g)) => Some(g.session_id),
        _ => None,
    }
}

/// Whether the check of an escalation grant would pass, without the
/// check: nothing is deleted.
pub fn escalation_passes(
    stores: &Stores,
    now: u64,
    escalation_token: &String,
    backing: &Option<Session>,
    presented: &Option<Session>,
) -> (ok: bool)
    ensures
        ok == escalation_checked(
            stores@.active_escalations,
            now,
            escalation_token@,
            session_opt(*backing),
            session_opt(*presented),
        ).1 is Ok,
{
    match (stores.active_escalations.peek(escalation_token, now, CONTINUE_TIMEOUT), backing, presented) {
        (Some(Pending::Escalation(g)), Some(b), Some(p)) => b.id == g.session_id && p.id
            == g.session_id && p.user_id == g.user_id,
        _ => false,
    }
}

/// Checks an escalation grant for the session that presents it: see
/// [`escalation_checked`]. On success the result is the account that the
/// grant is for.
pub fn validate_escalation(
    stores: &mut Stores,
    now: u64,
    escalation_token: &String,
    backing: &Option<Session>,
    presented: &Option<Session>,
) -> (r: Result<String, Error>)
    ensures
        (final(stores)@.active_escalations, text_result(r)) == escalation_checked(
            old(stores)@.active_escalations,
            now,
            escalation_token@,
            session_opt(*backing),
            session_opt(*presented),
        ),
        final(stores)@ == (StoresView {
            active_escalations: final(stores)@.active_escalations,
            ..old(stores)@
        }),
{
    let grant = match stores.active_escalations.access(escalation_token, now, CONTINUE_TIMEOUT) {
        Some(Pending::Escalation(g)) => g,
        _ => {
            return Err(Error::SessionExpired);
        },
    };
    match (backing, presented) {
        (Some(b), Some(p)) => {
            if b.id != grant.session_id || p.id != grant.session_id {
                Err(Error::SessionExpired)
            } else if p.user_id != grant.user_id {
                Err(Error::UserMismatch)
            } else {
                Ok(grant.user_id)
            }
        },
        _ => Err(Error::SessionExpired),
    }
}

/// A grant is bound to the session it was issued for: whatever else holds,
/// the check of a grant for the session `s1` turns down a request that
/// presents the bearer token of a session with another id, a session of
/// the same account included, and tells it no account.
pub proof fn escalation_is_bound_to_its_session(
    grants: Records,
    now: u64,
    escalation_token: Seq<char>,
    backing: Option<SessionView>,
    presented: SessionView,
)
    requires
        grants.contains_key(escalation_token),
        grants[escalation_token] is Escalation,
        presented.id != grants[escalation_token]->Escalation_0.session_id,
    ensures
        escalation_checked(grants, now, escalation_token, backing, Some(presented)).1 == Err::<
            Seq<char>,
            Error,
        >(Error::SessionExpired),
{
}

/// The same holds of a grant from the moment it is issued: when a login
/// that escalates the session `s1` has ended in a grant under `token`,
/// the check of that grant turns down whoever presents the bearer token of
/// a session with another id.
pub proof fn issued_grant_is_bound_to_its_session(
    grants: Records,
    s1: SessionView,
    user_id: Seq<char>,
    friendly_name: Option<Seq<char>>,
    issued: u64,
    token: Seq<char>,
    session_id: Seq<char>,
    now: u64,
    backing: Option<SessionView>,
    s2: SessionView,
)
    requires
        crate::authenticate::granted(
            grants,
            Some(s1),
            user_id,
            friendly_name,
            issued,
            token,
            session_id,
        ).1 is Ok,
        s2.id != s1.id,
    ensures
        escalation_checked(
            crate::authenticate::granted(
                grants,
                Some(s1),
                user_id,
                friendly_name,
                issued,
                token,
                session_id,
            ).0,
            now,
            token,
            backing,
            Some(s2),
        ).1 == Err::<Seq<char>, Error>(Error::SessionExpired),
{
}

/// `Rng::sample` with `rand::distributions::Alphanumeric` on the thread's
/// generator: one ASCII letter or digit.
#[verifier::external_body]
fn random_alphanumeric() -> (c: char)
    ensures
        is_alphanumeric(c),
{
    char::from(rand::thread_rng().sample(rand::distributions::Alphanumeric))
}

/// `Rng::gen_range` on the thread's generator: a number in `0..bound`.
#[verifier::external_body]
fn random_below(bound: u32) -> (n: u32)
    requires
        bound > 0,
    ensures
        n < bound,
{
    rand::thread_rng().gen_range(0..bound)
}

/// `Rng::fill` on a `StdRng` seeded by `SeedableRng::from_entropy`: a buffer
/// of `size` bytes, every one of them overwritten.
#[verifier::external_body]
fn random_bytes(size: usize) -> (bytes: Vec<u8>)
    ensures
        bytes.len() == size,
{
    let mut rng: rand::rngs::StdRng = rand::SeedableRng::from_entropy();
    let mut bytes: Vec<u8> = vec![0; size];
    rng.fill(&mut bytes[..]);
    bytes
}

/// `Engine::encode` on `base64::engine::general_purpose::URL_SAFE_NO_PAD`.
/// The text depends on the bytes alone; its length is the one that
/// `base64::encoded_len` computes without padding.
#[verifier::external_body]
fn base64_encode(bytes: &Vec<u8>) -> (text: String)
    ensures
        text@ == base64_text(bytes@),
        text@.len() == base64_len(bytes@.len() as int),
{
    base64::engine::general_purpose::URL_SAFE_NO_PAD.encode(bytes)
}

/// `Engine::decode` on `base64::engine::general_purpose::URL_SAFE_NO_PAD`.
#[verifier::external_body]
fn base64_decode(text: &String) -> (bytes: Option<Vec<u8>>)
    ensures
        match base64_bytes(text@) {
            Some(b) => bytes matches Some(v) && v@ == b,
            None => bytes is None,
        },
{
    base64::engine::general_purpose::URL_SAFE_NO_PAD.decode(text).ok()
}

/// `Ulid::new` and `Ulid::to_string`: 26 characters in Crockford's base32,
/// made from the clock and a random number.
#[verifier::external_body]
fn ulid_new() -> (id: String)
    ensures
        id@.len() == ID_LEN,
{
    ulid::Ulid::new().to_string()
}

/// `str::trim`: the text without leading and trailing white space.
#[verifier::external_body]
pub(crate) fn trim(text: &str) -> (t: &str)
    ensures
        t@ == trimmed(text@),
{
    text.trim()
}

/// `Regex::new` and `Regex::is_match`: whether the expression that
/// `pattern` compiles to matches somewhere in `text`.
#[verifier::external_body]
fn regex_is_match(pattern: &str, text: &str) -> (r: Option<bool>)
    ensures
        r == regex_match(pattern@, text@),
{
    match regex::Regex::new(pattern) {
        Ok(expression) => Some(expression.is_match(text)),
        Err(_) => None,
    }
}

/// `String::push`: the character is put at the end.
#[verifier::external_body]
fn push_char(text: &mut String, c: char)
    ensures
        final(text)@ == old(text)@.push(c),
{
    text.push(c)
}

} // verus!
