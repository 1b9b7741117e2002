//! Subscriber data, validated when it is built: a value of these types is
//! always valid.
use vstd::prelude::*;
use vstd::string::*;

verus! {

/// The longest name accepted, in grapheme clusters.
pub const MAX_NAME_GRAPHEMES: usize = 256;

/// A character with the Unicode `White_Space` property (what `char::is_whitespace` tests).
pub open spec fn is_white_space(c: char) -> bool {
    let u = c as u32;
    ||| 0x09 <= u <= 0x0D
    ||| u == 0x20
    ||| u == 0x85
    ||| u == 0xA0
    ||| u == 0x1680
    ||| 0x2000 <= u <= 0x200A
    ||| u == 0x2028
    ||| u == 0x2029
    ||| u == 0x202F
    ||| u == 0x205F
    ||| u == 0x3000
}

/// A character that a subscriber name may not hold.
pub open spec fn is_forbidden_name_char(c: char) -> bool {
    ||| c == '/'
    ||| c == '('
    ||| c == ')'
    ||| c == '"'
    ||| c == '<'
    ||| c == '>'
    ||| c == '\\'
    ||| c == '{'
    ||| c == '}'
}

/// The number of extended grapheme clusters of a text.
pub uninterp spec fn grapheme_count(s: Seq<char>) -> nat;

/// Whether a text is an email address in the HTML5 sense, as the `validator` crate decides it.
pub uninterp spec fn is_valid_email_address(s: Seq<char>) -> bool;

/// Not empty, not only white space, at most `MAX_NAME_GRAPHEMES` grapheme
/// clusters long, and without a forbidden character.
pub open spec fn is_valid_name(s: Seq<char>) -> bool {
    &&& exists|i: int| 0 <= i < s.len() && !is_white_space(#[trigger] s[i])
    &&& grapheme_count(s) <= MAX_NAME_GRAPHEMES
    &&& forall|i: int| 0 <= i < s.len() ==> !is_forbidden_name_char(#[trigger] s[i])
}

/// Relies on `unicode_segmentation::UnicodeSegmentation::graphemes` (extended
/// clusters), counted: the count depends on the text alone.
#[verifier::external_body]
fn count_graphemes(s: &str) -> (r: usize)
    ensures
        r as nat == grapheme_count(s@),
{
    unicode_segmentation::UnicodeSegmentation::graphemes(s, true).count()
}

/// Relies on `validator::ValidateEmail::validate_email` for `&str`: the answer
/// depends on the text alone. Its source returns false for an empty text and
/// for a text without `@`, and asks the part before the last `@` to be a
/// non-empty run of characters other than `@`.
#[verifier::external_body]
fn validate_email_address(s: &str) -> (r: bool)
    ensures
        r == is_valid_email_address(s@),
        r ==> s@.len() > 0 && s@.contains('@') && s@[0] != '@',
{
    validator::ValidateEmail::validate_email(&s)
}

fn white_space(c: char) -> (r: bool)
    ensures
        r == is_white_space(c),
{
    let u = c as u32;
    (0x09 <= u && u <= 0x0D) || u == 0x20 || u == 0x85 || u == 0xA0 || u == 0x1680 || (0x2000
        <= u && u <= 0x200A) || u == 0x2028 || u == 0x2029 || u == 0x202F || u == 0x205F || u
        == 0x3000
}

fn forbidden_name_char(c: char) -> (r: bool)
    ensures
        r == is_forbidden_name_char(c),
{
    c == '/' || c == '(' || c == ')' || c == '"' || c == '<' || c == '>' || c == '\\' || c == '{'
        || c == '}'
}

fn has_visible_char(s: &str) -> (r: bool)
    ensures
        r == exists|i: int| 0 <= i < s@.len() && !is_white_space(#[trigger] s@[i]),
{
    let n = s.unicode_len();
    let mut i: usize = 0;
    while i < n
        invariant
            n == s@.len(),
            i <= n,
            forall|j: int| 0 <= j < i ==> is_white_space(#[trigger] s@[j]),
        decreases n - i,
    {
        if !white_space(s.get_char(i)) {
            return true;
        }
        i = i + 1;
    }
    false
}

fn has_forbidden_char(s: &str) -> (r: bool)
    ensures
        r == exists|i: int| 0 <= i < s@.len() && is_forbidden_name_char(#[trigger] s@[i]),
{
    let n = s.unicode_len();
    let mut i: usize = 0;
    while i < n
        invariant
            n == s@.len(),
            i <= n,
            forall|j: int| 0 <= j < i ==> !is_forbidden_name_char(#[trigger] s@[j]),
        decreases n - i,
    {
        if forbidden_name_char(s.get_char(i)) {
            return true;
        }
        i = i + 1;
    }
    false
}

/// Why a text was refused, in words.
#[derive(Debug)]
pub struct ValidationError {
    pub reason: String,
}

/// The reason given for a refused name.
pub open spec fn invalid_name_reason(s: Seq<char>) -> Seq<char> {
    s + " is not a valid subscriber name."@
}

/// The reason given for a refused email address.
pub open spec fn invalid_email_reason(s: Seq<char>) -> Seq<char> {
    s + " is not a valid email address."@
}

/// A subscriber's name, valid by construction.
#[derive(Clone, Debug)]
pub struct SubscriberName(String);

impl View for SubscriberName {
    type V = Seq<char>;

    closed spec fn view(&self) -> Seq<char> {
        self.0@
    }
}

impl SubscriberName {
    /// Accepts `s` exactly when it is a valid name.
    pub fn parse(s: String) -> (r: Result<SubscriberName, ValidationError>)
        ensures
            r is Ok <==> is_valid_name(s@),
            s@.len() == 0 ==> r is Err,
            grapheme_count(s@) > MAX_NAME_GRAPHEMES ==> r is Err,
            (exists|i: int| 0 <= i < s@.len() && is_forbidden_name_char(#[trigger] s@[i])) ==> r
                is Err,
            (forall|i: int| 0 <= i < s@.len() ==> is_white_space(#[trigger] s@[i])) ==> r is Err,
            ((exists|i: int| 0 <= i < s@.len() && !is_white_space(#[trigger] s@[i]))
                && grapheme_count(s@) <= MAX_NAME_GRAPHEMES && (forall|i: int|
                0 <= i < s@.len() ==> !is_forbidden_name_char(#[trigger] s@[i]))) ==> r is Ok,
            r matches Ok(n) ==> n@ == s@,
            r matches Err(e) ==> e.reason@ == invalid_name_reason(s@),
    {
        let visible = has_visible_char(s.as_str());
        let too_long = count_graphemes(s.as_str()) > MAX_NAME_GRAPHEMES;
        let forbidden = has_forbidden_char(s.as_str());
        if !visible || too_long || forbidden {
            let mut reason = s;
            reason.append(" is not a valid subscriber name.");
            Err(ValidationError { reason })
        } else {
            Ok(SubscriberName(s))
        }
    }

    pub fn as_str(&self) -> (r: &str)
        ensures
            r@ == self@,
    {
        self.0.as_str()
    }
}

/// A subscriber's email address, valid by construction.
#[derive(Clone, Debug)]
pub struct SubscriberEmail {
    address: String,
}

impl View for SubscriberEmail {
    type V = Seq<char>;

    closed spec fn view(&self) -> Seq<char> {
        self.address@
    }
}

impl SubscriberEmail {
    /// Accepts `s` exactly when it is a valid email address.
    pub fn parse(s: String) -> (r: Result<SubscriberEmail, ValidationError>)
        ensures
            r is Ok <==> is_valid_email_address(s@),
            s@.len() == 0 ==> r is Err,
            !s@.contains('@') ==> r is Err,
            s@.len() > 0 && s@[0] == '@' ==> r is Err,
            r matches Ok(e) ==> e@ == s@,
            r matches Err(e) ==> e.reason@ == invalid_email_reason(s@),
    {
        if validate_email_address(s.as_str()) {
            Ok(SubscriberEmail { address: s })
        } else {
            let mut reason = s;
            reason.append(" is not a valid email address.");
            Err(ValidationError { reason })
        }
    }

    pub fn as_str(&self) -> (r: &str)
        ensures
            r@ == self@,
    {
        self.address.as_str()
    }
}

/// Identifies a subscriber: the 128 bits of a UUID.
#[derive(PartialEq, Eq, Structural, Clone, Copy, Debug)]
pub struct SubscriberId(pub u128);

impl AsRef<str> for SubscriberEmail {
    fn as_ref(&self) -> &str {
        self.address.as_str()
    }
}

/// A name and an address that both passed validation.
#[derive(Clone, Debug)]
pub struct NewSubscriber {
    pub email: SubscriberEmail,
    pub name: SubscriberName,
}

} // verus!
