use rand::distributions::Alphanumeric;
use rand::rngs::OsRng;
use rand::Rng;
use vstd::prelude::*;
use vstd::utf8::*;

verus! {

/// Largest size, in bytes, that a cookie value (and so a session key) may have.
pub const MAX_SESSION_KEY_BYTES: usize = 4064;

/// Number of characters in a freshly generated session key.
pub const SESSION_KEY_LEN: usize = 64;

/// The UTF-8 size of a text, in bytes.
pub open spec fn byte_len(text: Seq<char>) -> nat {
    encode_utf8(text).len()
}

/// A text that can travel as a cookie value.
pub open spec fn fits_in_cookie(text: Seq<char>) -> bool {
    byte_len(text) <= MAX_SESSION_KEY_BYTES
}

/// `A-Z`, `a-z` or `0-9`.
pub open spec fn is_alphanumeric_char(c: char) -> bool {
    ||| ('A' <= c && c <= 'Z')
    ||| ('a' <= c && c <= 'z')
    ||| ('0' <= c && c <= '9')
}

/// A text made of alphanumeric characters only.
pub open spec fn is_alphanumeric_text(text: Seq<char>) -> bool {
    forall|i: int| 0 <= i < text.len() ==> #[trigger] is_alphanumeric_char(text[i])
}

/// The string stored in a client-side cookie to associate a user with its
/// session state on the backend. It is never longer than a cookie may be.
#[derive(Debug, PartialEq, Eq)]
pub struct SessionKey(String);

impl View for SessionKey {
    type V = Seq<char>;

    closed spec fn view(&self) -> Seq<char> {
        self.0@
    }
}

/// The text offered as a session key does not fit in a cookie.
#[derive(Debug, Clone, Copy, PartialEq, Eq)]
pub struct InvalidSessionKeyError {
    /// Size in bytes of the rejected text.
    pub byte_len: usize,
}

impl Clone for SessionKey {
    fn clone(&self) -> (r: Self)
        ensures
            r@ == self@,
    {
        proof {
            use_type_invariant(self);
        }
        SessionKey(self.0.clone())
    }
}

impl Default for SessionKey {
    /// The empty key.
    fn default() -> (r: Self)
        ensures
            r@ == Seq::<char>::empty(),
    {
        let key = SessionKey(String::new());
        assert(fits_in_cookie(key.0@)) by {
            assert(encode_utf8(key.0@) == Seq::<u8>::empty());
        }
        key
    }
}

impl SessionKey {
    #[verifier::type_invariant]
    closed spec fn fits(self) -> bool {
        fits_in_cookie(self.0@)
    }

    /// Checks that `val` fits in a cookie and takes it as a session key.
    pub fn parse(val: &str) -> (r: Result<SessionKey, InvalidSessionKeyError>)
        ensures
            r is Ok <==> fits_in_cookie(val@),
            r matches Ok(key) ==> key@ == val@,
            r matches Err(e) ==> e.byte_len == byte_len(val@),
    {
        let len = val.as_bytes().len();
        if len > MAX_SESSION_KEY_BYTES {
            return Err(InvalidSessionKeyError { byte_len: len });
        }
        Ok(SessionKey(val.to_owned()))
    }

    /// The key as text.
    pub fn as_str(&self) -> (r: &str)
        ensures
            r@ == self@,
            fits_in_cookie(r@),
    {
        proof {
            use_type_invariant(self);
        }
        self.0.as_str()
    }
}

impl<'a> TryFrom<&'a str> for SessionKey {
    type Error = InvalidSessionKeyError;

    fn try_from(val: &'a str) -> (r: Result<Self, Self::Error>)
        ensures
            r is Ok <==> fits_in_cookie(val@),
            r matches Ok(key) ==> key@ == val@,
            r matches Err(e) ==> e.byte_len == byte_len(val@),
    {
        SessionKey::parse(val)
    }
}

impl<'a> vstd::std_specs::convert::TryFromSpecImpl<&'a str> for SessionKey {
    open spec fn obeys_try_from_spec() -> bool {
        false
    }

    open spec fn try_from_spec(val: &'a str) -> Result<Self, Self::Error> {
        arbitrary()
    }
}

impl TryFrom<String> for SessionKey {
    type Error = InvalidSessionKeyError;

    fn try_from(val: String) -> (r: Result<Self, Self::Error>)
        ensures
            r is Ok <==> fits_in_cookie(val@),
            r matches Ok(key) ==> key@ == val@,
            r matches Err(e) ==> e.byte_len == byte_len(val@),
    {
        SessionKey::parse(val.as_str())
    }
}

impl vstd::std_specs::convert::TryFromSpecImpl<String> for SessionKey {
    open spec fn obeys_try_from_spec() -> bool {
        false
    }

    open spec fn try_from_spec(val: String) -> Result<Self, Self::Error> {
        arbitrary()
    }
}

impl AsRef<str> for SessionKey {
    fn as_ref(&self) -> (r: &str)
        ensures
            r@ == self@,
    {
        self.as_str()
    }
}

impl From<SessionKey> for String {
    fn from(key: SessionKey) -> (r: String) {
        key.0
    }
}

impl vstd::std_specs::convert::FromSpecImpl<SessionKey> for String {
    open spec fn obeys_from_spec() -> bool {
        true
    }

    closed spec fn from_spec(key: SessionKey) -> String {
        key.0
    }
}

/// Turning a session key into a `String` gives back the key's text.
pub proof fn lemma_string_from_key(key: SessionKey)
    ensures
        <String as vstd::std_specs::convert::FromSpec<SessionKey>>::from_spec(key)@ == key@,
{
}

/// Relies on rand's `Alphanumeric` distribution drawn from `OsRng`: one of
/// `A-Z`, `a-z`, `0-9`, as a one-character string. `OsRng` panics only when
/// the operating system cannot supply randomness.
#[verifier::external_body]
fn draw_alphanumeric() -> (r: String)
    ensures
        r@.len() == 1,
        is_alphanumeric_char(r@[0]),
{
    (OsRng.sample(Alphanumeric) as char).to_string()
}

/// The text made of `parts`, one after another.
pub open spec fn concat_texts(parts: Seq<Seq<char>>) -> Seq<char>
    decreases parts.len(),
{
    if parts.len() == 0 {
        Seq::empty()
    } else {
        concat_texts(parts.drop_last()) + parts.last()
    }
}

/// The texts of a sequence of strings.
pub open spec fn texts_of(parts: Seq<String>) -> Seq<Seq<char>> {
    parts.map_values(|s: String| s@)
}

/// Joins `parts` into one session key; refused when the joined text does
/// not fit in a cookie.
pub fn session_key_from_parts(parts: &Vec<String>) -> (r: Result<SessionKey, InvalidSessionKeyError>)
    ensures
        r is Ok <==> fits_in_cookie(concat_texts(texts_of(parts@))),
        r matches Ok(key) ==> key@ == concat_texts(texts_of(parts@)),
        r matches Err(e) ==> e.byte_len == byte_len(concat_texts(texts_of(parts@))),
{
    let mut text = String::new();
    let mut i: usize = 0;
    while i < parts.len()
        invariant
            i <= parts.len(),
            text@ == concat_texts(texts_of(parts@.subrange(0, i as int))),
        decreases parts.len() - i,
    {
        let ghost before = text@;
        text.append(parts[i].as_str());
        proof {
            let next = texts_of(parts@.subrange(0, i + 1));
            assert(next.drop_last() =~= texts_of(parts@.subrange(0, i as int)));
            assert(next.last() == parts@[i as int]@);
        }
        i = i + 1;
    }
    assert(parts@.subrange(0, parts.len() as int) =~= parts@);
    SessionKey::parse(text.as_str())
}

/// Pieces of one alphanumeric character each join into an alphanumeric
/// text with one character per piece.
proof fn lemma_concat_alphanumeric(parts: Seq<Seq<char>>)
    requires
        forall|j: int|
            0 <= j < parts.len() ==> (#[trigger] parts[j]).len() == 1 && is_alphanumeric_char(
                parts[j][0],
            ),
    ensures
        concat_texts(parts).len() == parts.len(),
        is_alphanumeric_text(concat_texts(parts)),
    decreases parts.len(),
{
    if parts.len() > 0 {
        let rest = parts.drop_last();
        assert forall|j: int| 0 <= j < rest.len() implies (#[trigger] rest[j]).len() == 1
            && is_alphanumeric_char(rest[j][0]) by {
            assert(rest[j] == parts[j]);
        }
        lemma_concat_alphanumeric(rest);
        let whole = concat_texts(parts);
        assert(parts[parts.len() - 1].len() == 1);
        assert forall|i: int| 0 <= i < whole.len() implies #[trigger] is_alphanumeric_char(whole[i]) by {
            if i < rest.len() {
                assert(whole[i] == concat_texts(rest)[i]);
            } else {
                assert(whole[i] == parts.last()[0]);
            }
        }
    }
}

/// Draws a new session key: `SESSION_KEY_LEN` alphanumeric characters from
/// the operating system's secure random source, joined.
pub fn generate_session_key() -> (key: SessionKey)
    ensures
        key@.len() == SESSION_KEY_LEN,
        is_alphanumeric_text(key@),
        fits_in_cookie(key@),
{
    let mut parts: Vec<String> = Vec::new();
    let mut i: usize = 0;
    while i < SESSION_KEY_LEN
        invariant
            i <= SESSION_KEY_LEN,
            parts.len() == i,
            forall|j: int|
                0 <= j < i ==> (#[trigger] parts@[j])@.len() == 1 && is_alphanumeric_char(
                    parts@[j]@[0],
                ),
        decreases SESSION_KEY_LEN - i,
    {
        parts.push(draw_alphanumeric());
        i = i + 1;
    }
    proof {
        let texts = texts_of(parts@);
        assert forall|j: int| 0 <= j < texts.len() implies (#[trigger] texts[j]).len() == 1
            && is_alphanumeric_char(texts[j][0]) by {
            assert(texts[j] == parts@[j]@);
        }
        lemma_concat_alphanumeric(texts);
        let joined = concat_texts(texts);
        assert(is_ascii_chars(joined)) by {
            assert forall|j: int| 0 <= j < joined.len() implies '\0' <= #[trigger] joined[j] <= '\u{7f}' by {
                assert(is_alphanumeric_char(joined[j]));
            }
        }
        is_ascii_chars_encode_utf8(joined);
    }
    match session_key_from_parts(&parts) {
        Ok(key) => key,
        Err(_) => SessionKey::default(),
    }
}

} // verus!
