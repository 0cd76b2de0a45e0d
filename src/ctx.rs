use vstd::arithmetic::power::pow;
use vstd::prelude::*;

verus! {

/// A lower-case hexadecimal digit.
pub open spec fn hex_digit(d: int) -> char {
    if d == 0 { '0' } else if d == 1 { '1' } else if d == 2 { '2' } else if d == 3 { '3' }
    else if d == 4 { '4' } else if d == 5 { '5' } else if d == 6 { '6' } else if d == 7 { '7' }
    else if d == 8 { '8' } else if d == 9 { '9' } else if d == 10 { 'a' } else if d == 11 { 'b' }
    else if d == 12 { 'c' } else if d == 13 { 'd' } else if d == 14 { 'e' } else { 'f' }
}

/// The `k`-th hexadecimal digit of `value`, counting from the most
/// significant of its 32.
pub open spec fn nibble(value: u128, k: int) -> int {
    (value as int / pow(16, (31 - k) as nat)) % 16
}

/// Which of the 32 digits stands at position `i` of the hyphenated text.
pub open spec fn digit_index(i: int) -> int {
    if i > 23 { i - 4 } else if i > 18 { i - 3 } else if i > 13 { i - 2 } else if i > 8 { i - 1 } else { i }
}

/// The hyphenated lower-case text of a UUID whose 128 bits are `value`: its
/// 32 hexadecimal digits, most significant first, with a hyphen after the
/// 8th, 12th, 16th and 20th.
pub open spec fn uuid_text(value: u128) -> Seq<char> {
    Seq::new(
        36,
        |i: int|
            if i == 8 || i == 13 || i == 18 || i == 23 {
                '-'
            } else {
                hex_digit(nibble(value, digit_index(i)))
            },
    )
}

/// Relies on `uuid::Uuid::from_u128`, which takes the bits most significant
/// first, and the `Display` impl of `uuid::Uuid`, which writes the
/// hyphenated lower-case form.
#[verifier::external_body]
fn uuid_to_text(value: u128) -> (r: String)
    ensures
        r@ == uuid_text(value),
        r@.len() == 36,
{
    uuid::Uuid::from_u128(value).to_string()
}

/// Identifier of a user: the 128 bits of its UUID. The all-zero (nil) value
/// never names a user.
#[derive(Clone, Copy, Debug, PartialEq, Eq, Hash, Structural)]
pub struct UserId(pub u128);

impl UserId {
    /// The nil identifier, all bits zero.
    pub fn nil() -> (r: UserId)
        ensures
            r.0 == 0,
    {
        UserId(0)
    }

    pub fn is_nil(&self) -> (r: bool)
        ensures
            r == (self.0 == 0),
    {
        self.0 == 0
    }

    /// The identifier as the hyphenated text of its UUID.
    pub fn to_text(&self) -> (r: String)
        ensures
            r@ == uuid_text(self.0),
            r@.len() == 36,
    {
        uuid_to_text(self.0)
    }
}

/// Why an identity could not be built.
#[derive(Clone, Copy, Debug, PartialEq, Eq, Structural)]
pub enum CtxError {
    /// The nil identifier was offered.
    InvalidUserId,
}

/// The authenticated principal of one request.
#[derive(Clone, Debug)]
pub struct Ctx {
    user_id: UserId,
}

impl View for Ctx {
    type V = UserId;

    closed spec fn view(&self) -> UserId {
        self.user_id
    }
}

impl Ctx {
    /// The context of the system itself, which carries the nil identifier.
    pub fn root_ctx() -> (r: Ctx)
        ensures
            r@.0 == 0,
    {
        Ctx { user_id: UserId::nil() }
    }

    /// The identity of `user_id`; the nil identifier is refused.
    pub fn new(user_id: UserId) -> (r: Result<Ctx, CtxError>)
        ensures
            r is Ok <==> user_id.0 != 0,
            r matches Ok(ctx) ==> ctx@ == user_id,
            r matches Err(e) ==> e == CtxError::InvalidUserId,
    {
        if user_id.is_nil() {
            Err(CtxError::InvalidUserId)
        } else {
            Ok(Ctx { user_id })
        }
    }

    pub fn user_id(&self) -> (r: UserId)
        ensures
            r == self@,
    {
        self.user_id
    }
}

} // verus!
