use argon2::password_hash::SaltString;
use argon2::{Argon2, PasswordHash, PasswordHasher, PasswordVerifier};
use vstd::prelude::*;
use vstd::utf8::{encode_utf8, is_ascii_chars, is_ascii_chars_encode_utf8};
use crate::ctx::UserId;
use crate::session_key::byte_len;
use crate::text::same_text;

verus! {

/// Fewest bytes a strong password has.
pub const MIN_PASSWORD_BYTES: usize = 8;

/// Whether `c` has the Unicode `Lowercase` property.
pub uninterp spec fn char_is_lowercase(c: char) -> bool;

/// Whether `c` has the Unicode `Uppercase` property.
pub uninterp spec fn char_is_uppercase(c: char) -> bool;

/// Relies on `char::is_lowercase`: whether `c` has the Unicode `Lowercase`
/// property, which depends on `c` alone. Among ASCII characters exactly
/// `a-z` have it.
#[verifier::external_body]
fn is_lowercase(c: char) -> (r: bool)
    ensures
        r == char_is_lowercase(c),
        c <= '\u{7f}' ==> (r == ('a' <= c && c <= 'z')),
{
    c.is_lowercase()
}

/// Relies on `char::is_uppercase`: whether `c` has the Unicode `Uppercase`
/// property, which depends on `c` alone. Among ASCII characters exactly
/// `A-Z` have it.
#[verifier::external_body]
fn is_uppercase(c: char) -> (r: bool)
    ensures
        r == char_is_uppercase(c),
        c <= '\u{7f}' ==> (r == ('A' <= c && c <= 'Z')),
{
    c.is_uppercase()
}

/// The character classes a password is scored on. A character counts for
/// the first class it belongs to, in the order lower, upper, digit.
pub open spec fn counts_as_lower(c: char) -> bool {
    char_is_lowercase(c)
}

pub open spec fn counts_as_upper(c: char) -> bool {
    !char_is_lowercase(c) && char_is_uppercase(c)
}

pub open spec fn counts_as_digit(c: char) -> bool {
    !char_is_lowercase(c) && !char_is_uppercase(c) && '0' <= c && c <= '9'
}

pub open spec fn has_lower(p: Seq<char>) -> bool {
    exists|i: int| 0 <= i < p.len() && #[trigger] counts_as_lower(p[i])
}

pub open spec fn has_upper(p: Seq<char>) -> bool {
    exists|i: int| 0 <= i < p.len() && #[trigger] counts_as_upper(p[i])
}

pub open spec fn has_digit(p: Seq<char>) -> bool {
    exists|i: int| 0 <= i < p.len() && #[trigger] counts_as_digit(p[i])
}

/// A strong password has at least `MIN_PASSWORD_BYTES` bytes and a lower-case
/// letter, an upper-case letter and an ASCII digit.
pub open spec fn is_strong_password(p: Seq<char>) -> bool {
    &&& byte_len(p) >= MIN_PASSWORD_BYTES
    &&& has_lower(p)
    &&& has_upper(p)
    &&& has_digit(p)
}

pub open spec fn is_ascii_lower(c: char) -> bool {
    'a' <= c && c <= 'z'
}

pub open spec fn is_ascii_upper(c: char) -> bool {
    'A' <= c && c <= 'Z'
}

pub open spec fn is_ascii_digit(c: char) -> bool {
    '0' <= c && c <= '9'
}

/// The strength policy on an ASCII password: at least `MIN_PASSWORD_BYTES`
/// characters, with some `a-z`, some `A-Z` and some `0-9`.
pub open spec fn is_strong_ascii_password(p: Seq<char>) -> bool {
    &&& p.len() >= MIN_PASSWORD_BYTES
    &&& exists|i: int| 0 <= i < p.len() && #[trigger] is_ascii_lower(p[i])
    &&& exists|i: int| 0 <= i < p.len() && #[trigger] is_ascii_upper(p[i])
    &&& exists|i: int| 0 <= i < p.len() && #[trigger] is_ascii_digit(p[i])
}

/// The strength policy checked before an account is created.
pub fn is_password_strong(password: &str) -> (r: bool)
    ensures
        r == is_strong_password(password@),
        is_ascii_chars(password@) ==> r == is_strong_ascii_password(password@),
{
    proof {
        if is_ascii_chars(password@) {
            is_ascii_chars_encode_utf8(password@);
        }
    }
    if password.as_bytes().len() < MIN_PASSWORD_BYTES {
        return false;
    }
    let mut lower = false;
    let mut upper = false;
    let mut digit = false;
    for c in it: password.chars()
        invariant
            it.seq() == password@,
            lower == (exists|j: int| 0 <= j < it.index() && #[trigger] counts_as_lower(password@[j])),
            upper == (exists|j: int| 0 <= j < it.index() && #[trigger] counts_as_upper(password@[j])),
            digit == (exists|j: int| 0 <= j < it.index() && #[trigger] counts_as_digit(password@[j])),
            is_ascii_chars(password@) ==> lower == (exists|j: int|
                0 <= j < it.index() && #[trigger] is_ascii_lower(password@[j])),
            is_ascii_chars(password@) ==> upper == (exists|j: int|
                0 <= j < it.index() && #[trigger] is_ascii_upper(password@[j])),
            is_ascii_chars(password@) ==> digit == (exists|j: int|
                0 <= j < it.index() && #[trigger] is_ascii_digit(password@[j])),
    {
        let ghost k = it.index();
        assert(password@[k] == c);
        let l = is_lowercase(c);
        let u = is_uppercase(c);
        assert(counts_as_lower(password@[k]) == l);
        assert(counts_as_upper(password@[k]) == (!l && u));
        assert(counts_as_digit(password@[k]) == (!l && !u && '0' <= c && c <= '9'));
        proof {
            if is_ascii_chars(password@) {
                assert('\0' <= password@[k] <= '\u{7f}');
                assert(is_ascii_lower(password@[k]) == l);
                assert(is_ascii_upper(password@[k]) == (!l && u));
                assert(is_ascii_digit(password@[k]) == (!l && !u && '0' <= c && c <= '9'));
            }
        }
        if l {
            lower = true;
        } else if u {
            upper = true;
        } else if '0' <= c && c <= '9' {
            digit = true;
        }
    }
    lower && upper && digit
}

/// `argon2::Algorithm`: the three Argon2 variants.
#[verifier::external_type_specification]
pub struct ExArgon2Algorithm(argon2::Algorithm);

/// `argon2::Version`: the two versions of the Argon2 algorithm.
#[verifier::external_type_specification]
pub struct ExArgon2Version(argon2::Version);

/// `password_hash::Error`: why hashing failed, carried opaquely.
#[verifier::external_type_specification]
#[verifier::external_body]
pub struct ExPasswordHashError(argon2::password_hash::Error);

/// The Argon2 variant of every hash this library computes.
pub const ARGON2_ALGORITHM: argon2::Algorithm = argon2::Algorithm::Argon2id;

/// The Argon2 version of every hash this library computes.
pub const ARGON2_VERSION: argon2::Version = argon2::Version::V0x13;

/// Argon2 memory cost, in KiB, of every hash this library computes.
pub const ARGON2_M_COST: u32 = 15000;

/// Argon2 number of passes.
pub const ARGON2_T_COST: u32 = 2;

/// Argon2 degree of parallelism.
pub const ARGON2_P_COST: u32 = 1;

/// Largest degree of parallelism Argon2 can be handed: it computes
/// `8 * p_cost` in 32 bits.
pub const MAX_VERIFIABLE_P_COST: u32 = 0x1FFF_FFFF;

/// Longest text a `p` parameter of a hash string may have for this library
/// to verify against it. A decimal of at most 8 characters is below 10^8,
/// so well below `MAX_VERIFIABLE_P_COST`.
pub const MAX_P_COST_CHARS: usize = 8;

/// A PHC hash string of an Argon2id digest, with the costs above, that
/// stands for no account. Checking a password against it costs as much as
/// checking it against a real stored hash.
pub const DUMMY_PASSWORD_HASH: &'static str = "$argon2id$v=19$m=15000,t=2,p=1$gZiV/M1gPc22ElAH/Jh1Hw$CWOrkoo7oJBQ/iyh7uJ0LO2aLEfrHwTWllSAxT0zRno";

/// Whether `phc` parses as a PHC hash string.
pub uninterp spec fn phc_well_formed(phc: Seq<char>) -> bool;

/// Whether recomputing the digest of `password` with the algorithm, version,
/// parameters and salt that `phc` names yields the digest that `phc` holds.
pub uninterp spec fn argon2_accepts(password: Seq<u8>, phc: Seq<char>) -> bool;

/// The parameters of `phc`, as (name, value) texts in the order they are
/// written, when `phc` parses as a PHC hash string.
pub uninterp spec fn phc_params(phc: Seq<char>) -> Option<Seq<(Seq<char>, Seq<char>)>>;

/// The texts of (name, value) pairs of strings.
pub open spec fn pair_texts(pairs: Seq<(String, String)>) -> Seq<(Seq<char>, Seq<char>)> {
    pairs.map_values(|pair: (String, String)| (pair.0@, pair.1@))
}

/// The parameter list that Argon2 writes for these costs.
pub open spec fn argon2_param_texts(m_cost: u32, t_cost: u32, p_cost: u32) -> Seq<(Seq<char>, Seq<char>)> {
    seq![
        ("m"@, decimal_text(m_cost as nat)),
        ("t"@, decimal_text(t_cost as nat)),
        ("p"@, decimal_text(p_cost as nat)),
    ]
}

/// Whether Argon2 accepts these costs (with the default output length).
pub open spec fn argon2_params_valid(m_cost: u32, t_cost: u32, p_cost: u32) -> bool {
    &&& m_cost >= 8
    &&& m_cost >= 8 * p_cost
    &&& t_cost >= 1
    &&& 1 <= p_cost <= 0xFF_FFFF
}

/// The identifier of an Argon2 variant in a PHC string.
pub open spec fn algorithm_ident(algorithm: argon2::Algorithm) -> Seq<char> {
    match algorithm {
        argon2::Algorithm::Argon2d => "argon2d"@,
        argon2::Algorithm::Argon2i => "argon2i"@,
        argon2::Algorithm::Argon2id => "argon2id"@,
    }
}

/// The number of an Argon2 version.
pub open spec fn version_number(version: argon2::Version) -> nat {
    match version {
        argon2::Version::V0x10 => 16,
        argon2::Version::V0x13 => 19,
    }
}

/// A decimal digit.
pub open spec fn digit_char(d: nat) -> char {
    if d == 0 { '0' } else if d == 1 { '1' } else if d == 2 { '2' } else if d == 3 { '3' }
    else if d == 4 { '4' } else if d == 5 { '5' } else if d == 6 { '6' } else if d == 7 { '7' }
    else if d == 8 { '8' } else { '9' }
}

/// The decimal text of `n`, without leading zeros.
pub open spec fn decimal_text(n: nat) -> Seq<char>
    decreases n,
{
    if n < 10 {
        seq![digit_char(n)]
    } else {
        decimal_text(n / 10) + seq![digit_char(n % 10)]
    }
}

/// The start of a PHC string of an Argon2 hash, up to the salt:
/// `$<algorithm>$v=<version>$m=<m>,t=<t>,p=<p>$`.
pub open spec fn phc_prefix(
    algorithm: argon2::Algorithm,
    version: argon2::Version,
    m_cost: u32,
    t_cost: u32,
    p_cost: u32,
) -> Seq<char> {
    "$"@ + algorithm_ident(algorithm) + "$v="@ + decimal_text(version_number(version)) + "$m="@
        + decimal_text(m_cost as nat) + ",t="@ + decimal_text(t_cost as nat) + ",p="@
        + decimal_text(p_cost as nat) + "$"@
}

/// Whether `text` begins with `prefix`.
pub open spec fn starts_with(text: Seq<char>, prefix: Seq<char>) -> bool {
    prefix.len() <= text.len() && text.subrange(0, prefix.len() as int) == prefix
}

/// Relies on `SaltString::generate` fed by `rand::thread_rng()` (a fresh
/// 16-byte salt); on `argon2::Params::new`, which accepts exactly the costs
/// that `argon2_params_valid` describes and computes `8 * p_cost`; on
/// `PasswordHasher::hash_password`, which with valid costs and that salt
/// fails only for a password over 0xFFFF_FFFF bytes; and on `Display` of the
/// resulting `PasswordHash`, which writes
/// `$<algorithm>$v=<version>$m=<m>,t=<t>,p=<p>$<salt>$<digest>`. Parsing
/// that string back and verifying the same password recomputes the same
/// digest, so the password is accepted.
#[verifier::external_body]
fn argon2_hash(
    password: &[u8],
    algorithm: argon2::Algorithm,
    version: argon2::Version,
    m_cost: u32,
    t_cost: u32,
    p_cost: u32,
) -> (r: Result<String, argon2::password_hash::Error>)
    requires
        p_cost <= MAX_VERIFIABLE_P_COST,
    ensures
        (r is Ok) == (argon2_params_valid(m_cost, t_cost, p_cost) && password@.len() <= 0xFFFF_FFFF),
        r matches Ok(phc) ==> phc_well_formed(phc@) && argon2_accepts(password@, phc@),
        r matches Ok(phc) ==> phc_params(phc@) == Some(argon2_param_texts(m_cost, t_cost, p_cost)),
        r matches Ok(phc) ==> starts_with(
            phc@,
            phc_prefix(algorithm, version, m_cost, t_cost, p_cost),
        ),
{
    let salt = SaltString::generate(&mut rand::thread_rng());
    let params = argon2::Params::new(m_cost, t_cost, p_cost, None)?;
    let hash = Argon2::new(algorithm, version, params).hash_password(password, &salt)?;
    Ok(hash.to_string())
}

/// Relies on `PasswordHash::new`, which parses the PHC string, and on
/// `ParamsString::iter`, which yields its parameters in written order.
#[verifier::external_body]
fn params_of(phc: &str) -> (r: Option<Vec<(String, String)>>)
    ensures
        (r is None) == (phc_params(phc@) is None),
        r matches Some(pairs) ==> phc_params(phc@) == Some(pair_texts(pairs@)),
{
    match PasswordHash::new(phc) {
        Ok(hash) => {
            let mut pairs = Vec::new();
            for (name, value) in hash.params.iter() {
                pairs.push((name.as_str().to_owned(), value.as_str().to_owned()));
            }
            Some(pairs)
        },
        Err(_) => None,
    }
}

/// Every `p` parameter in `params` has a value of at most
/// `MAX_P_COST_CHARS` characters.
pub open spec fn p_costs_short(params: Seq<(Seq<char>, Seq<char>)>) -> bool {
    forall|i: int|
        0 <= i < params.len() && (#[trigger] params[i]).0 == "p"@ ==> params[i].1.len()
            <= MAX_P_COST_CHARS
}

/// A hash string whose costs this library can verify against without
/// overflowing Argon2's parameter arithmetic: every `p` parameter it names
/// (Argon2 keeps the last one) is short.
pub open spec fn phc_verifiable(phc: Seq<char>) -> bool {
    phc_params(phc) matches Some(params) ==> p_costs_short(params)
}

/// Whether every degree of parallelism that `phc` names can be verified
/// against.
pub fn is_verifiable_hash(phc: &str) -> (r: bool)
    ensures
        r == phc_verifiable(phc@),
{
    let found = params_of(phc);
    let pairs = match found {
        Some(pairs) => pairs,
        None => return true,
    };
    assert(phc_params(phc@) == Some(pair_texts(pairs@)));
    let mut i: usize = 0;
    while i < pairs.len()
        invariant
            i <= pairs.len(),
            phc_params(phc@) == Some(pair_texts(pairs@)),
            forall|j: int|
                0 <= j < i && (#[trigger] pair_texts(pairs@)[j]).0 == "p"@ ==> pair_texts(
                    pairs@,
                )[j].1.len() <= MAX_P_COST_CHARS,
        decreases pairs.len() - i,
    {
        let (name, value) = &pairs[i];
        assert(pair_texts(pairs@)[i as int] == (name@, value@));
        if same_text(name.as_str(), "p") && value.as_str().unicode_len() > MAX_P_COST_CHARS {
            assert(pair_texts(pairs@)[i as int].0 == "p"@);
            assert(!p_costs_short(pair_texts(pairs@)));
            assert(!phc_verifiable(phc@));
            return false;
        }
        i = i + 1;
    }
    true
}

/// What checking a password against a PHC hash string found.
#[derive(Clone, Copy, Debug, PartialEq, Eq, Structural)]
pub enum PhcCheck {
    /// The hash string does not parse.
    Malformed,
    /// The password does not produce the digest the hash string holds.
    Mismatch,
    /// The password produces that digest.
    Match,
}

/// Relies on `PasswordHash::new`, which parses the PHC string, and on
/// `PasswordVerifier::verify_password` of `Argon2::default()`, which
/// recomputes the digest with the parameters and salt of the parsed hash
/// and compares the two in constant time. Rebuilding the parameters computes
/// `8 * p` in 32 bits, so the named `p` is kept where that product fits.
#[verifier::external_body]
fn argon2_check(candidate: &[u8], phc: &str) -> (r: PhcCheck)
    requires
        phc_verifiable(phc@),
    ensures
        (r is Malformed) == !phc_well_formed(phc@),
        (r is Match) == (phc_well_formed(phc@) && argon2_accepts(candidate@, phc@)),
{
    match PasswordHash::new(phc) {
        Ok(parsed) => match Argon2::default().verify_password(candidate, &parsed) {
            Ok(()) => PhcCheck::Match,
            Err(_) => PhcCheck::Mismatch,
        },
        Err(_) => PhcCheck::Malformed,
    }
}

/// Failures of a credential check.
#[derive(Clone, Copy, Debug, PartialEq, Eq, Structural)]
pub enum AuthError {
    /// Unknown identifier or wrong password; the two are never told apart.
    InvalidCredentials,
    /// The check itself could not be carried out.
    UnexpectedError,
}

/// Computing a password hash failed.
#[derive(Clone, Copy, Debug, PartialEq, Eq, Structural)]
pub struct HashingError;

/// `phc` is a hash string that `password` verifies against.
pub open spec fn is_password_hash_of(password: Seq<char>, phc: Seq<char>) -> bool {
    &&& phc_well_formed(phc)
    &&& phc_verifiable(phc)
    &&& argon2_accepts(encode_utf8(password), phc)
}

/// The outcome of checking `candidate` against the stored hash `phc`.
pub open spec fn verification_outcome(candidate: Seq<char>, phc: Seq<char>) -> Result<(), AuthError> {
    if !phc_well_formed(phc) || !phc_verifiable(phc) {
        Err(AuthError::UnexpectedError)
    } else if argon2_accepts(encode_utf8(candidate), phc) {
        Ok(())
    } else {
        Err(AuthError::InvalidCredentials)
    }
}

/// The outcome that a check of a password against a hash string reports.
pub open spec fn check_outcome(check: PhcCheck) -> Result<(), AuthError> {
    match check {
        PhcCheck::Malformed => Err(AuthError::UnexpectedError),
        PhcCheck::Mismatch => Err(AuthError::InvalidCredentials),
        PhcCheck::Match => Ok(()),
    }
}

/// Turns what the hash check found into the result of a verification: a
/// hash string that does not parse is unexpected, a mismatch is a wrong
/// password.
pub fn outcome_of_check(check: PhcCheck) -> (r: Result<(), AuthError>)
    ensures
        r == check_outcome(check),
{
    match check {
        PhcCheck::Malformed => Err(AuthError::UnexpectedError),
        PhcCheck::Mismatch => Err(AuthError::InvalidCredentials),
        PhcCheck::Match => Ok(()),
    }
}

/// Checks `password_candidate` against the PHC hash string
/// `expected_password_hash`. A wrong password is an ordinary outcome; a
/// hash string that does not parse, or names a parallelism too large to
/// verify against, is unexpected.
pub fn verify_password_hash(expected_password_hash: &str, password_candidate: &str) -> (r: Result<
    (),
    AuthError,
>)
    ensures
        r == verification_outcome(password_candidate@, expected_password_hash@),
        r is Ok <==> is_password_hash_of(password_candidate@, expected_password_hash@),
{
    if !is_verifiable_hash(expected_password_hash) {
        return Err(AuthError::UnexpectedError);
    }
    let check = argon2_check(password_candidate.as_bytes(), expected_password_hash);
    outcome_of_check(check)
}

/// The start of every hash string this library computes, up to the salt.
pub open spec fn password_hash_prefix() -> Seq<char> {
    phc_prefix(ARGON2_ALGORITHM, ARGON2_VERSION, ARGON2_M_COST, ARGON2_T_COST, ARGON2_P_COST)
}

/// The start of every hash string this library computes, spelled out.
pub proof fn lemma_password_hash_prefix()
    ensures
        password_hash_prefix() == "$argon2id$v=19$m=15000,t=2,p=1$"@,
{
    reveal_strlit("$");
    reveal_strlit("argon2id");
    reveal_strlit("$v=");
    reveal_strlit("$m=");
    reveal_strlit(",t=");
    reveal_strlit(",p=");
    reveal_strlit("$argon2id$v=19$m=15000,t=2,p=1$");
    reveal_with_fuel(decimal_text, 6);
    assert(decimal_text(19) =~= seq!['1', '9']);
    assert(decimal_text(15000) =~= seq!['1', '5', '0', '0', '0']);
    assert(decimal_text(2) =~= seq!['2']);
    assert(decimal_text(1) =~= seq!['1']);
    assert(password_hash_prefix() =~= "$argon2id$v=19$m=15000,t=2,p=1$"@);
}

/// The parameters of every hash string this library computes name a short
/// degree of parallelism.
pub proof fn lemma_password_hash_params_verifiable()
    ensures
        p_costs_short(argon2_param_texts(ARGON2_M_COST, ARGON2_T_COST, ARGON2_P_COST)),
{
    reveal_with_fuel(decimal_text, 6);
    let params = argon2_param_texts(ARGON2_M_COST, ARGON2_T_COST, ARGON2_P_COST);
    assert(decimal_text(15000) =~= seq!['1', '5', '0', '0', '0']);
    assert(decimal_text(2) =~= seq!['2']);
    assert(decimal_text(1) =~= seq!['1']);
    assert forall|i: int|
        0 <= i < params.len() && (#[trigger] params[i]).0 == "p"@ implies params[i].1.len()
            <= MAX_P_COST_CHARS by {
        assert(params[i].1.len() <= 5);
    }
}

/// Hashes `password` with Argon2id version 0x13, the fixed costs above and
/// a fresh random salt, into a PHC string that names all of them. It fails
/// only for a password over 0xFFFF_FFFF bytes.
pub fn compute_password_hash(password: &str) -> (r: Result<String, HashingError>)
    ensures
        r is Ok <==> byte_len(password@) <= 0xFFFF_FFFF,
        r matches Ok(phc) ==> is_password_hash_of(password@, phc@),
        r matches Ok(phc) ==> starts_with(phc@, "$argon2id$v=19$m=15000,t=2,p=1$"@),
{
    proof {
        lemma_password_hash_prefix();
        lemma_password_hash_params_verifiable();
    }
    match argon2_hash(
        password.as_bytes(),
        ARGON2_ALGORITHM,
        ARGON2_VERSION,
        ARGON2_M_COST,
        ARGON2_T_COST,
        ARGON2_P_COST,
    ) {
        Ok(phc) => Ok(phc),
        Err(_) => Err(HashingError),
    }
}

/// Hashing a password and then verifying that same password against the
/// hash succeeds.
pub proof fn lemma_hash_then_verify(password: Seq<char>, phc: Seq<char>)
    requires
        is_password_hash_of(password, phc),
    ensures
        verification_outcome(password, phc) == Ok::<(), AuthError>(()),
{
}

/// An identifier (user name or email) and a plain-text password, held only
/// while a login request is handled. It has no `Debug`, so that it cannot be
/// logged.
#[derive(Clone)]
pub struct Credentials {
    pub email_or_user: String,
    pub password: String,
}

/// What the user store holds for one account. It has no `Debug`, so that
/// the hash cannot be logged.
#[derive(Clone)]
pub struct StoredCredentials {
    pub user_id: UserId,
    pub password_hash: String,
}

/// The result of a login attempt given what the user store returned.
pub open spec fn credentials_outcome(candidate: Seq<char>, stored: Option<StoredCredentials>) -> Result<
    UserId,
    AuthError,
> {
    match stored {
        Some(rec) => if is_password_hash_of(candidate, rec.password_hash@) {
            Ok(rec.user_id)
        } else {
            Err(AuthError::InvalidCredentials)
        },
        None => Err(AuthError::InvalidCredentials),
    }
}

/// The identifier to grant and the hash to check a password against. An
/// unknown account is checked against `DUMMY_PASSWORD_HASH`, so that the
/// costly verification runs whether or not the account exists.
pub fn expected_credentials(stored: Option<StoredCredentials>) -> (r: (Option<UserId>, String))
    ensures
        stored matches Some(rec) ==> r.0 == Some(rec.user_id) && r.1@ == rec.password_hash@,
        stored is None ==> r.0 is None && r.1@ == DUMMY_PASSWORD_HASH@,
{
    match stored {
        Some(rec) => (Some(rec.user_id), rec.password_hash),
        None => (None, DUMMY_PASSWORD_HASH.to_owned()),
    }
}

/// Grants `user_id` only when an account was found and its password
/// verified; every other case is the same `InvalidCredentials`.
pub fn decide_credentials(user_id: Option<UserId>, verification: Result<(), AuthError>) -> (r: Result<
    UserId,
    AuthError,
>)
    ensures
        r is Ok <==> user_id is Some && verification is Ok,
        r matches Ok(id) ==> user_id == Some(id),
        r matches Err(e) ==> e == AuthError::InvalidCredentials,
{
    match (user_id, verification) {
        (Some(id), Ok(())) => Ok(id),
        _ => Err(AuthError::InvalidCredentials),
    }
}

/// Checks a login attempt against what the user store returned for its
/// identifier. The password is verified in every case, against the dummy
/// hash when no account was found, and the failure does not tell an unknown
/// identifier from a wrong password.
pub fn validate_credentials(credentials: &Credentials, stored: Option<StoredCredentials>) -> (r: Result<
    UserId,
    AuthError,
>)
    ensures
        r == credentials_outcome(credentials.password@, stored),
{
    let (user_id, expected_hash) = expected_credentials(stored);
    let verification = verify_password_hash(expected_hash.as_str(), credentials.password.as_str());
    decide_credentials(user_id, verification)
}

} // verus!
