//! Password hashing with Argon2id at the OWASP profile for interactive logins: 19 MiB of
//! memory, 2 iterations, one lane.
//!
//! The optional pepper is a server-side secret appended to every password before hashing, so a
//! stolen table is useless without the deployment's configuration. Changing it invalidates
//! every stored password.

use vstd::prelude::*;
use vstd::utf8::encode_utf8;
use argon2::{Algorithm, Argon2, Params, PasswordHasher as _, PasswordVerifier, Version};
use argon2::password_hash::{PasswordHash, SaltString, rand_core::OsRng};
use secrecy::zeroize::Zeroize;
use crate::text::{concat, has_prefix, owned};

verus! {

/// Memory cost, in KiB.
pub const MEMORY_COST_KIB: u32 = 19456;
/// Passes over memory.
pub const TIME_COST: u32 = 2;
/// Lanes.
pub const PARALLELISM: u32 = 1;
/// The algorithm identifier a current hash carries.
pub const ALGORITHM_ID: &'static str = "argon2id";
/// What a hashing failure's message starts with; the outside error's text follows it.
pub const HASH_FAILURE: &'static str = "failed to hash password: ";
/// A fixed secret hashed once at startup. Verifying against it costs the same as a real
/// verification, which keeps sign-in timing independent of whether an account exists.
pub const CANARY_PASSWORD: &'static str = "submitsnap-timing-canary";

#[verifier::external_type_specification]
#[verifier::external_body]
pub struct ExArgon2<'k>(Argon2<'k>);

#[verifier::external_type_specification]
#[verifier::external_body]
pub struct ExArgon2Params(Params);

#[verifier::external_type_specification]
#[verifier::external_body]
pub struct ExSaltString(SaltString);

/// Whether Argon2 accepts these costs: at least 8 KiB and 8 KiB per lane, at least one pass,
/// and between one and `0xFFFFFF` lanes.
pub open spec fn costs_accepted(m_cost: u32, t_cost: u32, p_cost: u32) -> bool {
    &&& m_cost >= 8
    &&& m_cost >= p_cost * 8
    &&& t_cost >= 1
    &&& 1 <= p_cost <= 0xFFFFFF
}

/// `argon2::Params::new` with the default output length. Its source accepts exactly the costs
/// that [`costs_accepted`] describes.
#[verifier::external_body]
fn argon2_params(m_cost: u32, t_cost: u32, p_cost: u32) -> (r: Option<Params>)
    requires
        p_cost as int * 8 <= u32::MAX,
    ensures
        r is Some <==> costs_accepted(m_cost, t_cost, p_cost),
{
    Params::new(m_cost, t_cost, p_cost, None).ok()
}

/// `Zeroize::zeroize` for a byte buffer (from `zeroize`, as `secrecy` re-exports it): overwrites
/// every byte with zero, spare capacity included, then clears the buffer.
#[verifier::external_body]
fn wipe(buffer: &mut Vec<u8>)
    ensures
        final(buffer)@.len() == 0,
{
    buffer.zeroize();
}

/// `argon2::Argon2::new` for Argon2id, version 0x13, and no secret key.
#[verifier::external_body]
fn argon2id(params: Params) -> (a: Argon2<'static>) {
    Argon2::new(Algorithm::Argon2id, Version::V0x13, params)
}

/// `SaltString::generate` over the operating system's random source. Nothing is promised of
/// the salt beyond its type: it is random.
#[verifier::external_body]
fn fresh_salt() -> (s: SaltString) {
    SaltString::generate(&mut OsRng)
}

/// Whether the PHC string `phc` is a hash that Argon2 accepts for `material`: it parses, and
/// recomputing it from `material` with its own algorithm, version, parameters, and salt gives
/// its output. The Argon2 instances of this library carry no secret key, so nothing else enters.
pub uninterp spec fn argon2_accepts(material: Seq<u8>, phc: Seq<char>) -> bool;

/// The algorithm identifier and the parameter string of a PHC string, when it parses as one.
pub uninterp spec fn phc_parts(phc: Seq<char>) -> Option<(Seq<char>, Seq<char>)>;

/// `PasswordHasher::hash_password` followed by the PHC encoding of its result. The hash it
/// returns is one that [`argon2_accepts`] for the same material: verifying a fresh hash with
/// the password it was made from succeeds. What the hash looks like depends on the salt.
#[verifier::external_body]
fn argon2_hash(argon2: &Argon2<'static>, material: &[u8], salt: &SaltString) -> (r: Result<
    String,
    String,
>)
    ensures
        r matches Ok(phc) ==> argon2_accepts(material@, phc@),
{
    match argon2.hash_password(material, salt) {
        Ok(hash) => Ok(hash.to_string()),
        Err(error) => Err(error.to_string()),
    }
}

/// `PasswordVerifier::verify_password` on a PHC string, which is parsed to be handed over; a
/// string that does not parse is not accepted.
#[verifier::external_body]
fn argon2_verify(argon2: &Argon2<'static>, material: &[u8], phc: &str) -> (b: bool)
    ensures
        b == argon2_accepts(material@, phc@),
{
    match PasswordHash::new(phc) {
        Ok(parsed) => argon2.verify_password(material, &parsed).is_ok(),
        Err(_) => false,
    }
}

/// `PasswordHash::new`, giving the algorithm identifier and the parameter string.
#[verifier::external_body]
fn phc_fields(phc: &str) -> (r: Option<(String, String)>)
    ensures
        match r {
            Some((algorithm, params)) => phc_parts(phc@) == Some((algorithm@, params@)),
            None => phc_parts(phc@) is None,
        },
{
    match PasswordHash::new(phc) {
        Ok(parsed) => Some((parsed.algorithm.as_str().to_owned(), parsed.params.as_str().to_owned())),
        Err(_) => None,
    }
}

/// `std::hint::black_box`, which keeps a computed value from being optimised away.
#[verifier::external_body]
fn keep(verdict: bool) {
    std::hint::black_box(verdict);
}

/// What is hashed for a password: its UTF-8 bytes, followed by the pepper's when there is one.
pub open spec fn material_of(password: Seq<char>, pepper: Option<Seq<char>>) -> Seq<u8> {
    encode_utf8(password) + match pepper {
        Some(p) => encode_utf8(p),
        None => Seq::<u8>::empty(),
    }
}

fn append_bytes(v: &mut Vec<u8>, bytes: &[u8])
    ensures
        final(v)@ == old(v)@ + bytes@,
{
    let mut i: usize = 0;
    while i < bytes.len()
        invariant
            i <= bytes@.len(),
            v@ == old(v)@ + bytes@.take(i as int),
        decreases bytes@.len() - i,
    {
        v.push(bytes[i]);
        i = i + 1;
        assert(v@ =~= old(v)@ + bytes@.take(i as int));
    }
    assert(bytes@.take(bytes@.len() as int) =~= bytes@);
}

/// Argon2id hashing with an optional pepper.
pub struct PasswordHasher {
    argon2: Argon2<'static>,
    pepper: Option<String>,
    canary_hash: String,
    params_encoding: String,
}

impl PasswordHasher {
    /// The pepper, as characters.
    pub closed spec fn pepper(&self) -> Option<Seq<char>> {
        match self.pepper {
            Some(p) => Some(p@),
            None => None,
        }
    }

    /// The parameter string a current hash carries.
    pub closed spec fn params_encoding(&self) -> Seq<char> {
        self.params_encoding@
    }

    /// The hash of the canary password that unknown accounts are verified against.
    pub closed spec fn canary_hash(&self) -> Seq<char> {
        self.canary_hash@
    }

    /// A hasher with the given pepper. The parameter string that marks a hash as current is
    /// read from the hash of the canary, so a change of costs cannot leave [`Self::needs_rehash`]
    /// comparing against a stale literal.
    pub fn new(pepper: Option<String>) -> (r: Result<Self, String>)
        ensures
            r matches Ok(h) ==> h.pepper() == match pepper {
                Some(p) => Some(p@),
                None => None,
            },
            r matches Ok(h) ==> argon2_accepts(
                material_of(CANARY_PASSWORD@, h.pepper()),
                h.canary_hash(),
            ),
            r matches Ok(h) ==> h.params_encoding() == match phc_parts(h.canary_hash()) {
                Some((_, params)) => params,
                None => Seq::<char>::empty(),
            },
            r matches Err(m) ==> has_prefix(m@, HASH_FAILURE@),
    {
        assert(costs_accepted(MEMORY_COST_KIB, TIME_COST, PARALLELISM));
        let params = match argon2_params(MEMORY_COST_KIB, TIME_COST, PARALLELISM) {
            Some(params) => params,
            None => {
                return Err(owned("invalid Argon2 parameters"));
            },
        };
        let mut hasher = PasswordHasher {
            argon2: argon2id(params),
            pepper,
            canary_hash: String::new(),
            params_encoding: String::new(),
        };
        let canary = match hasher.hash(CANARY_PASSWORD) {
            Ok(canary) => canary,
            Err(error) => {
                return Err(error);
            },
        };
        hasher.params_encoding = match phc_fields(canary.as_str()) {
            Some((_, params)) => params,
            None => String::new(),
        };
        hasher.canary_hash = canary;
        Ok(hasher)
    }

    /// What is hashed for `password`. Callers wipe it once Argon2 has read it.
    fn material(&self, password: &str) -> (m: Vec<u8>)
        ensures
            m@ == material_of(password@, self.pepper()),
    {
        let mut m: Vec<u8> = Vec::new();
        append_bytes(&mut m, password.as_bytes());
        match &self.pepper {
            Some(p) => append_bytes(&mut m, p.as_str().as_bytes()),
            None => {},
        }
        assert(m@ =~= material_of(password@, self.pepper()));
        m
    }

    /// Hashes a password with a fresh random salt. A hash it returns verifies with the same
    /// password and pepper.
    pub fn hash(&self, password: &str) -> (r: Result<String, String>)
        ensures
            r matches Ok(h) ==> argon2_accepts(material_of(password@, self.pepper()), h@),
            r matches Err(m) ==> has_prefix(m@, HASH_FAILURE@),
    {
        let salt = fresh_salt();
        let mut material = self.material(password);
        let hashed = argon2_hash(&self.argon2, material.as_slice(), &salt);
        wipe(&mut material);
        match hashed {
            Ok(phc) => Ok(phc),
            Err(error) => {
                let message = concat(HASH_FAILURE, error.as_str());
                assert((HASH_FAILURE@ + error@).take(HASH_FAILURE@.len() as int) =~= HASH_FAILURE@);
                Err(message)
            },
        }
    }

    /// Whether `password` (with the pepper) matches a stored hash. A stored value that is not a
    /// PHC string never matches.
    pub fn verify(&self, password: &str, password_hash: &str) -> (b: bool)
        ensures
            b == (phc_parts(password_hash@) is Some && argon2_accepts(
                material_of(password@, self.pepper()),
                password_hash@,
            )),
    {
        if phc_fields(password_hash).is_none() {
            return false;
        }
        let mut material = self.material(password);
        let matches = argon2_verify(&self.argon2, material.as_slice(), password_hash);
        wipe(&mut material);
        matches
    }

    /// Burns the same time as [`Self::verify`] for callers that found no account.
    pub fn verify_canary(&self, password: &str) {
        let verdict = self.verify(password, self.canary_hash.as_str());
        keep(verdict);
    }

    /// Whether a stored hash should be replaced at the next successful sign-in: it does not
    /// parse, or it was made by another algorithm or with other costs.
    pub fn needs_rehash(&self, password_hash: &str) -> (b: bool)
        ensures
            b == match phc_parts(password_hash@) {
                None => true,
                Some((algorithm, params)) => algorithm != ALGORITHM_ID@ || params
                    != self.params_encoding(),
            },
    {
        match phc_fields(password_hash) {
            Some((algorithm, params)) => {
                let current = owned(ALGORITHM_ID);
                !algorithm.eq(&current) || !params.eq(&self.params_encoding)
            },
            None => true,
        }
    }
}

} // verus!
