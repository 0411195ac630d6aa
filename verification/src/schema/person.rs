//! People: registration with a hashed password, login, and the Pix code a
//! driver is paid through.

use vstd::prelude::*;
use crate::crypto::{argon2_check, argon2_hash_text, hash_password, verify_password};
use crate::errors::AppError;
use crate::ids::uuid_version;
use crate::money::Cost;
use crate::pix::{amount_text, generate_emv_pix, pix_code};
use crate::schema::session::Session;

verus! {

/// A registered person.
#[derive(Debug)]
pub struct Person {
    pub email: String,
    pub real_name: String,
    /// The Pix key the person is paid through, if the person gave one.
    pub pix_key: Option<String>,
    password: String,
}

/// What a person is, in specifications.
pub struct PersonView {
    pub email: Seq<char>,
    pub real_name: Seq<char>,
    pub pix_key: Option<Seq<char>>,
    /// The encoded hash of the password.
    pub password_hash: Seq<char>,
}

impl View for Person {
    type V = PersonView;

    closed spec fn view(&self) -> PersonView {
        PersonView {
            email: self.email@,
            real_name: self.real_name@,
            pix_key: match self.pix_key {
                Some(k) => Some(k@),
                None => None,
            },
            password_hash: self.password@,
        }
    }
}

/// The city written into Pix codes.
pub open spec fn pix_city() -> Seq<char> {
    "São Carlos"@
}

impl Person {
    /// Whether `password` is the person's password, as the stored hash says.
    pub open spec fn accepts(&self, password: Seq<char>) -> bool {
        argon2_check(self@.password_hash, password) == Some(true)
    }

    /// A person as stored, with the encoded hash of the password.
    pub fn from_record(email: String, real_name: String, pix_key: Option<String>, password_hash: String) -> (p: Person)
        ensures
            p@.email == email@,
            p@.real_name == real_name@,
            p@.pix_key == (match pix_key {
                Some(k) => Some(k@),
                None => None::<Seq<char>>,
            }),
            p@.password_hash == password_hash@,
    {
        Person { email, real_name, pix_key, password: password_hash }
    }

    /// The person's email.
    pub fn email(&self) -> (r: &String)
        ensures
            r@ == self@.email,
    {
        &self.email
    }

    /// The person's full name.
    pub fn real_name(&self) -> (r: &String)
        ensures
            r@ == self@.real_name,
    {
        &self.real_name
    }

    /// The encoded hash of the person's password, as it is stored.
    pub fn password_hash_text(&self) -> (r: &str)
        ensures
            r@ == self@.password_hash,
    {
        self.password.as_str()
    }

    /// A new person with `email`, `real_name` and no Pix key, whose password
    /// is kept as its Argon2 hash with a fresh salt. The password then logs
    /// the person in. Hashing fails only for passwords that are too long.
    pub fn register(email: &str, password: &str, real_name: &str) -> (r: Result<Person, AppError>)
        ensures
            password@.len() < 0x4000_0000 ==> r is Ok,
            r matches Err(e) ==> e is Hashing,
            r matches Ok(p) ==> {
                &&& p@.email == email@
                &&& p@.real_name == real_name@
                &&& p@.pix_key is None
                &&& p.accepts(password@)
                &&& exists|salt: Seq<u8>|
                    salt.len() == 32 && p@.password_hash == #[trigger] argon2_hash_text(password@, salt)
            },
    {
        match hash_password(password) {
            Ok(hash) => Ok(
                Person {
                    email: String::from_str(email),
                    password: hash,
                    real_name: String::from_str(real_name),
                    pix_key: None,
                },
            ),
            Err(_) => Err(AppError::Hashing),
        }
    }

    /// Logs in with `email` and `password`, given the person stored under
    /// `email` (`None` where there is none). Unknown people and wrong
    /// passwords are refused alike; a hash that cannot be checked is an error
    /// of its own. Success opens a new session for `email`.
    pub fn login(stored: Option<&Person>, email: &str, password: &str) -> (r: Result<Session, AppError>)
        ensures
            r is Ok <==> (stored matches Some(p) && p.accepts(password@)),
            r matches Ok(s) ==> s.creator@ == email@ && uuid_version(s.id) == 4,
            stored is None ==> r == Err::<Session, AppError>(AppError::InvalidCredentials),
            stored matches Some(p) ==> (argon2_check(p@.password_hash, password@) == Some(false)
                ==> r == Err::<Session, AppError>(AppError::InvalidCredentials)),
            stored matches Some(p) ==> (argon2_check(p@.password_hash, password@) is None
                ==> r == Err::<Session, AppError>(AppError::Hashing)),
    {
        match stored {
            None => Err(AppError::InvalidCredentials),
            Some(person) => match verify_password(password, person.password.as_str()) {
                Ok(true) => Ok(Session::create(email)),
                Ok(false) => Err(AppError::InvalidCredentials),
                Err(_) => Err(AppError::Hashing),
            },
        }
    }

    /// The Pix code that pays this person `amount` (any amount where none is
    /// given), received in São Carlos; none for a person without a Pix key.
    pub fn get_pix_qr(&self, amount: Option<Cost>) -> (r: Option<String>)
        ensures
            r is Some <==> self@.pix_key is Some,
            r matches Some(code) ==> code@ == pix_code(
                self@.pix_key->Some_0,
                self@.real_name,
                pix_city(),
                amount_text(amount),
            ),
            r matches Some(code) ==> code@ == pix_code(
                self@.pix_key->Some_0,
                self@.real_name,
                "São Carlos"@,
                match amount {
                    Some(given) => Some(given.display()),
                    None => None::<Seq<char>>,
                },
            ),
    {
        match &self.pix_key {
            Some(key) => Some(generate_emv_pix(key.as_str(), self.real_name.as_str(), "São Carlos", amount)),
            None => None,
        }
    }
}

} // verus!
