use crate::hasher::Hasher;
use crate::runtime::pool_threads;
use crate::worker::{
    DispatchLoop, PasswordWorker, PasswordWorkerError, PoolFailure, Response, WorkerCommand,
};
use vstd::prelude::*;
use vstd::utf8::{encode_utf8, is_ascii_chars, is_ascii_chars_encode_utf8};

verus! {

#[verifier::external_type_specification]
#[verifier::external_body]
pub struct ExRandomError(getrandom::Error);

/// Declared with its variants, so that a contract can say which error comes when.
#[verifier::external_type_specification]
pub struct ExBcryptError(bcrypt::BcryptError);

/// Whether `error` is one that hashing at `cost` may end in: `Rand` where the
/// operating system gave no salt, and `CostNotAllowed` with the cost where that lies
/// outside of 4 to 31.
pub open spec fn hashing_failure(cost: u32, error: bcrypt::BcryptError) -> bool {
    ||| error is Rand
    ||| !(4 <= cost <= 31) && error == bcrypt::BcryptError::CostNotAllowed(cost)
}

/// The character of a decimal digit.
pub open spec fn decimal_digit(digit: u32) -> char {
    match digit {
        0 => '0',
        1 => '1',
        2 => '2',
        3 => '3',
        4 => '4',
        5 => '5',
        6 => '6',
        7 => '7',
        8 => '8',
        _ => '9',
    }
}

/// Whether a character belongs to the alphabet in which bcrypt writes a salt and a
/// digest: `.`, `/`, the letters and the digits.
pub open spec fn in_bcrypt_alphabet(c: char) -> bool {
    c == '.' || c == '/' || 'A' <= c <= 'Z' || 'a' <= c <= 'z' || '0' <= c <= '9'
}

/// The shape of a hash that bcrypt makes at `cost`: `$2b$`, the cost in two decimal
/// digits, `$`, then 22 characters of salt and 31 of digest, 60 characters in all.
pub open spec fn has_bcrypt_shape(hash: Seq<char>, cost: u32) -> bool {
    &&& hash.len() == 60
    &&& hash[0] == '$'
    &&& hash[1] == '2'
    &&& hash[2] == 'b'
    &&& hash[3] == '$'
    &&& hash[4] == decimal_digit(cost / 10)
    &&& hash[5] == decimal_digit(cost % 10)
    &&& hash[6] == '$'
    &&& forall|i: int| 7 <= i < 60 ==> in_bcrypt_alphabet(#[trigger] hash[i])
}

/// What bcrypt asks of a hash of 60 characters before it reads cost, salt and digest
/// from it: `$` in the first, fourth and seventh place, one of the versions `2a`,
/// `2b`, `2x` and `2y` between the first two, and salt and digest in its alphabet.
pub open spec fn has_bcrypt_outline(hash: Seq<char>) -> bool {
    &&& hash[0] == '$'
    &&& hash[1] == '2'
    &&& hash[2] == 'a' || hash[2] == 'b' || hash[2] == 'x' || hash[2] == 'y'
    &&& hash[3] == '$'
    &&& hash[6] == '$'
    &&& forall|i: int| 7 <= i < 60 ==> in_bcrypt_alphabet(#[trigger] hash[i])
}

/// The error with which bcrypt turns down a hash that has not 60 characters.
pub open spec fn not_sixty_characters() -> bcrypt::BcryptError {
    bcrypt::BcryptError::InvalidHash("the hash format is malformed; expected 60 ASCII bytes")
}

/// What `bcrypt::verify` returns for a password and an encoded hash: whether the
/// password matches, or the error that it fails with.
pub uninterp spec fn bcrypt_verified(
    password: Seq<u8>,
    hash: Seq<char>,
) -> Result<bool, bcrypt::BcryptError>;

/// Calls `bcrypt::hash`, which draws a fresh salt from the operating system and
/// hashes the password with it. It fails with `Rand` where no salt can be drawn, else
/// with `CostNotAllowed` on a cost outside of 4 to 31, and on nothing else. The hash
/// it returns is written in version `2b` with the cost it was made at, and
/// `bcrypt::verify` accepts the password for it.
#[verifier::external_body]
fn bcrypt_hash(password: &[u8], cost: u32) -> (res: Result<String, bcrypt::BcryptError>)
    ensures
        res is Ok ==> 4 <= cost <= 31,
        res is Err ==> hashing_failure(cost, res->Err_0),
        res is Ok ==> has_bcrypt_shape(res->Ok_0@, cost),
        res is Ok ==> bcrypt_verified(password@, res->Ok_0@) matches Ok(true),
{
    bcrypt::hash(password, cost)
}

/// Calls `bcrypt::verify`, whose result, an error too, is a function of the password
/// and the encoded hash. A hash that has not 60 characters is turned down as an
/// `InvalidHash` before anything else is looked at, and one of 60 characters is an
/// `InvalidHash` where its `$` signs, its version or the alphabet of its salt and
/// digest are not as bcrypt writes them. The one other error is `CostNotAllowed`, for
/// the cost that the hash names.
#[verifier::external_body]
fn bcrypt_verify(password: &[u8], hash: &str) -> (res: Result<bool, bcrypt::BcryptError>)
    ensures
        res == bcrypt_verified(password@, hash@),
        hash@.len() != 60 ==> res is Err && res->Err_0 == not_sixty_characters(),
        hash@.len() == 60 && !has_bcrypt_outline(hash@) ==> res is Err && res->Err_0
            is InvalidHash,
        res is Err ==> res->Err_0 is InvalidHash || res->Err_0 is CostNotAllowed,
{
    bcrypt::verify(password, hash)
}

/// The bcrypt strategy: name it as the worker's type parameter.
#[derive(Clone, Copy, Debug)]
pub struct Bcrypt;

/// The parameters of one bcrypt hashing operation.
#[derive(Clone, Copy)]
pub struct BcryptConfig {
    /// The cost of hashing, from 4 to 31 (higher takes longer).
    pub cost: u32,
}

impl Hasher for Bcrypt {
    type Config = BcryptConfig;

    type Error = bcrypt::BcryptError;

    /// Hashing succeeds under a cost of 4 to 31 only, and each hash it gives has the
    /// shape of a hash at that cost and verifies against the data. The salt is drawn
    /// first, so under any cost hashing may fail with `Rand`, for want of a salt.
    /// Under a cost of 4 to 31 that is its one error; every other cost fails, with
    /// `Rand` or else with `CostNotAllowed`.
    open spec fn hashes_to(
        data: Seq<u8>,
        config: &BcryptConfig,
        res: Result<String, bcrypt::BcryptError>,
    ) -> bool {
        match res {
            Ok(hash) => {
                &&& 4 <= config.cost <= 31
                &&& has_bcrypt_shape(hash@, config.cost)
                &&& bcrypt_verified(data, hash@) matches Ok(true)
            },
            Err(error) => hashing_failure(config.cost, error),
        }
    }

    /// A string that has not 60 characters is turned down for that; of one that
    /// has, verifying gives what the `bcrypt` crate finds.
    open spec fn verify_result(data: Seq<u8>, hash: Seq<char>) -> Result<
        bool,
        bcrypt::BcryptError,
    > {
        if hash.len() == 60 {
            bcrypt_verified(data, hash)
        } else {
            Err(not_sixty_characters())
        }
    }

    /// Hashes `data` with bcrypt at the cost that `config` gives, under a fresh salt.
    fn hash(data: &[u8], config: &BcryptConfig) -> (res: Result<String, bcrypt::BcryptError>) {
        bcrypt_hash(data, config.cost)
    }

    /// Verifies `data` against an encoded bcrypt hash, which has 60 characters. It
    /// fails on a malformed hash, and on one that names a cost outside of 4 to 31.
    fn verify(data: &[u8], hash: &str) -> (res: Result<bool, bcrypt::BcryptError>)
        ensures
            hash@.len() == 60 && !has_bcrypt_outline(hash@) ==> res is Err && res->Err_0
                is InvalidHash,
            res is Err ==> res->Err_0 is InvalidHash || res->Err_0 is CostNotAllowed,
    {
        bcrypt_verify(data, hash)
    }

    proof fn hash_verifies(
        data: Seq<u8>,
        config: &BcryptConfig,
        res: Result<String, bcrypt::BcryptError>,
    ) {
    }
}

/// Whether a byte string begins as a bcrypt hash of version `2b` does and has its
/// length: 60 bytes, of which the first four are `$2b$` and the seventh is `$`.
pub open spec fn bytes_look_like_a_hash(data: Seq<u8>) -> bool {
    &&& data.len() == 60
    &&& data[0] == 0x24
    &&& data[1] == 0x32
    &&& data[2] == 0x62
    &&& data[3] == 0x24
    &&& data[6] == 0x24
}

/// A string with the shape of a bcrypt hash is made of ASCII characters.
pub proof fn lemma_bcrypt_shape_is_ascii(hash: Seq<char>, cost: u32)
    requires
        has_bcrypt_shape(hash, cost),
    ensures
        is_ascii_chars(hash),
{
    assert forall|i: int| 0 <= i < hash.len() implies '\0' <= #[trigger] hash[i] <= '\u{7f}' by {
        if i >= 7 {
            assert(in_bcrypt_alphabet(hash[i]));
        }
    }
}

/// A bcrypt hash is not the data that it was made from, whatever the cost: shown for
/// all data but the 60-byte strings that themselves begin as a hash does.
pub proof fn lemma_bcrypt_hash_is_not_the_data(
    data: Seq<u8>,
    config: &BcryptConfig,
    res: Result<String, bcrypt::BcryptError>,
)
    requires
        Bcrypt::hashes_to(data, config, res),
        res is Ok,
        !bytes_look_like_a_hash(data),
    ensures
        encode_utf8(res->Ok_0@) != data,
{
    let hash = res->Ok_0@;
    lemma_bcrypt_shape_is_ascii(hash, config.cost);
    is_ascii_chars_encode_utf8(hash);
    let bytes = encode_utf8(hash);
    assert(bytes[0] == hash[0] as u8);
    assert(bytes[1] == hash[1] as u8);
    assert(bytes[2] == hash[2] as u8);
    assert(bytes[3] == hash[3] as u8);
    assert(bytes[6] == hash[6] as u8);
    assert(bytes_look_like_a_hash(bytes));
}

/// The hash that a bcrypt worker replies with is not the password it was asked to
/// hash: shown for every password but those that themselves have the shape of a hash
/// at the cost asked for.
pub proof fn lemma_bcrypt_reply_is_not_the_password(
    command: WorkerCommand<Bcrypt>,
    response: Response<Bcrypt>,
)
    requires
        response.answers(command),
        command is Hash,
        response matches Response::Hashed(_, Ok(_)),
        !has_bcrypt_shape(command->Hash_0@, command->Hash_1.cost),
    ensures
        response matches Response::Hashed(_, Ok(hash)) && hash@ != command->Hash_0@,
{
}

impl PasswordWorker<Bcrypt> {
    /// Sets up a worker that hashes with bcrypt: `PasswordWorker::new` for it.
    pub fn new_bcrypt(max_threads: usize) -> (res: Result<
        (PasswordWorker<Bcrypt>, DispatchLoop<Bcrypt>),
        PasswordWorkerError<Bcrypt>,
    >)
        ensures
            max_threads == 0 ==> res matches Err(
                PasswordWorkerError::ThreadPool(PoolFailure::NoThreads),
            ),
            max_threads > 0 ==> res is Ok || res matches Err(
                PasswordWorkerError::ThreadPool(PoolFailure::Build(_)),
            ),
            res matches Ok(made) ==> 1 <= pool_threads(made.1.pool()) <= max_threads,
            res matches Ok(made) ==> max_threads <= 255 ==> pool_threads(made.1.pool())
                == max_threads,
    {
        PasswordWorker::<Bcrypt>::new(max_threads)
    }
}

} // verus!
