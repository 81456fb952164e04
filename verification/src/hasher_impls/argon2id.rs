use crate::hasher::Hasher;
use crate::hasher_impls::encoded::{
    bytes_begin_with_dollar, dollar_count, has_hash_outline, is_written_as_hash,
    lemma_cut_hash_has_no_outline, lemma_dollar_comes_first,
};
use crate::runtime::pool_threads;
use crate::worker::{
    DispatchLoop, PasswordWorker, PasswordWorkerError, PoolFailure, Response, WorkerCommand,
};
use vstd::prelude::*;
use vstd::utf8::encode_utf8;

verus! {

/// The types of the `argon2` crate that the hashing below fills in and reads are
/// declared with their fields and variants, as the crate defines them.
#[verifier::external_type_specification]
pub struct ExArgon2Error(argon2::Error);

#[verifier::external_type_specification]
pub struct ExArgon2Variant(argon2::Variant);

#[verifier::external_type_specification]
pub struct ExArgon2Version(argon2::Version);

#[verifier::external_type_specification]
pub struct ExArgon2ThreadMode(argon2::ThreadMode);

#[verifier::external_type_specification]
pub struct ExArgon2Config<'a>(argon2::Config<'a>);

/// The number that stands for a variant in the hash computation.
pub open spec fn variant_number(variant: argon2::Variant) -> u32 {
    match variant {
        argon2::Variant::Argon2d => 0,
        argon2::Variant::Argon2i => 1,
        argon2::Variant::Argon2id => 2,
    }
}

/// The number that stands for a version in the hash computation and in the encoded hash.
pub open spec fn version_number(version: argon2::Version) -> u32 {
    match version {
        argon2::Version::Version10 => 0x10,
        argon2::Version::Version13 => 0x13,
    }
}

/// The first complaint of the `argon2` crate about the sizes and costs of one hashing
/// operation, or `None` where it takes them. The checks stand in the order in which
/// the crate makes them; the upper limit on memory exists on 32-bit machines only.
pub open spec fn argon2_rejection(
    pwd_len: nat,
    salt_len: nat,
    secret_len: nat,
    ad_len: nat,
    time_cost: u32,
    mem_cost: u32,
    lanes: u32,
    hash_length: u32,
) -> Option<argon2::Error> {
    if lanes < 1 {
        Some(argon2::Error::LanesTooFew)
    } else if lanes > 0x00FF_FFFF {
        Some(argon2::Error::LanesTooMany)
    } else if mem_cost < 8 {
        Some(argon2::Error::MemoryTooLittle)
    } else if usize::MAX == 0xFFFF_FFFF && mem_cost > 0x20_0000 {
        Some(argon2::Error::MemoryTooMuch)
    } else if mem_cost < 8 * lanes {
        Some(argon2::Error::MemoryTooLittle)
    } else if time_cost < 1 {
        Some(argon2::Error::TimeTooSmall)
    } else if pwd_len > 0xFFFF_FFFF {
        Some(argon2::Error::PwdTooLong)
    } else if salt_len < 8 {
        Some(argon2::Error::SaltTooShort)
    } else if salt_len > 0xFFFF_FFFF {
        Some(argon2::Error::SaltTooLong)
    } else if secret_len > 0xFFFF_FFFF {
        Some(argon2::Error::SecretTooLong)
    } else if ad_len > 0xFFFF_FFFF {
        Some(argon2::Error::AdTooLong)
    } else if hash_length < 4 {
        Some(argon2::Error::OutputTooShort)
    } else {
        None
    }
}

/// The encoded hash that `argon2::hash_encoded` computes from a password, a salt and
/// the fields of a configuration that it takes.
pub uninterp spec fn argon2_encoded(
    pwd: Seq<u8>,
    salt: Seq<u8>,
    secret: Seq<u8>,
    ad: Seq<u8>,
    variant: u32,
    version: u32,
    time_cost: u32,
    mem_cost: u32,
    lanes: u32,
    hash_length: u32,
) -> Seq<char>;

/// What `argon2::verify_encoded` returns for an encoded hash and a password: whether
/// the password matches, or the error that it fails with.
pub uninterp spec fn argon2_verified(
    encoded: Seq<char>,
    pwd: Seq<u8>,
) -> Result<bool, argon2::Error>;

/// `Config::default()` of the `argon2` crate: a keyless, single-lane, sequential
/// Argon2id, version 0x13, with two passes over 19 MiB and a 32-byte hash, as the
/// crate documents it.
pub assume_specification<'a>[ <argon2::Config<'a> as Default>::default ](
) -> (config: argon2::Config<'a>)
    ensures
        config.ad@ == Seq::<u8>::empty(),
        config.secret@ == Seq::<u8>::empty(),
        config.hash_length == 32,
        config.lanes == 1,
        config.mem_cost == 19456,
        config.time_cost == 2,
        config.thread_mode == argon2::ThreadMode::Sequential,
        config.variant == argon2::Variant::Argon2id,
        config.version == argon2::Version::Version13,
;

/// `argon2::hash_encoded`: it fails with the crate's first complaint about the sizes
/// and costs, and otherwise returns the encoded hash, a function of the password, the
/// salt and the configuration. The encoded hash is written in six parts, each after a
/// `$` and none with a `$` in it: an empty one, the variant, the version, the three
/// options between two commas, the salt and the digest, and no comma but those two.
/// Where no key and no associated data were used, `argon2::verify_encoded` accepts
/// the password for it. Memory for `mem_cost` KiB is allocated on the way.
pub assume_specification[ argon2::hash_encoded ](
    pwd: &[u8],
    salt: &[u8],
    config: &argon2::Config,
) -> (res: Result<String, argon2::Error>)
    ensures
        match argon2_rejection(
            pwd@.len(),
            salt@.len(),
            config.secret@.len(),
            config.ad@.len(),
            config.time_cost,
            config.mem_cost,
            config.lanes,
            config.hash_length,
        ) {
            Some(error) => res is Err && res->Err_0 == error,
            None => res is Ok && res->Ok_0@ == argon2_encoded(
                pwd@,
                salt@,
                config.secret@,
                config.ad@,
                variant_number(config.variant),
                version_number(config.version),
                config.time_cost,
                config.mem_cost,
                config.lanes,
                config.hash_length,
            ),
        },
        res is Ok ==> is_written_as_hash(res->Ok_0@),
        res is Ok && config.secret@.len() == 0 && config.ad@.len() == 0 ==> argon2_verified(
            res->Ok_0@,
            pwd@,
        ) matches Ok(true),
;

/// `argon2::verify_encoded`: its result, an error too, is a function of the encoded
/// hash and the password. It splits the string at its `$` signs, and the string fails
/// to decode unless that gives five or six parts, the first of them empty, and the
/// last but two of them, where the options stand, splits in three at its commas.
pub assume_specification[ argon2::verify_encoded ](
    encoded: &str,
    pwd: &[u8],
) -> (res: Result<bool, argon2::Error>)
    ensures
        res == argon2_verified(encoded@, pwd@),
        !has_hash_outline(encoded@) ==> res is Err && res->Err_0
            == argon2::Error::DecodingFail,
;

/// The Argon2id strategy: name it as the worker's type parameter.
#[derive(Clone, Copy, Debug)]
pub struct Argon2id;

/// The parameters of one Argon2id hashing operation.
#[derive(Clone)]
pub struct Argon2idConfig {
    /// The salt for the password hash (at least 8 bytes).
    pub salt: Vec<u8>,
    /// The number of passes (higher takes longer).
    pub time_cost: u32,
    /// The memory used, in KiB (higher takes longer).
    pub mem_cost: u32,
    /// The number of lanes that the memory is split into.
    pub lanes: u32,
    /// The length of the raw hash, in bytes.
    pub hash_length: u32,
}

impl Default for Argon2idConfig {
    /// An empty salt, three passes, 4 MiB of memory in one lane and a 32-byte hash.
    fn default() -> (config: Self)
        ensures
            config.salt@ == Seq::<u8>::empty(),
            config.time_cost == 3,
            config.mem_cost == 4096,
            config.lanes == 1,
            config.hash_length == 32,
    {
        Argon2idConfig {
            salt: Vec::new(),
            time_cost: 3,
            mem_cost: 4096,
            lanes: 1,
            hash_length: 32,
        }
    }
}

impl Argon2idConfig {
    /// The complaint that hashing `data` under this configuration meets, if any:
    /// that of a keyless operation with this salt, these costs and these lanes.
    pub open spec fn rejection(&self, data: Seq<u8>) -> Option<argon2::Error> {
        argon2_rejection(
            data.len(),
            self.salt@.len(),
            0,
            0,
            self.time_cost,
            self.mem_cost,
            self.lanes,
            self.hash_length,
        )
    }

    /// The encoded hash of `data` under this configuration: keyless Argon2id, version
    /// 0x13.
    pub open spec fn encoded(&self, data: Seq<u8>) -> Seq<char> {
        argon2_encoded(
            data,
            self.salt@,
            Seq::<u8>::empty(),
            Seq::<u8>::empty(),
            2,
            0x13,
            self.time_cost,
            self.mem_cost,
            self.lanes,
            self.hash_length,
        )
    }
}

impl Hasher for Argon2id {
    type Config = Argon2idConfig;

    type Error = argon2::Error;

    /// Hashing fails with the first complaint about the sizes and costs, and
    /// otherwise gives the one encoded hash of the data under the configuration.
    open spec fn hashes_to(
        data: Seq<u8>,
        config: &Argon2idConfig,
        res: Result<String, argon2::Error>,
    ) -> bool {
        &&& match config.rejection(data) {
            Some(error) => res is Err && res->Err_0 == error,
            None => res is Ok && res->Ok_0@ == config.encoded(data),
        }
        &&& res is Ok ==> {
            &&& is_written_as_hash(res->Ok_0@)
            &&& argon2_verified(res->Ok_0@, data) matches Ok(true)
        }
    }

    /// A string without the outline of an encoded hash fails to decode; of one with
    /// the outline, verifying gives what the `argon2` crate finds.
    open spec fn verify_result(data: Seq<u8>, hash: Seq<char>) -> Result<bool, argon2::Error> {
        if has_hash_outline(hash) {
            argon2_verified(hash, data)
        } else {
            Err(argon2::Error::DecodingFail)
        }
    }

    /// Hashes `data` with Argon2id, version 0x13, under `config`.
    fn hash(data: &[u8], config: &Argon2idConfig) -> (res: Result<String, argon2::Error>) {
        let mut argon_config = argon2::Config::default();

        argon_config.variant = argon2::Variant::Argon2id;
        argon_config.version = argon2::Version::Version13;

        argon_config.time_cost = config.time_cost;
        argon_config.mem_cost = config.mem_cost;
        argon_config.lanes = config.lanes;
        argon_config.hash_length = config.hash_length;

        argon2::hash_encoded(data, config.salt.as_slice(), &argon_config)
    }

    /// Verifies `data` against an encoded Argon2 hash of any variant.
    fn verify(data: &[u8], hash: &str) -> (res: Result<bool, argon2::Error>) {
        argon2::verify_encoded(hash, data)
    }

    proof fn hash_verifies(
        data: Seq<u8>,
        config: &Argon2idConfig,
        res: Result<String, argon2::Error>,
    ) {
    }
}

/// A hash that was cut off before its digest is refused, whatever the password: it
/// fails to decode.
pub proof fn lemma_cut_argon2id_hash_is_refused(
    data: Seq<u8>,
    config: &Argon2idConfig,
    res: Result<String, argon2::Error>,
    cut: Seq<char>,
    password: Seq<u8>,
)
    requires
        Argon2id::hashes_to(data, config, res),
        res is Ok,
        cut.is_prefix_of(res->Ok_0@),
        dollar_count(cut) < 5,
    ensures
        Argon2id::verify_result(password, cut) matches Err(error) && error
            == argon2::Error::DecodingFail,
{
    lemma_cut_hash_has_no_outline(cut, res->Ok_0@);
}

/// An Argon2id hash is not the data that it was made from, whatever the
/// configuration: shown for all data that does not itself begin with `$`.
pub proof fn lemma_argon2id_hash_is_not_the_data(
    data: Seq<u8>,
    config: &Argon2idConfig,
    res: Result<String, argon2::Error>,
)
    requires
        Argon2id::hashes_to(data, config, res),
        res is Ok,
        !bytes_begin_with_dollar(data),
    ensures
        encode_utf8(res->Ok_0@) != data,
{
    lemma_dollar_comes_first(res->Ok_0@);
}

/// The hash that an Argon2id worker replies with is not the password it was asked to
/// hash: shown for every password but those that are themselves written in the
/// outline of an encoded hash.
pub proof fn lemma_argon2id_reply_is_not_the_password(
    command: WorkerCommand<Argon2id>,
    response: Response<Argon2id>,
)
    requires
        response.answers(command),
        command is Hash,
        response matches Response::Hashed(_, Ok(_)),
        !is_written_as_hash(command->Hash_0@),
    ensures
        response matches Response::Hashed(_, Ok(hash)) && hash@ != command->Hash_0@,
{
}

impl PasswordWorker<Argon2id> {
    /// Sets up a worker that hashes with Argon2id: `PasswordWorker::new` for it.
    pub fn new_argon2id(max_threads: usize) -> (res: Result<
        (PasswordWorker<Argon2id>, DispatchLoop<Argon2id>),
        PasswordWorkerError<Argon2id>,
    >)
        ensures
            max_threads == 0 ==> res matches Err(
                PasswordWorkerError::ThreadPool(PoolFailure::NoThreads),
            ),
            max_threads > 0 ==> res is Ok || res matches Err(
                PasswordWorkerError::ThreadPool(PoolFailure::Build(_)),
            ),
            res matches Ok(made) ==> 1 <= pool_threads(made.1.pool()) <= max_threads,
            res matches Ok(made) ==> max_threads <= 255 ==> pool_threads(made.1.pool())
                == max_threads,
    {
        PasswordWorker::<Argon2id>::new(max_threads)
    }
}

} // verus!
