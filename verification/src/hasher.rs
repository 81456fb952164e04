use vstd::prelude::*;

verus! {

/// A hashing strategy: implement it to plug another algorithm into the worker.
///
/// Two specification functions say what the operations compute. `hashes_to` is the
/// relation between the input of `hash` and its results (a relation, since a strategy
/// may draw its salt at random); `verify_result` is the function that `verify`
/// computes, its errors included. `hash_verifies` ties the two: every hash that
/// `hash` hands out verifies against the data it was made from.
pub trait Hasher: 'static {
    /// The parameters of one hashing operation.
    type Config: Send + Sync + 'static;

    /// What the algorithm reports when it rejects its input.
    type Error: std::fmt::Debug + Send + Sync + 'static;

    /// Whether `res` is a result that hashing `data` under `config` may give.
    spec fn hashes_to(
        data: Seq<u8>,
        config: &Self::Config,
        res: Result<String, Self::Error>,
    ) -> bool;

    /// What verifying `data` against `hash` gives: whether the two match, or the
    /// error with which `hash` is rejected.
    spec fn verify_result(data: Seq<u8>, hash: Seq<char>) -> Result<bool, Self::Error>;

    /// Hashes `data` under `config` into an encoded hash string.
    fn hash(data: &[u8], config: &Self::Config) -> (res: Result<String, Self::Error>)
        ensures
            Self::hashes_to(data@, config, res),
    ;

    /// Tells whether `data` matches the encoded `hash`.
    fn verify(data: &[u8], hash: &str) -> (res: Result<bool, Self::Error>)
        ensures
            res == Self::verify_result(data@, hash@),
    ;

    /// Whatever configuration a hash was made under, verifying the same data against
    /// it succeeds and reports a match.
    proof fn hash_verifies(data: Seq<u8>, config: &Self::Config, res: Result<String, Self::Error>)
        requires
            Self::hashes_to(data, config, res),
            res is Ok,
        ensures
            Self::verify_result(data, res->Ok_0@) matches Ok(true),
    ;
}

} // verus!
