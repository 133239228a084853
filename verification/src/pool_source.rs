//! Where the pool that a run is held to comes from.
use crate::json::{array_at, array_length, json_read, read_object};
use crate::overlay::view::{want, wanted, PoolExpectation};
use crate::text::{numeral_read, read_count, trimmed, NumeralFault};
use crate::usage_texts::{
    contract_unparsable, contract_unreadable, contract_without_pool, min_pairs_invalid,
    min_pairs_zero, pool_empty, pool_size_invalid, pool_size_unknown, say_contract_unparsable,
    say_contract_unreadable, say_contract_without_pool, say_min_pairs_invalid,
    say_min_pairs_zero, say_pool_empty, say_pool_size_invalid, say_pool_size_unknown,
};
use vstd::prelude::*;

verus! {

/// What a contract says about the pool.
#[derive(Debug)]
pub enum ContractPool {
    /// No contract is named.
    NotNamed,
    Unreadable { path: String, cause: String },
    Unparsable { cause: String },
    /// The contract holds no pool.
    NoPool,
    Pool { size: usize },
}

/// A [`ContractPool`] by its texts.
pub enum ContractPoolView {
    NotNamed,
    Unreadable { path: Seq<char>, cause: Seq<char> },
    Unparsable { cause: Seq<char> },
    NoPool,
    Pool { size: nat },
}

impl View for ContractPool {
    type V = ContractPoolView;

    open spec fn view(&self) -> ContractPoolView {
        match *self {
            ContractPool::NotNamed => ContractPoolView::NotNamed,
            ContractPool::Unreadable { path, cause } => ContractPoolView::Unreadable {
                path: path@,
                cause: cause@,
            },
            ContractPool::Unparsable { cause } => ContractPoolView::Unparsable { cause: cause@ },
            ContractPool::NoPool => ContractPoolView::NoPool,
            ContractPool::Pool { size } => ContractPoolView::Pool { size: size as nat },
        }
    }
}

/// A contract that was looked for.
#[derive(Debug)]
pub struct ContractFile {
    pub path: String,
    pub bytes: Result<Vec<u8>, String>,
}

/// The key of the pool in a contract.
pub const POOL_KEY: &'static str = "timed_prompt_pool";

/// The text of a numeral fault.
pub open spec fn fault_text(fault: NumeralFault) -> Seq<char> {
    match fault {
        NumeralFault::Empty => "cannot parse integer from empty string"@,
        NumeralFault::InvalidDigit => "invalid digit found in string"@,
        NumeralFault::TooLarge => "number too large to fit in target type"@,
    }
}

fn fault_words(fault: NumeralFault) -> (r: &'static str)
    ensures
        r@ == fault_text(fault),
{
    match fault {
        NumeralFault::Empty => "cannot parse integer from empty string",
        NumeralFault::InvalidDigit => "invalid digit found in string",
        NumeralFault::TooLarge => "number too large to fit in target type",
    }
}

/// The size of the pool: the setting where it says something, the contract otherwise.
pub open spec fn pool_size_of(setting: Option<&str>, pool: ContractPoolView) -> Result<
    nat,
    Seq<char>,
> {
    match wanted(setting) {
        Some(text) => match numeral_read(text, usize::MAX as nat) {
            Ok(n) => Ok(n),
            Err(fault) => Err(pool_size_invalid(setting->0@, fault_text(fault))),
        },
        None => match pool {
            ContractPoolView::NotNamed => Err(pool_size_unknown()),
            ContractPoolView::Unreadable { path, cause } => Err(contract_unreadable(path, cause)),
            ContractPoolView::Unparsable { cause } => Err(contract_unparsable(cause)),
            ContractPoolView::NoPool => Err(contract_without_pool()),
            ContractPoolView::Pool { size } => Ok(size),
        },
    }
}

/// The pair minimum: the setting where it says something, one otherwise.
pub open spec fn min_pairs_of(setting: Option<&str>) -> Result<nat, Seq<char>> {
    match wanted(setting) {
        Some(text) => match numeral_read(text, usize::MAX as nat) {
            Ok(n) => Ok(n),
            Err(fault) => Err(min_pairs_invalid(setting->0@, fault_text(fault))),
        },
        None => Ok(1),
    }
}

/// The pool that a run is held to, or why there is none. Neither the pool nor its pair minimum may
/// be empty.
pub open spec fn expectation_of(
    size_setting: Option<&str>,
    min_setting: Option<&str>,
    pool: ContractPoolView,
) -> Result<(nat, nat), Seq<char>> {
    match pool_size_of(size_setting, pool) {
        Err(m) => Err(m),
        Ok(size) => if size == 0 {
            Err(pool_empty())
        } else {
            match min_pairs_of(min_setting) {
                Err(m) => Err(m),
                Ok(min) => if min == 0 {
                    Err(min_pairs_zero())
                } else {
                    Ok((size, min))
                },
            }
        },
    }
}

/// `r` is the pool that `e` describes, or its refusal.
pub open spec fn gives_expectation(
    r: Result<PoolExpectation, String>,
    e: Result<(nat, nat), Seq<char>>,
) -> bool {
    match e {
        Ok(pair) => r matches Ok(p) && p.pool_size == pair.0 && p.min_per_prompt == pair.1,
        Err(m) => r matches Err(t) && t@ == m,
    }
}

fn read_pool_size(setting: Option<&str>, pool: ContractPool) -> (r: Result<usize, String>)
    ensures
        match pool_size_of(setting, pool@) {
            Ok(n) => r matches Ok(x) && x == n,
            Err(m) => r matches Err(e) && e@ == m,
        },
{
    match want(setting) {
        Some(text) => match read_count(text.as_str()) {
            Ok(n) => Ok(n),
            Err(fault) => Err(say_pool_size_invalid(setting.unwrap(), fault_words(fault))),
        },
        None => match pool {
            ContractPool::NotNamed => Err(say_pool_size_unknown()),
            ContractPool::Unreadable { path, cause } => Err(
                say_contract_unreadable(path.as_str(), cause.as_str()),
            ),
            ContractPool::Unparsable { cause } => Err(say_contract_unparsable(cause.as_str())),
            ContractPool::NoPool => Err(say_contract_without_pool()),
            ContractPool::Pool { size } => Ok(size),
        },
    }
}

fn read_min_pairs(setting: Option<&str>) -> (r: Result<usize, String>)
    ensures
        match min_pairs_of(setting) {
            Ok(n) => r matches Ok(x) && x == n,
            Err(m) => r matches Err(e) && e@ == m,
        },
{
    match want(setting) {
        Some(text) => match read_count(text.as_str()) {
            Ok(n) => Ok(n),
            Err(fault) => Err(say_min_pairs_invalid(setting.unwrap(), fault_words(fault))),
        },
        None => Ok(1),
    }
}

/// The pool that a run is held to, from the settings and from what the contract says.
pub fn pool_expectation(
    size_setting: Option<&str>,
    min_setting: Option<&str>,
    pool: ContractPool,
) -> (r: Result<PoolExpectation, String>)
    ensures
        gives_expectation(r, expectation_of(size_setting, min_setting, pool@)),
{
    let pool_size: usize = match read_pool_size(size_setting, pool) {
        Err(e) => return Err(e),
        Ok(n) => n,
    };
    if pool_size == 0 {
        return Err(say_pool_empty());
    }
    let min_per_prompt: usize = match read_min_pairs(min_setting) {
        Err(e) => return Err(e),
        Ok(n) => n,
    };
    if min_per_prompt == 0 {
        return Err(say_min_pairs_zero());
    }
    Ok(PoolExpectation { pool_size, min_per_prompt })
}

/// What the contract file says about the pool.
pub open spec fn contract_says(file: Option<ContractFile>) -> ContractPoolView {
    match file {
        None => ContractPoolView::NotNamed,
        Some(f) => match f.bytes {
            Err(cause) => ContractPoolView::Unreadable { path: f.path@, cause: cause@ },
            Ok(bytes) => match json_read(bytes@) {
                Err(cause) => ContractPoolView::Unparsable { cause },
                Ok(None) => ContractPoolView::NoPool,
                Ok(Some(members)) => match array_at(members, POOL_KEY@) {
                    None => ContractPoolView::NoPool,
                    Some(size) => ContractPoolView::Pool { size },
                },
            },
        },
    }
}

/// Reads the size of the pool out of a contract.
pub fn read_contract_pool(file: Option<ContractFile>) -> (r: ContractPool)
    ensures
        r@ == contract_says(file),
{
    match file {
        None => ContractPool::NotNamed,
        Some(f) => match f.bytes {
            Err(cause) => ContractPool::Unreadable { path: f.path, cause },
            Ok(bytes) => match read_object(&bytes) {
                Err(cause) => ContractPool::Unparsable { cause },
                Ok(None) => ContractPool::NoPool,
                Ok(Some(object)) => match array_length(&object, POOL_KEY) {
                    None => ContractPool::NoPool,
                    Some(size) => ContractPool::Pool { size },
                },
            },
        },
    }
}

/// The pool that a run is held to. A contract is consulted only where no setting gives the size,
/// and a run without either has none.
pub fn resolve_pool_expectation(
    size_setting: Option<&str>,
    min_setting: Option<&str>,
    contract: Option<ContractFile>,
) -> (r: Result<PoolExpectation, String>)
    ensures
        gives_expectation(
            r,
            expectation_of(size_setting, min_setting, contract_says(contract)),
        ),
{
    pool_expectation(size_setting, min_setting, read_contract_pool(contract))
}

/// Where a setting gives the size, the contract has no say.
pub proof fn a_set_pool_size_ignores_the_contract(
    size_setting: Option<&str>,
    min_setting: Option<&str>,
    a: ContractPoolView,
    b: ContractPoolView,
)
    requires
        wanted(size_setting) is Some,
    ensures
        expectation_of(size_setting, min_setting, a) == expectation_of(
            size_setting,
            min_setting,
            b,
        ),
{
}

/// A pool that a run is held to has a prompt and asks for a pair of each.
pub proof fn an_expected_pool_is_never_empty(
    size_setting: Option<&str>,
    min_setting: Option<&str>,
    pool: ContractPoolView,
)
    requires
        expectation_of(size_setting, min_setting, pool) is Ok,
    ensures
        expectation_of(size_setting, min_setting, pool)->Ok_0.0 >= 1,
        expectation_of(size_setting, min_setting, pool)->Ok_0.1 >= 1,
{
}

/// There is a pool to be held to exactly when its size is known and above zero, from the setting
/// where that says something and from the contract where it does not, and the pair minimum is above
/// zero, which it is where nothing is said of it: it is one. Each number is the one that was given.
pub proof fn a_pool_is_what_the_settings_and_the_contract_give(
    size_setting: Option<&str>,
    min_setting: Option<&str>,
    pool: ContractPoolView,
)
    ensures
        ({
            let r = expectation_of(size_setting, min_setting, pool);
            let set_size = size_setting is Some && trimmed(size_setting->0@).len() > 0;
            let set_min = min_setting is Some && trimmed(min_setting->0@).len() > 0;
            let size = numeral_read(trimmed(size_setting->0@), usize::MAX as nat);
            let min = numeral_read(trimmed(min_setting->0@), usize::MAX as nat);
            &&& r is Ok <==> {
                &&& set_size ==> size is Ok && size->Ok_0 > 0
                &&& !set_size ==> (pool matches ContractPoolView::Pool { size: n } && n > 0)
                &&& set_min ==> min is Ok && min->Ok_0 > 0
            }
            &&& r matches Ok(e) ==> {
                &&& set_size ==> Ok::<nat, NumeralFault>(e.0) == size
                &&& !set_size ==> pool == ContractPoolView::Pool { size: e.0 }
                &&& set_min ==> Ok::<nat, NumeralFault>(e.1) == min
                &&& !set_min ==> e.1 == 1
            }
        }),
{
}

/// What a contract says of the pool: nothing where none is named, and its length exactly where the
/// contract is an object that holds an array under `timed_prompt_pool`.
pub proof fn a_contract_pool_is_the_array_it_holds(file: Option<ContractFile>)
    ensures
        file is None <==> contract_says(file) is NotNamed,
        file matches Some(f) ==> {
            &&& f.bytes matches Err(cause) ==> contract_says(file)
                == (ContractPoolView::Unreadable { path: f.path@, cause: cause@ })
            &&& f.bytes matches Ok(bytes) ==> {
                &&& json_read(bytes@) matches Err(cause) ==> contract_says(file)
                    == (ContractPoolView::Unparsable { cause })
                &&& (contract_says(file) matches ContractPoolView::Pool { .. }) <==> (json_read(
                    bytes@,
                ) matches Ok(Some(m)) && m.contains_key("timed_prompt_pool"@)
                    && m["timed_prompt_pool"@] is Array)
                &&& contract_says(file) matches ContractPoolView::Pool { size } ==> size
                    == json_read(bytes@)->Ok_0->0["timed_prompt_pool"@]->length
                &&& json_read(bytes@) is Ok && !(contract_says(file) matches
                    ContractPoolView::Pool { .. }) ==> contract_says(file) is NoPool
            }
        },
{
}

/// What is said of the pool is seen as it is.
pub proof fn a_contract_pool_is_seen_as_it_is(pool: ContractPool)
    ensures
        pool is NotNamed <==> pool@ is NotNamed,
        pool is NoPool <==> pool@ is NoPool,
        pool matches ContractPool::Pool { size } ==> pool@ == (ContractPoolView::Pool {
            size: size as nat,
        }),
        pool matches ContractPool::Unparsable { cause } ==> pool@ == (
        ContractPoolView::Unparsable { cause: cause@ }),
        pool matches ContractPool::Unreadable { path, cause } ==> pool@ == (
        ContractPoolView::Unreadable { path: path@, cause: cause@ }),
{
}

/// An expected pool is given exactly when there is one, with both of its numbers, and otherwise the
/// refusal is.
pub proof fn an_expected_pool_is_given_as_it_is(
    r: Result<PoolExpectation, String>,
    e: Result<(nat, nat), Seq<char>>,
)
    requires
        gives_expectation(r, e),
    ensures
        r is Ok <==> e is Ok,
        r matches Ok(p) ==> e == Ok::<(nat, nat), Seq<char>>(
            (p.pool_size as nat, p.min_per_prompt as nat),
        ),
        r matches Err(t) ==> e == Err::<(nat, nat), Seq<char>>(t@),
{
}

/// The three faults of a numeral are told apart by their words.
pub proof fn numeral_faults_are_told_apart(a: NumeralFault, b: NumeralFault)
    requires
        a != b,
    ensures
        fault_text(a) != fault_text(b),
{
    reveal_strlit("cannot parse integer from empty string");
    reveal_strlit("invalid digit found in string");
    reveal_strlit("number too large to fit in target type");
    assert("cannot parse integer from empty string"@[0] == 'c');
    assert("invalid digit found in string"@[0] == 'i');
    assert("number too large to fit in target type"@[0] == 'n');
}

/// Why there is no pool is told by the first of these: a size setting that is no number, a contract
/// that gives no size, a size of zero, a minimum that is no number, a minimum of zero.
pub proof fn a_missing_pool_is_told_by_the_first_fault(
    size_setting: Option<&str>,
    min_setting: Option<&str>,
    pool: ContractPoolView,
)
    ensures
        ({
            let r = expectation_of(size_setting, min_setting, pool);
            let set_size = size_setting is Some && trimmed(size_setting->0@).len() > 0;
            let set_min = min_setting is Some && trimmed(min_setting->0@).len() > 0;
            let size = numeral_read(trimmed(size_setting->0@), usize::MAX as nat);
            let min = numeral_read(trimmed(min_setting->0@), usize::MAX as nat);
            let sized = if set_size {
                size is Ok && size->Ok_0 > 0
            } else {
                pool matches ContractPoolView::Pool { size: n } && n > 0
            };
            &&& set_size && size is Err ==> r == Err::<(nat, nat), Seq<char>>(
                pool_size_invalid(size_setting->0@, fault_text(size->Err_0)),
            )
            &&& !set_size && pool is NotNamed ==> r == Err::<(nat, nat), Seq<char>>(
                pool_size_unknown(),
            )
            &&& !set_size ==> (pool matches ContractPoolView::Unreadable { path, cause } ==> r
                == Err::<(nat, nat), Seq<char>>(contract_unreadable(path, cause)))
            &&& !set_size ==> (pool matches ContractPoolView::Unparsable { cause } ==> r == Err::<
                (nat, nat),
                Seq<char>,
            >(contract_unparsable(cause)))
            &&& !set_size && pool is NoPool ==> r == Err::<(nat, nat), Seq<char>>(
                contract_without_pool(),
            )
            &&& set_size && size is Ok && size->Ok_0 == 0 || !set_size && pool
                == (ContractPoolView::Pool { size: 0 }) ==> r == Err::<(nat, nat), Seq<char>>(
                pool_empty(),
            )
            &&& sized && set_min && min is Err ==> r == Err::<(nat, nat), Seq<char>>(
                min_pairs_invalid(min_setting->0@, fault_text(min->Err_0)),
            )
            &&& sized && set_min && min is Ok && min->Ok_0 == 0 ==> r == Err::<
                (nat, nat),
                Seq<char>,
            >(min_pairs_zero())
        }),
{
}

} // verus!
