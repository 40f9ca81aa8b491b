//! The contract's list of pools and each pool's list of tokens: the administrative
//! instructions that add and remove them once enough administrators have signed.
use crate::errors::{Error, PoolError};
use crate::state::{AccountKey, Custody, Pool};
use vstd::prelude::*;

verus! {

/// The share of a pool's value that one of its tokens should hold, with the bounds
/// around it, in basis points.
#[derive(Debug, Clone, Copy, PartialEq, Eq, Structural)]
pub struct TokenRatios {
    pub target: u64,
    pub min: u64,
    pub max: u64,
}

/// The name and the tokens of a pool: `custodies[i]` is the custody of token `i`, and
/// `ratios[i]` its share of the pool.
#[derive(Debug)]
pub struct PoolTokens {
    pub name: String,
    pub custodies: Vec<AccountKey>,
    pub ratios: Vec<TokenRatios>,
}

/// Whether `i` is the first position of `key` in `s`.
pub open spec fn is_first_index(s: Seq<AccountKey>, key: AccountKey, i: int) -> bool {
    &&& 0 <= i < s.len()
    &&& s[i] == key
    &&& forall|j: int| 0 <= j < i ==> s[j] != key
}

/// The first position of `key` in `s`, where it occurs.
pub open spec fn first_index(s: Seq<AccountKey>, key: AccountKey) -> Option<int> {
    if exists|i: int| is_first_index(s, key, i) {
        Some(choose|i: int| is_first_index(s, key, i))
    } else {
        None
    }
}

/// A first position is the first position.
pub proof fn lemma_first_index_is(s: Seq<AccountKey>, key: AccountKey, i: int)
    requires
        is_first_index(s, key, i),
    ensures
        first_index(s, key) == Some(i),
{
    let k = choose|k: int| is_first_index(s, key, k);
    assert(is_first_index(s, key, k));
    if k < i {
        assert(s[k] != key);
    } else if i < k {
        assert(s[i] != key);
    }
}

/// `key` occurs in `s` exactly where it has a first position.
pub proof fn lemma_first_index_some(s: Seq<AccountKey>, key: AccountKey)
    ensures
        first_index(s, key) is Some <==> s.contains(key),
{
    if s.contains(key) {
        let i = choose|i: int| 0 <= i < s.len() && s[i] == key;
        lemma_first_exists(s, key, i);
    }
}

proof fn lemma_first_exists(s: Seq<AccountKey>, key: AccountKey, i: int)
    requires
        0 <= i < s.len(),
        s[i] == key,
    ensures
        exists|k: int| is_first_index(s, key, k),
    decreases i,
{
    if exists|j: int| 0 <= j < i && s[j] == key {
        let j = choose|j: int| 0 <= j < i && s[j] == key;
        lemma_first_exists(s, key, j);
    } else {
        assert(is_first_index(s, key, i));
    }
}

/// The position of `key` in `list`, where it occurs.
pub fn find_key(list: &Vec<AccountKey>, key: AccountKey) -> (r: Option<usize>)
    ensures
        r == match first_index(list@, key) {
            Some(i) => Some(i as usize),
            None => None::<usize>,
        },
{
    let mut i: usize = 0;
    while i < list.len()
        invariant
            0 <= i <= list@.len(),
            forall|j: int| 0 <= j < i ==> list@[j] != key,
        decreases list@.len() - i,
    {
        if list[i] == key {
            proof {
                lemma_first_index_is(list@, key, i as int);
            }
            return Some(i);
        }
        i = i + 1;
    }
    proof {
        lemma_first_index_some(list@, key);
    }
    None
}

/// The error of looking up a token that the pool does not hold.
pub open spec fn unsupported_token() -> Error {
    Error::PoolError(PoolError::UnsupportedToken)
}

/// The index of the token whose custody is `custody` in the pool.
pub fn get_token_id(tokens: &PoolTokens, custody: AccountKey) -> (r: Result<usize, Error>)
    ensures
        r == match first_index(tokens.custodies@, custody) {
            Some(i) => Ok::<usize, Error>(i as usize),
            None => Err::<usize, Error>(unsupported_token()),
        },
{
    match find_key(&tokens.custodies, custody) {
        Some(i) => Ok(i),
        None => Err(Error::PoolError(PoolError::UnsupportedToken)),
    }
}

fn copy_ratios(ratios: &Vec<TokenRatios>) -> (r: Vec<TokenRatios>)
    ensures
        r@ == ratios@,
{
    let mut out: Vec<TokenRatios> = Vec::new();
    let mut i: usize = 0;
    while i < ratios.len()
        invariant
            0 <= i <= ratios@.len(),
            out@ == ratios@.subrange(0, i as int),
        decreases ratios@.len() - i,
    {
        out.push(ratios[i]);
        i = i + 1;
        assert(out@ == ratios@.subrange(0, i as int));
    }
    assert(ratios@.subrange(0, ratios@.len() as int) == ratios@);
    out
}

/// Parameters of [`add_pool`].
#[derive(Debug, Clone)]
pub struct AddPoolParams {
    pub name: String,
}

/// Whether a pool name is acceptable: not empty and at most 64 bytes long (its
/// length in UTF-8 read as a `usize`).
pub open spec fn pool_name_ok(name: Seq<char>) -> bool {
    name.len() != 0 && (vstd::utf8::encode_utf8(name).len() as usize) <= 64
}

/// Registers a new pool at `pool_key` once no signature is missing
/// (`signatures_left` is what the administrators' multisig still needs). Returns the
/// number of signatures still needed: while some are, nothing changes. The pool
/// takes the name, its bumps and empty open interest, and joins the contract's list.
/// On an error nothing changes.
pub fn add_pool(
    pools: &mut Vec<AccountKey>,
    pool: &mut Pool,
    tokens: &mut PoolTokens,
    params: &AddPoolParams,
    signatures_left: u8,
    pool_key: AccountKey,
    pool_bump: u8,
    lp_token_bump: u8,
) -> (r: Result<u8, Error>)
    ensures
        if !pool_name_ok(params.name@) {
            r == Err::<u8, Error>(Error::InvalidArgument)
        } else if signatures_left > 0 {
            r == Ok::<u8, Error>(signatures_left)
        } else if old(pool).bump != 0 {
            r == Err::<u8, Error>(Error::AccountAlreadyInitialized)
        } else {
            r == Ok::<u8, Error>(0)
        },
        r == Ok::<u8, Error>(0) ==> {
            &&& final(pools)@ == old(pools)@.push(pool_key)
            &&& *final(pool) == (Pool {
                bump: pool_bump,
                lp_token_bump,
                long_open_interest_usd: 0,
                short_open_interest_usd: 0,
                ..*old(pool)
            })
            &&& final(tokens).name@ == params.name@
            &&& final(tokens).custodies@ == old(tokens).custodies@
            &&& final(tokens).ratios@ == old(tokens).ratios@
        },
        r != Ok::<u8, Error>(0) ==> {
            &&& final(pools)@ == old(pools)@
            &&& *final(pool) == *old(pool)
            &&& final(tokens).name@ == old(tokens).name@
            &&& final(tokens).custodies@ == old(tokens).custodies@
            &&& final(tokens).ratios@ == old(tokens).ratios@
        },
{
    let name = params.name.as_str();
    if name.is_empty() || name.len() > 64 {
        return Err(Error::InvalidArgument);
    }
    if signatures_left > 0 {
        return Ok(signatures_left);
    }
    if pool.bump != 0 {
        return Err(Error::AccountAlreadyInitialized);
    }
    tokens.name = params.name.clone();
    pool.bump = pool_bump;
    pool.lp_token_bump = lp_token_bump;
    pool.long_open_interest_usd = 0;
    pool.short_open_interest_usd = 0;
    pools.push(pool_key);
    Ok(0)
}

/// Parameters of [`remove_pool`].
#[derive(Debug, Clone)]
pub struct RemovePoolParams {
    pub pool_name: String,
}

/// Takes the pool at `pool_key` off the contract's list once no signature is
/// missing. The pool must hold no token and be on the list. Returns the number of
/// signatures still needed; on an error nothing changes.
pub fn remove_pool(
    pools: &mut Vec<AccountKey>,
    tokens: &PoolTokens,
    params: &RemovePoolParams,
    signatures_left: u8,
    pool_key: AccountKey,
) -> (r: Result<u8, Error>)
    ensures
        r == if signatures_left > 0 {
            Ok::<u8, Error>(signatures_left)
        } else if tokens.custodies@.len() != 0 || first_index(old(pools)@, pool_key) is None {
            Err::<u8, Error>(Error::PoolError(PoolError::InvalidPoolState))
        } else {
            Ok::<u8, Error>(0)
        },
        final(pools)@ == if r == Ok::<u8, Error>(0) {
            old(pools)@.remove(first_index(old(pools)@, pool_key).unwrap())
        } else {
            old(pools)@
        },
{
    if signatures_left > 0 {
        return Ok(signatures_left);
    }
    if tokens.custodies.len() != 0 {
        return Err(Error::PoolError(PoolError::InvalidPoolState));
    }
    let index = match find_key(pools, pool_key) {
        Some(i) => i,
        None => {
            return Err(Error::PoolError(PoolError::InvalidPoolState));
        },
    };
    pools.remove(index);
    Ok(0)
}

/// Parameters of [`add_custody`]: the new token's oracle and the pool's ratios with
/// the new token's last.
#[derive(Debug, Clone)]
pub struct AddCustodyParams {
    pub oracle: AccountKey,
    pub ratios: Vec<TokenRatios>,
}

/// The addresses of a custody being set up.
#[derive(Debug, Clone, Copy, PartialEq, Eq, Structural)]
pub struct CustodyKeys {
    pub pool: AccountKey,
    pub custody: AccountKey,
    pub mint: AccountKey,
    pub token_account: AccountKey,
}

/// Adds the custody at `keys.custody` as the pool's next token once no signature is
/// missing, with one more ratio than the pool had. The custody must not be the
/// pool's yet; it records its pool, mint, token account, oracle, decimals and bumps.
/// Returns the number of signatures still needed; on an error nothing changes.
pub fn add_custody(
    tokens: &mut PoolTokens,
    custody: &mut Custody,
    params: &AddCustodyParams,
    signatures_left: u8,
    keys: CustodyKeys,
    mint_decimals: u8,
    bump: u8,
    token_account_bump: u8,
) -> (r: Result<u8, Error>)
    ensures
        r == if params.ratios@.len() != old(tokens).ratios@.len() + 1 {
            Err::<u8, Error>(Error::InvalidArgument)
        } else if signatures_left > 0 {
            Ok::<u8, Error>(signatures_left)
        } else if old(tokens).custodies@.contains(keys.custody) {
            Err::<u8, Error>(Error::AccountAlreadyInitialized)
        } else {
            Ok::<u8, Error>(0)
        },
        final(tokens).name@ == old(tokens).name@,
        r == Ok::<u8, Error>(0) ==> {
            &&& final(tokens).custodies@ == old(tokens).custodies@.push(keys.custody)
            &&& final(tokens).ratios@ == params.ratios@
            &&& *final(custody) == (Custody {
                pool: keys.pool,
                mint: keys.mint,
                token_account: keys.token_account,
                decimals: mint_decimals,
                oracle: params.oracle,
                bump,
                token_account_bump,
                ..*old(custody)
            })
        },
        r != Ok::<u8, Error>(0) ==> {
            &&& final(tokens).custodies@ == old(tokens).custodies@
            &&& final(tokens).ratios@ == old(tokens).ratios@
            &&& *final(custody) == *old(custody)
        },
{
    if params.ratios.len() == 0 || params.ratios.len() - 1 != tokens.ratios.len() {
        return Err(Error::InvalidArgument);
    }
    if signatures_left > 0 {
        return Ok(signatures_left);
    }
    proof {
        lemma_first_index_some(tokens.custodies@, keys.custody);
    }
    if get_token_id(tokens, keys.custody).is_ok() {
        return Err(Error::AccountAlreadyInitialized);
    }
    tokens.custodies.push(keys.custody);
    tokens.ratios = copy_ratios(&params.ratios);
    custody.pool = keys.pool;
    custody.mint = keys.mint;
    custody.token_account = keys.token_account;
    custody.decimals = mint_decimals;
    custody.oracle = params.oracle;
    custody.bump = bump;
    custody.token_account_bump = token_account_bump;
    Ok(0)
}

/// Parameters of [`remove_custody`]: the pool's ratios without the removed token's.
#[derive(Debug, Clone)]
pub struct RemoveCustodyParams {
    pub ratios: Vec<TokenRatios>,
    pub pool_name: String,
}

/// Takes the custody at `custody` off the pool's tokens once no signature is
/// missing; its token account (holding `token_account_balance`) must be empty. The
/// tokens after it move up by one and the pool takes the given ratios. Returns the
/// number of signatures still needed; on an error nothing changes.
pub fn remove_custody(
    tokens: &mut PoolTokens,
    params: &RemoveCustodyParams,
    signatures_left: u8,
    custody: AccountKey,
    token_account_balance: u64,
) -> (r: Result<u8, Error>)
    ensures
        r == if signatures_left > 0 {
            Ok::<u8, Error>(signatures_left)
        } else if token_account_balance != 0 {
            Err::<u8, Error>(Error::PoolError(PoolError::InvalidCustodyState))
        } else if first_index(old(tokens).custodies@, custody) is None {
            Err::<u8, Error>(unsupported_token())
        } else {
            Ok::<u8, Error>(0)
        },
        final(tokens).name@ == old(tokens).name@,
        r == Ok::<u8, Error>(0) ==> {
            &&& final(tokens).custodies@ == old(tokens).custodies@.remove(
                first_index(old(tokens).custodies@, custody).unwrap(),
            )
            &&& final(tokens).ratios@ == params.ratios@
        },
        r != Ok::<u8, Error>(0) ==> {
            &&& final(tokens).custodies@ == old(tokens).custodies@
            &&& final(tokens).ratios@ == old(tokens).ratios@
        },
{
    if signatures_left > 0 {
        return Ok(signatures_left);
    }
    if token_account_balance != 0 {
        return Err(Error::PoolError(PoolError::InvalidCustodyState));
    }
    let token_id = get_token_id(tokens, custody)?;
    tokens.custodies.remove(token_id);
    tokens.ratios = copy_ratios(&params.ratios);
    Ok(0)
}

/// Parameters of [`realloc_pool`].
#[derive(Debug, Clone)]
pub struct ReallocPoolParams {
    pub ratios: Vec<TokenRatios>,
    pub custody_key: AccountKey,
    pub pool_name: String,
}

/// Makes room for one more token in the pool and lists `params.custody_key` as that
/// token, with the given ratios (one more than the pool had). The custody must not
/// be the pool's yet. On an error nothing changes.
pub fn realloc_pool(tokens: &mut PoolTokens, params: &ReallocPoolParams) -> (r: Result<(), Error>)
    ensures
        r == if params.ratios@.len() != old(tokens).ratios@.len() + 1 {
            Err::<(), Error>(Error::InvalidArgument)
        } else if old(tokens).custodies@.contains(params.custody_key) {
            Err::<(), Error>(Error::AccountAlreadyInitialized)
        } else {
            Ok::<(), Error>(())
        },
        final(tokens).name@ == old(tokens).name@,
        r is Ok ==> {
            &&& final(tokens).custodies@ == old(tokens).custodies@.push(params.custody_key)
            &&& final(tokens).ratios@ == params.ratios@
        },
        r is Err ==> {
            &&& final(tokens).custodies@ == old(tokens).custodies@
            &&& final(tokens).ratios@ == old(tokens).ratios@
        },
{
    if params.ratios.len() == 0 || params.ratios.len() - 1 != tokens.ratios.len() {
        return Err(Error::InvalidArgument);
    }
    proof {
        lemma_first_index_some(tokens.custodies@, params.custody_key);
    }
    if get_token_id(tokens, params.custody_key).is_ok() {
        return Err(Error::AccountAlreadyInitialized);
    }
    tokens.custodies.push(params.custody_key);
    tokens.ratios = copy_ratios(&params.ratios);
    Ok(())
}

} // verus!
