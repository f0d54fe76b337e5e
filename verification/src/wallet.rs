//! Wallet-side rules: which receivers a unified address is asked to have,
//! and how the balances of the accounts add up.

use vstd::prelude::*;
use vstd::string::StringExecFns;
use crate::error::Error;
use crate::types::Balance;

verus! {

/// What a unified address is asked to hold for one kind of receiver.
#[derive(Debug, Clone, Copy, PartialEq, Eq, Structural)]
pub enum ReceiverRequirement {
    /// The address must hold a receiver of this kind.
    Require,
    /// The address holds a receiver of this kind where the key has one.
    Allow,
    /// The address holds no receiver of this kind.
    Omit,
}

/// The requirements for each kind of receiver of a unified address.
#[derive(Debug, Clone, Copy, PartialEq, Eq, Structural)]
pub struct ReceiverRequirements {
    pub orchard: ReceiverRequirement,
    pub sapling: ReceiverRequirement,
    pub p2pkh: ReceiverRequirement,
}

/// ZIP-316 policy for Unified Address receiver selection.
#[derive(Debug, Clone, Copy, PartialEq, Eq, Structural)]
pub enum Zip316ReceiverPolicy {
    /// Require Orchard; allow Sapling; omit transparent.
    OrchardPreferred,
    /// Require Sapling; omit Orchard and transparent.
    SaplingOnly,
    /// Allow any shielded (Orchard or Sapling); omit transparent.
    ShieldedOnly,
    /// Prefer shielded; allow transparent if present.
    AllowTransparent,
}

impl Zip316ReceiverPolicy {
    /// The receiver requirements that the policy stands for.
    pub open spec fn spec_requirements(&self) -> ReceiverRequirements {
        match *self {
            Zip316ReceiverPolicy::OrchardPreferred => ReceiverRequirements {
                orchard: ReceiverRequirement::Require,
                sapling: ReceiverRequirement::Allow,
                p2pkh: ReceiverRequirement::Omit,
            },
            Zip316ReceiverPolicy::SaplingOnly => ReceiverRequirements {
                orchard: ReceiverRequirement::Omit,
                sapling: ReceiverRequirement::Require,
                p2pkh: ReceiverRequirement::Omit,
            },
            Zip316ReceiverPolicy::ShieldedOnly => ReceiverRequirements {
                orchard: ReceiverRequirement::Allow,
                sapling: ReceiverRequirement::Allow,
                p2pkh: ReceiverRequirement::Omit,
            },
            Zip316ReceiverPolicy::AllowTransparent => ReceiverRequirements {
                orchard: ReceiverRequirement::Allow,
                sapling: ReceiverRequirement::Allow,
                p2pkh: ReceiverRequirement::Allow,
            },
        }
    }

    /// The receiver requirements that the policy stands for.
    #[verifier::when_used_as_spec(spec_requirements)]
    pub fn requirements(&self) -> (requirements: ReceiverRequirements)
        ensures
            requirements == self.spec_requirements(),
    {
        match self {
            Zip316ReceiverPolicy::OrchardPreferred => ReceiverRequirements {
                orchard: ReceiverRequirement::Require,
                sapling: ReceiverRequirement::Allow,
                p2pkh: ReceiverRequirement::Omit,
            },
            Zip316ReceiverPolicy::SaplingOnly => ReceiverRequirements {
                orchard: ReceiverRequirement::Omit,
                sapling: ReceiverRequirement::Require,
                p2pkh: ReceiverRequirement::Omit,
            },
            Zip316ReceiverPolicy::ShieldedOnly => ReceiverRequirements {
                orchard: ReceiverRequirement::Allow,
                sapling: ReceiverRequirement::Allow,
                p2pkh: ReceiverRequirement::Omit,
            },
            Zip316ReceiverPolicy::AllowTransparent => ReceiverRequirements {
                orchard: ReceiverRequirement::Allow,
                sapling: ReceiverRequirement::Allow,
                p2pkh: ReceiverRequirement::Allow,
            },
        }
    }
}

/// Every policy leaves room for a shielded receiver, and only the policy
/// that allows transparent receivers lets one into the address.
pub proof fn lemma_policies_are_shielded(policy: Zip316ReceiverPolicy)
    ensures
        policy.spec_requirements().orchard != ReceiverRequirement::Omit || policy.spec_requirements().sapling
            != ReceiverRequirement::Omit,
        policy.spec_requirements().p2pkh != ReceiverRequirement::Omit <==> policy
            == Zip316ReceiverPolicy::AllowTransparent,
{
}

/// The balances of one account, in zatoshis.
#[derive(Debug, Clone, Copy, PartialEq, Eq, Structural)]
pub struct AccountBalance {
    pub unshielded: u64,
    pub sapling: u64,
    pub orchard: u64,
}

/// A pool of funds.
#[derive(Debug, Clone, Copy, PartialEq, Eq, Structural)]
pub enum Pool {
    Transparent,
    Sapling,
    Orchard,
}

/// The funds of an account in a pool.
pub open spec fn pool_balance(account: AccountBalance, pool: Pool) -> nat {
    match pool {
        Pool::Transparent => account.unshielded as nat,
        Pool::Sapling => account.sapling as nat,
        Pool::Orchard => account.orchard as nat,
    }
}

/// The funds that the first `count` accounts hold in a pool.
pub open spec fn pool_total(accounts: Seq<AccountBalance>, pool: Pool, count: nat) -> nat
    decreases count,
{
    if count == 0 || count > accounts.len() {
        0
    } else {
        pool_total(accounts, pool, (count - 1) as nat) + pool_balance(accounts[count - 1], pool)
    }
}

/// The pool whose running total is the first to leave the `u64` range as
/// the first `count` accounts are added up in order; within one account the
/// transparent pool comes first, then Sapling, then Orchard.
pub open spec fn first_overflow(accounts: Seq<AccountBalance>, count: nat) -> Option<Pool>
    decreases count,
{
    if count == 0 || count > accounts.len() {
        None
    } else if first_overflow(accounts, (count - 1) as nat) is Some {
        first_overflow(accounts, (count - 1) as nat)
    } else if pool_total(accounts, Pool::Transparent, count) > u64::MAX {
        Some(Pool::Transparent)
    } else if pool_total(accounts, Pool::Sapling, count) > u64::MAX {
        Some(Pool::Sapling)
    } else if pool_total(accounts, Pool::Orchard, count) > u64::MAX {
        Some(Pool::Orchard)
    } else {
        None
    }
}

/// The funds of all accounts in all pools.
pub open spec fn grand_total(accounts: Seq<AccountBalance>) -> nat {
    pool_total(accounts, Pool::Transparent, accounts.len()) + pool_total(accounts, Pool::Sapling, accounts.len())
        + pool_total(accounts, Pool::Orchard, accounts.len())
}

/// The message of the error for a balance that does not fit `u64`: it names
/// the pool whose total overflows, or the total of all pools.
pub open spec fn overflow_text(pool: Option<Pool>) -> Seq<char> {
    match pool {
        Some(Pool::Transparent) => "Transparent balance exceeds u64 range"@,
        Some(Pool::Sapling) => "Sapling balance exceeds u64 range"@,
        Some(Pool::Orchard) => "Orchard balance exceeds u64 range"@,
        None => "Total balance exceeds u64 range"@,
    }
}

/// Add up the balances of a wallet's accounts. Fails, rather than wraps,
/// where a pool's total or the total of all pools does not fit `u64`.
pub fn total_balance(accounts: &[AccountBalance]) -> (result: std::result::Result<Balance, Error>)
    ensures
        match result {
            Ok(balance) => {
                &&& grand_total(accounts@) <= u64::MAX
                &&& balance.transparent == pool_total(accounts@, Pool::Transparent, accounts@.len())
                &&& balance.sapling == pool_total(accounts@, Pool::Sapling, accounts@.len())
                &&& balance.orchard == pool_total(accounts@, Pool::Orchard, accounts@.len())
                &&& balance.total == grand_total(accounts@)
                &&& balance.wf()
            },
            Err(Error::Wallet(message)) => {
                &&& grand_total(accounts@) > u64::MAX
                &&& message@ == overflow_text(first_overflow(accounts@, accounts@.len()))
            },
            Err(_) => false,
        },
{
    let mut transparent: u64 = 0;
    let mut sapling: u64 = 0;
    let mut orchard: u64 = 0;
    let mut i: usize = 0;
    while i < accounts.len()
        invariant
            i <= accounts@.len(),
            first_overflow(accounts@, i as nat) is None,
            transparent == pool_total(accounts@, Pool::Transparent, i as nat),
            sapling == pool_total(accounts@, Pool::Sapling, i as nat),
            orchard == pool_total(accounts@, Pool::Orchard, i as nat),
        decreases accounts@.len() - i,
    {
        let account = accounts[i];
        let ghost next = (i + 1) as nat;
        if account.unshielded > u64::MAX - transparent {
            proof {
                lemma_overflow_sticks(accounts@, next, accounts@.len());
                lemma_totals_grow(accounts@, Pool::Transparent, next, accounts@.len());
            }
            return Err(Error::Wallet(String::from_str("Transparent balance exceeds u64 range")));
        }
        if account.sapling > u64::MAX - sapling {
            proof {
                lemma_overflow_sticks(accounts@, next, accounts@.len());
                lemma_totals_grow(accounts@, Pool::Sapling, next, accounts@.len());
            }
            return Err(Error::Wallet(String::from_str("Sapling balance exceeds u64 range")));
        }
        if account.orchard > u64::MAX - orchard {
            proof {
                lemma_overflow_sticks(accounts@, next, accounts@.len());
                lemma_totals_grow(accounts@, Pool::Orchard, next, accounts@.len());
            }
            return Err(Error::Wallet(String::from_str("Orchard balance exceeds u64 range")));
        }
        transparent = transparent + account.unshielded;
        sapling = sapling + account.sapling;
        orchard = orchard + account.orchard;
        i = i + 1;
    }
    if sapling > u64::MAX - transparent || orchard > u64::MAX - transparent - sapling {
        return Err(Error::Wallet(String::from_str("Total balance exceeds u64 range")));
    }
    Ok(Balance { transparent, sapling, orchard, total: transparent + sapling + orchard })
}

/// Once a running total has left the range, it stays the first to have
/// done so however many accounts follow.
pub proof fn lemma_overflow_sticks(accounts: Seq<AccountBalance>, count: nat, later: nat)
    requires
        count <= later <= accounts.len(),
        first_overflow(accounts, count) is Some,
    ensures
        first_overflow(accounts, later) == first_overflow(accounts, count),
    decreases later - count,
{
    if count < later {
        lemma_overflow_sticks(accounts, count, (later - 1) as nat);
    }
}

/// The total of a pool never shrinks as accounts are added.
pub proof fn lemma_totals_grow(accounts: Seq<AccountBalance>, pool: Pool, count: nat, later: nat)
    requires
        count <= later <= accounts.len(),
    ensures
        pool_total(accounts, pool, count) <= pool_total(accounts, pool, later),
    decreases later - count,
{
    if count < later {
        lemma_totals_grow(accounts, pool, count, (later - 1) as nat);
    }
}

} // verus!
