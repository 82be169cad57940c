use vstd::prelude::*;
use crate::error::ZecDevError;

verus! {

/// The funding wallet's confirmed balance, split by pool, in zatoshis.
#[derive(Debug, Clone)]
pub struct Balance {
    pub transparent: u64,
    pub sapling: u64,
    pub orchard: u64,
}

impl Balance {
    /// The three pools together fit in one 64-bit total.  Every real
    /// balance does: the monetary base stays far below 2^63 zatoshis.
    pub open spec fn wf(self) -> bool {
        self.transparent + self.sapling + self.orchard <= u64::MAX
    }

    pub fn total_zatoshis(&self) -> (t: u64)
        requires
            self.wf(),
        ensures
            t == self.transparent + self.sapling + self.orchard,
    {
        self.transparent + self.sapling + self.orchard
    }

    /// Builds a balance from the per-pool confirmed amounts as the wallet
    /// library reports them; a pool it reports nothing for holds zero.
    pub fn from_confirmed(
        transparent: Option<u64>,
        sapling: Option<u64>,
        orchard: Option<u64>,
    ) -> (b: Balance)
        ensures
            b.transparent == transparent.unwrap_or(0),
            b.sapling == sapling.unwrap_or(0),
            b.orchard == orchard.unwrap_or(0),
    {
        Balance {
            transparent: match transparent {
                Some(v) => v,
                None => 0,
            },
            sapling: match sapling {
                Some(v) => v,
                None => 0,
            },
            orchard: match orchard {
                Some(v) => v,
                None => 0,
            },
        }
    }
}

/// The memo field's fixed wire size in bytes.
pub const MEMO_SIZE: usize = 512;

/// A funding transfer the wallet library may be handed: the checks that
/// guard it have passed and the memo, if any, is already padded to its
/// wire size.
pub struct SendPlan {
    pub amount_zatoshis: u64,
    pub memo: Option<Vec<u8>>,
}

pub open spec fn spec_padded_memo(m: Seq<u8>, p: Seq<u8>) -> bool {
    &&& p.len() == MEMO_SIZE
    &&& forall|i: int| 0 <= i < m.len() ==> #[trigger] p[i] == m[i]
    &&& forall|i: int| m.len() <= i < p.len() ==> #[trigger] p[i] == 0
}

/// Plans one funding transfer.  It is refused when the Orchard pool cannot
/// cover the amount, and when the memo exceeds its wire size; otherwise
/// the plan carries the amount unchanged and the memo zero-padded.
pub fn plan_send(orchard_balance: u64, amount_zatoshis: u64, memo: Option<Vec<u8>>) -> (r: Result<
    SendPlan,
    ZecDevError,
>)
    ensures
        match r {
            Ok(p) => {
                &&& orchard_balance >= amount_zatoshis
                &&& p.amount_zatoshis == amount_zatoshis
                &&& match (memo, p.memo) {
                    (Some(m), Some(pm)) => m@.len() <= MEMO_SIZE && spec_padded_memo(m@, pm@),
                    (None, None) => true,
                    _ => false,
                }
            },
            Err(e) => {
                ||| orchard_balance < amount_zatoshis && e is InsufficientBalance
                ||| orchard_balance >= amount_zatoshis && (memo matches Some(m) && m@.len()
                    > MEMO_SIZE) && e is Wallet
            },
        },
{
    if orchard_balance < amount_zatoshis {
        return Err(
            ZecDevError::InsufficientBalance(
                String::from_str("the Orchard pool cannot cover the requested amount"),
            ),
        );
    }
    match memo {
        Some(m) => {
            if m.len() > MEMO_SIZE {
                return Err(ZecDevError::Wallet(String::from_str("Memo too long (max 512 bytes)")));
            }
            let mut padded: Vec<u8> = Vec::new();
            let mut i: usize = 0;
            while i < m.len()
                invariant
                    i <= m@.len(),
                    padded@.len() == i,
                    forall|j: int| 0 <= j < i ==> #[trigger] padded@[j] == m@[j],
                decreases m@.len() - i,
            {
                padded.push(m[i]);
                i = i + 1;
            }
            while i < MEMO_SIZE
                invariant
                    m@.len() <= i <= MEMO_SIZE,
                    padded@.len() == i,
                    forall|j: int| 0 <= j < m@.len() ==> #[trigger] padded@[j] == m@[j],
                    forall|j: int| m@.len() <= j < i ==> #[trigger] padded@[j] == 0,
                decreases MEMO_SIZE - i,
            {
                padded.push(0);
                i = i + 1;
            }
            Ok(SendPlan { amount_zatoshis, memo: Some(padded) })
        },
        None => Ok(SendPlan { amount_zatoshis, memo: None }),
    }
}

} // verus!
