//! Governance snapshots: the balances, voting power and transaction id last
//! recorded for each account, against which cross-chain claims are checked.

use vstd::prelude::*;

verus! {

/// What was recorded for one account.
#[derive(Clone, Copy, Debug, PartialEq, Eq, Structural)]
pub struct GovernanceData {
    pub mana_balance: u128,
    pub mana_collateral_balance: u128,
    pub voting_power: u64,
    pub transaction_id: Option<u64>,
}

/// The snapshots that a log of updates leaves: later updates win.
pub open spec fn snapshots(log: Seq<(Seq<char>, GovernanceData)>) -> Map<
    Seq<char>,
    GovernanceData,
>
    decreases log.len(),
{
    if log.len() == 0 {
        Map::empty()
    } else {
        snapshots(log.drop_last()).insert(log.last().0, log.last().1)
    }
}

/// The snapshot of each account that has one.
pub struct GovernanceDataContract {
    log: Vec<(String, GovernanceData)>,
}

impl GovernanceDataContract {
    /// The log of updates, oldest first.
    pub closed spec fn log(&self) -> Seq<(Seq<char>, GovernanceData)> {
        self.log@.map_values(|e: (String, GovernanceData)| (e.0@, e.1))
    }
}

impl View for GovernanceDataContract {
    type V = Map<Seq<char>, GovernanceData>;

    open spec fn view(&self) -> Map<Seq<char>, GovernanceData> {
        snapshots(self.log())
    }
}

impl GovernanceDataContract {
    /// No snapshots.
    pub fn new() -> (r: GovernanceDataContract)
        ensures
            r@ == Map::<Seq<char>, GovernanceData>::empty(),
    {
        let r = GovernanceDataContract { log: Vec::new() };
        assert(r.log() =~= Seq::<(Seq<char>, GovernanceData)>::empty());
        r
    }

    /// Records `data` as the snapshot of `account_id`, replacing any earlier one.
    pub fn update_governance_data(&mut self, account_id: String, data: GovernanceData)
        ensures
            final(self)@ == old(self)@.insert(account_id@, data),
    {
        let ghost key = account_id@;
        self.log.push((account_id, data));
        assert(self.log() =~= old(self).log().push((key, data)));
        assert(self.log().drop_last() =~= old(self).log());
    }

    /// The snapshot of `account_id`, if one was recorded.
    pub fn get_governance_data(&self, account_id: &String) -> (r: Option<GovernanceData>)
        ensures
            r == (if self@.contains_key(account_id@) {
                Some(self@[account_id@])
            } else {
                None::<GovernanceData>
            }),
    {
        let ghost log = self.log();
        let mut i: usize = self.log.len();
        assert(log.take(i as int) =~= log);
        while i > 0
            invariant
                i <= log.len(),
                log == self.log(),
                log.len() == self.log@.len(),
                snapshots(log.take(i as int)).contains_key(account_id@) == self@.contains_key(
                    account_id@,
                ),
                self@.contains_key(account_id@) ==> snapshots(log.take(i as int))[account_id@]
                    == self@[account_id@],
            decreases i,
        {
            let entry = &self.log[i - 1];
            proof {
                assert(log.take(i as int).drop_last() =~= log.take(i - 1));
                assert(log.take(i as int).last() == (entry.0@, entry.1));
            }
            if entry.0 == *account_id {
                return Some(entry.1);
            }
            i = i - 1;
        }
        assert(log.take(0) =~= Seq::<(Seq<char>, GovernanceData)>::empty());
        None
    }

    /// Whether the claimed values equal, field by field, the snapshot of
    /// `account_id`; false when there is none.
    pub fn verify_cross_chain_data(
        &self,
        account_id: &String,
        mana_balance: u128,
        mana_collateral_balance: u128,
        voting_power: u64,
        transaction_id: u64,
    ) -> (r: bool)
        ensures
            r == (self@.contains_key(account_id@) && self@[account_id@] == GovernanceData {
                mana_balance,
                mana_collateral_balance,
                voting_power,
                transaction_id: Some(transaction_id),
            }),
    {
        match self.get_governance_data(account_id) {
            Some(data) => data.mana_balance == mana_balance && data.mana_collateral_balance
                == mana_collateral_balance && data.voting_power == voting_power
                && data.transaction_id == Some(transaction_id),
            None => false,
        }
    }
}

} // verus!
