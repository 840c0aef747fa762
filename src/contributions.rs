//! The contribution ledger: an append-only list of contribution records, and
//! the sums that project voting power is computed from.

use vstd::prelude::*;

verus! {

/// One contribution of an account to a project, at a block timestamp.
pub struct ProjectContribution {
    pub account_id: String,
    pub project_id: u64,
    pub contribution_amount: u64,
    pub timestamp: u64,
}

/// The mathematical value of a [`ProjectContribution`].
pub struct ContributionView {
    pub account_id: Seq<char>,
    pub project_id: u64,
    pub contribution_amount: u64,
    pub timestamp: u64,
}

impl View for ProjectContribution {
    type V = ContributionView;

    open spec fn view(&self) -> ContributionView {
        ContributionView {
            account_id: self.account_id@,
            project_id: self.project_id,
            contribution_amount: self.contribution_amount,
            timestamp: self.timestamp,
        }
    }
}

/// Sum of the amounts that `account` contributed to `project`.
pub open spec fn contribution_total(
    s: Seq<ContributionView>,
    account: Seq<char>,
    project: u64,
) -> nat
    decreases s.len(),
{
    if s.len() == 0 {
        0
    } else {
        contribution_total(s.drop_last(), account, project) + if s.last().account_id == account
            && s.last().project_id == project {
            s.last().contribution_amount as nat
        } else {
            0
        }
    }
}

/// Sum of the amounts that all accounts contributed to `project`.
pub open spec fn project_hours(s: Seq<ContributionView>, project: u64) -> nat
    decreases s.len(),
{
    if s.len() == 0 {
        0
    } else {
        project_hours(s.drop_last(), project) + if s.last().project_id == project {
            s.last().contribution_amount as nat
        } else {
            0
        }
    }
}

/// The records of `account`, in the order they were written.
pub open spec fn account_records(s: Seq<ContributionView>, account: Seq<char>) -> Seq<
    ContributionView,
>
    decreases s.len(),
{
    if s.len() == 0 {
        Seq::empty()
    } else if s.last().account_id == account {
        account_records(s.drop_last(), account).push(s.last())
    } else {
        account_records(s.drop_last(), account)
    }
}

/// An account's contribution to a project is part of the project's hours.
pub proof fn lemma_contribution_within_hours(
    s: Seq<ContributionView>,
    account: Seq<char>,
    project: u64,
)
    ensures
        contribution_total(s, account, project) <= project_hours(s, project),
    decreases s.len(),
{
    if s.len() > 0 {
        lemma_contribution_within_hours(s.drop_last(), account, project);
    }
}

/// Both sums grow by at most `u64::MAX` per record.
proof fn lemma_sums_bounded(s: Seq<ContributionView>, account: Seq<char>, project: u64)
    ensures
        contribution_total(s, account, project) <= s.len() * (u64::MAX as nat),
        project_hours(s, project) <= s.len() * (u64::MAX as nat),
    decreases s.len(),
{
    if s.len() > 0 {
        lemma_sums_bounded(s.drop_last(), account, project);
        assert((s.len() - 1) * (u64::MAX as nat) + u64::MAX == s.len() * (u64::MAX as nat))
            by (nonlinear_arith);
    }
}

/// Appending a record adds its amount to the sums it belongs to.
pub proof fn lemma_append_record(s: Seq<ContributionView>, e: ContributionView, account: Seq<char>, project: u64)
    ensures
        contribution_total(s.push(e), account, project) == contribution_total(s, account, project)
            + if e.account_id == account && e.project_id == project {
            e.contribution_amount as nat
        } else {
            0
        },
        project_hours(s.push(e), project) == project_hours(s, project) + if e.project_id
            == project {
            e.contribution_amount as nat
        } else {
            0
        },
        account_records(s.push(e), account) == if e.account_id == account {
            account_records(s, account).push(e)
        } else {
            account_records(s, account)
        },
{
    assert(s.push(e).drop_last() =~= s);
}

/// The append-only list of contribution records.
pub struct ContributionLedger {
    records: Vec<ProjectContribution>,
}

impl View for ContributionLedger {
    type V = Seq<ContributionView>;

    closed spec fn view(&self) -> Seq<ContributionView> {
        self.records@.map_values(|c: ProjectContribution| c@)
    }
}

/// A copy of a record.
fn copy_record(c: &ProjectContribution) -> (r: ProjectContribution)
    ensures
        r@ == c@,
{
    ProjectContribution {
        account_id: c.account_id.clone(),
        project_id: c.project_id,
        contribution_amount: c.contribution_amount,
        timestamp: c.timestamp,
    }
}

impl ContributionLedger {
    /// An empty ledger.
    pub fn new() -> (r: ContributionLedger)
        ensures
            r@ == Seq::<ContributionView>::empty(),
    {
        let r = ContributionLedger { records: Vec::new() };
        assert(r@ =~= Seq::<ContributionView>::empty());
        r
    }

    /// Appends a record; earlier records are kept as they are.
    pub fn append(&mut self, account_id: String, project_id: u64, amount: u64, timestamp: u64)
        ensures
            final(self)@ == old(self)@.push(
                ContributionView {
                    account_id: account_id@,
                    project_id,
                    contribution_amount: amount,
                    timestamp,
                },
            ),
    {
        let c = ProjectContribution {
            account_id,
            project_id,
            contribution_amount: amount,
            timestamp,
        };
        self.records.push(c);
        assert(self@ =~= old(self)@.push(c@));
    }

    /// Total amount that `account` contributed to `project`.
    pub fn contribution_of(&self, account: &String, project: u64) -> (r: u128)
        ensures
            r == contribution_total(self@, account@, project),
    {
        let mut sum: u128 = 0;
        let mut i: usize = 0;
        while i < self.records.len()
            invariant
                i <= self@.len(),
                self@.len() == self.records@.len(),
                sum == contribution_total(self@.take(i as int), account@, project),
            decreases self@.len() - i,
        {
            let c = &self.records[i];
            proof {
                let t = self@.take(i as int + 1);
                assert(t.drop_last() =~= self@.take(i as int));
                assert(t.last() == c@);
                lemma_sums_bounded(t, account@, project);
                assert(t.len() * (u64::MAX as nat) <= (usize::MAX as nat) * (u64::MAX as nat))
                    by (nonlinear_arith)
                    requires
                        t.len() <= usize::MAX,
                ;
                assert(usize::MAX <= u64::MAX);
                assert((usize::MAX as nat) * (u64::MAX as nat) <= u128::MAX) by (nonlinear_arith)
                    requires
                        usize::MAX <= u64::MAX,
                ;
            }
            if c.account_id == *account && c.project_id == project {
                sum = sum + c.contribution_amount as u128;
            }
            i = i + 1;
        }
        assert(self@.take(self@.len() as int) =~= self@);
        sum
    }

    /// Total amount that all accounts contributed to `project`.
    pub fn total_hours(&self, project: u64) -> (r: u128)
        ensures
            r == project_hours(self@, project),
    {
        let mut sum: u128 = 0;
        let mut i: usize = 0;
        while i < self.records.len()
            invariant
                i <= self@.len(),
                self@.len() == self.records@.len(),
                sum == project_hours(self@.take(i as int), project),
            decreases self@.len() - i,
        {
            let c = &self.records[i];
            proof {
                let t = self@.take(i as int + 1);
                assert(t.drop_last() =~= self@.take(i as int));
                assert(t.last() == c@);
                lemma_sums_bounded(t, Seq::empty(), project);
                assert(t.len() * (u64::MAX as nat) <= (usize::MAX as nat) * (u64::MAX as nat))
                    by (nonlinear_arith)
                    requires
                        t.len() <= usize::MAX,
                ;
                assert(usize::MAX <= u64::MAX);
                assert((usize::MAX as nat) * (u64::MAX as nat) <= u128::MAX) by (nonlinear_arith)
                    requires
                        usize::MAX <= u64::MAX,
                ;
            }
            if c.project_id == project {
                sum = sum + c.contribution_amount as u128;
            }
            i = i + 1;
        }
        assert(self@.take(self@.len() as int) =~= self@);
        sum
    }

    /// The records of `account`, oldest first.
    pub fn records_of(&self, account: &String) -> (r: Vec<ProjectContribution>)
        ensures
            r@.map_values(|c: ProjectContribution| c@) == account_records(self@, account@),
    {
        let mut out: Vec<ProjectContribution> = Vec::new();
        let mut i: usize = 0;
        while i < self.records.len()
            invariant
                i <= self@.len(),
                self@.len() == self.records@.len(),
                out@.map_values(|c: ProjectContribution| c@) == account_records(
                    self@.take(i as int),
                    account@,
                ),
            decreases self@.len() - i,
        {
            let c = &self.records[i];
            proof {
                let t = self@.take(i as int + 1);
                assert(t.drop_last() =~= self@.take(i as int));
                assert(t.last() == c@);
            }
            if c.account_id == *account {
                let ghost before = out@;
                out.push(copy_record(c));
                assert(out@.map_values(|c: ProjectContribution| c@) =~= before.map_values(
                    |c: ProjectContribution| c@,
                ).push(c@));
            }
            i = i + 1;
        }
        assert(self@.take(self@.len() as int) =~= self@);
        out
    }
}

} // verus!
