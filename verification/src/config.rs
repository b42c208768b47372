//! The settings of a run and the statistics that it reports.

use vstd::prelude::*;
use crate::decimal::{parse_unsigned, str_to_u8, ParseError};

verus! {

/// The settings of a run, as the configuration file holds them.
#[derive(Clone, Debug, PartialEq, Eq)]
pub struct Config {
    /// The private key of the account that signs, in hexadecimal.
    pub private_key: String,
    /// The address of the ledger node.
    pub node_url: String,
    /// The account address under which the verifier contracts are
    /// published.
    pub verifier_address: String,
    /// The number of the network, as a decimal numeral.
    pub chain_id: String,
}

impl Config {
    /// Reads the number of the network.
    pub fn chain_id_number(&self) -> (r: Result<u8, ParseError>)
        ensures
            r matches Ok(v) ==> parse_unsigned(self.chain_id@, u8::MAX as nat) == Ok::<
                nat,
                ParseError,
            >(v as nat),
            r matches Err(e) ==> parse_unsigned(self.chain_id@, u8::MAX as nat) == Err::<
                nat,
                ParseError,
            >(e),
    {
        str_to_u8(self.chain_id.as_str())
    }
}

/// What one transaction, or one step of a workflow, has cost.
#[derive(Clone, Copy, Debug, PartialEq, Eq)]
pub struct StatInfo {
    /// The wall-clock time that the step took, in microseconds.
    pub time_micros: u64,
    /// The gas units that the step consumed.
    pub gas_used: u64,
    /// The number of bytes of the encoded arguments, for a step that has
    /// arguments.
    pub size_bytes: Option<u64>,
}

/// The statistics of a workflow that is a fixed chain of transactions: one
/// entry for each of them, in the order in which they were submitted.
#[derive(Clone, Debug, PartialEq, Eq)]
pub struct WorkflowStat {
    /// The steps of the workflow.
    pub steps: Vec<StatInfo>,
}

/// The statistics of the workflow that verifies a proof and registers it.
#[derive(Clone, Debug, PartialEq, Eq)]
pub struct VparStat {
    /// The step that sends the task metadata ahead.
    pub prepush_task_metadata: StatInfo,
    /// The step that sends the proof data ahead.
    pub prepush_data: StatInfo,
    /// The steps that advance the verification, one entry for each.
    pub vpar: Vec<StatInfo>,
    /// The step that resets the data.
    pub reset_data: StatInfo,
}

/// The statistics of a whole run.
#[derive(Clone, Debug, PartialEq, Eq)]
pub struct GlobalStat {
    /// One entry for each Merkle verification.
    pub verify_merkle: Vec<WorkflowStat>,
    /// One entry for each FRI verification.
    pub verify_fri: Vec<WorkflowStat>,
    /// One entry for each registration of a memory page.
    pub rcmp: Vec<StatInfo>,
    /// The verification of the proof.
    pub vpar: VparStat,
}

impl Default for StatInfo {
    /// A step that took no time, used no gas and had no arguments.
    fn default() -> (s: StatInfo)
        ensures
            s == (StatInfo { time_micros: 0, gas_used: 0, size_bytes: None }),
    {
        StatInfo { time_micros: 0, gas_used: 0, size_bytes: None }
    }
}

impl Default for WorkflowStat {
    /// The statistics of no step.
    fn default() -> (s: WorkflowStat)
        ensures
            s.steps@ == Seq::<StatInfo>::empty(),
    {
        WorkflowStat { steps: Vec::new() }
    }
}

impl Default for VparStat {
    /// The statistics of a workflow of which nothing has run.
    fn default() -> (s: VparStat)
        ensures
            s.prepush_task_metadata == (StatInfo { time_micros: 0, gas_used: 0, size_bytes: None }),
            s.prepush_data == (StatInfo { time_micros: 0, gas_used: 0, size_bytes: None }),
            s.vpar@ == Seq::<StatInfo>::empty(),
            s.reset_data == (StatInfo { time_micros: 0, gas_used: 0, size_bytes: None }),
    {
        VparStat {
            prepush_task_metadata: StatInfo { time_micros: 0, gas_used: 0, size_bytes: None },
            prepush_data: StatInfo { time_micros: 0, gas_used: 0, size_bytes: None },
            vpar: Vec::new(),
            reset_data: StatInfo { time_micros: 0, gas_used: 0, size_bytes: None },
        }
    }
}

impl Default for GlobalStat {
    /// The statistics of a run in which nothing has run.
    fn default() -> (s: GlobalStat)
        ensures
            s.verify_merkle@ == Seq::<WorkflowStat>::empty(),
            s.verify_fri@ == Seq::<WorkflowStat>::empty(),
            s.rcmp@ == Seq::<StatInfo>::empty(),
            s.vpar.prepush_task_metadata == (StatInfo {
                time_micros: 0,
                gas_used: 0,
                size_bytes: None,
            }),
            s.vpar.prepush_data == (StatInfo { time_micros: 0, gas_used: 0, size_bytes: None }),
            s.vpar.vpar@ == Seq::<StatInfo>::empty(),
            s.vpar.reset_data == (StatInfo { time_micros: 0, gas_used: 0, size_bytes: None }),
    {
        GlobalStat {
            verify_merkle: Vec::new(),
            verify_fri: Vec::new(),
            rcmp: Vec::new(),
            vpar: VparStat::default(),
        }
    }
}

/// The gas units of all of `stats` together.
pub open spec fn gas_sum(stats: Seq<StatInfo>) -> nat
    decreases stats.len(),
{
    if stats.len() == 0 {
        0
    } else {
        gas_sum(stats.drop_last()) + stats.last().gas_used as nat
    }
}

/// A prefix of a list of steps has used no more gas than the whole list.
pub proof fn lemma_gas_sum_prefix(stats: Seq<StatInfo>, i: int)
    requires
        0 <= i <= stats.len(),
    ensures
        gas_sum(stats.take(i)) <= gas_sum(stats),
    decreases stats.len(),
{
    if i == stats.len() {
        assert(stats.take(i) =~= stats);
    } else {
        assert(stats.take(i) =~= stats.drop_last().take(i));
        lemma_gas_sum_prefix(stats.drop_last(), i);
    }
}

/// Adds up the gas units of `stats`, or returns `None` where the sum is
/// more than a `u64` holds.
pub fn total_gas(stats: &Vec<StatInfo>) -> (r: Option<u64>)
    ensures
        r matches Some(sum) ==> sum == gas_sum(stats@),
        r is None ==> gas_sum(stats@) > u64::MAX,
{
    let mut sum: u64 = 0;
    let mut i: usize = 0;
    while i < stats.len()
        invariant
            i <= stats.len(),
            sum == gas_sum(stats@.take(i as int)),
        decreases stats.len() - i,
    {
        proof {
            assert(stats@.take(i + 1).drop_last() =~= stats@.take(i as int));
            lemma_gas_sum_prefix(stats@, i + 1);
        }
        match sum.checked_add(stats[i].gas_used) {
            Some(s) => {
                sum = s;
            },
            None => {
                return None;
            },
        }
        i += 1;
    }
    assert(stats@.take(stats.len() as int) =~= stats@);
    Some(sum)
}

/// The gas units of all steps of all of `runs` together.
pub open spec fn runs_gas_sum(runs: Seq<WorkflowStat>) -> nat
    decreases runs.len(),
{
    if runs.len() == 0 {
        0
    } else {
        runs_gas_sum(runs.drop_last()) + gas_sum(runs.last().steps@)
    }
}

/// A prefix of a list of runs has used no more gas than the whole list.
pub proof fn lemma_runs_gas_sum_prefix(runs: Seq<WorkflowStat>, i: int)
    requires
        0 <= i <= runs.len(),
    ensures
        runs_gas_sum(runs.take(i)) <= runs_gas_sum(runs),
    decreases runs.len(),
{
    if i == runs.len() {
        assert(runs.take(i) =~= runs);
    } else {
        assert(runs.take(i) =~= runs.drop_last().take(i));
        lemma_runs_gas_sum_prefix(runs.drop_last(), i);
    }
}

/// Adds up the gas units of all steps of `runs`, or returns `None` where
/// the sum is more than a `u64` holds.
pub fn total_gas_of_runs(runs: &Vec<WorkflowStat>) -> (r: Option<u64>)
    ensures
        r matches Some(sum) ==> sum == runs_gas_sum(runs@),
        r is None ==> runs_gas_sum(runs@) > u64::MAX,
{
    let mut sum: u64 = 0;
    let mut i: usize = 0;
    while i < runs.len()
        invariant
            i <= runs.len(),
            sum == runs_gas_sum(runs@.take(i as int)),
        decreases runs.len() - i,
    {
        proof {
            assert(runs@.take(i + 1).drop_last() =~= runs@.take(i as int));
            lemma_runs_gas_sum_prefix(runs@, i + 1);
        }
        let run = match total_gas(&runs[i].steps) {
            Some(g) => g,
            None => {
                return None;
            },
        };
        match sum.checked_add(run) {
            Some(s) => {
                sum = s;
            },
            None => {
                return None;
            },
        }
        i += 1;
    }
    assert(runs@.take(runs.len() as int) =~= runs@);
    Some(sum)
}

impl VparStat {
    /// The gas units of all steps of the workflow together.
    pub open spec fn gas(&self) -> nat {
        self.prepush_task_metadata.gas_used as nat + self.prepush_data.gas_used as nat + gas_sum(
            self.vpar@,
        ) + self.reset_data.gas_used as nat
    }

    /// Adds up the gas units of all steps of the workflow, or returns
    /// `None` where the sum is more than a `u64` holds.
    pub fn total_gas(&self) -> (r: Option<u64>)
        ensures
            r matches Some(sum) ==> sum == self.gas(),
            r is None ==> self.gas() > u64::MAX,
    {
        let advancing = match total_gas(&self.vpar) {
            Some(g) => g,
            None => {
                return None;
            },
        };
        let ahead = match self.prepush_task_metadata.gas_used.checked_add(
            self.prepush_data.gas_used,
        ) {
            Some(g) => g,
            None => {
                return None;
            },
        };
        let before_reset = match ahead.checked_add(advancing) {
            Some(g) => g,
            None => {
                return None;
            },
        };
        before_reset.checked_add(self.reset_data.gas_used)
    }
}

impl GlobalStat {
    /// The gas units of the whole run.
    pub open spec fn gas(&self) -> nat {
        runs_gas_sum(self.verify_merkle@) + runs_gas_sum(self.verify_fri@) + gas_sum(self.rcmp@)
            + self.vpar.gas()
    }

    /// Adds up the gas units of the whole run, or returns `None` where the
    /// sum is more than a `u64` holds.
    pub fn total_gas(&self) -> (r: Option<u64>)
        ensures
            r matches Some(sum) ==> sum == self.gas(),
            r is None ==> self.gas() > u64::MAX,
    {
        let merkle = match total_gas_of_runs(&self.verify_merkle) {
            Some(g) => g,
            None => {
                return None;
            },
        };
        let fri = match total_gas_of_runs(&self.verify_fri) {
            Some(g) => g,
            None => {
                return None;
            },
        };
        let rcmp = match total_gas(&self.rcmp) {
            Some(g) => g,
            None => {
                return None;
            },
        };
        let vpar = match self.vpar.total_gas() {
            Some(g) => g,
            None => {
                return None;
            },
        };
        let statements = match merkle.checked_add(fri) {
            Some(g) => g,
            None => {
                return None;
            },
        };
        let pages = match statements.checked_add(rcmp) {
            Some(g) => g,
            None => {
                return None;
            },
        };
        pages.checked_add(vpar)
    }
}

} // verus!
