//! Which integrations run, and when the sync loop starts them.

use vstd::prelude::*;
use crate::integrations::paperless_ngx::{self, PaperlessIntegration};

verus! {

/// One configured integration, as the configuration file lists it.
pub enum IntegrationConfig {
    PaperlessNGX { host: String, token: String },
}

impl IntegrationConfig {
    /// The integration that this entry configures.
    pub fn into_integration(self) -> (res: PaperlessIntegration)
        ensures
            match self {
                IntegrationConfig::PaperlessNGX { host, token } => res.host == host && res.token == token,
            },
    {
        match self {
            IntegrationConfig::PaperlessNGX { host, token } => paperless_ngx::new(host, token),
        }
    }
}

/// The settings of the timeline server, as far as the library reads them.
pub struct AppConfig {
    pub integration: Vec<IntegrationConfig>,
    pub database_url: String,
}

/// Whether `i` is the integration that configuration entry `c` describes.
pub open spec fn configured_as(c: IntegrationConfig, i: PaperlessIntegration) -> bool {
    match c {
        IntegrationConfig::PaperlessNGX { host, token } => i.host@ == host@ && i.token@ == token@,
    }
}

impl AppConfig {
    /// The integrations of every configuration entry, in the order listed.
    pub fn integrations(&self) -> (res: Vec<PaperlessIntegration>)
        ensures
            res.len() == self.integration.len(),
            forall|k: int|
                0 <= k < res.len() ==> configured_as(self.integration@[k], #[trigger] res@[k]),
    {
        let mut res: Vec<PaperlessIntegration> = Vec::new();
        let mut k: usize = 0;
        while k < self.integration.len()
            invariant
                k <= self.integration.len(),
                res.len() == k,
                forall|j: int|
                    0 <= j < k ==> configured_as(self.integration@[j], #[trigger] res@[j]),
            decreases self.integration.len() - k,
        {
            let made = match &self.integration[k] {
                IntegrationConfig::PaperlessNGX { host, token } => paperless_ngx::new(
                    host.clone(),
                    token.clone(),
                ),
            };
            res.push(made);
            k = k + 1;
        }
        res
    }
}

/// How long the sync loop waits between two rounds: thirty minutes.
pub open spec fn sync_interval() -> u64 {
    1_800_000
}

/// What the sync loop does next.
#[derive(Clone, Copy, Debug, PartialEq, Eq)]
pub enum SyncAction {
    /// Start a sync task for the integration with this index.
    Spawn(usize),
    /// Wait this many milliseconds.
    Sleep(u64),
}

/// The action at `position` of a round over `count` integrations: one
/// spawn per integration, in order, then the wait.
pub open spec fn scheduled_action(count: nat, position: nat) -> SyncAction {
    if position < count {
        SyncAction::Spawn(position as usize)
    } else {
        SyncAction::Sleep(sync_interval())
    }
}

/// The position after `position` in a round over `count` integrations.
pub open spec fn following_position(count: nat, position: nat) -> nat {
    if position < count {
        (position + 1) as nat
    } else {
        0
    }
}

/// The position after `steps` actions, starting a round at position 0.
pub open spec fn position_after(count: nat, steps: nat) -> nat
    decreases steps,
{
    if steps == 0 {
        0
    } else {
        following_position(count, position_after(count, (steps - 1) as nat))
    }
}

/// The sync loop's place in its endless rounds over the integrations.
pub struct SyncSchedule {
    pub count: usize,
    pub position: usize,
}

impl SyncSchedule {
    pub open spec fn wf(&self) -> bool {
        self.position <= self.count
    }

    /// A schedule over `count` integrations, at the start of a round.
    pub fn new(count: usize) -> (res: SyncSchedule)
        ensures
            res.wf(),
            res.count == count,
            res.position == 0,
    {
        SyncSchedule { count, position: 0 }
    }

    /// The next action of the sync loop; the schedule moves on by one.
    pub fn next_action(&mut self) -> (res: SyncAction)
        requires
            old(self).wf(),
        ensures
            final(self).wf(),
            final(self).count == old(self).count,
            res == scheduled_action(old(self).count as nat, old(self).position as nat),
            final(self).position == following_position(
                old(self).count as nat,
                old(self).position as nat,
            ),
    {
        if self.position < self.count {
            let i = self.position;
            self.position = self.position + 1;
            SyncAction::Spawn(i)
        } else {
            self.position = 0;
            SyncAction::Sleep(1000 * 60 * 30)
        }
    }
}

/// After `steps` actions the schedule stands at `steps` modulo the round
/// length (one spawn per integration plus the wait): the loop repeats the
/// same round forever, every integration spawned once per round, in order,
/// and the wait last.
pub proof fn lemma_rounds_repeat(count: nat, steps: nat)
    ensures
        position_after(count, steps) == steps % (count + 1),
        scheduled_action(count, position_after(count, steps)) == if steps % (count + 1) < count {
            SyncAction::Spawn((steps % (count + 1)) as usize)
        } else {
            SyncAction::Sleep(sync_interval())
        },
    decreases steps,
{
    let m = (count + 1) as int;
    if steps == 0 {
        assert(0int % m == 0) by (nonlinear_arith)
            requires
                m > 0,
        ;
    } else {
        lemma_rounds_repeat(count, (steps - 1) as nat);
        let p = ((steps - 1) as int) % m;
        vstd::arithmetic::div_mod::lemma_fundamental_div_mod((steps - 1) as int, m);
        vstd::arithmetic::div_mod::lemma_mod_bound((steps - 1) as int, m);
        let q = ((steps - 1) as int) / m;
        if p < count {
            vstd::arithmetic::div_mod::lemma_fundamental_div_mod_converse(
                steps as int,
                m,
                q,
                p + 1,
            );
        } else {
            assert((q + 1) * m == q * m + m) by (nonlinear_arith);
            vstd::arithmetic::div_mod::lemma_fundamental_div_mod_converse(
                steps as int,
                m,
                q + 1,
                0,
            );
        }
    }
}

/// The sync loop waits thirty minutes between rounds.
pub proof fn lemma_sync_waits_thirty_minutes()
    ensures
        sync_interval() == 30 * 60 * 1000,
{
}

} // verus!
