//! The supervisor: registration of bots before the run, and the protocol
//! that runs them as concurrent tasks and shuts them down together.
//!
//! The protocol is a state machine. The caller owns the actual tasks and
//! channels; it asks `next_action` what to do, performs the action — spawn
//! a task, block on the shutdown trigger, send one cancellation, join one
//! task — and records the outcome. Spawning a task and keeping its
//! cancellation sender is one action, so every running task has exactly one
//! sender and one handle; no sender exists without its task, nor a task
//! without its sender. The contracts prove the lifecycle guarantees: with
//! no bots the run finishes at once without awaiting the shutdown trigger,
//! and the run can finish only when every spawned task has been joined —
//! whether it succeeded or failed — so no task outlives the run.

use vstd::prelude::*;

use crate::auth::UserWhitelist;
use crate::config::{spec_config_list, spec_lookup, Config, ConfigError};

verus! {

/// What a Telegram bot needs to run: its token and who may command it.
pub struct TelegramBotSpec {
    pub token: String,
    pub auth: UserWhitelist,
}

/// One registered bot, tagged by platform.
pub enum BotSpec {
    Telegram(TelegramBotSpec),
}

/// The set of bots to run, gathered before the run starts.
pub struct BotManager {
    bots: Vec<BotSpec>,
}

impl View for BotManager {
    type V = Seq<BotSpec>;

    closed spec fn view(&self) -> Seq<BotSpec> {
        self.bots@
    }
}

/// The configuration key that holds the bot token.
pub open spec fn spec_token_key() -> Seq<char> {
    "BOT_TOKEN"@
}

/// The configuration key that holds the permitted users.
pub open spec fn spec_users_key() -> Seq<char> {
    "BOT_ALLOWED_USERS"@
}

impl BotManager {
    /// A manager with no bots registered.
    pub fn new() -> (r: BotManager)
        ensures
            r@ == Seq::<BotSpec>::empty(),
    {
        BotManager { bots: Vec::new() }
    }

    /// Builds a manager with the one Telegram bot the configuration
    /// describes: its token under `BOT_TOKEN`, its permitted users under
    /// `BOT_ALLOWED_USERS`. Fails with the missing token's key, or, the
    /// token present, with the user list's key when that list is empty.
    pub fn from_config(config: &Config) -> (r: Result<BotManager, ConfigError>)
        ensures
            (r is Ok) == (spec_lookup(config@, spec_token_key()) is Some && spec_config_list(
                config@,
                spec_users_key(),
            ).len() > 0),
            r matches Ok(m) ==> m@.len() == 1 && (m@[0] matches BotSpec::Telegram(bot)
                && Some(bot.token@) == spec_lookup(config@, spec_token_key()) && (forall|u: u64|
                bot.auth@.contains(u) <==> spec_config_list(config@, spec_users_key()).contains(
                    u,
                ))),
            r matches Err(e) ==> (if spec_lookup(config@, spec_token_key()) is None {
                e matches ConfigError::MissingKey { key } && key@ == spec_token_key()
            } else {
                e matches ConfigError::EmptyList { key } && key@ == spec_users_key()
            }),
    {
        let token: String = match config.required("BOT_TOKEN") {
            Ok(t) => t.to_owned(),
            Err(e) => {
                return Err(e);
            },
        };
        let users: Vec<u64> = match config.required_list("BOT_ALLOWED_USERS") {
            Ok(l) => l,
            Err(e) => {
                return Err(e);
            },
        };
        let auth = UserWhitelist::from_iter(users);
        let mut manager = BotManager::new();
        manager.add(BotSpec::Telegram(TelegramBotSpec { token, auth }));
        Ok(manager)
    }

    /// Registers one more bot; only sensible before the run starts.
    pub fn add(&mut self, bot: BotSpec)
        ensures
            final(self)@ == old(self)@.push(bot),
    {
        self.bots.push(bot);
    }

    /// How many bots are registered.
    pub fn bot_count(&self) -> (n: usize)
        ensures
            n == self@.len(),
    {
        self.bots.len()
    }

    /// Hands the registered bots over to whoever runs them, consuming the
    /// manager as the run does.
    pub fn into_bots(self) -> (r: Vec<BotSpec>)
        ensures
            r@ == self@,
    {
        self.bots
    }
}

impl Default for BotManager {
    /// A manager with no bots registered.
    fn default() -> (r: BotManager)
        ensures
            r@ == Seq::<BotSpec>::empty(),
    {
        BotManager::new()
    }
}

/// One step of the supervision protocol.
#[derive(Debug, Clone, Copy, PartialEq, Eq, Structural)]
pub enum SupervisorAction {
    /// Spawn the bot with this index as an independent task, creating its
    /// cancellation channel in the same step: the task and the kept sender
    /// come into being together.
    Spawn(usize),
    /// Every task runs: block until the external shutdown trigger fires.
    AwaitShutdown,
    /// Send the cancellation signal to the channel of the task at this
    /// index. Best effort: a send that fails because the receiver already
    /// exited is fine.
    SendCancel(usize),
    /// Await the completion of the task at this index. One that failed
    /// still counts as completed; its failure is recorded, never
    /// propagated.
    Join(usize),
    /// Everything is joined (or nothing was to run): the run returns.
    Finish,
}

/// The supervision protocol's state: how far the run has come.
pub struct Supervisor {
    /// How many bots the run was started with.
    pub total: usize,
    /// How many tasks were spawned, each with its own cancellation sender.
    pub spawned: usize,
    /// Whether the shutdown trigger has fired.
    pub shutdown_seen: bool,
    /// How many tasks were sent their cancellation signal.
    pub cancelled: usize,
    /// How many tasks were joined.
    pub joined: usize,
}

impl Supervisor {
    /// The protocol's invariant: tasks are spawned before the shutdown is
    /// awaited, cancelled only after it fired, and joined only after their
    /// cancellation was sent.
    pub open spec fn wf(&self) -> bool {
        &&& self.spawned <= self.total
        &&& self.cancelled <= self.spawned
        &&& self.joined <= self.cancelled
        &&& (self.shutdown_seen ==> self.spawned == self.total)
        &&& (self.cancelled > 0 ==> self.shutdown_seen)
    }

    /// What the run must do next: spawn every bot, await the shutdown
    /// trigger, then for each task in turn send its cancellation and join
    /// it; with no bots, finish at once.
    pub open spec fn spec_next(&self) -> SupervisorAction {
        if self.total == 0 {
            SupervisorAction::Finish
        } else if self.spawned < self.total {
            SupervisorAction::Spawn(self.spawned as usize)
        } else if !self.shutdown_seen {
            SupervisorAction::AwaitShutdown
        } else if self.cancelled == self.joined && self.cancelled < self.total {
            SupervisorAction::SendCancel(self.cancelled as usize)
        } else if self.joined < self.cancelled {
            SupervisorAction::Join(self.joined as usize)
        } else {
            SupervisorAction::Finish
        }
    }

    /// Starts the protocol for `total` registered bots.
    pub fn new(total: usize) -> (r: Supervisor)
        ensures
            r.wf(),
            r.total == total,
            r.spawned == 0,
            !r.shutdown_seen,
            r.cancelled == 0,
            r.joined == 0,
    {
        Supervisor { total, spawned: 0, shutdown_seen: false, cancelled: 0, joined: 0 }
    }

    /// Names the next action.
    pub fn next_action(&self) -> (a: SupervisorAction)
        ensures
            a == self.spec_next(),
    {
        if self.total == 0 {
            SupervisorAction::Finish
        } else if self.spawned < self.total {
            SupervisorAction::Spawn(self.spawned)
        } else if !self.shutdown_seen {
            SupervisorAction::AwaitShutdown
        } else if self.cancelled == self.joined && self.cancelled < self.total {
            SupervisorAction::SendCancel(self.cancelled)
        } else if self.joined < self.cancelled {
            SupervisorAction::Join(self.joined)
        } else {
            SupervisorAction::Finish
        }
    }

    /// Whether the run may return.
    pub fn done(&self) -> (r: bool)
        ensures
            r == (self.spec_next() is Finish),
    {
        match self.next_action() {
            SupervisorAction::Finish => true,
            _ => false,
        }
    }

    /// Records that the named bot's task was spawned, together with its
    /// cancellation sender.
    pub fn on_spawned(&mut self)
        requires
            old(self).wf(),
            old(self).spec_next() is Spawn,
        ensures
            final(self).wf(),
            final(self).total == old(self).total,
            final(self).spawned == old(self).spawned + 1,
            final(self).shutdown_seen == old(self).shutdown_seen,
            final(self).cancelled == old(self).cancelled,
            final(self).joined == old(self).joined,
    {
        self.spawned = self.spawned + 1;
    }

    /// Records that the shutdown trigger fired.
    pub fn on_shutdown(&mut self)
        requires
            old(self).wf(),
            old(self).spec_next() is AwaitShutdown,
        ensures
            final(self).wf(),
            final(self).total == old(self).total,
            final(self).spawned == old(self).spawned,
            final(self).shutdown_seen,
            final(self).cancelled == old(self).cancelled,
            final(self).joined == old(self).joined,
    {
        self.shutdown_seen = true;
    }

    /// Records that one task's cancellation signal was sent. Whether the
    /// send was delivered does not matter: a task that exited on its own
    /// no longer listens, and that is a normal outcome.
    pub fn on_cancel_sent(&mut self, delivered: bool)
        requires
            old(self).wf(),
            old(self).spec_next() is SendCancel,
        ensures
            final(self).wf(),
            final(self).total == old(self).total,
            final(self).spawned == old(self).spawned,
            final(self).shutdown_seen == old(self).shutdown_seen,
            final(self).cancelled == old(self).cancelled + 1,
            final(self).joined == old(self).joined,
    {
        let _ = delivered;
        self.cancelled = self.cancelled + 1;
    }

    /// Records that one task was joined. A failed task counts the same as
    /// a successful one: its failure is logged by the caller, never
    /// propagated, and never stops the remaining joins.
    pub fn on_task_joined(&mut self, failed: bool)
        requires
            old(self).wf(),
            old(self).spec_next() is Join,
        ensures
            final(self).wf(),
            final(self).total == old(self).total,
            final(self).spawned == old(self).spawned,
            final(self).shutdown_seen == old(self).shutdown_seen,
            final(self).cancelled == old(self).cancelled,
            final(self).joined == old(self).joined + 1,
    {
        let _ = failed;
        self.joined = self.joined + 1;
    }
}

/// With no bots registered the run finishes at once: the very first action
/// is already `Finish`, no task was spawned, no cancellation sender exists,
/// and the shutdown trigger is never awaited.
pub proof fn lemma_no_bots_finishes_immediately(s: Supervisor)
    requires
        s.wf(),
        s.total == 0,
    ensures
        s.spec_next() is Finish,
        s.spawned == 0,
        s.cancelled == 0,
        s.joined == 0,
{
}

/// The run returns only once every task is done: whenever the protocol
/// reaches `Finish`, every one of the bots was spawned, sent its
/// cancellation, and joined — regardless of whether individual tasks
/// failed, since a failed join counts like any other.
pub proof fn lemma_finish_only_after_all_joined(s: Supervisor)
    requires
        s.wf(),
        s.spec_next() is Finish,
    ensures
        s.spawned == s.total,
        s.cancelled == s.total,
        s.joined == s.total,
{
}

} // verus!
