//! The life of a sandbox: a slot is reserved, an environment is
//! provisioned, one operation is run, the environment is released. Each
//! step hands on a value that the next step consumes, so that a sandbox
//! cannot run a second operation.

use crate::error::{Error, ErrorView};
use crate::isolation::{provision_command, provision_words, runtime_command};
use crate::job::{Job, JobView};
use crate::limits::Limits;
use crate::model::{CompileRequest, ExecuteRequest, FormatRequest, Request, RequestView};
use crate::pool::Pool;
use crate::toolchain::Command;
use vstd::prelude::*;

verus! {

/// The phases of a sandbox's life, in their order.
#[derive(Clone, Copy, Debug, PartialEq, Eq, Structural)]
pub enum Phase {
    /// A slot is reserved and the environment is being provisioned.
    Created,
    /// The environment is live and nothing has run in it.
    Ready,
    /// The one operation is under way.
    Busy,
    /// The operation has ended; the environment is being released or has
    /// been.
    Done,
}

/// A live environment, as far as the sandbox needs to know it.
#[derive(Clone, Debug, PartialEq, Eq)]
pub struct Environment {
    /// The identifier of the sandbox, which no other live sandbox has.
    pub id: u64,
    /// The working directory, which belongs to this environment alone.
    pub workdir: String,
}

/// A reserved slot: the sandbox in its first phase.
#[derive(Debug)]
pub struct Ticket {
    id: u64,
}

/// A sandbox that is ready to run its one operation.
#[derive(Debug)]
pub struct Sandbox {
    env: Environment,
    limits: Limits,
}

pub struct SandboxView {
    pub id: u64,
    pub workdir: Seq<char>,
    pub limits: Limits,
}

impl View for Sandbox {
    type V = SandboxView;

    closed spec fn view(&self) -> SandboxView {
        SandboxView { id: self.env.id, workdir: self.env.workdir@, limits: self.limits }
    }
}

impl Ticket {
    /// The identifier that the sandbox will have.
    pub closed spec fn number(&self) -> u64 {
        self.id
    }

    /// Reserves a slot for a sandbox, before anything is provisioned.
    /// Fails at once, with `ResourcesExhausted`, where the pool has no
    /// room.
    pub fn reserve(pool: &mut Pool) -> (r: Result<Ticket, Error>)
        ensures
            final(pool)@.sound(),
            old(pool)@.has_room() ==> r is Ok && r->Ok_0.number() == old(pool)@.next_id
                && final(pool)@ == old(pool)@.taken() && !old(pool)@.busy.contains(
                r->Ok_0.number(),
            ) && final(pool)@.busy.contains(r->Ok_0.number()),
            !old(pool)@.has_room() ==> r is Err && r->Err_0@ == ErrorView::ResourcesExhausted
                && final(pool)@ == old(pool)@,
    {
        match pool.acquire() {
            Ok(id) => Ok(Ticket { id }),
            Err(error) => Err(error),
        }
    }

    /// The identifier that the sandbox will have.
    pub fn id(&self) -> (r: u64)
        ensures
            r == self.number(),
    {
        self.id
    }

    /// The command that provisions the environment of the sandbox around
    /// the working directory `workdir`.
    pub fn provision(&self, workdir: &str, limits: &Limits) -> (r: Command)
        ensures
            r@ == runtime_command(provision_words(self.number(), workdir@, *limits)),
    {
        provision_command(self.id, workdir, limits)
    }

    /// The phase that a ticket stands for.
    pub fn phase(&self) -> (r: Phase)
        ensures
            r == Phase::Created,
    {
        Phase::Created
    }
}

impl Sandbox {
    /// Makes the sandbox of a ticket, given how provisioning went: the
    /// working directory of the new environment, or the reason why there
    /// is none. In the second case the result is `ProvisioningFailed`
    /// with that reason, and the slot goes back to the pool.
    pub fn new(
        ticket: Ticket,
        pool: &mut Pool,
        provisioned: Result<String, String>,
        limits: Limits,
    ) -> (r: Result<Sandbox, Error>)
        ensures
            match provisioned {
                Ok(workdir) => {
                    &&& r is Ok
                    &&& r->Ok_0@ == SandboxView { id: ticket.number(), workdir: workdir@, limits }
                    &&& final(pool)@ == old(pool)@
                },
                Err(why) => {
                    &&& r is Err
                    &&& r->Err_0@ == ErrorView::ProvisioningFailed(why@)
                    &&& final(pool)@ == old(pool)@.without(ticket.number())
                    &&& !final(pool)@.busy.contains(ticket.number())
                    &&& old(pool)@.busy.contains(ticket.number()) ==> final(pool)@.busy.len()
                        == old(pool)@.busy.len() - 1
                },
            },
    {
        match provisioned {
            Ok(workdir) => Ok(Sandbox { env: Environment { id: ticket.id, workdir }, limits }),
            Err(why) => {
                pool.release(ticket.id);
                Err(Error::ProvisioningFailed(why))
            },
        }
    }

    /// The identifier of the sandbox.
    pub fn id(&self) -> (r: u64)
        ensures
            r == self@.id,
    {
        self.env.id
    }

    /// The working directory of the environment.
    pub fn workdir(&self) -> (r: &str)
        ensures
            r@ == self@.workdir,
    {
        self.env.workdir.as_str()
    }

    /// The phase that a sandbox stands for.
    pub fn phase(&self) -> (r: Phase)
        ensures
            r == Phase::Ready,
    {
        Phase::Ready
    }

    /// Starts a compilation. The sandbox is used up.
    pub fn compile(self, request: CompileRequest) -> (job: Job)
        ensures
            job@ == JobView::start(
                self@.id,
                self@.workdir,
                self@.limits,
                RequestView::Compile(request@),
            ),
    {
        Job::start(self.env, self.limits, Request::Compile(request))
    }

    /// Starts an execution. The sandbox is used up.
    pub fn execute(self, request: ExecuteRequest) -> (job: Job)
        ensures
            job@ == JobView::start(
                self@.id,
                self@.workdir,
                self@.limits,
                RequestView::Execute(request@),
            ),
    {
        Job::start(self.env, self.limits, Request::Execute(request))
    }

    /// Starts a formatting. The sandbox is used up.
    pub fn format(self, request: FormatRequest) -> (job: Job)
        ensures
            job@ == JobView::start(
                self@.id,
                self@.workdir,
                self@.limits,
                RequestView::Format(request@),
            ),
    {
        Job::start(self.env, self.limits, Request::Format(request))
    }

    /// Gives the sandbox up without running anything: what is left is to
    /// release the environment.
    pub fn discard(self) -> (job: Job)
        ensures
            job@ == JobView::discarded(self@.id, self@.workdir, self@.limits),
    {
        Job::discard(self.env, self.limits)
    }
}

} // verus!
