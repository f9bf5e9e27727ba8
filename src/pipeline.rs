use vstd::prelude::*;

use crate::registry::{Clients, Slot};

verus! {

/// One step of the setup pipeline.
#[derive(Debug)]
pub enum Stage {
    /// Connect to the node and bootstrap: fills `Connection` and `Context`.
    EstablishConnection,
    DeriveEcho,
    DeriveChain,
    DeriveNode,
    DeriveWalletLoader,
    /// Send one message to the echo capability.
    SendEcho,
    /// Create the wallet of this name, then list the wallets to confirm it.
    CreateWallet(String),
}

/// Why a stage failed.
#[derive(Clone, Copy, Debug, PartialEq, Eq, Structural)]
pub enum SetupError {
    /// The node could not be reached, or the bootstrap handshake failed.
    ConnectionError,
    /// The slot that the stage reads is still empty.
    DependencyNotReady(Slot),
    /// The remote call failed, or its reply did not confirm the operation.
    RemoteOperationError,
    /// The submitter stopped listening before the response was delivered.
    ChannelClosed,
}

/// What the remote call of a stage came back with.
pub enum Outcome<C> {
    /// A new connection and its context.
    Connected(C, C),
    /// A newly derived capability.
    Derived(C),
    /// A leaf operation that returns nothing of interest went through.
    Done,
    /// The wallet names listed after a creation.
    Listed(Vec<String>),
    /// The remote call failed.
    Failed,
}

/// The first slot of `slots` that `reg` leaves empty.
pub open spec fn first_missing<C>(slots: Seq<Slot>, reg: Clients<C>) -> Option<Slot>
    decreases slots.len(),
{
    if slots.len() == 0 {
        None
    } else if !reg.occupied(slots[0]) {
        Some(slots[0])
    } else {
        first_missing(slots.drop_first(), reg)
    }
}

/// Whether `names` holds `name`.
pub open spec fn listed(names: Seq<String>, name: Seq<char>) -> bool {
    exists|i: int| 0 <= i < names.len() && names[i]@ == name
}

impl Stage {
    /// The slots that the stage reads, in the order they are checked.
    pub open spec fn needs(&self) -> Seq<Slot> {
        match self {
            Stage::EstablishConnection => seq![],
            Stage::DeriveEcho => seq![Slot::Connection, Slot::Context],
            Stage::DeriveChain => seq![Slot::Connection, Slot::Context],
            Stage::DeriveNode => seq![Slot::Connection, Slot::Context],
            Stage::DeriveWalletLoader => seq![Slot::Node, Slot::Context],
            Stage::SendEcho => seq![Slot::Echo, Slot::Context],
            Stage::CreateWallet(_) => seq![Slot::WalletLoader, Slot::Context],
        }
    }

    /// The slot that a derivation stage fills.
    pub open spec fn derives(&self) -> Option<Slot> {
        match self {
            Stage::DeriveEcho => Some(Slot::Echo),
            Stage::DeriveChain => Some(Slot::Chain),
            Stage::DeriveNode => Some(Slot::Node),
            Stage::DeriveWalletLoader => Some(Slot::WalletLoader),
            _ => None,
        }
    }

    /// Whether `outcome` is of the shape that the stage's remote call returns.
    pub open spec fn fits<C>(&self, outcome: Outcome<C>) -> bool {
        match outcome {
            Outcome::Failed => true,
            Outcome::Connected(_, _) => self is EstablishConnection,
            Outcome::Derived(_) => self.derives() is Some,
            Outcome::Done => self is SendEcho,
            Outcome::Listed(_) => self is CreateWallet,
        }
    }

    /// What the stage answers before any remote call: `Ok` when every slot it
    /// reads is filled, else the first empty one.
    pub open spec fn readiness<C>(&self, reg: Clients<C>) -> Result<(), SetupError> {
        match first_missing(self.needs(), reg) {
            None => Ok(()),
            Some(s) => Err(SetupError::DependencyNotReady(s)),
        }
    }

    /// The registry after the stage's remote call came back with `outcome`.
    pub open spec fn settled<C>(&self, reg: Clients<C>, outcome: Outcome<C>) -> Clients<C> {
        match outcome {
            Outcome::Connected(conn, ctx) => Clients {
                connection: Some(conn),
                context: Some(ctx),
                ..reg
            },
            Outcome::Derived(cap) => match self {
                Stage::DeriveEcho => Clients { echo: Some(cap), ..reg },
                Stage::DeriveChain => Clients { chain: Some(cap), ..reg },
                Stage::DeriveNode => Clients { node: Some(cap), ..reg },
                Stage::DeriveWalletLoader => Clients { wallet_loader: Some(cap), ..reg },
                _ => reg,
            },
            _ => reg,
        }
    }

    /// What the stage answers once its remote call came back with `outcome`.
    pub open spec fn verdict<C>(&self, outcome: Outcome<C>) -> Result<(), SetupError> {
        match outcome {
            Outcome::Failed => if self is EstablishConnection {
                Err(SetupError::ConnectionError)
            } else {
                Err(SetupError::RemoteOperationError)
            },
            Outcome::Listed(names) => match self {
                Stage::CreateWallet(name) => if listed(names@, name@) {
                    Ok(())
                } else {
                    Err(SetupError::RemoteOperationError)
                },
                _ => Err(SetupError::RemoteOperationError),
            },
            _ => Ok(()),
        }
    }

    /// The slots that the stage reads, in the order they are checked.
    pub fn dependencies(&self) -> (r: Vec<Slot>)
        ensures
            r@ == self.needs(),
    {
        let r = match self {
            Stage::EstablishConnection => vec![],
            Stage::DeriveEcho => vec![Slot::Connection, Slot::Context],
            Stage::DeriveChain => vec![Slot::Connection, Slot::Context],
            Stage::DeriveNode => vec![Slot::Connection, Slot::Context],
            Stage::DeriveWalletLoader => vec![Slot::Node, Slot::Context],
            Stage::SendEcho => vec![Slot::Echo, Slot::Context],
            Stage::CreateWallet(_) => vec![Slot::WalletLoader, Slot::Context],
        };
        assert(r@ =~= self.needs());
        r
    }

    /// Whether `outcome` is of the shape that the stage's remote call returns.
    pub fn accepts<C>(&self, outcome: &Outcome<C>) -> (r: bool)
        ensures
            r == self.fits(*outcome),
    {
        match outcome {
            Outcome::Failed => true,
            Outcome::Connected(_, _) => matches!(self, Stage::EstablishConnection),
            Outcome::Derived(_) => matches!(
                self,
                Stage::DeriveEcho | Stage::DeriveChain | Stage::DeriveNode | Stage::DeriveWalletLoader
            ),
            Outcome::Done => matches!(self, Stage::SendEcho),
            Outcome::Listed(_) => matches!(self, Stage::CreateWallet(_)),
        }
    }

    /// Checks, without blocking or waiting, that every slot the stage reads is
    /// filled. The registry is only read.
    pub fn prepare<C>(&self, reg: &Clients<C>) -> (r: Result<(), SetupError>)
        ensures
            r == self.readiness(*reg),
            r is Ok <==> forall|i: int| 0 <= i < self.needs().len() ==> reg.occupied(self.needs()[i]),
    {
        let deps = self.dependencies();
        let mut i: usize = 0;
        assert(deps@.subrange(0, deps@.len() as int) =~= deps@);
        while i < deps.len()
            invariant
                deps@ == self.needs(),
                0 <= i <= deps@.len(),
                first_missing(deps@, *reg) == first_missing(deps@.subrange(i as int, deps@.len() as int), *reg),
                forall|j: int| 0 <= j < i ==> reg.occupied(deps@[j]),
            decreases deps.len() - i,
        {
            let s = deps[i];
            assert(deps@.subrange(i as int, deps@.len() as int).drop_first()
                =~= deps@.subrange(i + 1, deps@.len() as int));
            if !reg.holds(s) {
                assert(!(forall|j: int| 0 <= j < deps@.len() ==> reg.occupied(deps@[j])));
                return Err(SetupError::DependencyNotReady(s));
            }
            i = i + 1;
        }
        assert(deps@.subrange(i as int, deps@.len() as int) =~= Seq::<Slot>::empty());
        Ok(())
    }

    /// Records what the stage's remote call came back with: a new capability is
    /// written to its slot, a failure leaves the registry as it was, and a
    /// wallet creation succeeds only where the listed names hold the new one.
    pub fn finish<C>(&self, reg: &mut Clients<C>, outcome: Outcome<C>) -> (r: Result<(), SetupError>)
        requires
            self.fits(outcome),
        ensures
            *final(reg) == self.settled(*old(reg), outcome),
            r == self.verdict(outcome),
    {
        match outcome {
            Outcome::Connected(conn, ctx) => {
                reg.write(Slot::Connection, conn);
                reg.write(Slot::Context, ctx);
                Ok(())
            },
            Outcome::Derived(cap) => {
                match self {
                    Stage::DeriveEcho => reg.write(Slot::Echo, cap),
                    Stage::DeriveChain => reg.write(Slot::Chain, cap),
                    Stage::DeriveNode => reg.write(Slot::Node, cap),
                    _ => reg.write(Slot::WalletLoader, cap),
                }
                Ok(())
            },
            Outcome::Done => Ok(()),
            Outcome::Listed(names) => {
                match self {
                    Stage::CreateWallet(name) => if wallet_listed(&names, name) {
                        Ok(())
                    } else {
                        Err(SetupError::RemoteOperationError)
                    },
                    _ => Err(SetupError::RemoteOperationError),
                }
            },
            Outcome::Failed => {
                if matches!(self, Stage::EstablishConnection) {
                    Err(SetupError::ConnectionError)
                } else {
                    Err(SetupError::RemoteOperationError)
                }
            },
        }
    }
}

/// Whether `names` holds `name`.
pub fn wallet_listed(names: &Vec<String>, name: &String) -> (r: bool)
    ensures
        r == listed(names@, name@),
{
    let mut i: usize = 0;
    while i < names.len()
        invariant
            0 <= i <= names@.len(),
            forall|j: int| 0 <= j < i ==> names@[j]@ != name@,
        decreases names.len() - i,
    {
        if names[i].eq(name) {
            return true;
        }
        i = i + 1;
    }
    false
}

} // verus!
