use vstd::prelude::*;

verus! {

/// One named entry of the capability registry.
#[derive(Clone, Copy, Debug, PartialEq, Eq, Structural)]
pub enum Slot {
    Connection,
    Context,
    Echo,
    Chain,
    Node,
    WalletLoader,
}

/// The capabilities acquired so far, one optional value per slot.
///
/// A slot is either empty or holds exactly one capability; a write replaces
/// the whole value of one slot and leaves every other slot as it was.
pub struct Clients<C> {
    pub connection: Option<C>,
    pub context: Option<C>,
    pub echo: Option<C>,
    pub chain: Option<C>,
    pub node: Option<C>,
    pub wallet_loader: Option<C>,
}

impl<C> Clients<C> {
    /// What `slot` holds.
    pub open spec fn slot(&self, slot: Slot) -> Option<C> {
        match slot {
            Slot::Connection => self.connection,
            Slot::Context => self.context,
            Slot::Echo => self.echo,
            Slot::Chain => self.chain,
            Slot::Node => self.node,
            Slot::WalletLoader => self.wallet_loader,
        }
    }

    /// Whether `slot` holds a capability.
    pub open spec fn occupied(&self, slot: Slot) -> bool {
        self.slot(slot).is_some()
    }

    /// The registry as a map from the occupied slots to their capabilities.
    pub open spec fn view(&self) -> Map<Slot, C> {
        Map::new(|s: Slot| self.occupied(s), |s: Slot| self.slot(s).unwrap())
    }

    /// The registry with `slot` holding `value` and every other slot unchanged.
    pub open spec fn put(self, slot: Slot, value: C) -> Self {
        match slot {
            Slot::Connection => Clients { connection: Some(value), ..self },
            Slot::Context => Clients { context: Some(value), ..self },
            Slot::Echo => Clients { echo: Some(value), ..self },
            Slot::Chain => Clients { chain: Some(value), ..self },
            Slot::Node => Clients { node: Some(value), ..self },
            Slot::WalletLoader => Clients { wallet_loader: Some(value), ..self },
        }
    }

    /// A registry with every slot empty.
    pub fn new() -> (r: Self)
        ensures
            forall|s: Slot| r.slot(s) is None,
            r@ == Map::<Slot, C>::empty(),
            r == (Clients::<C> {
                connection: None,
                context: None,
                echo: None,
                chain: None,
                node: None,
                wallet_loader: None,
            }),
    {
        let r = Clients {
            connection: None,
            context: None,
            echo: None,
            chain: None,
            node: None,
            wallet_loader: None,
        };
        assert(r@ =~= Map::<Slot, C>::empty());
        r
    }

    /// The capability held in `slot`, if any. An empty slot is a valid answer.
    pub fn read(&self, slot: Slot) -> (r: Option<&C>)
        ensures
            r is Some <==> self.occupied(slot),
            r is Some ==> *r.unwrap() == self.slot(slot).unwrap(),
    {
        match slot {
            Slot::Connection => self.connection.as_ref(),
            Slot::Context => self.context.as_ref(),
            Slot::Echo => self.echo.as_ref(),
            Slot::Chain => self.chain.as_ref(),
            Slot::Node => self.node.as_ref(),
            Slot::WalletLoader => self.wallet_loader.as_ref(),
        }
    }

    /// Whether `slot` holds a capability.
    pub fn holds(&self, slot: Slot) -> (r: bool)
        ensures
            r == self.occupied(slot),
    {
        match slot {
            Slot::Connection => self.connection.is_some(),
            Slot::Context => self.context.is_some(),
            Slot::Echo => self.echo.is_some(),
            Slot::Chain => self.chain.is_some(),
            Slot::Node => self.node.is_some(),
            Slot::WalletLoader => self.wallet_loader.is_some(),
        }
    }

    /// Replaces the value of `slot` with `value`; every other slot keeps its value.
    pub fn write(&mut self, slot: Slot, value: C)
        ensures
            *final(self) == old(self).put(slot, value),
            final(self)@ == old(self)@.insert(slot, value),
            final(self).slot(slot) == Some(value),
            forall|s: Slot| s != slot ==> final(self).slot(s) == old(self).slot(s),
    {
        let ghost before = *self;
        match slot {
            Slot::Connection => self.connection = Some(value),
            Slot::Context => self.context = Some(value),
            Slot::Echo => self.echo = Some(value),
            Slot::Chain => self.chain = Some(value),
            Slot::Node => self.node = Some(value),
            Slot::WalletLoader => self.wallet_loader = Some(value),
        }
        assert(self@ =~= before@.insert(slot, value));
    }
}

} // verus!
