use vstd::prelude::*;

pub mod executor;
pub mod laws;
pub mod pipeline;
pub mod registry;

use crate::pipeline::Stage;

verus! {

/// A request from the user interface.
#[derive(Clone, Copy, Debug, PartialEq, Eq, Structural)]
pub enum WalletMessage {
    CreateNewWallet,
}

impl WalletMessage {
    /// The stages that serve the request, in the order the caller must await them.
    pub fn stages(&self, wallet_name: &String) -> (r: Vec<Stage>)
        ensures
            r@.len() == 3,
            r@[0] is DeriveNode,
            r@[1] is DeriveWalletLoader,
            r@[2] is CreateWallet,
            r@[2]->CreateWallet_0@ == wallet_name@,
    {
        match self {
            WalletMessage::CreateNewWallet => vec![
                Stage::DeriveNode,
                Stage::DeriveWalletLoader,
                Stage::CreateWallet(wallet_name.clone()),
            ],
        }
    }
}

} // verus!
