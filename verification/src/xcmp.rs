//! Assets that arrive from other parachains: the message that announces a
//! transfer, the registry that gives each foreign asset an id of this
//! chain, and the decision what to credit when a message comes in.

use crate::error::Error;
use crate::types::{AccountId, AssetId, Balance, ParaId};
use std::collections::BTreeMap;
use vstd::prelude::*;

verus! {

/// A message between parachains.
pub enum XCMPMessage<XAccountId, XBalance, XAssetIdOf> {
    /// Transfer tokens to the given account from the parachain account.
    /// Without an asset id the transfer is of the sender's main currency.
    TransferToken(XAccountId, XBalance, Option<XAssetIdOf>),
}

/// An asset as its home parachain names it: the parachain, and the id that
/// the asset has there, or none for the parachain's main currency.
pub type ParaAsset = (ParaId, Option<AssetId>);

/// What is to be credited for a transfer that came in from a parachain.
#[derive(Clone, Copy, Debug, PartialEq, Eq)]
pub struct AssetDeposit {
    /// The parachain that the transfer came from.
    pub para_id: ParaId,
    /// The asset's id on that parachain.
    pub para_asset_id: Option<AssetId>,
    /// The account to credit.
    pub dest: AccountId,
    /// The asset's id on this chain.
    pub asset_id: AssetId,
    /// The amount to credit.
    pub amount: Balance,
    /// Whether the asset was unknown until this transfer and has just been
    /// given its id.
    pub registered: bool,
}

/// The state of the registry.
pub struct ModuleView {
    /// The id on this chain of each foreign asset that has been seen.
    pub asset_id_by_para_asset_id: Map<ParaAsset, AssetId>,
    /// The id that the next unseen asset is given.
    pub next_asset_id: AssetId,
}

impl ModuleView {
    /// Every id that was given out is below the next one to give out, and
    /// no two assets share an id.
    pub open spec fn wf(self) -> bool {
        &&& self.asset_id_by_para_asset_id.dom().finite()
        &&& forall|asset: ParaAsset| #[trigger]
            self.asset_id_by_para_asset_id.contains_key(asset)
                ==> self.asset_id_by_para_asset_id[asset] < self.next_asset_id
        &&& forall|a: ParaAsset, b: ParaAsset|
            #![trigger self.asset_id_by_para_asset_id[a], self.asset_id_by_para_asset_id[b]]
            self.asset_id_by_para_asset_id.contains_key(a)
                && self.asset_id_by_para_asset_id.contains_key(b) && a != b
                ==> self.asset_id_by_para_asset_id[a] != self.asset_id_by_para_asset_id[b]
    }

    /// The id of an asset on this chain, where it has one.
    pub open spec fn spec_ensure_asset_id_exists(
        self,
        para_id: ParaId,
        para_asset_id: Option<AssetId>,
    ) -> Result<AssetId, Error> {
        if self.asset_id_by_para_asset_id.contains_key((para_id, para_asset_id)) {
            Ok(self.asset_id_by_para_asset_id[(para_id, para_asset_id)])
        } else {
            Err(Error::AssetIdDoesNotExist)
        }
    }

    /// The registry after `asset` was given the next id.
    pub open spec fn spec_register(self, asset: ParaAsset) -> ModuleView {
        ModuleView {
            asset_id_by_para_asset_id: self.asset_id_by_para_asset_id.insert(
                asset,
                self.next_asset_id,
            ),
            next_asset_id: (self.next_asset_id + 1) as AssetId,
        }
    }

    /// The registry after a transfer of the asset came in, and what is to
    /// be credited for it. A known asset keeps its id and the registry is
    /// left alone; an unknown one is given the next id, after which the
    /// next id is one more.
    pub open spec fn spec_handle_xcmp_message(
        self,
        src: ParaId,
        msg: XCMPMessage<AccountId, Balance, AssetId>,
    ) -> Result<(ModuleView, AssetDeposit), Error> {
        let XCMPMessage::TransferToken(dest, amount, para_asset_id) = msg;
        if self.asset_id_by_para_asset_id.contains_key((src, para_asset_id)) {
            Ok(
                (
                    self,
                    AssetDeposit {
                        para_id: src,
                        para_asset_id,
                        dest,
                        asset_id: self.asset_id_by_para_asset_id[(src, para_asset_id)],
                        amount,
                        registered: false,
                    },
                ),
            )
        } else if self.next_asset_id + 1 > AssetId::MAX {
            Err(Error::OverflowOccured)
        } else {
            Ok(
                (
                    self.spec_register((src, para_asset_id)),
                    AssetDeposit {
                        para_id: src,
                        para_asset_id,
                        dest,
                        asset_id: self.next_asset_id,
                        amount,
                        registered: true,
                    },
                ),
            )
        }
    }
}

/// The registry of foreign assets.
#[derive(Debug, PartialEq, Eq)]
pub struct Module {
    /// The id on this chain of each foreign asset that has been seen.
    pub asset_id_by_para_asset_id: BTreeMap<ParaAsset, AssetId>,
    /// The id that the next unseen asset is given.
    pub next_asset_id: AssetId,
}

impl View for Module {
    type V = ModuleView;

    open spec fn view(&self) -> ModuleView {
        ModuleView {
            asset_id_by_para_asset_id: self.asset_id_by_para_asset_id@,
            next_asset_id: self.next_asset_id,
        }
    }
}

impl Module {
    /// A registry that has seen no asset yet and gives out ids from
    /// `next_asset_id` on.
    pub fn new(next_asset_id: AssetId) -> (module: Self)
        ensures
            module@.asset_id_by_para_asset_id == Map::<ParaAsset, AssetId>::empty(),
            module@.next_asset_id == next_asset_id,
            module@.wf(),
    {
        Self { asset_id_by_para_asset_id: BTreeMap::new(), next_asset_id }
    }

    /// The id on this chain of the asset that parachain `para_id` knows as
    /// `para_asset_id`.
    pub fn ensure_asset_id_exists(&self, para_id: ParaId, para_asset_id: Option<AssetId>) -> (res:
        Result<AssetId, Error>)
        ensures
            res == self@.spec_ensure_asset_id_exists(para_id, para_asset_id),
    {
        match self.asset_id_by_para_asset_id.get(&(para_id, para_asset_id)) {
            Some(asset_id) => Ok(*asset_id),
            None => Err(Error::AssetIdDoesNotExist),
        }
    }

    /// Checks that an amount to transfer is more than zero.
    pub fn ensure_non_zero_balance(amount: Balance) -> (res: Result<(), Error>)
        ensures
            res == (if amount > 0 {
                Ok::<(), Error>(())
            } else {
                Err(Error::AmountShouldBeGreaterThanZero)
            }),
    {
        if amount > 0 {
            Ok(())
        } else {
            Err(Error::AmountShouldBeGreaterThanZero)
        }
    }

    /// Decides what to credit for a transfer that came in from parachain
    /// `src`. An asset that the registry knows is credited under its id. An
    /// asset that it does not know is given the next id first. When the
    /// ids have run out, nothing is registered and nothing is to be
    /// credited.
    pub fn handle_xcmp_message(
        &mut self,
        src: ParaId,
        msg: &XCMPMessage<AccountId, Balance, AssetId>,
    ) -> (res: Result<AssetDeposit, Error>)
        ensures
            match res {
                Ok(deposit) => old(self)@.spec_handle_xcmp_message(src, *msg) == Ok::<_, Error>(
                    (final(self)@, deposit),
                ),
                Err(e) => old(self)@.spec_handle_xcmp_message(src, *msg) == Err::<
                    (ModuleView, AssetDeposit),
                    _,
                >(e) && *final(self) == *old(self),
            },
            old(self)@.wf() ==> final(self)@.wf(),
    {
        match msg {
            XCMPMessage::TransferToken(dest, amount, para_asset_id) => {
                match self.ensure_asset_id_exists(src, *para_asset_id) {
                    Ok(asset_id) => Ok(
                        AssetDeposit {
                            para_id: src,
                            para_asset_id: *para_asset_id,
                            dest: *dest,
                            asset_id,
                            amount: *amount,
                            registered: false,
                        },
                    ),
                    Err(_) => {
                        let asset_id = self.next_asset_id;
                        let next_asset_id = match asset_id.checked_add(1) {
                            Some(next_asset_id) => next_asset_id,
                            None => { return Err(Error::OverflowOccured); },
                        };
                        self.asset_id_by_para_asset_id.insert((src, *para_asset_id), asset_id);
                        self.next_asset_id = next_asset_id;
                        Ok(
                            AssetDeposit {
                                para_id: src,
                                para_asset_id: *para_asset_id,
                                dest: *dest,
                                asset_id,
                                amount: *amount,
                                registered: true,
                            },
                        )
                    },
                }
            },
        }
    }
}

} // verus!
