//! The environment in which a contract runs: the block, the message that
//! called it and the contract's own identity.
use vstd::prelude::*;
use crate::addresses::HumanAddr;
use crate::coins::{coins_view, Coin, CoinView};

verus! {

/// The block in which the call is executed.
#[derive(Clone, Debug, PartialEq, Eq, Default)]
pub struct BlockInfo {
    pub height: u64,
    /// Time of the block's creation, in seconds since the UNIX epoch.
    pub time: u64,
    pub chain_id: String,
}

/// The mathematical content of a [`BlockInfo`].
pub ghost struct BlockInfoView {
    pub height: nat,
    pub time: nat,
    pub chain_id: Seq<char>,
}

impl View for BlockInfo {
    type V = BlockInfoView;

    open spec fn view(&self) -> BlockInfoView {
        BlockInfoView {
            height: self.height as nat,
            time: self.time as nat,
            chain_id: self.chain_id@,
        }
    }
}

/// The message that called the contract.
#[derive(Clone, Debug, PartialEq, Eq, Default)]
pub struct MessageInfo {
    /// The address that sent the message.
    pub sender: HumanAddr,
    /// The funds that came with it.
    pub sent_funds: Vec<Coin>,
}

/// The mathematical content of a [`MessageInfo`].
pub ghost struct MessageInfoView {
    pub sender: Seq<char>,
    pub sent_funds: Seq<CoinView>,
}

impl View for MessageInfo {
    type V = MessageInfoView;

    open spec fn view(&self) -> MessageInfoView {
        MessageInfoView { sender: self.sender@, sent_funds: coins_view(self.sent_funds@) }
    }
}

/// The contract that is called.
#[derive(Clone, Debug, PartialEq, Eq, Default)]
pub struct ContractInfo {
    pub address: HumanAddr,
}

/// The mathematical content of a [`ContractInfo`].
pub ghost struct ContractInfoView {
    pub address: Seq<char>,
}

impl View for ContractInfo {
    type V = ContractInfoView;

    open spec fn view(&self) -> ContractInfoView {
        ContractInfoView { address: self.address@ }
    }
}

/// A snapshot of the environment of one contract call. It is made once and
/// handed to the contract by value.
#[derive(Clone, Debug, PartialEq, Eq, Default)]
pub struct Env {
    pub block: BlockInfo,
    pub message: MessageInfo,
    pub contract: ContractInfo,
    /// Kept for contracts of older interface versions.
    pub contract_key: Option<String>,
    /// Kept for contracts of older interface versions.
    pub contract_code_hash: String,
}

/// The mathematical content of an [`Env`].
pub ghost struct EnvView {
    pub block: BlockInfoView,
    pub message: MessageInfoView,
    pub contract: ContractInfoView,
    pub contract_key: Option<Seq<char>>,
    pub contract_code_hash: Seq<char>,
}

impl View for Env {
    type V = EnvView;

    open spec fn view(&self) -> EnvView {
        EnvView {
            block: self.block@,
            message: self.message@,
            contract: self.contract@,
            contract_key: match self.contract_key {
                Some(key) => Some(key@),
                None => None,
            },
            contract_code_hash: self.contract_code_hash@,
        }
    }
}

} // verus!
