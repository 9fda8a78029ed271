//! A deterministic address conversion that needs no real codec, and the
//! fixtures built around it.
use vstd::prelude::*;
use vstd::string::StrSliceExecFns;
use vstd::utf8::{decode_utf8, encode_utf8, encode_utf8_decode_utf8, encode_utf8_valid_utf8, valid_utf8};
use crate::addresses::{Binary, CanonicalAddr, HumanAddr};
use crate::coins::{coins_view, copy_coins, Coin, CoinView};
use crate::errors::{outcome_view, FfiError, FfiErrorView, FfiResult, GasInfo};
use crate::testing::padding::{
    has_nul, lemma_without_nul_keeps_plain_text, lemma_without_zeros_of_encoding,
    lemma_without_zeros_of_zeros, lemma_without_zeros_push, without_nul, without_zeros,
    zero_padded, zeros,
};
use crate::testing::querier::{balances_view, holdings, MockQuerier};
use crate::testing::storage::MockStorage;
use crate::traits::{Api, Extern};
use crate::types::{
    BlockInfo, BlockInfoView, ContractInfo, ContractInfoView, Env, EnvView, MessageInfo,
    MessageInfoView,
};

verus! {

/// The address of the contract under test.
pub const MOCK_CONTRACT_ADDR: &'static str = "cosmos2contract";

/// The gas that [`MockApi`] charges for one call of `human_address`.
pub const GAS_COST_HUMANIZE: u64 = 44;

/// The gas that [`MockApi`] charges for one call of `canonical_address`.
pub const GAS_COST_CANONICALIZE: u64 = 55;

/// The shortest display address, in bytes, that [`MockApi`] accepts.
pub const MIN_HUMAN_LENGTH: usize = 3;

/// The message for a display address under the minimum length.
pub const MSG_TOO_SHORT: &'static str = "Invalid input: human address too short";

/// The message for a display address that does not fit the canonical width.
pub const MSG_TOO_LONG: &'static str = "Invalid input: human address too long";

/// The message for canonical bytes of another width than the configured one.
pub const MSG_WRONG_LENGTH: &'static str = "Invalid input: canonical address length not correct";

/// The message for canonical bytes whose non-zero bytes are no UTF-8 text.
pub const MSG_INVALID_UTF8: &'static str = "Canonical address does not hold valid UTF-8 text";

/// Everything that a contract under test depends on. The contract itself
/// holds `contract_balance`, and no other address holds anything.
pub fn mock_dependencies(canonical_length: usize, contract_balance: &[Coin]) -> (deps: Extern<
    MockStorage,
    MockApi,
    MockQuerier,
>)
    ensures
        deps.storage.entries() == 0,
        deps.api.canonical_length() == canonical_length,
        deps.api.forced_error() is None,
        deps.querier@ == Map::<Seq<char>, Seq<CoinView>>::empty().insert(
            MOCK_CONTRACT_ADDR@,
            coins_view(contract_balance@),
        ),
{
    let contract_addr = HumanAddr::from(MOCK_CONTRACT_ADDR);
    let balances = [(&contract_addr, contract_balance)];
    proof {
        let seeded = balances_view(balances@);
        assert(holdings(seeded.drop_last()) == Map::<Seq<char>, Seq<CoinView>>::empty());
    }
    Extern {
        storage: MockStorage::default(),
        api: MockApi::new(canonical_length),
        querier: MockQuerier::new(balances.as_slice()),
    }
}

/// Everything that a contract under test depends on, with the funds of each
/// address as `balances` give them. The contract's own balance is set only
/// if it is among them.
pub fn mock_dependencies_with_balances(
    canonical_length: usize,
    balances: &[(&HumanAddr, &[Coin])],
) -> (deps: Extern<MockStorage, MockApi, MockQuerier>)
    ensures
        deps.storage.entries() == 0,
        deps.api.canonical_length() == canonical_length,
        deps.api.forced_error() is None,
        deps.querier@ == holdings(balances_view(balances@)),
{
    Extern {
        storage: MockStorage::default(),
        api: MockApi::new(canonical_length),
        querier: MockQuerier::new(balances),
    }
}

/// What [`MockApi`] makes of the display address `human`, for a canonical
/// width of `width` bytes and the forced failure `forced`, if there is one.
///
/// A forced failure comes before any look at the input. Otherwise the
/// address must be at least [`MIN_HUMAN_LENGTH`] and at most `width` bytes
/// long in UTF-8. Its canonical form is made of these bytes, padded with
/// zero bytes on the right up to `width`.
pub open spec fn mock_canonicalized(
    width: nat,
    forced: Option<Seq<char>>,
    human: Seq<char>,
) -> Result<Seq<u8>, FfiErrorView> {
    let bytes = encode_utf8(human);
    if let Some(msg) = forced {
        Err(FfiErrorView::Unknown { msg })
    } else if bytes.len() < MIN_HUMAN_LENGTH {
        Err(FfiErrorView::UserErr { msg: MSG_TOO_SHORT@ })
    } else if bytes.len() > width {
        Err(FfiErrorView::UserErr { msg: MSG_TOO_LONG@ })
    } else {
        Ok(zero_padded(bytes, width))
    }
}

/// What [`MockApi`] makes of the canonical bytes `canonical`, for a canonical
/// width of `width` bytes and the forced failure `forced`, if there is one.
///
/// A forced failure comes before any look at the input. Otherwise the bytes
/// must be exactly `width` long. All zero bytes are then dropped, not only
/// those at the end, and what is left is decoded as UTF-8.
pub open spec fn mock_humanized(
    width: nat,
    forced: Option<Seq<char>>,
    canonical: Seq<u8>,
) -> Result<Seq<char>, FfiErrorView> {
    let trimmed = without_zeros(canonical);
    if let Some(msg) = forced {
        Err(FfiErrorView::Unknown { msg })
    } else if canonical.len() != width {
        Err(FfiErrorView::UserErr { msg: MSG_WRONG_LENGTH@ })
    } else if !valid_utf8(trimmed) {
        Err(FfiErrorView::Unknown { msg: MSG_INVALID_UTF8@ })
    } else {
        Ok(decode_utf8(trimmed))
    }
}

/// An address conversion for tests. It pads every display address with zero
/// bytes up to the canonical width, and drops the zero bytes on the way back.
/// This is no real codec, but the two forms differ visibly and the canonical
/// one has a fixed width.
#[derive(Copy, Clone, Debug)]
pub struct MockApi {
    canonical_length: usize,
    /// When set, every call fails with `FfiError::Unknown` and this message.
    backend_error: Option<&'static str>,
}

impl MockApi {
    /// The message with which every call fails, if the instance was made to fail.
    pub closed spec fn forced_error(&self) -> Option<Seq<char>> {
        match self.backend_error {
            Some(msg) => Some(msg@),
            None => None,
        }
    }

    /// A conversion to canonical addresses of `canonical_length` bytes.
    pub fn new(canonical_length: usize) -> (api: Self)
        ensures
            api.canonical_length() == canonical_length,
            api.forced_error() is None,
    {
        MockApi { canonical_length, backend_error: None }
    }

    /// A conversion of which every call fails with `backend_error`.
    pub fn new_failing(canonical_length: usize, backend_error: &'static str) -> (api: Self)
        ensures
            api.canonical_length() == canonical_length,
            api.forced_error() == Some(backend_error@),
    {
        MockApi { canonical_length, backend_error: Some(backend_error) }
    }
}

impl Default for MockApi {
    /// A conversion to canonical addresses of 20 bytes.
    fn default() -> (api: Self)
        ensures
            api.canonical_length() == 20,
            api.forced_error() is None,
    {
        Self::new(20)
    }
}

impl Api for MockApi {
    closed spec fn canonical_length(&self) -> nat {
        self.canonical_length as nat
    }

    open spec fn canonicalize_cost(&self) -> nat {
        GAS_COST_CANONICALIZE as nat
    }

    open spec fn humanize_cost(&self) -> nat {
        GAS_COST_HUMANIZE as nat
    }

    open spec fn canonicalized(&self, human: Seq<char>) -> Result<Seq<u8>, FfiErrorView> {
        mock_canonicalized(self.canonical_length(), self.forced_error(), human)
    }

    open spec fn humanized(&self, canonical: Seq<u8>) -> Result<Seq<char>, FfiErrorView> {
        mock_humanized(self.canonical_length(), self.forced_error(), canonical)
    }

    proof fn lemma_gas_is_charged(&self) {
    }

    proof fn lemma_canonical_width(&self, human: Seq<char>) {
    }

    proof fn lemma_width_is_checked(&self, canonical: Seq<u8>) {
    }

    fn canonical_address(&self, human: &HumanAddr) -> (out: FfiResult<CanonicalAddr>)
        ensures
            out.1.cost == GAS_COST_CANONICALIZE,
            self.forced_error() matches Some(msg) ==> outcome_view(out.0) == Err::<
                Seq<u8>,
                FfiErrorView,
            >(FfiErrorView::Unknown { msg }),
            self.forced_error() is None ==> (out.0 is Ok <==> MIN_HUMAN_LENGTH
                <= human.bytes().len() <= self.canonical_length()),
            self.forced_error() is None && out.0 is Err ==> out.0->Err_0 is UserErr,
    {
        let gas_info = GasInfo::with_cost(GAS_COST_CANONICALIZE);

        if let Some(backend_error) = self.backend_error {
            return (Err(FfiError::unknown(backend_error)), gas_info);
        }
        if human.len() < MIN_HUMAN_LENGTH {
            return (Err(FfiError::user_err(MSG_TOO_SHORT)), gas_info);
        }
        if human.len() > self.canonical_length {
            return (Err(FfiError::user_err(MSG_TOO_LONG)), gas_info);
        }
        let mut out = human.as_str().as_bytes_vec();
        let ghost bytes = out@;
        while out.len() < self.canonical_length
            invariant
                bytes.len() <= out@.len() <= self.canonical_length,
                out@ == bytes + zeros((out@.len() - bytes.len()) as nat),
            decreases self.canonical_length - out.len(),
        {
            out.push(0u8);
        }

        (Ok(CanonicalAddr(Binary(out))), gas_info)
    }

    fn human_address(&self, canonical: &CanonicalAddr) -> (out: FfiResult<HumanAddr>)
        ensures
            out.1.cost == GAS_COST_HUMANIZE,
            self.forced_error() matches Some(msg) ==> outcome_view(out.0) == Err::<
                Seq<char>,
                FfiErrorView,
            >(FfiErrorView::Unknown { msg }),
            self.forced_error() is None && canonical@.len() != self.canonical_length()
                ==> out.0 is Err && out.0->Err_0 is UserErr,
    {
        let gas_info = GasInfo::with_cost(GAS_COST_HUMANIZE);

        if let Some(backend_error) = self.backend_error {
            return (Err(FfiError::unknown(backend_error)), gas_info);
        }
        if canonical.len() != self.canonical_length {
            return (Err(FfiError::user_err(MSG_WRONG_LENGTH)), gas_info);
        }
        let bytes = canonical.as_slice();
        let mut trimmed: Vec<u8> = Vec::new();
        let mut i: usize = 0;
        while i < bytes.len()
            invariant
                i <= bytes@.len(),
                trimmed@ == without_zeros(bytes@.take(i as int)),
            decreases bytes.len() - i,
        {
            let byte = bytes[i];
            proof {
                lemma_without_zeros_push(bytes@.take(i as int), byte);
                assert(bytes@.take(i as int).push(byte) =~= bytes@.take(i + 1));
            }
            if byte != 0 {
                trimmed.push(byte);
            }
            i += 1;
        }
        assert(bytes@.take(i as int) =~= bytes@);

        let result = match String::from_utf8(trimmed) {
            Ok(human) => {
                proof {
                    encode_utf8_decode_utf8(human@);
                }
                Ok(HumanAddr(human))
            },
            Err(_) => Err(FfiError::unknown(MSG_INVALID_UTF8)),
        };
        (result, gas_info)
    }
}

/// The environment that [`mock_env`] makes for the sender `sender` and the
/// funds `sent`: all else is fixed.
pub open spec fn mock_env_view(sender: Seq<char>, sent: Seq<CoinView>) -> EnvView {
    EnvView {
        block: BlockInfoView {
            height: 12_345,
            time: 1_571_797_419,
            chain_id: "cosmos-testnet-14002"@,
        },
        message: MessageInfoView { sender, sent_funds: sent },
        contract: ContractInfoView { address: MOCK_CONTRACT_ADDR@ },
        contract_key: Some(""@),
        contract_code_hash: ""@,
    }
}

/// Whether `env` is an environment that [`mock_env`] makes of `sender` and
/// `sent`: its sender is what `sender` converts to, and all else is as
/// [`mock_env_view`] says.
pub open spec fn is_mock_env<U: Into<HumanAddr>>(sender: U, sent: Seq<Coin>, env: Env) -> bool {
    &&& call_ensures(U::into, (sender,), env.message.sender)
    &&& env@ == mock_env_view(env.message.sender@, coins_view(sent))
}

/// An environment for a call that `sender` makes with the funds `sent`.
/// Block and contract are fixed. The sender can be given as text or as an
/// address, borrowed or owned.
pub fn mock_env<U: Into<HumanAddr>>(sender: U, sent: &[Coin]) -> (env: Env)
    ensures
        is_mock_env(sender, sent@, env),
{
    Env {
        block: BlockInfo {
            height: 12_345,
            time: 1_571_797_419,
            chain_id: "cosmos-testnet-14002".to_string(),
        },
        message: MessageInfo { sender: sender.into(), sent_funds: copy_coins(sent) },
        contract: ContractInfo { address: HumanAddr::from(MOCK_CONTRACT_ADDR) },
        contract_key: Some("".to_string()),
        contract_code_hash: "".to_string(),
    }
}

/// The environment is the same whether the sender is given as text, as a
/// borrowed address or as an owned address, as long as the three stand for
/// the same address and the funds are the same.
pub proof fn lemma_mock_env_sender_forms(
    text: &str,
    borrowed: &HumanAddr,
    owned: HumanAddr,
    sent: Seq<Coin>,
    from_text: Env,
    from_borrowed: Env,
    from_owned: Env,
)
    requires
        text@ == owned@,
        borrowed@ == owned@,
        is_mock_env(text, sent, from_text),
        is_mock_env(borrowed, sent, from_borrowed),
        is_mock_env(owned, sent, from_owned),
    ensures
        from_text@ == from_owned@,
        from_borrowed@ == from_owned@,
        from_owned@ == mock_env_view(owned@, coins_view(sent)),
{
}

/// What comes back when a display address is canonicalized and the result
/// humanized: the address without its characters U+0000. The zero bytes of
/// such a character are dropped on the way back like those of the padding.
pub proof fn lemma_there_and_back(api: MockApi, human: Seq<char>)
    requires
        api.forced_error() is None,
        MIN_HUMAN_LENGTH <= encode_utf8(human).len() <= api.canonical_length(),
    ensures
        api.canonicalized(human) is Ok,
        api.humanized(api.canonicalized(human)->Ok_0) == Ok::<Seq<char>, FfiErrorView>(
            without_nul(human),
        ),
{
    lemma_without_zeros_of_zeros((api.canonical_length() - encode_utf8(human).len()) as nat);
    lemma_without_zeros_of_encoding(human);
    encode_utf8_valid_utf8(without_nul(human));
    encode_utf8_decode_utf8(without_nul(human));
}

/// Canonicalizing a display address and humanizing the result gives the
/// address back. This holds for every address that the conversion accepts
/// and that is free of the character U+0000: an address with such a
/// character comes back without it.
pub proof fn lemma_round_trip(api: MockApi, human: Seq<char>)
    requires
        api.forced_error() is None,
        MIN_HUMAN_LENGTH <= encode_utf8(human).len() <= api.canonical_length(),
        !has_nul(human),
    ensures
        api.canonicalized(human) is Ok,
        api.humanized(api.canonicalized(human)->Ok_0) == Ok::<Seq<char>, FfiErrorView>(human),
{
    lemma_there_and_back(api, human);
    lemma_without_nul_keeps_plain_text(human);
}

} // verus!
