//! Transaction simulation through Tenderly: the request that is sent, and
//! the summary that is drawn from the answer.
use vstd::prelude::*;
use vstd::string::{StrSliceExecFns, StringExecFns};
use crate::ascii::{ascii_lowercase, lower_seq};
use crate::pairing::opt_view;

verus! {

#[verifier::external_type_specification]
#[verifier::external_body]
pub struct ExJsonValue(serde_json::Value);

/// A transaction to simulate. Hex fields carry a `0x` prefix.
#[derive(Clone, Debug, Default)]
pub struct SimTx {
    pub from: Option<String>,
    pub to: Option<String>,
    pub data: Option<String>,
    pub gas: Option<u64>,
    pub gas_price: Option<String>,
    pub value: Option<String>,
    pub max_fee_per_gas: Option<String>,
    pub max_priority_fee_per_gas: Option<String>,
    /// Not sent to Tenderly: set on the answer to twice the gas used.
    pub gas_limit: Option<u128>,
}

/// The outcome of one simulation.
#[derive(Clone, Debug)]
pub struct SimulationSummary {
    pub reverted: bool,
    pub gas_used: u128,
    pub error_message: Option<String>,
    pub uuid: String,
    pub assets_in: Option<Vec<AssetChange>>,
    pub assets_out: Option<Vec<AssetChange>>,
}

/// A summary with the transaction it was drawn for.
#[derive(Clone, Debug)]
pub struct SimulationSummaryAndTx {
    pub summary: SimulationSummary,
    pub tx: SimTx,
}

/// One asset movement reported by a simulation.
#[derive(Clone, Debug)]
pub struct AssetChange {
    pub from: Option<String>,
    pub to: Option<String>,
    pub amount: Option<String>,
    pub token_info: Option<TokenInfo>,
}

/// A token's description. `token_type` is the wire field `type`.
#[derive(Clone, Debug)]
pub struct TokenInfo {
    pub token_type: String,
    pub name: String,
    pub symbol: String,
    pub decimals: u32,
}

/// Tenderly's answer to a simulation.
#[derive(Debug)]
pub struct SimulationResult {
    pub simulation: SimulationSection,
    pub transaction: TransactionSection,
    pub contracts: Vec<ContractInfo>,
}

#[derive(Debug)]
pub struct SimulationSection {
    pub id: String,
    pub status: bool,
    pub gas_used: Option<u128>,
    pub error_message: Option<String>,
    pub receipt: Option<serde_json::Value>,
}

#[derive(Debug)]
pub struct TransactionSection {
    pub from: String,
    pub to: String,
    pub gas_price: serde_json::Value,
    pub gas_used: Option<u128>,
    pub value: String,
    pub transaction_info: TransactionInfo,
}

#[derive(Clone, Debug, Default)]
pub struct TransactionInfo {
    pub asset_changes: Option<Vec<AssetChange>>,
}

#[derive(Clone, Debug, Default)]
pub struct ContractInfo {
    pub address: String,
    pub token_data: Option<TokenInfo>,
}

/// The body of a simulation request.
#[derive(Clone, Debug)]
pub struct SimulationPayload {
    pub network_id: String,
    pub from: Option<String>,
    pub to: Option<String>,
    pub input: Option<String>,
    pub gas: Option<u64>,
    pub gas_price: Option<String>,
    pub value: String,
    pub save: bool,
    pub save_if_fails: bool,
    pub simulation_type: String,
    pub max_fee_per_gas: Option<String>,
    pub max_priority_fee_per_gas: Option<String>,
}

/// What can go wrong with a simulation.
#[derive(Clone, Debug)]
pub enum TenderlyError {
    /// A required setting is missing; it names the setting.
    MissingEnv(String),
    /// The request failed or was refused.
    Request(String),
    /// The answer could not be understood.
    InvalidResponse(String),
}

/// The mathematical value of a [`TokenInfo`].
pub struct TokenInfoView {
    pub token_type: Seq<char>,
    pub name: Seq<char>,
    pub symbol: Seq<char>,
    pub decimals: u32,
}

/// The mathematical value of an [`AssetChange`].
pub struct AssetChangeView {
    pub from: Option<Seq<char>>,
    pub to: Option<Seq<char>>,
    pub amount: Option<Seq<char>>,
    pub token_info: Option<TokenInfoView>,
}

impl View for TokenInfo {
    type V = TokenInfoView;

    open spec fn view(&self) -> TokenInfoView {
        TokenInfoView {
            token_type: self.token_type@,
            name: self.name@,
            symbol: self.symbol@,
            decimals: self.decimals,
        }
    }
}

impl View for AssetChange {
    type V = AssetChangeView;

    open spec fn view(&self) -> AssetChangeView {
        AssetChangeView {
            from: opt_view(self.from),
            to: opt_view(self.to),
            amount: opt_view(self.amount),
            token_info: match self.token_info {
                Some(t) => Some(t@),
                None => None,
            },
        }
    }
}

/// The values of a list of asset changes.
pub open spec fn change_views(s: Seq<AssetChange>) -> Seq<AssetChangeView> {
    s.map_values(|c: AssetChange| c@)
}

/// An optional address equals `addr` once both are folded to lower case.
pub open spec fn address_matches(a: Option<Seq<char>>, addr: Seq<char>) -> bool {
    match a {
        Some(x) => lower_seq(x) == lower_seq(addr),
        None => false,
    }
}

/// The changes that move assets to `addr`, in their order.
pub open spec fn changes_into(s: Seq<AssetChangeView>, addr: Seq<char>) -> Seq<AssetChangeView>
    decreases s.len(),
{
    if s.len() == 0 {
        s
    } else {
        let rest = changes_into(s.drop_last(), addr);
        if address_matches(s.last().to, addr) {
            rest.push(s.last())
        } else {
            rest
        }
    }
}

/// The changes that move assets away from `addr`, in their order.
pub open spec fn changes_out_of(s: Seq<AssetChangeView>, addr: Seq<char>) -> Seq<AssetChangeView>
    decreases s.len(),
{
    if s.len() == 0 {
        s
    } else {
        let rest = changes_out_of(s.drop_last(), addr);
        if address_matches(s.last().from, addr) {
            rest.push(s.last())
        } else {
            rest
        }
    }
}

/// The gas used that a simulation reports: the simulation's own figure,
/// else the transaction's, else zero.
pub open spec fn reported_gas(sim: SimulationResult) -> u128 {
    match sim.simulation.gas_used {
        Some(g) => g,
        None => match sim.transaction.gas_used {
            Some(g) => g,
            None => 0,
        },
    }
}

/// The asset changes a simulation reports (none when it reports no list).
pub open spec fn reported_changes(sim: SimulationResult) -> Seq<AssetChangeView> {
    match sim.transaction.transaction_info.asset_changes {
        Some(v) => change_views(v@),
        None => Seq::empty(),
    }
}

/// The gas limit set on a simulated transaction: twice the gas used,
/// saturating at the largest `u128`.
pub open spec fn gas_limit_for(gas_used: u128) -> u128 {
    if gas_used * 2 > u128::MAX {
        u128::MAX
    } else {
        (gas_used * 2) as u128
    }
}

/// The API base of a Tenderly project; `dev` mode targets a virtual testnet.
pub open spec fn base_url_of(account: Seq<char>, project: Seq<char>, dev: Option<Seq<char>>) -> Seq<char> {
    let root = "https://api.tenderly.co/api/v1/account/"@ + account + "/project/"@ + project;
    match dev {
        Some(testnet) => root + "/testnet/"@ + testnet,
        None => root,
    }
}

/// A copy of an optional string.
pub fn copy_opt_string(o: &Option<String>) -> (r: Option<String>)
    ensures
        opt_view(r) == opt_view(*o),
        r == *o,
{
    match o {
        Some(s) => Some(s.clone()),
        None => None,
    }
}

impl TokenInfo {
    /// A copy of this token description.
    pub fn duplicate(&self) -> (r: TokenInfo)
        ensures
            r@ == self@,
    {
        TokenInfo {
            token_type: self.token_type.clone(),
            name: self.name.clone(),
            symbol: self.symbol.clone(),
            decimals: self.decimals,
        }
    }
}

impl AssetChange {
    /// A copy of this asset change.
    pub fn duplicate(&self) -> (r: AssetChange)
        ensures
            r@ == self@,
    {
        AssetChange {
            from: copy_opt_string(&self.from),
            to: copy_opt_string(&self.to),
            amount: copy_opt_string(&self.amount),
            token_info: match &self.token_info {
                Some(t) => Some(t.duplicate()),
                None => None,
            },
        }
    }
}

impl SimTx {
    /// A copy of this transaction.
    pub fn duplicate(&self) -> (r: SimTx)
        ensures
            r == *self,
    {
        SimTx {
            from: copy_opt_string(&self.from),
            to: copy_opt_string(&self.to),
            data: copy_opt_string(&self.data),
            gas: self.gas,
            gas_price: copy_opt_string(&self.gas_price),
            value: copy_opt_string(&self.value),
            max_fee_per_gas: copy_opt_string(&self.max_fee_per_gas),
            max_priority_fee_per_gas: copy_opt_string(&self.max_priority_fee_per_gas),
            gas_limit: self.gas_limit,
        }
    }
}

/// Twice the gas used, saturating at the largest `u128`.
pub fn gas_limit(gas_used: u128) -> (r: u128)
    ensures
        r == gas_limit_for(gas_used),
{
    if gas_used > u128::MAX / 2 {
        u128::MAX
    } else {
        gas_used * 2
    }
}

/// Splits the asset changes into those that move assets to `wallet_address`
/// and those that move assets away from it, comparing addresses without
/// regard to ASCII case.
pub fn wallet_changes(all: &Vec<AssetChange>, wallet_address: &str) -> (r: (Vec<AssetChange>, Vec<AssetChange>))
    ensures
        change_views(r.0@) == changes_into(change_views(all@), wallet_address@),
        change_views(r.1@) == changes_out_of(change_views(all@), wallet_address@),
{
    let addr = ascii_lowercase(wallet_address);
    let mut assets_in: Vec<AssetChange> = Vec::new();
    let mut assets_out: Vec<AssetChange> = Vec::new();
    let mut i: usize = 0;
    while i < all.len()
        invariant
            0 <= i <= all.len(),
            addr@ == lower_seq(wallet_address@),
            change_views(assets_in@) == changes_into(change_views(all@.take(i as int)), wallet_address@),
            change_views(assets_out@) == changes_out_of(change_views(all@.take(i as int)), wallet_address@),
        decreases all.len() - i,
    {
        let ch = &all[i];
        let ghost prefix = change_views(all@.take(i as int));
        assert(change_views(all@.take(i + 1)) =~= prefix.push(ch@));
        assert(change_views(all@.take(i + 1)).drop_last() =~= prefix);
        match &ch.to {
            Some(t) => {
                if ascii_lowercase(t.as_str()) == addr {
                    assets_in.push(ch.duplicate());
                }
            },
            None => {},
        }
        match &ch.from {
            Some(f) => {
                if ascii_lowercase(f.as_str()) == addr {
                    assets_out.push(ch.duplicate());
                }
            },
            None => {},
        }
        proof {
            assert(change_views(assets_in@) =~= changes_into(change_views(all@.take(i + 1)), wallet_address@));
            assert(change_views(assets_out@) =~= changes_out_of(change_views(all@.take(i + 1)), wallet_address@));
        }
        i = i + 1;
    }
    assert(all@.take(all.len() as int) =~= all@);
    (assets_in, assets_out)
}

/// A copy of a list of asset changes.
fn copy_changes(v: &Vec<AssetChange>) -> (r: Vec<AssetChange>)
    ensures
        change_views(r@) == change_views(v@),
{
    let mut r: Vec<AssetChange> = Vec::new();
    let mut i: usize = 0;
    while i < v.len()
        invariant
            0 <= i <= v.len(),
            change_views(r@) == change_views(v@.take(i as int)),
        decreases v.len() - i,
    {
        r.push(v[i].duplicate());
        assert(change_views(v@.take(i + 1)) =~= change_views(v@.take(i as int)).push(v@[i as int]@));
        assert(change_views(r@) =~= change_views(v@.take(i + 1)));
        i = i + 1;
    }
    assert(v@.take(v.len() as int) =~= v@);
    r
}

/// The HTTP status check on Tenderly's answers: a status outside 200-299
/// is a request error that quotes the status (`status_text` is its display
/// form, such as `404 Not Found`).
pub fn check_http_status(status: u16, status_text: &str) -> (r: Result<(), TenderlyError>)
    ensures
        (200 <= status <= 299) <==> r is Ok,
        r matches Err(e) ==> (e matches TenderlyError::Request(msg) && msg@ == "HTTP "@ + status_text@),
{
    if 200 <= status && status <= 299 {
        Ok(())
    } else {
        let mut msg = String::from_str("HTTP ");
        msg.append(status_text);
        Err(TenderlyError::Request(msg))
    }
}

/// Configuration and memory of the simulator (the HTTP client is the
/// caller's).
pub struct TenderlySimulator {
    /// The project's API base.
    pub base_url: String,
    /// Request headers, name then value.
    pub headers: Vec<(String, String)>,
    /// The last simulation fetched, if any.
    pub last_simulation: Option<SimulationResult>,
}

impl TenderlySimulator {
    /// A simulator for the given settings (each `None` when the setting is
    /// absent): the account, the project and the access key are required;
    /// in `dev` mode a non-empty testnet id is required too.
    pub fn new(
        account: Option<String>,
        project: Option<String>,
        access_key: Option<String>,
        env_mode: Option<String>,
        testnet_uuid: Option<String>,
    ) -> (r: Result<TenderlySimulator, TenderlyError>)
        ensures
            account is None ==> (r matches Err(TenderlyError::MissingEnv(n)) && n@ == "TENDERLY_ACCOUNT"@),
            account is Some && project is None ==> (r matches Err(TenderlyError::MissingEnv(n)) && n@
                == "TENDERLY_PROJECT_ID"@),
            account is Some && project is Some && access_key is None ==> (r matches Err(
                TenderlyError::MissingEnv(n),
            ) && n@ == "TENDERLY_ACCESS_TOKEN"@),
            ({
                let dev = env_mode matches Some(m) && m@ == "dev"@;
                let testnet = match testnet_uuid {
                    Some(t) => t@,
                    None => Seq::empty(),
                };
                account is Some && project is Some && access_key is Some ==> if dev && testnet.len() == 0 {
                    r matches Err(TenderlyError::MissingEnv(n)) && n@ == "TENDERLY_TESTNET_UUID"@
                } else {
                    r matches Ok(s) && s.base_url@ == base_url_of(
                        account.unwrap()@,
                        project.unwrap()@,
                        if dev {
                            Some(testnet)
                        } else {
                            None
                        },
                    ) && s.headers@.len() == 2 && s.headers@[0].0@ == "Content-Type"@ && s.headers@[0].1@
                        == "application/json"@ && s.headers@[1].0@ == "X-Access-Key"@ && s.headers@[1].1@
                        == access_key.unwrap()@ && s.last_simulation is None
                }
            }),
    {
        let account_v = match &account {
            Some(a) => a.clone(),
            None => return Err(TenderlyError::MissingEnv(String::from_str("TENDERLY_ACCOUNT"))),
        };
        let project_v = match &project {
            Some(p) => p.clone(),
            None => return Err(TenderlyError::MissingEnv(String::from_str("TENDERLY_PROJECT_ID"))),
        };
        let access_v = match &access_key {
            Some(k) => k.clone(),
            None => return Err(TenderlyError::MissingEnv(String::from_str("TENDERLY_ACCESS_TOKEN"))),
        };
        let mode_v = match &env_mode {
            Some(m) => m.clone(),
            None => String::new(),
        };
        let testnet_v = match &testnet_uuid {
            Some(t) => t.clone(),
            None => String::new(),
        };
        let dev = mode_v == String::from_str("dev");
        proof {
            reveal_strlit("dev");
            assert("dev"@.len() == 3);
            assert(mode_v@ == (match env_mode { Some(m) => m@, None => Seq::<char>::empty() }));
            assert(dev == (env_mode matches Some(m) && m@ == "dev"@));
        }
        let mut base_url = String::from_str("https://api.tenderly.co/api/v1/account/");
        base_url.append(account_v.as_str());
        base_url.append("/project/");
        base_url.append(project_v.as_str());
        if dev {
            if testnet_v.as_str().unicode_len() == 0 {
                return Err(TenderlyError::MissingEnv(String::from_str("TENDERLY_TESTNET_UUID")));
            }
            base_url.append("/testnet/");
            base_url.append(testnet_v.as_str());
        }
        let mut headers: Vec<(String, String)> = Vec::new();
        headers.push((String::from_str("Content-Type"), String::from_str("application/json")));
        headers.push((String::from_str("X-Access-Key"), access_v));
        Ok(TenderlySimulator { base_url, headers, last_simulation: None })
    }

    /// Where simulations are posted.
    pub fn simulate_url(&self) -> (r: String)
        ensures
            r@ == self.base_url@ + "/simulate"@,
    {
        let mut u = self.base_url.clone();
        u.append("/simulate");
        u
    }

    /// Where the simulation `id` is loaded from.
    pub fn simulation_url(&self, simulation_id: &str) -> (r: String)
        ensures
            r@ == self.base_url@ + "/simulations/"@ + simulation_id@,
    {
        let mut u = self.base_url.clone();
        u.append("/simulations/");
        u.append(simulation_id);
        u
    }

    /// Where the last simulation is made public; an error when no
    /// simulation has been fetched yet.
    pub fn share_url(&self) -> (r: Result<String, TenderlyError>)
        ensures
            match self.last_simulation {
                Some(sim) => r matches Ok(u) && u@ == self.base_url@ + "/simulations/"@
                    + sim.simulation.id@ + "/share"@,
                None => r matches Err(TenderlyError::InvalidResponse(m)) && m@ == "no last simulation"@,
            },
    {
        match &self.last_simulation {
            Some(sim) => {
                let mut u = self.simulation_url(sim.simulation.id.as_str());
                u.append("/share");
                Ok(u)
            },
            None => Err(TenderlyError::InvalidResponse(String::from_str("no last simulation"))),
        }
    }

    /// The request body for simulating `tx` on mainnet ("1"), as a quick
    /// simulation that Tenderly saves; a missing value is sent as "0".
    pub fn simulation_payload(tx: &SimTx) -> (p: SimulationPayload)
        ensures
            p.network_id@ == "1"@,
            p.from == tx.from,
            p.to == tx.to,
            p.input == tx.data,
            p.gas == tx.gas,
            p.gas_price == tx.gas_price,
            p.value@ == (match tx.value {
                Some(v) => v@,
                None => "0"@,
            }),
            p.save,
            p.save_if_fails,
            p.simulation_type@ == "quick"@,
            p.max_fee_per_gas == tx.max_fee_per_gas,
            p.max_priority_fee_per_gas == tx.max_priority_fee_per_gas,
    {
        SimulationPayload {
            network_id: String::from_str("1"),
            from: copy_opt_string(&tx.from),
            to: copy_opt_string(&tx.to),
            input: copy_opt_string(&tx.data),
            gas: tx.gas,
            gas_price: copy_opt_string(&tx.gas_price),
            value: match &tx.value {
                Some(v) => v.clone(),
                None => String::from_str("0"),
            },
            save: true,
            save_if_fails: true,
            simulation_type: String::from_str("quick"),
            max_fee_per_gas: copy_opt_string(&tx.max_fee_per_gas),
            max_priority_fee_per_gas: copy_opt_string(&tx.max_priority_fee_per_gas),
        }
    }

    /// The summary of a simulation; with a wallet address it also lists the
    /// asset changes into and out of that wallet.
    pub fn get_simulation_summary_from(&self, sim: &SimulationResult, wallet_address: Option<&str>) -> (r:
        SimulationSummary)
        ensures
            r.reverted == !sim.simulation.status,
            r.gas_used == reported_gas(*sim),
            r.error_message == sim.simulation.error_message,
            r.uuid@ == sim.simulation.id@,
            match wallet_address {
                Some(a) => (r.assets_in matches Some(v) && change_views(v@) == changes_into(
                    reported_changes(*sim),
                    a@,
                )) && (r.assets_out matches Some(v) && change_views(v@) == changes_out_of(
                    reported_changes(*sim),
                    a@,
                )),
                None => r.assets_in is None && r.assets_out is None,
            },
    {
        let reverted = !sim.simulation.status;
        let gas_used = match sim.simulation.gas_used {
            Some(g) => g,
            None => match sim.transaction.gas_used {
                Some(g) => g,
                None => 0,
            },
        };
        let error_message = copy_opt_string(&sim.simulation.error_message);
        let uuid = sim.simulation.id.clone();
        let (assets_in, assets_out) = match wallet_address {
            Some(addr) => {
                let changes = match &sim.transaction.transaction_info.asset_changes {
                    Some(v) => copy_changes(v),
                    None => Vec::new(),
                };
                proof {
                    if sim.transaction.transaction_info.asset_changes is None {
                        assert(change_views(changes@) =~= Seq::<AssetChangeView>::empty());
                    }
                }
                let (ins, outs) = wallet_changes(&changes, addr);
                (Some(ins), Some(outs))
            },
            None => (None, None),
        };
        SimulationSummary { reverted, gas_used, error_message, uuid, assets_in, assets_out }
    }

    /// Records a fetched simulation of `tx` and summarises it; the returned
    /// transaction is `tx` with its gas limit set to twice the gas used.
    pub fn record_simulation(&mut self, tx: &SimTx, wallet_address: Option<&str>, result: SimulationResult) -> (r:
        SimulationSummaryAndTx)
        ensures
            final(self).last_simulation == Some(result),
            final(self).base_url == old(self).base_url,
            final(self).headers == old(self).headers,
            r.summary.reverted == !result.simulation.status,
            r.summary.gas_used == reported_gas(result),
            r.summary.error_message == result.simulation.error_message,
            r.summary.uuid@ == result.simulation.id@,
            match wallet_address {
                Some(a) => (r.summary.assets_in matches Some(v) && change_views(v@) == changes_into(
                    reported_changes(result),
                    a@,
                )) && (r.summary.assets_out matches Some(v) && change_views(v@) == changes_out_of(
                    reported_changes(result),
                    a@,
                )),
                None => r.summary.assets_in is None && r.summary.assets_out is None,
            },
            r.tx == (SimTx { gas_limit: Some(gas_limit_for(reported_gas(result))), ..*tx }),
    {
        let summary = self.get_simulation_summary_from(&result, wallet_address);
        self.last_simulation = Some(result);
        let mut tx_out = tx.duplicate();
        tx_out.gas_limit = Some(gas_limit(summary.gas_used));
        SimulationSummaryAndTx { summary, tx: tx_out }
    }

    /// Records a simulation loaded by id as the last one.
    pub fn remember_simulation(&mut self, sim: SimulationResult)
        ensures
            final(self).last_simulation == Some(sim),
            final(self).base_url == old(self).base_url,
            final(self).headers == old(self).headers,
    {
        self.last_simulation = Some(sim);
    }
}

} // verus!
