//! Networks: the ledger endpoints, verifier environments and identity
//! providers of each deployment.

use vstd::prelude::*;

verus! {

/// The network a request is verified against.
#[derive(Debug, Clone, Copy, PartialEq, Eq, Structural)]
pub enum MysEnv {
    Mainnet,
    Testnet,
    Devnet,
    Localnet,
}

impl Default for MysEnv {
    fn default() -> (r: MysEnv)
        ensures
            r == MysEnv::Mainnet,
    {
        MysEnv::Mainnet
    }
}

/// Which proof parameters the verifier uses: the production ones or the test ones.
#[derive(Debug, Clone, Copy, PartialEq, Eq, Structural)]
pub enum VerifierEnv {
    Prod,
    Test,
}

/// The ledger endpoint queried for the epoch of a network.
pub open spec fn env_endpoint(e: MysEnv) -> Seq<char> {
    match e {
        MysEnv::Mainnet => "https://fullnode.mainnet.mysocial.network:8082"@,
        MysEnv::Testnet => "https://fullnode.testnet.mysocial.network:8082"@,
        MysEnv::Devnet => "https://fullnode.devnet.mysocial.network:8082"@,
        MysEnv::Localnet => "http://127.0.0.1:9000"@,
    }
}

/// Mainnet and Testnet use the production proof parameters, the others the test ones.
pub open spec fn env_verifier(e: MysEnv) -> VerifierEnv {
    match e {
        MysEnv::Mainnet | MysEnv::Testnet => VerifierEnv::Prod,
        MysEnv::Devnet | MysEnv::Localnet => VerifierEnv::Test,
    }
}

/// The network of an optional selector: Mainnet when none is given.
pub open spec fn selected_env(n: Option<MysEnv>) -> MysEnv {
    match n {
        Some(e) => e,
        None => MysEnv::Mainnet,
    }
}

impl MysEnv {
    /// The ledger endpoint and the verifier environment of this network.
    pub fn get_params(&self) -> (r: (&'static str, VerifierEnv))
        ensures
            r.0@ == env_endpoint(*self),
            r.1 == env_verifier(*self),
    {
        match self {
            MysEnv::Mainnet => ("https://fullnode.mainnet.mysocial.network:8082", VerifierEnv::Prod),
            MysEnv::Testnet => ("https://fullnode.testnet.mysocial.network:8082", VerifierEnv::Prod),
            MysEnv::Devnet => ("https://fullnode.devnet.mysocial.network:8082", VerifierEnv::Test),
            MysEnv::Localnet => ("http://127.0.0.1:9000", VerifierEnv::Test),
        }
    }

    /// The network named by an optional selector, Mainnet when absent.
    pub fn select(n: Option<MysEnv>) -> (r: MysEnv)
        ensures
            r == selected_env(n),
    {
        match n {
            Some(e) => e,
            None => MysEnv::Mainnet,
        }
    }
}

/// An identity provider whose published keys are cached.
#[derive(Debug, Clone, Copy, PartialEq, Eq, Structural)]
pub enum Provider {
    Google,
    Facebook,
    Apple,
    Slack,
    Twitch,
    Kakao,
}

/// The name of a provider.
pub open spec fn provider_name(p: Provider) -> Seq<char> {
    match p {
        Provider::Google => "Google"@,
        Provider::Facebook => "Facebook"@,
        Provider::Apple => "Apple"@,
        Provider::Slack => "Slack"@,
        Provider::Twitch => "Twitch"@,
        Provider::Kakao => "Kakao"@,
    }
}

impl Provider {
    /// The name of this provider.
    pub fn name(&self) -> (r: &'static str)
        ensures
            r@ == provider_name(*self),
    {
        match self {
            Provider::Google => "Google",
            Provider::Facebook => "Facebook",
            Provider::Apple => "Apple",
            Provider::Slack => "Slack",
            Provider::Twitch => "Twitch",
            Provider::Kakao => "Kakao",
        }
    }
}

/// The deployment a service instance runs for.
#[derive(Debug, Clone, Copy, PartialEq, Eq, Structural)]
pub enum Network {
    Mainnet,
    Testnet,
    Devnet,
    Localnet,
}

/// What a deployment is configured with.
#[derive(Debug)]
pub struct NetworkConfig {
    pub name: String,
    pub rpc_url: String,
    pub faucet_url: Option<String>,
    pub jwk_providers: Vec<Provider>,
}

pub open spec fn network_name(n: Network) -> Seq<char> {
    match n {
        Network::Mainnet => "mainnet"@,
        Network::Testnet => "testnet"@,
        Network::Devnet => "devnet"@,
        Network::Localnet => "localnet"@,
    }
}

pub open spec fn network_rpc_url(n: Network) -> Seq<char> {
    match n {
        Network::Mainnet => "https://mainnet.mysocial.network/rpc"@,
        Network::Testnet => "https://testnet.mysocial.network/rpc"@,
        Network::Devnet => "https://devnet.mysocial.network/rpc"@,
        Network::Localnet => "http://localhost:9000/rpc"@,
    }
}

/// Mainnet has no faucet.
pub open spec fn network_faucet_url(n: Network) -> Option<Seq<char>> {
    match n {
        Network::Mainnet => None,
        Network::Testnet => Some("https://faucet.mysocial.network"@),
        Network::Devnet => Some("https://devnet.mysocial.network/faucet"@),
        Network::Localnet => Some("http://localhost:9123/gas"@),
    }
}

/// Mainnet and Testnet follow all six providers, Devnet Google and
/// Facebook, Localnet Google alone.
pub open spec fn network_providers(n: Network) -> Seq<Provider> {
    match n {
        Network::Mainnet | Network::Testnet => seq![
            Provider::Google,
            Provider::Facebook,
            Provider::Apple,
            Provider::Slack,
            Provider::Twitch,
            Provider::Kakao,
        ],
        Network::Devnet => seq![Provider::Google, Provider::Facebook],
        Network::Localnet => seq![Provider::Google],
    }
}

impl Network {
    /// The configuration of this deployment.
    pub fn get_config(&self) -> (r: NetworkConfig)
        ensures
            r.name@ == network_name(*self),
            r.rpc_url@ == network_rpc_url(*self),
            match (r.faucet_url, network_faucet_url(*self)) {
                (Some(u), Some(f)) => u@ == f,
                (None, None) => true,
                _ => false,
            },
            r.jwk_providers@ == network_providers(*self),
    {
        match self {
            Network::Mainnet => NetworkConfig {
                name: String::from_str("mainnet"),
                rpc_url: String::from_str("https://mainnet.mysocial.network/rpc"),
                faucet_url: None,
                jwk_providers: vec![
                    Provider::Google,
                    Provider::Facebook,
                    Provider::Apple,
                    Provider::Slack,
                    Provider::Twitch,
                    Provider::Kakao,
                ],
            },
            Network::Testnet => NetworkConfig {
                name: String::from_str("testnet"),
                rpc_url: String::from_str("https://testnet.mysocial.network/rpc"),
                faucet_url: Some(String::from_str("https://faucet.mysocial.network")),
                jwk_providers: vec![
                    Provider::Google,
                    Provider::Facebook,
                    Provider::Apple,
                    Provider::Slack,
                    Provider::Twitch,
                    Provider::Kakao,
                ],
            },
            Network::Devnet => NetworkConfig {
                name: String::from_str("devnet"),
                rpc_url: String::from_str("https://devnet.mysocial.network/rpc"),
                faucet_url: Some(String::from_str("https://devnet.mysocial.network/faucet")),
                jwk_providers: vec![Provider::Google, Provider::Facebook],
            },
            Network::Localnet => NetworkConfig {
                name: String::from_str("localnet"),
                rpc_url: String::from_str("http://localhost:9000/rpc"),
                faucet_url: Some(String::from_str("http://localhost:9123/gas")),
                jwk_providers: vec![Provider::Google],
            },
        }
    }
}

} // verus!
