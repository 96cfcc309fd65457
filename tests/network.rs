use zklogin_verifier::network::{MysEnv, Network, Provider, VerifierEnv};

#[test]
fn env_params() {
    assert_eq!(
        MysEnv::Mainnet.get_params(),
        ("https://fullnode.mainnet.mysocial.network:8082", VerifierEnv::Prod)
    );
    assert_eq!(
        MysEnv::Testnet.get_params(),
        ("https://fullnode.testnet.mysocial.network:8082", VerifierEnv::Prod)
    );
    assert_eq!(
        MysEnv::Devnet.get_params(),
        ("https://fullnode.devnet.mysocial.network:8082", VerifierEnv::Test)
    );
    assert_eq!(MysEnv::Localnet.get_params(), ("http://127.0.0.1:9000", VerifierEnv::Test));
}

#[test]
fn default_env_is_mainnet() {
    assert_eq!(MysEnv::default(), MysEnv::Mainnet);
    assert_eq!(MysEnv::select(None), MysEnv::Mainnet);
    assert_eq!(MysEnv::select(Some(MysEnv::Devnet)), MysEnv::Devnet);
}

#[test]
fn mainnet_config() {
    let c = Network::Mainnet.get_config();
    assert_eq!(c.name, "mainnet");
    assert_eq!(c.rpc_url, "https://mainnet.mysocial.network/rpc");
    assert_eq!(c.faucet_url, None);
    assert_eq!(c.jwk_providers.len(), 6);
    assert_eq!(c.jwk_providers[5], Provider::Kakao);
}

#[test]
fn smaller_networks_config() {
    let d = Network::Devnet.get_config();
    assert_eq!(d.faucet_url.as_deref(), Some("https://devnet.mysocial.network/faucet"));
    assert_eq!(d.jwk_providers, vec![Provider::Google, Provider::Facebook]);
    let l = Network::Localnet.get_config();
    assert_eq!(l.rpc_url, "http://localhost:9000/rpc");
    assert_eq!(l.faucet_url.as_deref(), Some("http://localhost:9123/gas"));
    assert_eq!(l.jwk_providers, vec![Provider::Google]);
    let t = Network::Testnet.get_config();
    assert_eq!(t.name, "testnet");
    assert_eq!(t.faucet_url.as_deref(), Some("https://faucet.mysocial.network"));
}

#[test]
fn provider_names() {
    assert_eq!(Provider::Google.name(), "Google");
    assert_eq!(Provider::Kakao.name(), "Kakao");
}
