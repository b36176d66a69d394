use evm_rpc_types::errors::{HttpOutcallError, ProviderError, RejectionCode, RpcError};
use evm_rpc_types::multi::MultiRpcResult;
use evm_rpc_types::payloads::BlockTag;
use evm_rpc_types::providers::{RpcApi, RpcConfig, RpcService};

fn custom_service(url: &str) -> RpcService {
    RpcService::Custom(RpcApi {
        url: url.to_string(),
        headers: None,
    })
}

#[test]
fn iter_visits_exactly_one_outcome_for_consistent() {
    let result: MultiRpcResult<u64> = MultiRpcResult::Consistent(Ok(7));

    let outcomes = result.iter();

    assert_eq!(outcomes.len(), 1);
    assert_eq!(*outcomes[0], Ok(7));
}

#[test]
fn iter_visits_every_outcome_in_order_for_inconsistent() {
    let result: MultiRpcResult<u64> = MultiRpcResult::Inconsistent(vec![
        (custom_service("https://eth.llamarpc.com"), Ok(1)),
        (
            custom_service("https://rpc.ankr.com/eth"),
            Err(RpcError::ProviderError(ProviderError::ProviderNotFound)),
        ),
        (custom_service("https://ethereum-rpc.publicnode.com"), Ok(3)),
    ]);

    let outcomes = result.iter();

    assert_eq!(outcomes.len(), 3);
    assert_eq!(*outcomes[0], Ok(1));
    assert_eq!(
        *outcomes[1],
        Err(RpcError::ProviderError(ProviderError::ProviderNotFound))
    );
    assert_eq!(*outcomes[2], Ok(3));
}

#[test]
fn iter_is_restartable() {
    let result: MultiRpcResult<u64> = MultiRpcResult::Inconsistent(vec![
        (custom_service("https://eth.llamarpc.com"), Ok(1)),
        (custom_service("https://rpc.ankr.com/eth"), Ok(2)),
    ]);

    let first = result.iter();
    let second = result.iter();

    assert_eq!(first, second);
    assert_eq!(second.len(), 2);
}

#[test]
fn from_rejection_wraps_the_code_and_message_as_a_transport_error() {
    let err = RpcError::from_rejection(RejectionCode::SysTransient, "timed out".to_string());

    assert_eq!(
        err,
        RpcError::HttpOutcallError(HttpOutcallError::IcError {
            code: RejectionCode::SysTransient,
            message: "timed out".to_string(),
        })
    );
}

#[test]
fn block_tag_defaults_to_latest() {
    assert_eq!(BlockTag::default(), BlockTag::Latest);
}

#[test]
fn block_tag_carries_an_explicit_number() {
    let tag = BlockTag::Number(candid::Nat::from(19_000_000_u64));

    assert_eq!(tag.clone(), tag);
    assert_ne!(tag, BlockTag::Latest);
}

#[test]
fn rpc_config_defaults_to_no_size_estimate() {
    assert_eq!(
        RpcConfig::default(),
        RpcConfig {
            response_size_estimate: None
        }
    );
}
