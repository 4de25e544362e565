use tonic::service::Interceptor;
use yellowstone_grpc_client::builder::GeyserGrpcBuilder;
use yellowstone_grpc_client::client::GeyserGrpcClient;
use yellowstone_grpc_client::error::{GeyserGrpcBuilderError, GeyserGrpcClientError};
use yellowstone_grpc_client::response::response_result;
use yellowstone_grpc_client::interceptor::InterceptorXToken;
use yellowstone_grpc_client::subscribe::open_request_queue;
use yellowstone_grpc_client::token::check_x_token;
use yellowstone_grpc_proto::prelude::SubscribeRequest;

fn lazy(b: GeyserGrpcBuilder) -> GeyserGrpcBuilder {
    let channel = b.endpoint.connect_lazy();
    b.with_channel(channel)
}

fn runtime() -> tokio::runtime::Runtime {
    tokio::runtime::Builder::new_current_thread().enable_all().build().unwrap()
}

#[test]
fn test_channel_https_success() {
    let rt = runtime();
    let _guard = rt.enter();
    let endpoint = "https://ams17.rpcpool.com:443";
    let x_token = "1000000000000000000000000007";

    let res = GeyserGrpcClient::build_from_shared(endpoint);
    assert!(res.is_ok());

    let res = res.unwrap().x_token(Some(x_token));
    assert!(res.is_ok());

    let res = lazy(res.unwrap()).build();
    assert!(res.is_ok());
}

#[test]
fn test_channel_http_success() {
    let rt = runtime();
    let _guard = rt.enter();
    let endpoint = "http://127.0.0.1:10000";
    let x_token = "1234567891012141618202224268";

    let res = GeyserGrpcClient::build_from_shared(endpoint);
    assert!(res.is_ok());

    let res = res.unwrap().x_token(Some(x_token));
    assert!(res.is_ok());

    let res = lazy(res.unwrap()).build();
    assert!(res.is_ok());
}

#[test]
fn test_channel_invalid_token_some() {
    let endpoint = "http://127.0.0.1:10000";
    let x_token = "";

    let res = GeyserGrpcClient::build_from_shared(endpoint);
    assert!(res.is_ok());

    let res = res.unwrap().x_token(Some(x_token));
    assert!(matches!(
        res,
        Err(GeyserGrpcBuilderError::InvalidXTokenLength(_))
    ));
}

#[test]
fn test_channel_invalid_token_none() {
    let rt = runtime();
    let _guard = rt.enter();
    let endpoint = "http://127.0.0.1:10000";

    let res = GeyserGrpcClient::build_from_shared(endpoint);
    assert!(res.is_ok());

    let res = res.unwrap().x_token(None);
    assert!(res.is_ok());

    let res = lazy(res.unwrap()).build();
    assert!(res.is_ok());
}

#[test]
fn test_channel_invalid_uri() {
    let endpoint = "sites/files/images/picture.png";

    let res = GeyserGrpcClient::build_from_shared(endpoint);
    assert_eq!(
        format!("{:?}", res),
        "Err(TonicError(tonic::transport::Error(InvalidUri, InvalidUri(InvalidFormat))))"
            .to_owned()
    );
}

#[test]
fn build_without_connect_is_empty_channel() {
    let b = GeyserGrpcBuilder::from_shared("http://127.0.0.1:10000").unwrap();
    let b = b
        .x_token(Some("abc"))
        .unwrap()
        .tcp_nodelay(true)
        .max_decoding_message_size(1024);
    assert!(matches!(b.build(), Err(GeyserGrpcBuilderError::EmptyChannel)));
}

#[test]
fn non_ascii_token_is_metadata_error() {
    let b = GeyserGrpcBuilder::from_shared("http://127.0.0.1:10000").unwrap();
    let res = b.x_token(Some("bad\ntoken"));
    assert!(matches!(res, Err(GeyserGrpcBuilderError::MetadataValueError(_))));
    assert!(matches!(
        check_x_token(Some("\u{7f}")),
        Err(GeyserGrpcBuilderError::MetadataValueError(_))
    ));
}

#[test]
fn token_is_stored_and_setters_keep_it() {
    let b = GeyserGrpcBuilder::from_shared("https://example.com").unwrap();
    let b = b.x_token(Some("secret-1")).unwrap();
    assert_eq!(b.x_token.as_deref(), Some("secret-1"));
    let b = b.max_encoding_message_size(77).buffer_size(Some(10));
    assert_eq!(b.x_token.as_deref(), Some("secret-1"));
    assert_eq!(b.max_encoding_message_size, Some(77));
    assert_eq!(b.max_decoding_message_size, None);
    assert!(b.channel.is_none());
    let b = b.x_token(None).unwrap();
    assert_eq!(b.x_token, None);
}

#[test]
fn interceptor_round_trips_token() {
    let b = GeyserGrpcBuilder::from_shared("http://127.0.0.1:10000").unwrap();
    let b = b.x_token(Some("1234567891012141618202224268")).unwrap();
    let mut interceptor = b.interceptor();
    let req = interceptor.call(tonic::Request::new(())).unwrap();
    let value = req.metadata().get("x-token").unwrap();
    assert_eq!(value.to_str().unwrap(), "1234567891012141618202224268");
    assert_eq!(
        interceptor.header(),
        Some(("x-token", "1234567891012141618202224268".to_string()))
    );
}

#[test]
fn interceptor_without_token_passes_request_through() {
    let mut interceptor = InterceptorXToken::new(None).unwrap();
    let req = interceptor.call(tonic::Request::new(())).unwrap();
    assert!(req.metadata().get("x-token").is_none());
    assert_eq!(interceptor.header(), None);
}

#[test]
fn malformed_uri_is_transport_error() {
    let res = GeyserGrpcBuilder::from_shared("sites/files/images/picture.png");
    assert!(matches!(res, Err(GeyserGrpcBuilderError::TonicError(_))));
    let res = GeyserGrpcBuilder::from_shared("http://[::1");
    assert!(matches!(res, Err(GeyserGrpcBuilderError::TonicError(_))));
}

#[test]
fn connected_with_error_is_transport_error() {
    let rt = runtime();
    let _guard = rt.enter();
    let bad = GeyserGrpcBuilder::from_shared("sites/files/images/picture.png").unwrap_err();
    let err = match bad {
        GeyserGrpcBuilderError::TonicError(e) => e,
        _ => unreachable!(),
    };
    let b = GeyserGrpcBuilder::from_shared("http://127.0.0.1:10000").unwrap();
    let res = b.connected(Err(err));
    assert!(matches!(res, Err(GeyserGrpcBuilderError::TonicError(_))));
}

#[test]
fn initial_request_is_queued_before_opening_and_kept_in_order() {
    let req = SubscribeRequest {
        ping: None,
        ..Default::default()
    };
    let (tx, mut rx) = open_request_queue(Some(req.clone())).unwrap().into_parts();
    assert_eq!(rx.try_next().unwrap(), Some(req.clone()));
    let mut second = req.clone();
    second.commitment = Some(1);
    let mut third = req.clone();
    third.commitment = Some(2);
    tx.unbounded_send(second.clone()).unwrap();
    tx.unbounded_send(third.clone()).unwrap();
    drop(tx);
    assert_eq!(rx.try_next().unwrap(), Some(second));
    assert_eq!(rx.try_next().unwrap(), Some(third));
    assert_eq!(rx.try_next().unwrap(), None);
}

#[test]
fn queue_without_initial_request_is_empty() {
    let (tx, mut rx) = open_request_queue(None).unwrap().into_parts();
    assert!(rx.try_next().is_err());
    drop(tx);
    assert_eq!(rx.try_next().unwrap(), None);
}

#[test]
fn status_is_surfaced_unmodified() {
    let res = response_result::<u32>(Err(tonic::Status::unavailable("down")));
    match res {
        Err(GeyserGrpcClientError::TonicStatus(s)) => {
            assert_eq!(s.code(), tonic::Code::Unavailable);
            assert_eq!(s.message(), "down");
        }
        _ => panic!("expected a status error"),
    }
    let ok = response_result(Ok(tonic::Response::new(41u32)));
    assert_eq!(ok.unwrap(), 41);
}

#[test]
fn non_ascii_token_is_refused() {
    let b = GeyserGrpcBuilder::from_shared("http://127.0.0.1:10000").unwrap();
    let res = b.x_token(Some("caf\u{e9}"));
    assert!(matches!(res, Err(GeyserGrpcBuilderError::XTokenNotAscii)));
    assert!(matches!(
        InterceptorXToken::new(Some("\u{e9}")),
        Err(GeyserGrpcBuilderError::XTokenNotAscii)
    ));
    assert!(matches!(check_x_token(Some("tab\tok")), Ok(Some(_))));
}

#[test]
fn stub_settings_then_lazy_build() {
    let rt = runtime();
    let _guard = rt.enter();
    let b = GeyserGrpcBuilder::from_shared("http://127.0.0.1:10000").unwrap();
    let b = b
        .send_compressed(tonic::codec::CompressionEncoding::Gzip)
        .accept_compressed(tonic::codec::CompressionEncoding::Gzip)
        .max_encoding_message_size(1 << 20)
        .connect_timeout(std::time::Duration::from_secs(3));
    let b = lazy(b);
    assert!(b.channel.is_some());
    assert!(b.build().is_ok());
}

#[test]
fn interceptor_replaces_earlier_token_and_keeps_other_entries() {
    let mut interceptor = InterceptorXToken::new(Some("fresh")).unwrap();
    let mut req = tonic::Request::new(());
    req.metadata_mut().insert("x-token", "stale".parse().unwrap());
    req.metadata_mut().insert("x-other", "kept".parse().unwrap());
    let req = interceptor.call(req).unwrap();
    let values: Vec<_> = req.metadata().get_all("x-token").iter().collect();
    assert_eq!(values.len(), 1);
    assert_eq!(values[0].to_str().unwrap(), "fresh");
    assert_eq!(req.metadata().get("x-other").unwrap().to_str().unwrap(), "kept");
}
