use validators_app::client::epochs_response;
use validators_app::client::ping_response;
use validators_app::client::ping_times_response;
use validators_app::client::validator_block_history_response;
use validators_app::client::validator_response;
use validators_app::client::validators_response;
use validators_app::client::Client;
use validators_app::error::ClientError;
use validators_app::error::Field;
use validators_app::models::Network;
use validators_app::models::ValidatorsOrder;

const BASE: &str = "https://www.validators.app/api/v1";

fn client() -> Client {
    Client::new("sometoken").unwrap()
}

#[test]
fn construction_rejects_control_characters() {
    assert!(Client::new("good-token_123").is_some());
    assert!(Client::new("").is_some());
    assert!(Client::new("bad\ntoken").is_none());
    assert!(Client::new("bad\u{0}token").is_none());
    let c = Client::for_network(Network::Test, "tok").unwrap();
    assert_eq!(c.network, Network::Test);
}

#[test]
fn ping_url_is_fixed() {
    assert_eq!(client().ping_url(), format!("{}/ping.json", BASE));
}

#[test]
fn ping_times_url_limit_is_optional() {
    let c = client();
    assert_eq!(c.ping_times_url(None), format!("{}/ping-times/mainnet.json", BASE));
    assert_eq!(
        c.ping_times_url(Some(25)),
        format!("{}/ping-times/mainnet.json?limit=25", BASE)
    );
}

#[test]
fn validators_url_without_parameters_has_no_query_string() {
    assert_eq!(
        client().validators_url(None, None),
        format!("{}/validators/mainnet.json", BASE)
    );
}

#[test]
fn validators_url_sends_both_parameters_when_supplied() {
    assert_eq!(
        client().validators_url(Some(ValidatorsOrder::Score), Some(10)),
        format!("{}/validators/mainnet.json?order=score&limit=10", BASE)
    );
}

#[test]
fn validators_url_sends_each_parameter_independently() {
    let c = client();
    assert_eq!(
        c.validators_url(Some(ValidatorsOrder::Name), None),
        format!("{}/validators/mainnet.json?order=name", BASE)
    );
    assert_eq!(
        c.validators_url(Some(ValidatorsOrder::Stake), None),
        format!("{}/validators/mainnet.json?order=stake", BASE)
    );
    assert_eq!(
        c.validators_url(None, Some(3)),
        format!("{}/validators/mainnet.json?limit=3", BASE)
    );
}

#[test]
fn validator_url_interpolates_the_account() {
    assert_eq!(
        client().validator_url("AbC123"),
        format!("{}/validators/mainnet/AbC123.json", BASE)
    );
}

#[test]
fn validator_block_history_url_limit_is_optional() {
    let c = Client::for_network(Network::Test, "tok").unwrap();
    assert_eq!(
        c.validator_block_history_url("AbC123", None),
        format!("{}/validator_block_history/testnet/AbC123.json", BASE)
    );
    assert_eq!(
        c.validator_block_history_url("AbC123", Some(100)),
        format!("{}/validator_block_history/testnet/AbC123.json?limit=100", BASE)
    );
}

#[test]
fn epochs_url_page_size_goes_under_per() {
    assert_eq!(
        client().epochs_url(Some(10), None),
        format!("{}/epochs/mainnet.json?per=10", BASE)
    );
}

#[test]
fn epochs_url_page_number_goes_under_limit() {
    assert_eq!(
        client().epochs_url(None, Some(2)),
        format!("{}/epochs/mainnet.json?limit=2", BASE)
    );
}

#[test]
fn epochs_url_both_parameters() {
    let c = client();
    assert_eq!(c.epochs_url(None, None), format!("{}/epochs/mainnet.json", BASE));
    assert_eq!(
        c.epochs_url(Some(10), Some(2)),
        format!("{}/epochs/mainnet.json?per=10&limit=2", BASE)
    );
}

#[test]
fn transport_failure_surfaces_as_transport_error() {
    let outcome = epochs_response(Err("connection refused".to_string()));
    match outcome {
        Err(ClientError::Transport(t)) => assert_eq!(t, "connection refused"),
        _ => panic!("expected a transport error"),
    }
    let outcome = ping_response(Err("dns failure".to_string()));
    match outcome {
        Err(ClientError::Transport(t)) => assert_eq!(t, "dns failure"),
        _ => panic!("expected a transport error"),
    }
    let outcome = validators_response(Err("tls failure".to_string()));
    match outcome {
        Err(ClientError::Transport(t)) => assert_eq!(t, "tls failure"),
        _ => panic!("expected a transport error"),
    }
}

#[test]
fn ping_reply_decodes() {
    let p = ping_response(Ok("{\"answer\": \"pong\"}".to_string())).unwrap();
    assert_eq!(p.answer, "pong");
}

#[test]
fn malformed_body_is_a_parse_error_on_the_body() {
    match ping_response(Ok("{\"answer\": ".to_string())) {
        Err(ClientError::Parse(e)) => assert_eq!(e.field, Field::Body),
        _ => panic!("expected a parse error"),
    }
}

fn epoch_record(epoch: u64) -> String {
    format!(
        "{{\"epoch\": {}, \"starting_slot\": 100, \"slots_in_epoch\": 432000, \
         \"network\": \"mainnet\", \"created_at\": \"2021-01-01T00:00:00Z\"}}",
        epoch
    )
}

#[test]
fn epoch_index_counts_its_page_and_total() {
    let body = format!(
        "{{\"epochs\": [{}, {}], \"epochs_count\": 50}}",
        epoch_record(7),
        epoch_record(8)
    );
    let index = epochs_response(Ok(body)).unwrap();
    assert_eq!(index.epochs.len(), 2);
    assert_eq!(index.epochs_count, 50);
    assert_eq!(index.epochs[0].epoch, 7);
    assert_eq!(index.epochs[1].epoch, 8);
    assert_eq!(index.epochs[0].starting_slot, 100);
    assert_eq!(index.epochs[0].slots_in_epoch, 432000);
    assert_eq!(index.epochs[0].network, Network::Main);
    assert_eq!(
        index.epochs[0].created_at.as_deref(),
        Some("2021-01-01T00:00:00Z")
    );
}

#[test]
fn epoch_index_missing_count_names_the_field() {
    let body = format!("{{\"epochs\": [{}]}}", epoch_record(7));
    match epochs_response(Ok(body)) {
        Err(ClientError::Parse(e)) => assert_eq!(e.field, Field::EpochsCount),
        _ => panic!("expected a parse error"),
    }
}

#[test]
fn epoch_missing_required_field_names_it() {
    let body = "{\"epochs\": [{\"starting_slot\": 1, \"slots_in_epoch\": 2, \
                \"network\": \"mainnet\"}], \"epochs_count\": 1}";
    match epochs_response(Ok(body.to_string())) {
        Err(ClientError::Parse(e)) => assert_eq!(e.field, Field::Epoch),
        _ => panic!("expected a parse error"),
    }
}

#[test]
fn unknown_network_literal_is_named() {
    let body = "{\"epochs\": [{\"epoch\": 1, \"starting_slot\": 1, \"slots_in_epoch\": 2, \
                \"network\": \"devnet\"}], \"epochs_count\": 1}";
    match epochs_response(Ok(body.to_string())) {
        Err(ClientError::Parse(e)) => {
            assert_eq!(e.field, Field::Network);
            assert_eq!(e.value.as_deref(), Some("devnet"));
        },
        _ => panic!("expected a parse error"),
    }
}

#[test]
fn oversized_number_token_is_named() {
    let body = "{\"epochs\": [{\"epoch\": 99999999999999999999999, \"starting_slot\": 1, \
                \"slots_in_epoch\": 2, \"network\": \"mainnet\"}], \"epochs_count\": 1}";
    match epochs_response(Ok(body.to_string())) {
        Err(ClientError::Parse(e)) => {
            assert_eq!(e.field, Field::Epoch);
            assert_eq!(e.value.as_deref(), Some("99999999999999999999999"));
        },
        _ => panic!("expected a parse error"),
    }
}

const PING_TIME_FULL: &str = "{\"id\": 42, \"batch_uuid\": \"b-1\", \"network\": \"mainnet\", \
    \"from_account\": \"A\", \"from_ip\": \"1.2.3.4\", \"to_account\": \"B\", \
    \"to_ip\": \"5.6.7.8\", \"min_ms\": \"0.5\", \"avg_ms\": \"1.25\", \"max_ms\": 3, \
    \"mdev\": \"0.125\", \"observed_at\": \"t1\", \"created_at\": \"t2\", \"updated_at\": \"t3\"}";

#[test]
fn ping_time_text_numbers_keep_their_spelling() {
    let body = format!("[{}]", PING_TIME_FULL);
    let times = ping_times_response(Ok(body)).unwrap();
    assert_eq!(times.len(), 1);
    let t = &times[0];
    assert_eq!(t.id, 42);
    assert_eq!(t.batch_uuid, "b-1");
    assert_eq!(t.network, Network::Main);
    assert_eq!(t.from_account, "A");
    assert_eq!(t.to_ip, "5.6.7.8");
    assert_eq!(t.min_ms.as_ref().unwrap().as_str(), "0.5");
    assert_eq!(t.avg_ms.as_ref().unwrap().as_str(), "1.25");
    assert_eq!(t.max_ms.as_ref().unwrap().as_str(), "3");
    assert_eq!(t.mdev.as_ref().unwrap().as_str(), "0.125");
    assert_eq!(t.observed_at.as_deref(), Some("t1"));
}

#[test]
fn ping_time_non_numeric_latency_names_the_field() {
    let body = PING_TIME_FULL.replace("\"0.5\"", "\"fast\"");
    let body = format!("[{}]", body);
    match ping_times_response(Ok(body)) {
        Err(ClientError::Parse(e)) => {
            assert_eq!(e.field, Field::MinMs);
            assert_eq!(e.value.as_deref(), Some("fast"));
        },
        _ => panic!("expected a parse error"),
    }
}

#[test]
fn ping_time_tolerates_absent_latencies_and_timestamps() {
    let body = "[{\"id\": 1, \"batch_uuid\": \"b\", \"network\": \"testnet\", \
        \"from_account\": \"A\", \"from_ip\": \"i\", \"to_account\": \"B\", \"to_ip\": \"j\", \
        \"min_ms\": null, \"observed_at\": null}]";
    let times = ping_times_response(Ok(body.to_string())).unwrap();
    let t = &times[0];
    assert!(t.min_ms.is_none());
    assert!(t.avg_ms.is_none());
    assert!(t.max_ms.is_none());
    assert!(t.mdev.is_none());
    assert!(t.observed_at.is_none());
    assert!(t.created_at.is_none());
    assert!(t.updated_at.is_none());
    assert_eq!(t.network, Network::Test);
}

const VALIDATOR_FULL: &str = "{\"network\": \"mainnet\", \"account\": \"Acct1\", \
    \"name\": \"Node One\", \"keybase_id\": null, \"www_url\": \"https://node.one\", \
    \"details\": null, \"created_at\": \"c\", \"updated_at\": \"u\", \"total_score\": 11, \
    \"root_distance_score\": 2, \"vote_distance_score\": 2, \"skipped_slot_score\": 2, \
    \"software_version\": \"1.8.2\", \"software_version_score\": 2, \
    \"stake_concentration_score\": 0, \"data_center_concentration_score\": -1, \
    \"published_information_score\": 1, \"security_report_score\": 1, \
    \"active_stake\": 123456, \"commission\": 10, \"delinquent\": false, \
    \"data_center_key\": \"12345-US-Somewhere\", \"data_center_host\": null, \
    \"autonomous_system_number\": 12345, \"vote_account\": \"Vote1\", \
    \"skipped_slots\": 33, \"skipped_slot_percent\": \"0.5061\", \
    \"ping_time\": \"45.5\", \"url\": \"https://www.validators.app/api/v1/validators/mainnet/Acct1.json\"}";

#[test]
fn validator_detail_decodes_every_field() {
    let v = validator_response(Ok(VALIDATOR_FULL.to_string())).unwrap();
    assert_eq!(v.network, Network::Main);
    assert_eq!(v.account, "Acct1");
    assert_eq!(v.name.as_deref(), Some("Node One"));
    assert!(v.keybase_id.is_none());
    assert_eq!(v.www_url.as_deref(), Some("https://node.one"));
    assert!(v.details.is_none());
    assert_eq!(v.total_score, 11);
    assert_eq!(v.root_distance_score, 2);
    assert_eq!(v.data_center_concentration_score, Some(-1));
    assert_eq!(v.software_version.as_deref(), Some("1.8.2"));
    assert_eq!(v.active_stake, Some(123456));
    assert_eq!(v.commission, Some(10));
    assert_eq!(v.delinquent, Some(false));
    assert_eq!(v.autonomous_system_number, 12345);
    assert_eq!(v.vote_account.as_deref(), Some("Vote1"));
    assert_eq!(v.skipped_slots, Some(33));
    assert_eq!(v.skipped_slot_percent.as_str(), "0.5061");
    assert_eq!(v.ping_time.as_deref(), Some("45.5"));
}

#[test]
fn validator_detail_defaults_absent_fields() {
    let body = "{\"network\": \"mainnet\", \"account\": \"Acct1\", \"total_score\": 1, \
        \"root_distance_score\": 1, \"vote_distance_score\": 1, \"skipped_slot_score\": 1, \
        \"software_version_score\": 1, \"published_information_score\": 1, \
        \"security_report_score\": 1, \"url\": \"u\"}";
    let v = validator_response(Ok(body.to_string())).unwrap();
    assert!(v.name.is_none());
    assert!(v.stake_concentration_score.is_none());
    assert!(v.active_stake.is_none());
    assert!(v.commission.is_none());
    assert!(v.delinquent.is_none());
    assert!(v.vote_account.is_none());
    assert!(v.created_at.is_none());
    assert_eq!(v.autonomous_system_number, 0);
    assert_eq!(v.skipped_slot_percent.as_str(), "0");
}

#[test]
fn validators_listing_keeps_order() {
    let one = VALIDATOR_FULL;
    let two = VALIDATOR_FULL.replace("Acct1", "Acct2");
    let body = format!("[{}, {}]", one, two);
    let vs = validators_response(Ok(body)).unwrap();
    assert_eq!(vs.len(), 2);
    assert_eq!(vs[0].account, "Acct1");
    assert_eq!(vs[1].account, "Acct2");
}

#[test]
fn block_history_decodes_and_defaults_the_percent() {
    let body = "[{\"epoch\": 200, \"leader_slots\": 64, \"blocks_produced\": 60, \
        \"skipped_slots\": 4, \"skipped_slot_percent\": \"6.25\", \
        \"created_at\": \"c\", \"batch_uuid\": \"b\"}, \
        {\"epoch\": 201, \"leader_slots\": 0, \"blocks_produced\": 0, \
        \"skipped_slots\": 0, \"batch_uuid\": \"b2\"}]";
    let h = validator_block_history_response(Ok(body.to_string())).unwrap();
    assert_eq!(h.len(), 2);
    assert_eq!(h[0].epoch, 200);
    assert_eq!(h[0].leader_slots, 64);
    assert_eq!(h[0].blocks_produced, 60);
    assert_eq!(h[0].skipped_slots, 4);
    assert_eq!(h[0].skipped_slot_percent.as_str(), "6.25");
    assert_eq!(h[0].batch_uuid, "b");
    assert_eq!(h[1].skipped_slot_percent.as_str(), "0");
    assert!(h[1].created_at.is_none());
}

#[test]
fn body_of_wrong_shape_is_a_parse_error() {
    match validators_response(Ok("{\"not\": \"an array\"}".to_string())) {
        Err(ClientError::Parse(e)) => assert_eq!(e.field, Field::Body),
        _ => panic!("expected a parse error"),
    }
    match epochs_response(Ok("[1, 2]".to_string())) {
        Err(ClientError::Parse(e)) => assert_eq!(e.field, Field::Body),
        _ => panic!("expected a parse error"),
    }
}

#[test]
fn epoch_index_page_may_be_empty() {
    let index = epochs_response(Ok("{\"epochs\": [], \"epochs_count\": 0}".to_string())).unwrap();
    assert!(index.epochs.is_empty());
    assert_eq!(index.epochs_count, 0);
}
