use kabletop_godot::kabletop::{Kabletop, CloseGameAction, PreconditionError, stage_nft_operation};
use kabletop_godot::value::{Value, Event, P2pMode};

fn sample_hash() -> Vec<u8> {
    (0u8..32).collect()
}

#[test]
fn create_channel_with_empty_nfts_fails_without_work() {
    let mut k = Kabletop::new();
    let r = k.create_channel(7);
    assert_eq!(r, Err(PreconditionError::EmptyNfts));
    assert_eq!(r.unwrap_err().message(), "empty nfts");
    // no background work: nothing was ever enqueued on either queue
    assert!(k.drain_events().is_empty());
    assert!(k.drain_callbacks().is_empty());
}

#[test]
fn create_channel_outside_client_mode_fails() {
    let mut k = Kabletop::new();
    k.set_nfts(vec![("card".to_string(), 1)]);
    let r = k.create_channel(7);
    assert_eq!(r, Err(PreconditionError::NoClientMode));
    assert_eq!(r.unwrap_err().message(), "no client mode");
    assert!(k.drain_callbacks().is_empty());
}

#[test]
fn create_channel_initializes_session_as_player_one() {
    let mut k = Kabletop::new();
    k.set_nfts(vec![("card".to_string(), 2)]);
    k.connect_established();
    assert_eq!(k.mode, P2pMode::Client);
    let r = k.create_channel(7);
    assert_eq!(r, Ok(()));
    let s = k.session.as_ref().unwrap();
    assert_eq!(s.user_type, 1);
    assert_eq!(s.opponent_type, 2);
    assert_eq!(s.user_nfts, vec!["card".to_string(), "card".to_string()]);
    assert!(s.opponent_nfts.is_empty());
    assert_eq!(k.get_player_id(), 1);
}

#[test]
fn close_game_by_non_owner_invokes_callback_synchronously() {
    let mut k = Kabletop::new();
    k.set_nfts(vec![("card".to_string(), 1)]);
    k.connect_established();
    k.create_channel(7).unwrap();
    k.drain_events();
    // the remote side owns the round
    k.set_round(2, 2);
    let act = k.close_game(2, 9);
    match act {
        CloseGameAction::InvokeNow { args } => {
            assert_eq!(args, vec![Value::Bool(true), Value::Int(2)]);
        }
        CloseGameAction::NotifyPeer => panic!("expected a synchronous invocation"),
    }
    assert_eq!(k.session.as_ref().unwrap().winner, Some(2));
    // no background work: nothing was enqueued by close_game itself
    assert!(k.drain_events().is_empty());
    assert!(k.drain_callbacks().is_empty());
}

#[test]
fn close_game_by_owner_defers_to_background_notification() {
    let mut k = Kabletop::new();
    k.set_nfts(vec![("card".to_string(), 1)]);
    k.connect_established();
    k.create_channel(7).unwrap();
    k.set_round(1, 1);
    let act = k.close_game(1, 9);
    assert!(matches!(act, CloseGameAction::NotifyPeer));
    k.game_over_reported(1, 9);
    let calls = k.drain_callbacks();
    assert_eq!(calls.len(), 1);
    assert_eq!(calls[0].callback, 9);
    assert_eq!(calls[0].args, vec![Value::Bool(true), Value::Int(1)]);
}

#[test]
fn client_channel_open_boots_runtime_and_reports_hex_hash() {
    let mut k = Kabletop::new();
    k.set_entry("main.lua".to_string());
    k.set_nfts(vec![("alpha".to_string(), 2)]);
    k.connect_established();
    k.create_channel(7).unwrap();
    let hash = vec![0xab, 0xcd, 0x01];
    k.channel_open_succeeded(sample_hash(), vec!["beta".to_string()], hash.clone(), 7);
    let rt = k.runtime.as_ref().unwrap();
    assert!(rt.boosted);
    assert_eq!(rt.entry, "main.lua");
    assert_eq!(rt.first_nfts, vec!["alpha".to_string(), "alpha".to_string()]);
    assert_eq!(rt.second_nfts, vec!["beta".to_string()]);
    let calls = k.drain_callbacks();
    assert_eq!(calls.len(), 1);
    assert_eq!(calls[0].callback, 7);
    assert_eq!(calls[0].args[0], Value::Bool(true));
    assert_eq!(calls[0].args[1], Value::Str("abcd01".to_string()));
    assert_eq!(calls[0].args[1], Value::Str(hex::encode(&hash)));
    // the cached holdings reflect the injected local assets once refreshed
    k.owned_nfts_refreshed(vec![("alpha".to_string(), 2)]);
    let cached = k.get_owned_nfts(true).unwrap();
    assert_eq!(cached, vec![("alpha".to_string(), 2)]);
    assert_eq!(k.get_owned_nfts(false), None);
}

#[test]
fn channel_open_seed_derivation_matches_expected_fold() {
    let mut k = Kabletop::new();
    k.set_nfts(vec![("a".to_string(), 1)]);
    k.connect_established();
    k.create_channel(7).unwrap();
    k.channel_open_succeeded(sample_hash(), vec![], vec![0x01], 7);
    let rt = k.runtime.as_ref().unwrap();
    // big-endian fold of bytes 0..8 and 8..16, each byte shifted right once
    assert_eq!(rt.time_seed, 0x0000010102020303);
    assert_eq!(rt.clock_seed, 0x0404050506060707);
    // reproducible bit for bit on a second run over the same hash
    let mut k2 = Kabletop::new();
    k2.set_nfts(vec![("a".to_string(), 1)]);
    k2.connect_established();
    k2.create_channel(7).unwrap();
    k2.channel_open_succeeded(sample_hash(), vec![], vec![0x01], 7);
    let rt2 = k2.runtime.as_ref().unwrap();
    assert_eq!(rt.time_seed, rt2.time_seed);
    assert_eq!(rt.clock_seed, rt2.clock_seed);
}

#[test]
fn channel_open_failure_reports_error() {
    let mut k = Kabletop::new();
    k.channel_open_failed("tx rejected".to_string(), 4);
    let calls = k.drain_callbacks();
    assert_eq!(calls.len(), 1);
    assert_eq!(calls[0].callback, 4);
    assert_eq!(
        calls[0].args,
        vec![Value::Bool(false), Value::Str("tx rejected".to_string())]
    );
}

#[test]
fn server_listen_with_valid_receivers_announces_success() {
    let mut k = Kabletop::new();
    k.set_nfts(vec![("card".to_string(), 1)]);
    k.begin_listen();
    k.listen_bound();
    assert_eq!(k.mode, P2pMode::Server);
    let s = k.session.as_ref().unwrap();
    assert_eq!(s.user_type, 2);
    k.client_connected(true, 11);
    assert_eq!(k.open_channel_listener, Some(11));
    let events = k.drain_events();
    assert_eq!(
        events.last().unwrap(),
        &Event::ConnectStatus { mode: P2pMode::Server, status: true }
    );
    // the open hook now fires, boots the runtime, and pays the listener
    k.hook_open_kabletop_channel(vec![0xff, 0x00]);
    assert!(k.runtime.is_some());
    assert_eq!(k.open_channel_listener, None);
    let calls = k.drain_callbacks();
    assert_eq!(calls.len(), 1);
    assert_eq!(calls[0].callback, 11);
    assert_eq!(calls[0].args[0], Value::Bool(true));
    assert_eq!(calls[0].args[1], Value::Str("ff00".to_string()));
}

#[test]
fn server_connection_without_receivers_tears_down() {
    let mut k = Kabletop::new();
    k.set_nfts(vec![("card".to_string(), 1)]);
    k.begin_listen();
    k.listen_bound();
    k.client_connected(false, 11);
    let events = k.drain_events();
    assert_eq!(
        events.last().unwrap(),
        &Event::ConnectStatus { mode: P2pMode::Server, status: false }
    );
    assert!(k.session.is_none());
    assert!(k.runtime.is_none());
}

#[test]
fn connection_loss_discards_runtime_and_announces() {
    let mut k = Kabletop::new();
    k.set_nfts(vec![("card".to_string(), 1)]);
    k.connect_established();
    k.create_channel(3).unwrap();
    k.channel_open_succeeded(sample_hash(), vec![], vec![1, 2], 3);
    assert!(k.runtime.is_some());
    k.drain_events();
    k.connection_lost();
    assert!(k.runtime.is_none());
    assert_eq!(k.mode, P2pMode::Disconnected);
    let events = k.drain_events();
    assert_eq!(
        events,
        vec![Event::ConnectStatus { mode: P2pMode::Client, status: false }]
    );
}

#[test]
fn close_channel_success_tears_down_and_reports_hash() {
    let mut k = Kabletop::new();
    k.set_nfts(vec![("card".to_string(), 1)]);
    k.connect_established();
    k.create_channel(5).unwrap();
    k.close_channel_succeeded(vec![0x0f], 5);
    assert_eq!(k.mode, P2pMode::Disconnected);
    assert!(k.session.is_none());
    let calls = k.drain_callbacks();
    assert_eq!(calls[0].args, vec![Value::Bool(true), Value::Str("0f".to_string())]);
}

#[test]
fn close_channel_failure_keeps_session_for_retry() {
    let mut k = Kabletop::new();
    k.set_nfts(vec![("card".to_string(), 1)]);
    k.connect_established();
    k.create_channel(5).unwrap();
    k.close_channel_failed("closure refused".to_string(), 5);
    assert!(k.session.is_some());
    assert_eq!(k.mode, P2pMode::Client);
    let calls = k.drain_callbacks();
    assert_eq!(
        calls[0].args,
        vec![Value::Bool(false), Value::Str("closure refused".to_string())]
    );
}

#[test]
fn sync_outcomes_resolve_each_callback_exactly_once() {
    let mut k = Kabletop::new();
    k.sync_applied(1);
    k.sync_operation_failed("bad op".to_string(), 2);
    k.round_switch_failed("no agreement".to_string(), 3);
    let calls = k.drain_callbacks();
    assert_eq!(calls.len(), 3);
    assert_eq!(calls[0].callback, 1);
    assert_eq!(calls[0].args, vec![Value::Bool(true), Value::Nil]);
    assert_eq!(calls[1].callback, 2);
    assert_eq!(calls[1].args, vec![Value::Bool(false), Value::Str("bad op".to_string())]);
    assert_eq!(calls[2].callback, 3);
    assert_eq!(
        calls[2].args,
        vec![Value::Bool(false), Value::Str("no agreement".to_string())]
    );
    assert!(k.drain_callbacks().is_empty());
}

#[test]
fn transaction_wrapper_reports_both_outcomes() {
    let mut k = Kabletop::new();
    k.transaction_succeeded(Value::Str("txhash".to_string()), 8);
    k.transaction_failed("insufficient capacity".to_string(), 8);
    let calls = k.drain_callbacks();
    assert_eq!(calls.len(), 2);
    assert_eq!(calls[0].args, vec![Value::Bool(true), Value::Str("txhash".to_string())]);
    assert_eq!(
        calls[1].args,
        vec![Value::Bool(false), Value::Str("insufficient capacity".to_string())]
    );
}

#[test]
fn box_status_refresh_caches_and_notifies() {
    let mut k = Kabletop::new();
    assert_eq!(k.get_box_status(), None);
    k.box_status_refreshed(3, true);
    assert_eq!(k.get_box_status(), Some((3, true)));
    let events = k.drain_events();
    assert_eq!(events, vec![Event::BoxStatusUpdated { count: 3, ready: true }]);
}

#[test]
fn draining_an_owned_assets_update_resets_the_deck() {
    let mut k = Kabletop::new();
    k.set_nfts(vec![("card".to_string(), 3)]);
    assert_eq!(k.get_nfts_count(0), 3);
    k.owned_nfts_refreshed(vec![("card".to_string(), 5)]);
    let events = k.drain_events();
    assert_eq!(events.len(), 1);
    assert_eq!(k.get_nfts_count(0), 0);
}
