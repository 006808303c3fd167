use kabletop_godot::kabletop::Kabletop;
use kabletop_godot::queue::DeferredQueue;
use kabletop_godot::seed::{RandomSeedSync, fold_window, derive_channel_seeds};
use kabletop_godot::value::{Value, Event};
use kabletop_godot::nfts::{expand_nft_counts, count_matches, nft_counts};
use kabletop_godot::kabletop::stage_nft_operation;

#[test]
fn queue_delivers_interleaved_pushes_once_in_order() {
    let mut q: DeferredQueue<(u32, &'static str)> = DeferredQueue::new();
    // two producers interleaving their pushes
    q.push((1, "a1"));
    q.push((2, "b1"));
    q.push((1, "a2"));
    q.push((2, "b2"));
    q.push((1, "a3"));
    let drained = q.drain();
    assert_eq!(drained, vec![(1, "a1"), (2, "b1"), (1, "a2"), (2, "b2"), (1, "a3")]);
    // exactly once: a second drain hands back nothing
    assert!(q.drain().is_empty());
    // each producer's entries appear in its own push order
    let first: Vec<&str> = drained.iter().filter(|e| e.0 == 1).map(|e| e.1).collect();
    let second: Vec<&str> = drained.iter().filter(|e| e.0 == 2).map(|e| e.1).collect();
    assert_eq!(first, vec!["a1", "a2", "a3"]);
    assert_eq!(second, vec!["b1", "b2"]);
    // the queue keeps working after a drain
    q.push((1, "a4"));
    assert_eq!(q.len(), 1);
    assert_eq!(q.drain(), vec![(1, "a4")]);
}

#[test]
fn reseeding_two_synchronizers_alike_yields_identical_draws() {
    let mut a = RandomSeedSync::new();
    let mut b = RandomSeedSync::new();
    // give them different histories first
    a.reseed(&vec![9, 9, 9]);
    a.next();
    b.reseed(&vec![1]);
    // the reseed depends on the bytes alone, not on prior state
    let seed = vec![0xde, 0xad, 0xbe, 0xef];
    a.reseed(&seed);
    b.reseed(&seed);
    for _ in 0..16 {
        assert_eq!(a.next(), b.next());
    }
}

#[test]
fn different_seeds_change_the_draw_stream() {
    let mut a = RandomSeedSync::new();
    let mut b = RandomSeedSync::new();
    a.reseed(&vec![1, 2, 3]);
    b.reseed(&vec![3, 2, 1]);
    let da: Vec<u64> = (0..4).map(|_| a.next()).collect();
    let db: Vec<u64> = (0..4).map(|_| b.next()).collect();
    assert_ne!(da, db);
}

#[test]
fn seed_windows_are_disjoint_and_reproducible() {
    let hash: Vec<u8> = (0u8..32).collect();
    let (t1, c1) = derive_channel_seeds(&hash);
    let (t2, c2) = derive_channel_seeds(&hash);
    assert_eq!((t1, c1), (t2, c2));
    assert_eq!(t1, 0x0000010102020303);
    assert_eq!(c1, 0x0404050506060707);
    assert_eq!(fold_window(&hash, 0), t1);
    assert_eq!(fold_window(&hash, 8), c1);
    // all-ones bytes stay within the signed 64-bit range by the one-bit shift
    let ones = vec![0xffu8; 32];
    let (t, c) = derive_channel_seeds(&ones);
    assert_eq!(t, 0x7f7f7f7f7f7f7f7f);
    assert_eq!(c, 0x7f7f7f7f7f7f7f7f);
    assert!(t >= 0);
}

#[test]
fn deck_expansion_and_histogram_are_inverse() {
    let pairs = vec![("a".to_string(), 2), ("b".to_string(), 1), ("c".to_string(), 0)];
    let flat = expand_nft_counts(&pairs);
    assert_eq!(flat, vec!["a".to_string(), "a".to_string(), "b".to_string()]);
    assert_eq!(count_matches(&flat, &"a".to_string()), 2);
    assert_eq!(count_matches(&flat, &"c".to_string()), 0);
    let hist = nft_counts(&flat);
    assert_eq!(hist.len(), 2);
    assert!(hist.contains(&("a".to_string(), 2)));
    assert!(hist.contains(&("b".to_string(), 1)));
}

#[test]
fn staging_an_empty_expansion_starts_no_work() {
    assert_eq!(stage_nft_operation(&vec![]), None);
    assert_eq!(stage_nft_operation(&vec![("x".to_string(), 0)]), None);
    assert_eq!(
        stage_nft_operation(&vec![("x".to_string(), 2)]),
        Some(vec!["x".to_string(), "x".to_string()])
    );
}

#[test]
fn deck_histogram_through_the_coordinator() {
    let mut k = Kabletop::new();
    k.set_nfts(vec![("a".to_string(), 2), ("b".to_string(), 1)]);
    let hist = k.get_nfts();
    assert_eq!(hist.len(), 2);
    assert!(hist.contains(&("a".to_string(), 2)));
    assert!(hist.contains(&("b".to_string(), 1)));
    assert_eq!(k.get_nfts_count(0), 3);
}

#[test]
fn nfts_count_by_player_follows_the_session() {
    let mut k = Kabletop::new();
    k.set_nfts(vec![("a".to_string(), 1)]);
    k.connect_established();
    k.create_channel(1).unwrap();
    k.channel_open_succeeded(
        (0u8..32).collect(),
        vec!["x".to_string(), "y".to_string()],
        vec![1],
        1,
    );
    assert_eq!(k.get_nfts_count(1), 1);
    assert_eq!(k.get_nfts_count(2), 2);
}

#[test]
fn hooks_run_code_only_with_a_live_runtime() {
    let mut k = Kabletop::new();
    // a reachable edge case: the hook fires while no runtime is live
    assert!(!k.hook_sync_operation("draw()".to_string()));
    assert!(!k.run("draw()".to_string()));
    k.set_nfts(vec![("a".to_string(), 1)]);
    k.connect_established();
    k.create_channel(1).unwrap();
    k.channel_open_succeeded((0u8..32).collect(), vec![], vec![1], 1);
    assert!(k.hook_sync_operation("draw()".to_string()));
    assert!(k.run("discard()".to_string()));
    let rt = k.runtime.as_ref().unwrap();
    assert_eq!(rt.executed, vec!["draw()".to_string(), "discard()".to_string()]);
}

#[test]
fn switch_round_hook_reseeds_deterministically() {
    let mut k = Kabletop::new();
    k.hook_switch_round(vec![4, 5, 6]);
    let mut reference = RandomSeedSync::new();
    reference.reseed(&vec![4, 5, 6]);
    assert_eq!(k.randomseed.next(), reference.next());
}

#[test]
fn round_switch_reseeds_and_failure_does_not() {
    let mut k = Kabletop::new();
    let before = k.randomseed.state;
    k.round_switch_failed("refused".to_string(), 2);
    assert_eq!(k.randomseed.state, before);
    k.round_switched(vec![7, 7], 2);
    let mut reference = RandomSeedSync::new();
    reference.reseed(&vec![7, 7]);
    assert_eq!(k.randomseed.state, reference.state);
    let calls = k.drain_callbacks();
    assert_eq!(calls.len(), 2);
    assert_eq!(calls[0].args, vec![Value::Bool(false), Value::Str("refused".to_string())]);
    assert_eq!(calls[1].args, vec![Value::Bool(true), Value::Nil]);
}

#[test]
fn p2p_bindings_keep_the_last_registration() {
    let mut k = Kabletop::new();
    assert_eq!(k.p2p_callback_for(&"greet".to_string()), None);
    k.reply_p2p_message("greet".to_string(), 1);
    k.reply_p2p_message("trade".to_string(), 2);
    k.reply_p2p_message("greet".to_string(), 3);
    assert_eq!(k.p2p_callback_for(&"greet".to_string()), Some(3));
    assert_eq!(k.p2p_callback_for(&"trade".to_string()), Some(2));
    assert_eq!(k.p2p_callback_for(&"other".to_string()), None);
}

#[test]
fn p2p_replies_reach_the_host_engine() {
    let mut k = Kabletop::new();
    k.p2p_reply_received(
        "greet_reply".to_string(),
        vec![("ok".to_string(), Value::Bool(true)), ("n".to_string(), Value::Int(4))],
    );
    let events = k.drain_events();
    assert_eq!(
        events,
        vec![Event::P2pMessageReply {
            message: "greet_reply".to_string(),
            parameters: vec![
                ("ok".to_string(), Value::Bool(true)),
                ("n".to_string(), Value::Int(4)),
            ],
        }]
    );
}

#[test]
fn shutdown_tears_everything_down() {
    let mut k = Kabletop::new();
    k.set_nfts(vec![("a".to_string(), 1)]);
    k.begin_listen();
    k.listen_bound();
    k.client_connected(true, 5);
    k.shutdown();
    assert!(k.session.is_none());
    assert!(k.runtime.is_none());
    assert_eq!(k.open_channel_listener, None);
}

#[test]
fn lua_events_are_forwarded_in_order() {
    let mut k = Kabletop::new();
    k.lua_events_produced(vec![Value::Str("ev1".to_string())]);
    k.lua_events_produced(vec![Value::Str("ev2".to_string())]);
    let events = k.drain_events();
    assert_eq!(events.len(), 2);
    assert_eq!(events[0], Event::LuaEvents { events: vec![Value::Str("ev1".to_string())] });
    assert_eq!(events[1], Event::LuaEvents { events: vec![Value::Str("ev2".to_string())] });
}
