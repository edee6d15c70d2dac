use santral_core::hub::{Event, Hub};
use santral_core::identity::{Identity, Role};
use santral_core::session::{
    ClientFrame, CloseReason, FrameReply, HeartbeatAction, Phase, Routing, Session, SessionError,
};
use santral_core::hub::HubRead;

const TENANT_A: u128 = 0xa;
const TENANT_B: u128 = 0xb;

fn member(tenant: u128) -> Identity {
    Identity { caller: 100 + tenant, tenant, role: Role::Member }
}

fn event(tenant: u128, k: i64) -> Event {
    Event { tenant, plant: k as u128, plant_name: format!("p{k}"), power: k, at: k }
}

fn active(hub: &Hub, id: Identity, now: u64) -> Session {
    let mut s = Session::new(now);
    s.handshake(Some(id), None, hub, now).unwrap();
    s
}

#[test]
fn sessions_only_see_their_tenant() {
    let hub = Hub::new(64);
    let mut a = active(&hub, member(TENANT_A), 0);
    let mut b = active(&hub, member(TENANT_B), 0);
    for k in 0..10 {
        hub.publish(event(if k % 3 == 0 { TENANT_A } else { TENANT_B }, k));
    }
    let pa = a.poll_hub(100);
    let pb = b.poll_hub(100);
    assert_eq!(pa.delivered.iter().map(|e| e.power).collect::<Vec<_>>(), vec![0, 3, 6, 9]);
    assert!(pb.delivered.iter().all(|e| e.tenant == TENANT_B));
    assert_eq!(pb.delivered.len(), 6);
    assert!(!pa.ended && !pb.ended);
}

#[test]
fn route_discards_other_tenants() {
    let hub = Hub::new(4);
    let s = active(&hub, member(TENANT_A), 0);
    assert_eq!(s.route(HubRead::Event(event(TENANT_B, 1))), Routing::Discard);
    assert_eq!(s.route(HubRead::Event(event(TENANT_A, 1))), Routing::Deliver(event(TENANT_A, 1)));
    assert_eq!(s.route(HubRead::Lagged(3)), Routing::Lagged(3));
    assert_eq!(s.route(HubRead::Empty), Routing::Idle);
    assert_eq!(s.route(HubRead::Closed), Routing::Ended);
}

#[test]
fn heartbeat_timeouts_release_every_subscription() {
    let hub = Hub::new(8);
    let mut sessions: Vec<Session> = (0..5).map(|k| active(&hub, member(k), 0)).collect();
    assert_eq!(hub.subscriber_count(), 5);
    for s in sessions.iter_mut() {
        assert_eq!(s.on_heartbeat(5), HeartbeatAction::Ping);
        assert_eq!(s.on_heartbeat(11), HeartbeatAction::Terminate);
        assert_eq!(s.phase(), Phase::Closed);
        assert!(!s.is_subscribed());
        assert_eq!(s.close_reason(), Some(CloseReason::HeartbeatTimeout));
        assert_eq!(s.on_heartbeat(20), HeartbeatAction::Idle);
    }
    assert_eq!(hub.subscriber_count(), 0);
}

#[test]
fn liveness_keeps_the_session_open() {
    let hub = Hub::new(8);
    let mut s = active(&hub, member(TENANT_A), 0);
    assert_eq!(s.on_client_frame(ClientFrame::Pong, 8), FrameReply::Nothing);
    assert_eq!(s.on_heartbeat(18), HeartbeatAction::Ping);
    assert_eq!(s.on_client_frame(ClientFrame::Ping, 15), FrameReply::Pong);
    assert_eq!(s.on_heartbeat(25), HeartbeatAction::Ping);
    assert_eq!(s.on_heartbeat(26), HeartbeatAction::Terminate);
}

#[test]
fn client_close_ends_the_session() {
    let hub = Hub::new(8);
    let mut s = active(&hub, member(TENANT_A), 0);
    assert_eq!(s.on_client_frame(ClientFrame::Other, 1), FrameReply::Nothing);
    assert_eq!(s.on_client_frame(ClientFrame::Close, 2), FrameReply::Close);
    assert_eq!(s.phase(), Phase::Closed);
    assert_eq!(s.close_reason(), Some(CloseReason::ClientClosed));
    assert_eq!(hub.subscriber_count(), 0);
    assert_eq!(s.on_client_frame(ClientFrame::Ping, 3), FrameReply::Nothing);
    assert_eq!(s.snapshot_tenant(), None);
    hub.publish(event(TENANT_A, 1));
    assert!(s.poll_hub(10).delivered.is_empty());
}

#[test]
fn unresolved_identity_never_becomes_active() {
    let hub = Hub::new(8);
    let mut s = Session::new(0);
    assert_eq!(s.handshake(None, None, &hub, 0), Err(SessionError::Unauthorized));
    assert_eq!(s.phase(), Phase::Closed);
    assert_eq!(s.close_reason(), Some(CloseReason::Unauthorized));
    assert_eq!(hub.subscriber_count(), 0);
}

#[test]
fn admin_may_impersonate_and_member_may_not() {
    let hub = Hub::new(8);
    let target = "67e55044-10b1-426f-9247-bb680e5fe0c8";
    let target_value: u128 = 0x67e5504410b1426f9247bb680e5fe0c8;
    let admin = Identity { caller: 1, tenant: TENANT_A, role: Role::Admin };
    let mut s = Session::new(0);
    assert_eq!(s.handshake(Some(admin), Some(target), &hub, 0), Ok(target_value));
    assert_eq!(s.tenant(), target_value);
    assert_eq!(s.snapshot_tenant(), Some(target_value));
    let mut m = Session::new(0);
    assert_eq!(m.handshake(Some(member(TENANT_B)), Some(target), &hub, 0), Ok(TENANT_B));
    let mut bad = Session::new(0);
    assert_eq!(bad.handshake(Some(admin), Some("not-a-uuid"), &hub, 0), Ok(TENANT_A));
}

#[test]
fn hub_shutdown_closes_the_session() {
    let hub = Hub::new(8);
    let mut s = active(&hub, member(TENANT_A), 0);
    hub.publish(event(TENANT_A, 1));
    drop(hub);
    let p = s.poll_hub(10);
    assert_eq!(p.delivered.len(), 1);
    assert!(p.ended);
    assert_eq!(s.phase(), Phase::Closed);
    assert_eq!(s.close_reason(), Some(CloseReason::HubEnded));
}

#[test]
fn lag_is_counted_and_reading_resumes() {
    let hub = Hub::new(4);
    let mut s = active(&hub, member(TENANT_A), 0);
    for k in 0..10 {
        hub.publish(event(TENANT_A, k));
    }
    let p = s.poll_hub(100);
    assert_eq!(p.lagged, 6);
    assert_eq!(p.delivered.iter().map(|e| e.power).collect::<Vec<_>>(), vec![6, 7, 8, 9]);
    assert_eq!(s.phase(), Phase::Active);
}

#[test]
fn begin_and_finish_close() {
    let hub = Hub::new(8);
    let mut s = active(&hub, member(TENANT_A), 0);
    s.begin_close();
    assert_eq!(s.phase(), Phase::Closing);
    assert!(s.is_subscribed());
    assert_eq!(s.on_heartbeat(100), HeartbeatAction::Idle);
    s.finish_close(CloseReason::ClientClosed);
    assert_eq!(s.phase(), Phase::Closed);
    assert_eq!(hub.subscriber_count(), 0);
}

#[test]
fn absorb_takes_one_read_at_a_time() {
    let hub = Hub::new(8);
    let mut s = active(&hub, member(TENANT_A), 0);
    let mut poll = s.poll_hub(0);
    assert!(poll.delivered.is_empty() && poll.lagged == 0 && !poll.ended);
    assert!(s.absorb(&mut poll, HubRead::Event(event(TENANT_A, 1))));
    assert!(s.absorb(&mut poll, HubRead::Event(event(TENANT_B, 2))));
    assert!(s.absorb(&mut poll, HubRead::Lagged(4)));
    assert!(s.absorb(&mut poll, HubRead::Lagged(u64::MAX)));
    assert_eq!(poll.delivered, vec![event(TENANT_A, 1)]);
    assert_eq!(poll.lagged, u64::MAX);
    assert!(!s.absorb(&mut poll, HubRead::Empty));
    assert_eq!(s.phase(), Phase::Active);
    assert!(!s.absorb(&mut poll, HubRead::Closed));
    assert!(poll.ended);
    assert_eq!(s.phase(), Phase::Closed);
    assert_eq!(s.close_reason(), Some(CloseReason::HubEnded));
    assert_eq!(hub.subscriber_count(), 0);
}

#[test]
fn zero_budget_reads_nothing() {
    let hub = Hub::new(8);
    let mut s = active(&hub, member(TENANT_A), 0);
    hub.publish(event(TENANT_A, 1));
    let p = s.poll_hub(0);
    assert!(p.delivered.is_empty() && !p.ended);
    assert_eq!(s.poll_hub(5).delivered, vec![event(TENANT_A, 1)]);
}
